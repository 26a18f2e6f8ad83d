//! The encrypting layer under the file system: the metadata sector at the front of the disk,
//! the sealed key it keeps, and what each working mode does with reads and writes.
use vstd::prelude::*;
use aes::Aes256;
use aes::cipher::KeyInit;
use xts_mode::{Xts128, get_tweak_default};
use crate::bytes::{le32, spec_le32_at, get_u32_le, copy_bytes, push_bytes};
use crate::errno::Errno;
use crate::tpm::{TpmError, UnlockError};

verus! {

/// The marker of a formatted disk.
pub const MAGIC_SIGNATURE: u32 = 0x6767_6767;
/// Data sectors start after the metadata sector.
pub const DATA_OFFSET_SECTORS: usize = 1;
/// The size of a disk sector.
pub const SECTOR_SIZE: usize = 512;
/// The room for the sealed key in the metadata sector.
pub const SEALED_BLOB_LEN: usize = 505;

/// AES-256-XTS encryption of `data` as one data unit with tweak `sector_index`, under the
/// 64-byte key `key` (cipher key first, tweak key second).
pub uninterp spec fn xts_aes256_encrypt(key: Seq<u8>, sector_index: u128, data: Seq<u8>) -> Seq<u8>;

/// AES-256-XTS decryption of `data` as one data unit with tweak `sector_index`, under the
/// 64-byte key `key`.
pub uninterp spec fn xts_aes256_decrypt(key: Seq<u8>, sector_index: u128, data: Seq<u8>) -> Seq<u8>;

/// Encrypts `buffer` in place with `Xts128::<Aes256>::encrypt_area`, the whole buffer as one
/// data unit whose tweak comes from `get_tweak_default(sector_index)`; the two AES keys are the
/// halves of `key`.
///
/// Claimed: the result is a function of the key, the sector index and the data, the length is
/// kept, and decrypting with the same key and index gives the data back, as the crate's
/// documentation shows. `encrypt_area` panics on a buffer shorter than one 16-byte block.
#[verifier::external_body]
fn xts_encrypt_area(key: &[u8], buffer: &mut [u8], sector_index: u128)
    requires
        key@.len() == 64,
        old(buffer)@.len() >= 16,
    ensures
        final(buffer)@ == xts_aes256_encrypt(key@, sector_index, old(buffer)@),
        final(buffer)@.len() == old(buffer)@.len(),
        xts_aes256_decrypt(key@, sector_index, final(buffer)@) == old(buffer)@,
{
    let cipher_1 = Aes256::new(key[0..32].into());
    let cipher_2 = Aes256::new(key[32..64].into());
    let xts = Xts128::<Aes256>::new(cipher_1, cipher_2);
    let len = buffer.len();
    xts.encrypt_area(buffer, len, sector_index, get_tweak_default);
}

/// Decrypts `buffer` in place with `Xts128::<Aes256>::decrypt_area`, the whole buffer as one
/// data unit whose tweak comes from `get_tweak_default(sector_index)`; the two AES keys are the
/// halves of `key`.
///
/// Claimed: the result is a function of the key, the sector index and the data, and the length
/// is kept. `decrypt_area` panics on a buffer shorter than one 16-byte block.
#[verifier::external_body]
fn xts_decrypt_area(key: &[u8], buffer: &mut [u8], sector_index: u128)
    requires
        key@.len() == 64,
        old(buffer)@.len() >= 16,
    ensures
        final(buffer)@ == xts_aes256_decrypt(key@, sector_index, old(buffer)@),
        final(buffer)@.len() == old(buffer)@.len(),
{
    let cipher_1 = Aes256::new(key[0..32].into());
    let cipher_2 = Aes256::new(key[32..64].into());
    let xts = Xts128::<Aes256>::new(cipher_1, cipher_2);
    let len = buffer.len();
    xts.decrypt_area(buffer, len, sector_index, get_tweak_default);
}

/// Why an operation of the encrypting layer failed.
#[derive(Debug, Clone, Copy, PartialEq, Eq, Structural)]
pub enum BlockOperationError {
    Undefined,
    UnSupportedAlgorithm,
    DeviceEncrypted,
    InvalidState,
    TpmError(TpmError),
    UnlockError(UnlockError),
    CryptoError,
    IOError,
}

/// Encrypts `buffer`, the content of data block `block_id`, with algorithm `algo_id` and its
/// parameters. Only algorithm 0, AES-256-XTS keyed by the 64 parameter bytes, is known.
pub fn encrypt_data(buffer: &mut [u8], block_id: usize, algo_id: u8, algo_param: &[u8]) -> (r: Result<(), BlockOperationError>)
    requires
        algo_id == 0 ==> algo_param@.len() == 64 && old(buffer)@.len() >= 16,
    ensures
        algo_id == 0 ==> r is Ok && final(buffer)@ == xts_aes256_encrypt(algo_param@, block_id as u128, old(buffer)@)
            && xts_aes256_decrypt(algo_param@, block_id as u128, final(buffer)@) == old(buffer)@,
        algo_id != 0 ==> r == Err::<(), BlockOperationError>(BlockOperationError::UnSupportedAlgorithm)
            && final(buffer)@ == old(buffer)@,
{
    if algo_id == 0 {
        xts_encrypt_area(algo_param, buffer, block_id as u128);
        Ok(())
    } else {
        Err(BlockOperationError::UnSupportedAlgorithm)
    }
}

/// Decrypts `buffer`, the content of data block `block_id`, with algorithm `algo_id` and its
/// parameters. Only algorithm 0, AES-256-XTS keyed by the 64 parameter bytes, is known.
pub fn decrypt_data(buffer: &mut [u8], block_id: usize, algo_id: u8, algo_param: &[u8]) -> (r: Result<(), BlockOperationError>)
    requires
        algo_id == 0 ==> algo_param@.len() == 64 && old(buffer)@.len() >= 16,
    ensures
        algo_id == 0 ==> r is Ok && final(buffer)@ == xts_aes256_decrypt(algo_param@, block_id as u128, old(buffer)@),
        algo_id != 0 ==> r == Err::<(), BlockOperationError>(BlockOperationError::UnSupportedAlgorithm)
            && final(buffer)@ == old(buffer)@,
{
    if algo_id == 0 {
        xts_decrypt_area(algo_param, buffer, block_id as u128);
        Ok(())
    } else {
        Err(BlockOperationError::UnSupportedAlgorithm)
    }
}

/// The metadata sector at the front of the disk.
#[derive(Clone, Copy, Debug)]
pub struct DeviceMetadata {
    pub magic: u32,
    pub version: u8,
    /// 0 for plain, 1 for encrypted.
    pub is_encrypted: u8,
    /// 0 for AES-256-XTS.
    pub algo_id: u8,
    /// The sealed disk key: the public blob's size as 4 little-endian bytes, the public blob,
    /// the private blob's size likewise, the private blob.
    pub sealed_blob: [u8; 505],
}

/// The 512 bytes of a metadata sector: the magic number little-endian, the version, the
/// encryption flag, the algorithm, the sealed key.
pub open spec fn metadata_bytes(m: DeviceMetadata) -> Seq<u8> {
    le32(m.magic) + seq![m.version, m.is_encrypted, m.algo_id] + m.sealed_blob@
}

/// The metadata that a 512-byte sector holds.
pub open spec fn metadata_of_bytes(b: Seq<u8>) -> (u32, u8, u8, u8, Seq<u8>) {
    (spec_le32_at(b, 0), b[4], b[5], b[6], b.subrange(7, 512))
}

impl DeviceMetadata {
    /// The metadata of a freshly formatted plain disk: version 1, no sealed key.
    pub fn new() -> (r: Self)
        ensures
            r.magic == MAGIC_SIGNATURE,
            r.version == 1,
            r.is_encrypted == 0,
            r.algo_id == 0,
            r.sealed_blob@ == Seq::new(505, |_i: int| 0u8),
    {
        let r = DeviceMetadata { magic: MAGIC_SIGNATURE, version: 1, is_encrypted: 0, algo_id: 0, sealed_blob: [0u8; 505] };
        assert(r.sealed_blob@ =~= Seq::new(505, |_i: int| 0u8));
        r
    }

    /// Reads the metadata from the bytes of the metadata sector.
    pub fn from_bytes(bytes: &[u8]) -> (r: Self)
        requires
            bytes@.len() == SECTOR_SIZE,
        ensures
            (r.magic, r.version, r.is_encrypted, r.algo_id, r.sealed_blob@) == metadata_of_bytes(bytes@),
    {
        let mut blob = [0u8; 505];
        copy_bytes(&mut blob, 0, bytes, 7, 505);
        assert(blob@ =~= bytes@.subrange(7, 512));
        DeviceMetadata {
            magic: get_u32_le(bytes, 0),
            version: bytes[4],
            is_encrypted: bytes[5],
            algo_id: bytes[6],
            sealed_blob: blob,
        }
    }

    /// The bytes of the metadata sector.
    pub fn to_bytes(&self) -> (r: Vec<u8>)
        ensures
            r@ == metadata_bytes(*self),
            r@.len() == SECTOR_SIZE,
    {
        let mut out = Vec::new();
        let m = self.magic;
        out.push((m & 0xff) as u8);
        out.push(((m >> 8) & 0xff) as u8);
        out.push(((m >> 16) & 0xff) as u8);
        out.push((m >> 24) as u8);
        out.push(self.version);
        out.push(self.is_encrypted);
        out.push(self.algo_id);
        push_bytes(&mut out, &self.sealed_blob);
        assert(out@ =~= metadata_bytes(*self));
        out
    }

    /// Stores the sealed key: the public blob's size and its first `pub_size` bytes, then the
    /// private blob's size and its first `priv_size` bytes; the rest of the room is kept.
    pub fn pack_sealed_blob(&mut self, pub_blob: &[u8], pub_size: usize, priv_blob: &[u8], priv_size: usize)
        requires
            pub_size <= pub_blob@.len(),
            priv_size <= priv_blob@.len(),
            8 + pub_size + priv_size <= SEALED_BLOB_LEN,
        ensures
            final(self).sealed_blob@ == le32(pub_size as u32) + pub_blob@.subrange(0, pub_size as int)
                + le32(priv_size as u32) + priv_blob@.subrange(0, priv_size as int)
                + old(self).sealed_blob@.subrange(8 + pub_size + priv_size, 505),
            final(self).magic == old(self).magic,
            final(self).version == old(self).version,
            final(self).is_encrypted == old(self).is_encrypted,
            final(self).algo_id == old(self).algo_id,
    {
        let ghost orig = self.sealed_blob@;
        let ps = pub_size as u32;
        let qs = priv_size as u32;
        let ps_bytes = [(ps & 0xff) as u8, ((ps >> 8) & 0xff) as u8, ((ps >> 16) & 0xff) as u8, (ps >> 24) as u8];
        let qs_bytes = [(qs & 0xff) as u8, ((qs >> 8) & 0xff) as u8, ((qs >> 16) & 0xff) as u8, (qs >> 24) as u8];
        copy_bytes(&mut self.sealed_blob, 0, &ps_bytes, 0, 4);
        copy_bytes(&mut self.sealed_blob, 4, pub_blob, 0, pub_size);
        copy_bytes(&mut self.sealed_blob, 4 + pub_size, &qs_bytes, 0, 4);
        copy_bytes(&mut self.sealed_blob, 8 + pub_size, priv_blob, 0, priv_size);
        assert(ps_bytes@ =~= le32(ps));
        assert(qs_bytes@ =~= le32(qs));
        assert(self.sealed_blob@ =~= le32(pub_size as u32) + pub_blob@.subrange(0, pub_size as int)
            + le32(priv_size as u32) + priv_blob@.subrange(0, priv_size as int)
            + orig.subrange(8 + pub_size + priv_size, 505));
    }
}

impl Default for DeviceMetadata {
    /// The metadata of a plain disk at version 0, no sealed key.
    fn default() -> (r: Self)
        ensures
            r.magic == MAGIC_SIGNATURE,
            r.version == 0,
            r.is_encrypted == 0,
            r.algo_id == 0,
            r.sealed_blob@ == Seq::new(505, |_i: int| 0u8),
    {
        let r = DeviceMetadata { magic: MAGIC_SIGNATURE, version: 0, is_encrypted: 0, algo_id: 0, sealed_blob: [0u8; 505] };
        assert(r.sealed_blob@ =~= Seq::new(505, |_i: int| 0u8));
        r
    }
}

/// The places of the two blobs in a sealed key: the public blob's start and size, then the
/// private blob's start and size.
pub open spec fn sealed_layout(blob: Seq<u8>) -> (int, int, int, int) {
    let pub_size = spec_le32_at(blob, 0) as int;
    let priv_size = spec_le32_at(blob, 4 + pub_size) as int;
    (4, pub_size, 8 + pub_size, priv_size)
}

/// Both blobs of a sealed key lie within it.
pub open spec fn sealed_blob_in_bounds(blob: Seq<u8>) -> bool {
    let (pub_at, pub_size, priv_at, priv_size) = sealed_layout(blob);
    blob.len() >= 4 && 8 + pub_size <= blob.len() && priv_at + priv_size <= blob.len()
}

/// Whether both blobs of this sealed key lie within it.
pub fn sealed_blob_fits(blob: &[u8]) -> (r: bool)
    ensures
        r == sealed_blob_in_bounds(blob@),
{
    if blob.len() < 4 {
        return false;
    }
    let pub_size = get_u32_le(blob, 0) as usize;
    if pub_size > blob.len() || blob.len() - pub_size < 8 {
        return false;
    }
    let priv_size = get_u32_le(blob, 4 + pub_size) as usize;
    priv_size <= blob.len() - (8 + pub_size)
}

/// Finds the two blobs of a sealed key: (public start, public size, private start, private size).
pub fn unpack_sealed_blob(blob: &[u8]) -> (r: (usize, usize, usize, usize))
    requires
        sealed_blob_in_bounds(blob@),
    ensures
        (r.0 as int, r.1 as int, r.2 as int, r.3 as int) == sealed_layout(blob@),
{
    let n = blob.len();
    let pub_size = get_u32_le(blob, 0) as usize;
    assert(pub_size + 8 <= n);
    let priv_size = get_u32_le(blob, 4 + pub_size) as usize;
    (4, pub_size, 8 + pub_size, priv_size)
}

/// A sealed key that was stored is found again: unpacking what `pack_sealed_blob` stored gives
/// back the two blobs it was given.
pub proof fn lemma_sealed_blob_roundtrip(packed: Seq<u8>, pub_blob: Seq<u8>, priv_blob: Seq<u8>, rest: Seq<u8>)
    requires
        packed == le32(pub_blob.len() as u32) + pub_blob + le32(priv_blob.len() as u32) + priv_blob + rest,
        8 + pub_blob.len() + priv_blob.len() <= SEALED_BLOB_LEN,
    ensures
        sealed_blob_in_bounds(packed),
        ({
            let (pub_at, pub_size, priv_at, priv_size) = sealed_layout(packed);
            &&& packed.subrange(pub_at, pub_at + pub_size) == pub_blob
            &&& packed.subrange(priv_at, priv_at + priv_size) == priv_blob
        }),
{
    let p = pub_blob.len() as int;
    let q = priv_blob.len() as int;
    crate::bytes::lemma_endian_roundtrip(0, p as u32);
    crate::bytes::lemma_endian_roundtrip(0, q as u32);
    assert(packed.subrange(0, 4) =~= le32(p as u32));
    assert(spec_le32_at(packed, 0) == spec_le32_at(le32(p as u32), 0));
    assert(spec_le32_at(packed, 4 + p) == spec_le32_at(le32(q as u32), 0));
    assert(packed.subrange(4, 4 + p) =~= pub_blob);
    assert(packed.subrange(8 + p, 8 + p + q) =~= priv_blob);
}

/// How the encrypting layer treats the disk.
#[derive(Debug, Clone, Copy, PartialEq, Eq, Structural)]
pub enum WorkingMode {
    /// Plain: data passes through.
    Normal,
    /// Encrypted and locked: no data can be read or written.
    Encrypted,
    /// Encrypted and unlocked: data is decrypted on reads and encrypted on writes.
    Unlocked,
}

/// The state of the encrypting layer.
#[derive(Clone, Copy, Debug)]
pub struct EncryptionState {
    pub working_mode: WorkingMode,
    pub algo_id: u8,
    /// The disk key when unlocked.
    pub algo_param: [u8; 64],
    pub device_metadata: DeviceMetadata,
}

impl EncryptionState {
    pub fn new(working_mode: WorkingMode, algo_id: u8, algo_param: [u8; 64], device_metadata: DeviceMetadata) -> (r: Self)
        ensures
            r.working_mode == working_mode,
            r.algo_id == algo_id,
            r.algo_param == algo_param,
            r.device_metadata == device_metadata,
    {
        EncryptionState { working_mode, algo_id, algo_param, device_metadata }
    }

    /// The state of a disk whose metadata sector holds `meta`: locked when the metadata says
    /// encrypted, plain otherwise, with no key. A sector without the magic number means an
    /// unformatted disk: then the state is that of fresh metadata, and the answer asks for
    /// formatting.
    pub fn mount(meta: &[u8]) -> (r: (EncryptionState, bool))
        requires
            meta@.len() == SECTOR_SIZE,
        ensures
            r.1 == (spec_le32_at(meta@, 0) != MAGIC_SIGNATURE),
            r.1 ==> r.0.device_metadata.version == 1 && r.0.device_metadata.is_encrypted == 0
                && r.0.device_metadata.algo_id == 0 && r.0.device_metadata.magic == MAGIC_SIGNATURE
                && r.0.device_metadata.sealed_blob@ == Seq::new(505, |_i: int| 0u8),
            !r.1 ==> (r.0.device_metadata.magic, r.0.device_metadata.version, r.0.device_metadata.is_encrypted,
                r.0.device_metadata.algo_id, r.0.device_metadata.sealed_blob@) == metadata_of_bytes(meta@),
            r.0.working_mode == (if r.0.device_metadata.is_encrypted == 0 { WorkingMode::Normal } else { WorkingMode::Encrypted }),
            r.0.algo_id == r.0.device_metadata.algo_id,
            r.0.algo_param@ == Seq::new(64, |_i: int| 0u8),
            !r.1 ==> mounted_from(r.0, meta@),
    {
        let mut metadata = DeviceMetadata::from_bytes(meta);
        let fresh = metadata.magic != MAGIC_SIGNATURE;
        if fresh {
            metadata = DeviceMetadata::new();
        }
        let working_mode = if metadata.is_encrypted == 0 { WorkingMode::Normal } else { WorkingMode::Encrypted };
        let key = [0u8; 64];
        assert(key@ =~= Seq::new(64, |_i: int| 0u8));
        (EncryptionState::new(working_mode, metadata.algo_id, key, metadata), fresh)
    }

    /// The disk sector that data block `block_id` lives in, or `EUNDEF` when the disk is locked.
    pub fn block_sector(&self, block_id: usize) -> (r: Result<usize, Errno>)
        requires
            block_id < usize::MAX,
        ensures
            r == spec_block_sector(*self, block_id),
    {
        match self.working_mode {
            WorkingMode::Encrypted => Err(Errno::EUNDEF),
            _ => Ok(block_id + DATA_OFFSET_SECTORS),
        }
    }

    /// Finishes reading data block `block_id` into `buf` once the disk read gave `raw`:
    /// unlocked, the data is decrypted.
    pub fn finish_read(&self, block_id: usize, raw: Result<(), Errno>, buf: &mut [u8]) -> (r: Result<(), Errno>)
        requires
            self.working_mode == WorkingMode::Unlocked && self.algo_id == 0 ==> old(buf)@.len() >= 16,
        ensures
            (r, final(buf)@) == spec_finish_read(*self, block_id, raw, old(buf)@),
    {
        match self.working_mode {
            WorkingMode::Normal => raw,
            WorkingMode::Encrypted => Err(Errno::EUNDEF),
            WorkingMode::Unlocked => {
                match raw {
                    Err(e) => Err(e),
                    Ok(()) => match decrypt_data(buf, block_id, self.algo_id, &self.algo_param) {
                        Ok(_) => Ok(()),
                        Err(_) => Err(Errno::EUNDEF),
                    },
                }
            },
        }
    }

    /// What writing `buf` to data block `block_id` puts on the disk: the sector and its bytes,
    /// encrypted when unlocked; `EUNDEF` when the disk is locked or the algorithm is unknown.
    pub fn prepare_write(&self, block_id: usize, buf: &[u8]) -> (r: Result<(usize, Vec<u8>), Errno>)
        requires
            block_id < usize::MAX,
            self.working_mode == WorkingMode::Unlocked && self.algo_id == 0 ==> buf@.len() >= 16,
        ensures
            match (r, spec_prepare_write(*self, block_id, buf@)) {
                (Ok((s, w)), Ok((s2, w2))) => s == s2 && w@ == w2,
                (Err(e), Err(e2)) => e == e2,
                _ => false,
            },
            // What is put on the disk goes to the sector reads come from, and reading it back
            // gives `buf` again.
            r matches Ok((s, w)) ==> spec_block_sector(*self, block_id) == Ok::<usize, Errno>(s)
                && spec_finish_read(*self, block_id, Ok(()), w@) == (Ok::<(), Errno>(()), buf@),
    {
        match self.working_mode {
            WorkingMode::Normal => {
                let mut out = Vec::new();
                push_bytes(&mut out, buf);
                assert(out@ =~= buf@);
                Ok((block_id + DATA_OFFSET_SECTORS, out))
            },
            WorkingMode::Encrypted => Err(Errno::EUNDEF),
            WorkingMode::Unlocked => {
                let mut tmp = Vec::new();
                push_bytes(&mut tmp, buf);
                assert(tmp@ =~= buf@);
                match encrypt_data(tmp.as_mut_slice(), block_id, self.algo_id, &self.algo_param) {
                    Ok(_) => Ok((block_id + DATA_OFFSET_SECTORS, tmp)),
                    Err(_) => Err(Errno::EUNDEF),
                }
            },
        }
    }

    /// Whether encryption with `algo_id` can be switched on: only on a plain disk, and only
    /// for algorithm 0.
    pub fn check_enable(&self, algo_id: u8) -> (r: Result<(), BlockOperationError>)
        ensures
            self.working_mode != WorkingMode::Normal ==> r == Err::<(), BlockOperationError>(BlockOperationError::InvalidState),
            self.working_mode == WorkingMode::Normal && algo_id != 0 ==> r == Err::<(), BlockOperationError>(BlockOperationError::UnSupportedAlgorithm),
            self.working_mode == WorkingMode::Normal && algo_id == 0 ==> r is Ok,
    {
        if self.working_mode != WorkingMode::Normal {
            return Err(BlockOperationError::InvalidState);
        }
        if algo_id != 0 {
            return Err(BlockOperationError::UnSupportedAlgorithm);
        }
        Ok(())
    }

    /// Records in the metadata that the disk is encrypted with `algo_id` and keeps the sealed key.
    pub fn seal(&mut self, algo_id: u8, pub_blob: &[u8], pub_size: usize, priv_blob: &[u8], priv_size: usize)
        requires
            pub_size <= pub_blob@.len(),
            priv_size <= priv_blob@.len(),
            8 + pub_size + priv_size <= SEALED_BLOB_LEN,
        ensures
            final(self).device_metadata.is_encrypted == 1,
            final(self).device_metadata.algo_id == algo_id,
            final(self).device_metadata.magic == old(self).device_metadata.magic,
            final(self).device_metadata.version == old(self).device_metadata.version,
            final(self).device_metadata.sealed_blob@ == le32(pub_size as u32) + pub_blob@.subrange(0, pub_size as int)
                + le32(priv_size as u32) + priv_blob@.subrange(0, priv_size as int)
                + old(self).device_metadata.sealed_blob@.subrange(8 + pub_size + priv_size, 505),
            final(self).working_mode == old(self).working_mode,
            final(self).algo_id == old(self).algo_id,
            final(self).algo_param == old(self).algo_param,
            sealed_from(*old(self), *final(self), algo_id),
    {
        self.device_metadata.is_encrypted = 1;
        self.device_metadata.algo_id = algo_id;
        self.device_metadata.pack_sealed_blob(pub_blob, pub_size, priv_blob, priv_size);
    }

    /// Whether the disk can be unlocked: only when it is locked.
    pub fn check_unlock(&self) -> (r: Result<(), BlockOperationError>)
        ensures
            self.working_mode == WorkingMode::Encrypted ==> r is Ok,
            self.working_mode != WorkingMode::Encrypted ==> r == Err::<(), BlockOperationError>(BlockOperationError::InvalidState),
    {
        if self.working_mode != WorkingMode::Encrypted {
            return Err(BlockOperationError::InvalidState);
        }
        Ok(())
    }

    /// Takes the unsealed disk key and unlocks the disk.
    pub fn unlock(&mut self, key: &[u8])
        requires
            key@.len() == 64,
        ensures
            final(self).algo_param@ == key@,
            final(self).working_mode == WorkingMode::Unlocked,
            final(self).algo_id == old(self).algo_id,
            final(self).device_metadata == old(self).device_metadata,
            unlocked_with(*old(self), *final(self), key@),
    {
        copy_bytes(&mut self.algo_param, 0, key, 0, 64);
        assert(self.algo_param@ =~= key@);
        self.working_mode = WorkingMode::Unlocked;
    }
}

/// The disk sector of data block `block_id`: locked disks have none.
pub open spec fn spec_block_sector(st: EncryptionState, block_id: usize) -> Result<usize, Errno> {
    if st.working_mode == WorkingMode::Encrypted {
        Err(Errno::EUNDEF)
    } else {
        Ok((block_id + DATA_OFFSET_SECTORS) as usize)
    }
}

/// The outcome and the data of a read of block `block_id` whose disk read gave `raw` and `data`.
pub open spec fn spec_finish_read(st: EncryptionState, block_id: usize, raw: Result<(), Errno>, data: Seq<u8>) -> (Result<(), Errno>, Seq<u8>) {
    match st.working_mode {
        WorkingMode::Normal => (raw, data),
        WorkingMode::Encrypted => (Err(Errno::EUNDEF), data),
        WorkingMode::Unlocked => match raw {
            Err(e) => (Err(e), data),
            Ok(_) => if st.algo_id == 0 {
                (Ok(()), xts_aes256_decrypt(st.algo_param@, block_id as u128, data))
            } else {
                (Err(Errno::EUNDEF), data)
            },
        },
    }
}

/// The sector and bytes that a write of `data` to block `block_id` puts on the disk.
pub open spec fn spec_prepare_write(st: EncryptionState, block_id: usize, data: Seq<u8>) -> Result<(usize, Seq<u8>), Errno> {
    match st.working_mode {
        WorkingMode::Normal => Ok(((block_id + DATA_OFFSET_SECTORS) as usize, data)),
        WorkingMode::Encrypted => Err(Errno::EUNDEF),
        WorkingMode::Unlocked => if st.algo_id == 0 {
            Ok(((block_id + DATA_OFFSET_SECTORS) as usize, xts_aes256_encrypt(st.algo_param@, block_id as u128, data)))
        } else {
            Err(Errno::EUNDEF)
        },
    }
}

/// `st` is the state `mount` gives for the metadata sector `meta` of a formatted disk.
pub open spec fn mounted_from(st: EncryptionState, meta: Seq<u8>) -> bool {
    &&& spec_le32_at(meta, 0) == MAGIC_SIGNATURE
    &&& (st.device_metadata.magic, st.device_metadata.version, st.device_metadata.is_encrypted,
        st.device_metadata.algo_id, st.device_metadata.sealed_blob@) == metadata_of_bytes(meta)
    &&& st.working_mode == (if st.device_metadata.is_encrypted == 0 { WorkingMode::Normal } else { WorkingMode::Encrypted })
    &&& st.algo_id == st.device_metadata.algo_id
    &&& st.algo_param@ == Seq::new(64, |_i: int| 0u8)
}

/// `after` is `before` with its metadata marked encrypted with `algo_id` (what `seal` does;
/// the sealed key itself is left open here).
pub open spec fn sealed_from(before: EncryptionState, after: EncryptionState, algo_id: u8) -> bool {
    &&& after.device_metadata.is_encrypted == 1
    &&& after.device_metadata.algo_id == algo_id
    &&& after.device_metadata.magic == before.device_metadata.magic
    &&& after.device_metadata.version == before.device_metadata.version
    &&& after.working_mode == before.working_mode
    &&& after.algo_id == before.algo_id
    &&& after.algo_param == before.algo_param
}

/// `after` is `before` unlocked with the disk key `key` (what `unlock` does).
pub open spec fn unlocked_with(before: EncryptionState, after: EncryptionState, key: Seq<u8>) -> bool {
    &&& after.algo_param@ == key
    &&& after.working_mode == WorkingMode::Unlocked
    &&& after.algo_id == before.algo_id
    &&& after.device_metadata == before.device_metadata
}

/// Data written to an encrypted disk survives a restart: encryption is switched on for a
/// formatted plain disk (`plain`), its metadata marked encrypted with AES-XTS (`sealed`) and the
/// disk unlocked with `key` (`writer`); block `block_id` is written with `data`, which puts `w`
/// on sector `sector`. After a restart the disk mounts from the metadata sector that was
/// written (`locked`): it is locked, and every block is refused with `EUNDEF`. Unlocked again
/// with the same key (`reader`, when the TPM unseals the key that was sealed), the block reads
/// from the same sector and gives `data` back.
pub proof fn lemma_encrypted_data_survives_restart(
    plain: EncryptionState,
    sealed: EncryptionState,
    writer: EncryptionState,
    locked: EncryptionState,
    reader: EncryptionState,
    key: Seq<u8>,
    block_id: usize,
    data: Seq<u8>,
    sector: usize,
    w: Seq<u8>,
)
    requires
        plain.working_mode == WorkingMode::Normal,
        plain.device_metadata.magic == MAGIC_SIGNATURE,
        sealed_from(plain, sealed, 0),
        unlocked_with(sealed, writer, key),
        spec_prepare_write(writer, block_id, data) == Ok::<(usize, Seq<u8>), Errno>((sector, w)),
        spec_finish_read(writer, block_id, Ok(()), w) == (Ok::<(), Errno>(()), data),
        mounted_from(locked, metadata_bytes(sealed.device_metadata)),
        unlocked_with(locked, reader, key),
    ensures
        spec_le32_at(metadata_bytes(sealed.device_metadata), 0) == MAGIC_SIGNATURE,
        locked.working_mode == WorkingMode::Encrypted,
        spec_block_sector(locked, block_id) == Err::<usize, Errno>(Errno::EUNDEF),
        spec_finish_read(locked, block_id, Ok(()), w).0 == Err::<(), Errno>(Errno::EUNDEF),
        spec_block_sector(reader, block_id) == Ok::<usize, Errno>(sector),
        spec_finish_read(reader, block_id, Ok(()), w) == (Ok::<(), Errno>(()), data),
{
    lemma_metadata_roundtrip(sealed.device_metadata);
    assert(writer.algo_id == 0);
    assert(reader.algo_id == 0);
}

/// Reading back the bytes of a metadata sector gives the metadata that was written.
pub proof fn lemma_metadata_roundtrip(m: DeviceMetadata)
    ensures
        metadata_of_bytes(metadata_bytes(m)) == (m.magic, m.version, m.is_encrypted, m.algo_id, m.sealed_blob@),
{
    crate::bytes::lemma_endian_roundtrip(0, m.magic);
    let b = metadata_bytes(m);
    assert(b.subrange(7, 512) =~= m.sealed_blob@);
    assert(spec_le32_at(b, 0) == spec_le32_at(le32(m.magic), 0));
}

} // verus!
