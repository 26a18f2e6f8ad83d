//! The TPM 2.0 commands the disk encryption uses: how each command is laid out, how each
//! response is read, and how failures are classified.
use vstd::prelude::*;
use crate::bytes::{
    be16, be32, spec_be16_at, spec_be32_at, push_u16_be, push_u32_be, push_bytes, get_u16_be,
    get_u32_be, copy_bytes,
};

verus! {

/// Base address of the TPM TIS registers.
pub const TPM_TIS_BASE: usize = 0x0400_0000;
pub const TPM_TIS_SIZE: usize = 0x0000_5000;

// Register offsets from the base.
pub const TPM_ACCESS: usize = 0x0000;
pub const TPM_STS: usize = 0x0018;
pub const TPM_DATA_FIFO: usize = 0x0024;
pub const TPM_DID_VID: usize = 0x0F00;
pub const TPM_RID: usize = 0x0F04;

pub const TPM_ACCESS_VALID: u8 = 0x80;
pub const TPM_ACCESS_ACTIVE_LOCALITY: u8 = 0x20;
pub const TPM_ACCESS_REQUEST_USE: u8 = 0x02;

pub const TPM_STS_VALID: u8 = 0x80;
pub const TPM_STS_COMMAND_READY: u8 = 0x40;
pub const TPM_STS_TPM_GO: u8 = 0x20;
pub const TPM_STS_DATA_AVAIL: u8 = 0x10;
pub const TPM_STS_EXPECT: u8 = 0x08;

pub const TPM2_ST_NO_SESSIONS: u16 = 0x8001;
pub const TPM2_ST_SESSIONS: u16 = 0x8002;
pub const TPM_RS_PW: u32 = 0x4000_0009;

pub const TPM2_CC_GET_RANDOM: u32 = 0x0000_017B;
pub const TPM2_CC_STARTUP: u32 = 0x0000_0144;
pub const TPM2_SU_CLEAR: u16 = 0x0000;
pub const TPM2_CC_CREATE_PRIMARY: u32 = 0x0000_0131;
pub const TPM2_CC_CREATE: u32 = 0x0000_0153;
pub const TPM2_CC_FLUSH_CONTEXT: u32 = 0x0000_0165;
pub const TPM2_CC_LOAD: u32 = 0x0000_0157;
pub const TPM2_CC_UNSEAL: u32 = 0x0000_015E;

pub const TPM_SRK_ATTRS_FIXEDTPM: u32 = 0x2;
pub const TPM_SRK_ATTRS_FIXEDPARENT: u32 = 0x10;
pub const TPM_SRK_ATTRS_SENSITIVEDATAORIGIN: u32 = 0x20;
pub const TPM_SRK_ATTRS_USERWITHAUTH: u32 = 0x40;
pub const TPM_SRK_ATTRS_NODA: u32 = 0x400;
pub const TPM_SRK_ATTRS_RESTRICTED: u32 = 0x1_0000;
pub const TPM_SRK_ATTRS_DECRYPT: u32 = 0x2_0000;

/// The attributes of the storage root key: all of the above.
pub const SRK_ATTRS: u32 = 0x3_0472;
/// The attributes of the sealed disk key: fixed to this TPM and parent, usable with the PIN.
pub const DISK_KEY_ATTRS: u32 = 0x52;

pub const TPM_RH_OWNER: u32 = 0x4000_0001;
pub const TPM_RH_NULL: u32 = 0x4000_0007;
pub const TPM_ALG_RSA: u16 = 0x0001;
pub const TPM_ALG_AES: u16 = 0x0006;
pub const TPM_ALG_SHA256: u16 = 0x000B;
pub const TPM_ALG_NULL: u16 = 0x0010;
pub const TPM_ALG_AES_CFB: u16 = 0x0043;
pub const TPM_ALG_KEYEDHASH: u16 = 0x0008;

pub const TPM_RC_LOCKOUT: u16 = 0x0921;
pub const TPM_RC_AUTH_FAIL: u16 = 0x008E;

/// The response code that `TPM2_Startup` gives when the TPM was already started.
pub const TPM_RC_INITIALIZE: u32 = 0x100;

/// Why talking to the TPM failed.
#[derive(Debug, Clone, Copy, PartialEq, Eq, Structural)]
pub enum TpmError {
    Timeout,
    BufferTooSmall,
    NotReady,
    ResponseError(u16),
}

/// Why unsealing the disk key failed.
#[derive(Debug, Clone, Copy, PartialEq, Eq, Structural)]
pub enum UnlockError {
    TpmError(TpmError),
    WrongPin,
    Lockout,
}

/// A TPM reached through its TIS registers at a base address.
pub struct TpmDevice(usize);

impl TpmDevice {
    /// The TPM whose registers start at `base_addr`.
    pub fn new(base_addr: usize) -> (r: Self)
        ensures
            r.spec_base() == base_addr,
    {
        TpmDevice(base_addr)
    }

    pub closed spec fn spec_base(&self) -> usize {
        self.0
    }

    /// The base address of the registers.
    pub fn base(&self) -> (r: usize)
        ensures
            r == self.spec_base(),
    {
        self.0
    }
}

/// The TPM granted locality 0: the access register is valid and shows the locality active.
pub fn locality_granted(access: u8) -> (r: bool)
    ensures
        r == (access & TPM_ACCESS_VALID != 0 && access & TPM_ACCESS_ACTIVE_LOCALITY != 0),
{
    (access & TPM_ACCESS_VALID) != 0 && (access & TPM_ACCESS_ACTIVE_LOCALITY) != 0
}

/// The status register says the TPM is ready for a command.
pub fn sts_command_ready(sts: u32) -> (r: bool)
    ensures
        r == (sts & 0x40 != 0),
{
    (sts & (TPM_STS_COMMAND_READY as u32)) != 0
}

/// The status register says response data is available.
pub fn sts_data_avail(sts: u32) -> (r: bool)
    ensures
        r == (sts & 0x10 != 0),
{
    (sts & (TPM_STS_DATA_AVAIL as u32)) != 0
}

/// How many bytes the FIFO takes at once, from bits 8..24 of the status register.
pub fn sts_burst_count(sts: u32) -> (r: u32)
    ensures
        r == (sts >> 8u32) & 0xffff,
{
    (sts >> 8) & 0xFFFF
}

/// The password authorization area with an empty password.
pub open spec fn empty_auth() -> Seq<u8> {
    be32(9) + be32(TPM_RS_PW) + be16(0) + seq![0u8] + be16(0)
}

fn push_empty_auth(cmd: &mut Vec<u8>)
    ensures
        final(cmd)@ == old(cmd)@ + empty_auth(),
{
    push_u32_be(cmd, 9);
    push_u32_be(cmd, TPM_RS_PW);
    push_u16_be(cmd, 0);
    cmd.push(0x00);
    push_u16_be(cmd, 0);
    assert(final(cmd)@ =~= old(cmd)@ + empty_auth());
}

/// `TPM2_GetRandom` for `requested` bytes.
pub open spec fn get_random_cmd(requested: u16) -> Seq<u8> {
    be16(TPM2_ST_NO_SESSIONS) + be32(12) + be32(TPM2_CC_GET_RANDOM) + be16(requested)
}

/// Builds `TPM2_GetRandom` for `requested` bytes.
pub fn get_random_command(requested: u16) -> (r: Vec<u8>)
    ensures
        r@ == get_random_cmd(requested),
        r@.len() == 12,
{
    let mut cmd = Vec::new();
    push_u16_be(&mut cmd, TPM2_ST_NO_SESSIONS);
    push_u32_be(&mut cmd, 12);
    push_u32_be(&mut cmd, TPM2_CC_GET_RANDOM);
    push_u16_be(&mut cmd, requested);
    assert(cmd@ =~= get_random_cmd(requested));
    cmd
}

/// `TPM2_Startup(CLEAR)`.
pub open spec fn startup_cmd() -> Seq<u8> {
    be16(TPM2_ST_NO_SESSIONS) + be32(12) + be32(TPM2_CC_STARTUP) + be16(TPM2_SU_CLEAR)
}

/// Builds `TPM2_Startup(CLEAR)`.
pub fn startup_command() -> (r: Vec<u8>)
    ensures
        r@ == startup_cmd(),
        r@.len() == 12,
{
    let mut cmd = Vec::new();
    push_u16_be(&mut cmd, TPM2_ST_NO_SESSIONS);
    push_u32_be(&mut cmd, 12);
    push_u32_be(&mut cmd, TPM2_CC_STARTUP);
    push_u16_be(&mut cmd, TPM2_SU_CLEAR);
    assert(cmd@ =~= startup_cmd());
    cmd
}

/// `TPM2_FlushContext` for `handle`.
pub open spec fn flush_context_cmd(handle: u32) -> Seq<u8> {
    be16(TPM2_ST_NO_SESSIONS) + be32(14) + be32(TPM2_CC_FLUSH_CONTEXT) + be32(handle)
}

/// Builds `TPM2_FlushContext` for `handle`.
pub fn flush_context_command(handle: u32) -> (r: Vec<u8>)
    ensures
        r@ == flush_context_cmd(handle),
        r@.len() == 14,
{
    let mut cmd = Vec::new();
    push_u16_be(&mut cmd, TPM2_ST_NO_SESSIONS);
    push_u32_be(&mut cmd, 14);
    push_u32_be(&mut cmd, TPM2_CC_FLUSH_CONTEXT);
    push_u32_be(&mut cmd, handle);
    assert(cmd@ =~= flush_context_cmd(handle));
    cmd
}

/// The public area of the storage root key: an RSA-2048 restricted decryption key with
/// AES-256-CFB protection and SHA-256 names.
pub open spec fn srk_public() -> Seq<u8> {
    be16(TPM_ALG_RSA) + be16(TPM_ALG_SHA256) + be32(SRK_ATTRS) + be16(0) + be16(TPM_ALG_AES)
        + be16(256) + be16(TPM_ALG_AES_CFB) + be16(TPM_ALG_NULL) + be16(2048) + be32(0) + be16(0)
}

/// `TPM2_CreatePrimary` of the storage root key in the owner hierarchy: 67 bytes.
pub open spec fn create_primary_srk_cmd() -> Seq<u8> {
    be16(TPM2_ST_SESSIONS) + be32(67) + be32(TPM2_CC_CREATE_PRIMARY) + be32(TPM_RH_OWNER)
        + empty_auth() + be16(4) + be16(0) + be16(0) + be16(26) + srk_public() + be16(0) + be32(0)
}

/// Builds `TPM2_CreatePrimary` of the storage root key.
pub fn create_primary_srk_command() -> (r: Vec<u8>)
    ensures
        r@ == create_primary_srk_cmd(),
        r@.len() == 67,
{
    let mut cmd = Vec::new();
    push_u16_be(&mut cmd, TPM2_ST_SESSIONS);
    push_u32_be(&mut cmd, 67);
    push_u32_be(&mut cmd, TPM2_CC_CREATE_PRIMARY);
    push_u32_be(&mut cmd, TPM_RH_OWNER);
    push_empty_auth(&mut cmd);
    // Sensitive area: no auth value, no data.
    push_u16_be(&mut cmd, 4);
    push_u16_be(&mut cmd, 0);
    push_u16_be(&mut cmd, 0);
    // Public area and its size.
    push_u16_be(&mut cmd, 26);
    let ghost before_public = cmd@;
    push_u16_be(&mut cmd, TPM_ALG_RSA);
    push_u16_be(&mut cmd, TPM_ALG_SHA256);
    push_u32_be(&mut cmd, SRK_ATTRS);
    push_u16_be(&mut cmd, 0);
    push_u16_be(&mut cmd, TPM_ALG_AES);
    push_u16_be(&mut cmd, 256);
    push_u16_be(&mut cmd, TPM_ALG_AES_CFB);
    push_u16_be(&mut cmd, TPM_ALG_NULL);
    push_u16_be(&mut cmd, 2048);
    push_u32_be(&mut cmd, 0);
    push_u16_be(&mut cmd, 0);
    assert(cmd@ =~= before_public + srk_public());
    // Outside info and PCR selection, both empty.
    push_u16_be(&mut cmd, 0);
    push_u32_be(&mut cmd, 0);
    assert(cmd@ =~= create_primary_srk_cmd());
    cmd
}

/// The public area of the sealed disk key: a keyed-hash object with no scheme.
pub open spec fn sealed_public() -> Seq<u8> {
    be16(TPM_ALG_KEYEDHASH) + be16(TPM_ALG_SHA256) + be32(DISK_KEY_ATTRS) + be16(0)
        + be16(TPM_ALG_NULL) + be16(0)
}

/// `TPM2_Create` under `parent` of a sealed object holding `key`, authorized by `pin`.
pub open spec fn tpm2_create_cmd(parent: u32, pin: Seq<u8>, key: Seq<u8>) -> Seq<u8> {
    be16(TPM2_ST_SESSIONS) + be32((55 + pin.len() + key.len()) as u32) + be32(TPM2_CC_CREATE)
        + be32(parent) + empty_auth() + be16((4 + pin.len() + key.len()) as u16)
        + be16(pin.len() as u16) + pin + be16(key.len() as u16) + key + be16(14)
        + sealed_public() + be16(0) + be32(0)
}

/// Builds `TPM2_Create` that seals `key` under `parent` with the PIN `pin`.
pub fn tpm2_create_command(parent: u32, pin: &[u8], key: &[u8]) -> (r: Vec<u8>)
    requires
        55 + pin@.len() + key@.len() <= 512,
    ensures
        r@ == tpm2_create_cmd(parent, pin@, key@),
        r@.len() == 55 + pin@.len() + key@.len(),
{
    let total = 55 + pin.len() + key.len();
    let mut cmd = Vec::new();
    push_u16_be(&mut cmd, TPM2_ST_SESSIONS);
    push_u32_be(&mut cmd, total as u32);
    push_u32_be(&mut cmd, TPM2_CC_CREATE);
    push_u32_be(&mut cmd, parent);
    push_empty_auth(&mut cmd);
    // Sensitive area: the PIN as auth value, the key as data.
    push_u16_be(&mut cmd, (4 + pin.len() + key.len()) as u16);
    push_u16_be(&mut cmd, pin.len() as u16);
    push_bytes(&mut cmd, pin);
    push_u16_be(&mut cmd, key.len() as u16);
    push_bytes(&mut cmd, key);
    // Public area and its size.
    push_u16_be(&mut cmd, 14);
    let ghost before_public = cmd@;
    push_u16_be(&mut cmd, TPM_ALG_KEYEDHASH);
    push_u16_be(&mut cmd, TPM_ALG_SHA256);
    push_u32_be(&mut cmd, DISK_KEY_ATTRS);
    push_u16_be(&mut cmd, 0);
    push_u16_be(&mut cmd, TPM_ALG_NULL);
    push_u16_be(&mut cmd, 0);
    assert(cmd@ =~= before_public + sealed_public());
    // Outside info and PCR selection, both empty.
    push_u16_be(&mut cmd, 0);
    push_u32_be(&mut cmd, 0);
    assert(cmd@ =~= tpm2_create_cmd(parent, pin@, key@));
    cmd
}

/// `TPM2_Load` under `parent` of the sealed object `pub_blob`/`priv_blob`.
pub open spec fn tpm2_load_cmd(parent: u32, pub_blob: Seq<u8>, priv_blob: Seq<u8>) -> Seq<u8> {
    be16(TPM2_ST_SESSIONS) + be32((31 + pub_blob.len() + priv_blob.len()) as u32)
        + be32(TPM2_CC_LOAD) + be32(parent) + empty_auth() + be16(priv_blob.len() as u16)
        + priv_blob + be16(pub_blob.len() as u16) + pub_blob
}

/// Builds `TPM2_Load` of a sealed object under `parent`.
pub fn tpm2_load_command(parent: u32, pub_blob: &[u8], priv_blob: &[u8]) -> (r: Vec<u8>)
    requires
        31 + pub_blob@.len() + priv_blob@.len() <= 2048,
    ensures
        r@ == tpm2_load_cmd(parent, pub_blob@, priv_blob@),
        r@.len() == 31 + pub_blob@.len() + priv_blob@.len(),
{
    let total = 31 + pub_blob.len() + priv_blob.len();
    let mut cmd = Vec::new();
    push_u16_be(&mut cmd, TPM2_ST_SESSIONS);
    push_u32_be(&mut cmd, total as u32);
    push_u32_be(&mut cmd, TPM2_CC_LOAD);
    push_u32_be(&mut cmd, parent);
    push_empty_auth(&mut cmd);
    push_u16_be(&mut cmd, priv_blob.len() as u16);
    push_bytes(&mut cmd, priv_blob);
    push_u16_be(&mut cmd, pub_blob.len() as u16);
    push_bytes(&mut cmd, pub_blob);
    assert(cmd@ =~= tpm2_load_cmd(parent, pub_blob@, priv_blob@));
    cmd
}

/// `TPM2_Unseal` of `item` with the PIN as password, continuing the session.
pub open spec fn tpm2_unseal_cmd(item: u32, pin: Seq<u8>) -> Seq<u8> {
    be16(TPM2_ST_SESSIONS) + be32((27 + pin.len()) as u32) + be32(TPM2_CC_UNSEAL) + be32(item)
        + be32((9 + pin.len()) as u32) + be32(TPM_RS_PW) + be16(0) + seq![1u8]
        + be16(pin.len() as u16) + pin
}

/// Builds `TPM2_Unseal` of `item` with the PIN `pin`.
pub fn tpm2_unseal_command(item: u32, pin: &[u8]) -> (r: Vec<u8>)
    requires
        27 + pin@.len() <= 512,
    ensures
        r@ == tpm2_unseal_cmd(item, pin@),
        r@.len() == 27 + pin@.len(),
{
    let total = 27 + pin.len();
    let mut cmd = Vec::new();
    push_u16_be(&mut cmd, TPM2_ST_SESSIONS);
    push_u32_be(&mut cmd, total as u32);
    push_u32_be(&mut cmd, TPM2_CC_UNSEAL);
    push_u32_be(&mut cmd, item);
    push_u32_be(&mut cmd, (9 + pin.len()) as u32);
    push_u32_be(&mut cmd, TPM_RS_PW);
    push_u16_be(&mut cmd, 0);
    cmd.push(0x01);
    push_u16_be(&mut cmd, pin.len() as u16);
    push_bytes(&mut cmd, pin);
    assert(cmd@ =~= tpm2_unseal_cmd(item, pin@));
    cmd
}


/// The response code of a response.
pub open spec fn resp_code(resp: Seq<u8>) -> u32 {
    spec_be32_at(resp, 6)
}

/// Where the parameters of a response start: after the parameter size when the response
/// carries sessions.
pub open spec fn resp_params_start(resp: Seq<u8>) -> int {
    if spec_be16_at(resp, 0) == TPM2_ST_SESSIONS { 14 } else { 10 }
}

/// Reads the handle of a `TPM2_CreatePrimary` or `TPM2_Load` response.
pub fn parse_handle_response(resp: &[u8]) -> (r: Result<u32, TpmError>)
    requires
        resp@.len() >= 14,
    ensures
        resp_code(resp@) != 0 ==> r == Err::<u32, TpmError>(TpmError::ResponseError(resp_code(resp@) as u16)),
        resp_code(resp@) == 0 ==> r == Ok::<u32, TpmError>(spec_be32_at(resp@, 10)),
{
    let rc = get_u32_be(resp, 6);
    if rc != 0 {
        return Err(TpmError::ResponseError(rc as u16));
    }
    Ok(get_u32_be(resp, 10))
}

/// Reads a `TPM2_GetRandom` response of `len` bytes into `output`: the number of random bytes
/// copied, at most `output.len()`.
pub fn parse_random_response(resp: &[u8], len: usize, output: &mut [u8]) -> (r: Result<usize, TpmError>)
    requires
        resp@.len() >= 12,
        len >= 10 && resp_code(resp@) == 0 ==> 12 + output.len() <= resp@.len()
            || 12 + spec_be16_at(resp@, 10) <= resp@.len(),
    ensures
        len < 10 ==> r == Err::<usize, TpmError>(TpmError::BufferTooSmall) && final(output)@ == old(output)@,
        len >= 10 && resp_code(resp@) != 0 ==> r == Err::<usize, TpmError>(
            TpmError::ResponseError((resp_code(resp@) & 0xffff) as u16))
            && final(output)@ == old(output)@,
        len >= 10 && resp_code(resp@) == 0 ==> ({
            let n = if spec_be16_at(resp@, 10) < old(output)@.len() { spec_be16_at(resp@, 10) as int } else { old(output)@.len() as int };
            &&& r == Ok::<usize, TpmError>(n as usize)
            &&& final(output)@ == resp@.subrange(12, 12 + n) + old(output)@.subrange(n, old(output)@.len() as int)
        }),
{
    if len < 10 {
        return Err(TpmError::BufferTooSmall);
    }
    let response_code = get_u32_be(resp, 6);
    if response_code != 0 {
        return Err(TpmError::ResponseError((response_code & 0xFFFF) as u16));
    }
    let rand_size = get_u16_be(resp, 10) as usize;
    let n = if rand_size < output.len() { rand_size } else { output.len() };
    copy_bytes(output, 0, resp, 12, n);
    assert(final(output)@ =~= resp@.subrange(12, 12 + n) + old(output)@.subrange(n as int, old(output)@.len() as int));
    Ok(n)
}

/// Reads a `TPM2_Startup` response of `len` bytes; a TPM that was already started is fine.
pub fn parse_startup_response(resp: &[u8], len: usize) -> (r: Result<(), TpmError>)
    requires
        resp@.len() >= 10,
    ensures
        len < 10 ==> r == Err::<(), TpmError>(TpmError::BufferTooSmall),
        len >= 10 && (resp_code(resp@) == 0 || resp_code(resp@) == TPM_RC_INITIALIZE) ==> r == Ok::<(), TpmError>(()),
        len >= 10 && resp_code(resp@) != 0 && resp_code(resp@) != TPM_RC_INITIALIZE ==> r == Err::<(), TpmError>(
            TpmError::ResponseError((resp_code(resp@) & 0xffff) as u16)),
{
    if len < 10 {
        return Err(TpmError::BufferTooSmall);
    }
    let response_code = get_u32_be(resp, 6);
    if response_code != 0 {
        if response_code == TPM_RC_INITIALIZE {
            return Ok(());
        }
        return Err(TpmError::ResponseError((response_code & 0xFFFF) as u16));
    }
    Ok(())
}

/// The sizes and places of the two blobs in a `TPM2_Create` response: the private blob's size
/// and where it starts, then the public blob's size and where it starts.
pub open spec fn create_layout(resp: Seq<u8>) -> (u16, int, u16, int) {
    let start = resp_params_start(resp);
    let priv_size = spec_be16_at(resp, start);
    let pub_size = spec_be16_at(resp, start + 2 + priv_size);
    (priv_size, start + 2, pub_size, start + 4 + priv_size)
}

/// Every part of a `TPM2_Create` response that its reading touches lies in the response.
pub open spec fn create_response_in_bounds(resp: Seq<u8>, pub_cap: nat, priv_cap: nat) -> bool {
    let (priv_size, priv_at, pub_size, pub_at) = create_layout(resp);
    resp.len() >= 16 && (resp_code(resp) == 0 ==> {
        &&& priv_at <= resp.len()
        &&& priv_size <= priv_cap ==> {
            &&& pub_at <= resp.len()
            &&& pub_size <= pub_cap ==> pub_at + pub_size <= resp.len()
        }
    })
}

/// Whether reading this `TPM2_Create` response stays within it.
pub fn create_response_fits(resp: &[u8], pub_cap: usize, priv_cap: usize) -> (r: bool)
    ensures
        r == create_response_in_bounds(resp@, pub_cap as nat, priv_cap as nat),
{
    if resp.len() < 16 {
        return false;
    }
    if get_u32_be(resp, 6) != 0 {
        return true;
    }
    let start: usize = if get_u16_be(resp, 0) == TPM2_ST_SESSIONS { 14 } else { 10 };
    let priv_size = get_u16_be(resp, start) as usize;
    if priv_size > priv_cap {
        return true;
    }
    if start + 4 + priv_size > resp.len() {
        return false;
    }
    let pub_size = get_u16_be(resp, start + 2 + priv_size) as usize;
    if pub_size > pub_cap {
        return true;
    }
    start + 4 + priv_size + pub_size <= resp.len()
}

/// What reading a `TPM2_Create` response gives: the sizes of the public and the private blob,
/// or why it failed.
pub open spec fn create_result(resp: Seq<u8>, pub_cap: nat, priv_cap: nat) -> Result<(usize, usize), TpmError> {
    let (priv_size, priv_at, pub_size, pub_at) = create_layout(resp);
    if resp_code(resp) != 0 {
        Err(TpmError::ResponseError(resp_code(resp) as u16))
    } else if priv_size > priv_cap || pub_size > pub_cap {
        Err(TpmError::BufferTooSmall)
    } else {
        Ok((pub_size as usize, priv_size as usize))
    }
}

/// The private-blob buffer after reading a `TPM2_Create` response.
pub open spec fn create_priv_out(resp: Seq<u8>, out_priv: Seq<u8>) -> Seq<u8> {
    let (priv_size, priv_at, pub_size, pub_at) = create_layout(resp);
    if resp_code(resp) != 0 || priv_size > out_priv.len() {
        out_priv
    } else {
        resp.subrange(priv_at, priv_at + priv_size) + out_priv.subrange(priv_size as int, out_priv.len() as int)
    }
}

/// The public-blob buffer after reading a `TPM2_Create` response.
pub open spec fn create_pub_out(resp: Seq<u8>, out_pub: Seq<u8>, priv_cap: nat) -> Seq<u8> {
    let (priv_size, priv_at, pub_size, pub_at) = create_layout(resp);
    if resp_code(resp) != 0 || priv_size > priv_cap || pub_size > out_pub.len() {
        out_pub
    } else {
        resp.subrange(pub_at, pub_at + pub_size) + out_pub.subrange(pub_size as int, out_pub.len() as int)
    }
}

/// Reads a `TPM2_Create` response: copies the private blob into `output_priv` and then the
/// public blob into `output_pub`, and gives their sizes as (public, private). A blob that does
/// not fit its buffer ends the reading with `BufferTooSmall`.
pub fn parse_create_response(resp: &[u8], output_pub: &mut [u8], output_priv: &mut [u8]) -> (r: Result<(usize, usize), TpmError>)
    requires
        create_response_in_bounds(resp@, old(output_pub)@.len(), old(output_priv)@.len()),
    ensures
        r == create_result(resp@, old(output_pub)@.len(), old(output_priv)@.len()),
        final(output_priv)@ == create_priv_out(resp@, old(output_priv)@),
        final(output_pub)@ == create_pub_out(resp@, old(output_pub)@, old(output_priv)@.len()),
{
    let rc = get_u32_be(resp, 6);
    if rc != 0 {
        return Err(TpmError::ResponseError(rc as u16));
    }
    let resp_tag = get_u16_be(resp, 0);
    let mut r_idx: usize = if resp_tag == TPM2_ST_SESSIONS { 14 } else { 10 };

    let priv_size = get_u16_be(resp, r_idx) as usize;
    r_idx += 2;
    if output_priv.len() < priv_size {
        return Err(TpmError::BufferTooSmall);
    }
    copy_bytes(output_priv, 0, resp, r_idx, priv_size);
    r_idx += priv_size;

    let pub_size = get_u16_be(resp, r_idx) as usize;
    r_idx += 2;
    if output_pub.len() < pub_size {
        return Err(TpmError::BufferTooSmall);
    }
    copy_bytes(output_pub, 0, resp, r_idx, pub_size);
    Ok((pub_size, priv_size))
}

/// Every part of a `TPM2_Unseal` response that its reading touches lies in the response.
pub open spec fn unseal_response_in_bounds(resp: Seq<u8>, out_cap: nat) -> bool {
    let start = resp_params_start(resp);
    resp.len() >= 16 && (resp_code(resp) == 0 && spec_be16_at(resp, start) <= out_cap
        ==> start + 2 + spec_be16_at(resp, start) <= resp.len())
}

/// Whether reading this `TPM2_Unseal` response stays within it.
pub fn unseal_response_fits(resp: &[u8], out_cap: usize) -> (r: bool)
    ensures
        r == unseal_response_in_bounds(resp@, out_cap as nat),
{
    if resp.len() < 16 {
        return false;
    }
    if get_u32_be(resp, 6) != 0 {
        return true;
    }
    let start: usize = if get_u16_be(resp, 0) == TPM2_ST_SESSIONS { 14 } else { 10 };
    let size = get_u16_be(resp, start) as usize;
    size > out_cap || start + 2 + size <= resp.len()
}

/// What reading a `TPM2_Unseal` response gives: the size of the unsealed data, or why it failed.
pub open spec fn unseal_result(resp: Seq<u8>, out_cap: nat) -> Result<usize, TpmError> {
    let size = spec_be16_at(resp, resp_params_start(resp));
    if resp_code(resp) != 0 {
        Err(TpmError::ResponseError(resp_code(resp) as u16))
    } else if size > out_cap {
        Err(TpmError::BufferTooSmall)
    } else {
        Ok(size as usize)
    }
}

/// The output buffer after reading a `TPM2_Unseal` response.
pub open spec fn unseal_out(resp: Seq<u8>, out: Seq<u8>) -> Seq<u8> {
    let start = resp_params_start(resp);
    let size = spec_be16_at(resp, start);
    if resp_code(resp) != 0 || size > out.len() {
        out
    } else {
        resp.subrange(start + 2, start + 2 + size) + out.subrange(size as int, out.len() as int)
    }
}

/// Reads a `TPM2_Unseal` response: copies the unsealed data into `output` and gives its size.
pub fn parse_unseal_response(resp: &[u8], output: &mut [u8]) -> (r: Result<usize, TpmError>)
    requires
        unseal_response_in_bounds(resp@, old(output)@.len()),
    ensures
        r == unseal_result(resp@, old(output)@.len()),
        final(output)@ == unseal_out(resp@, old(output)@),
{
    let rc = get_u32_be(resp, 6);
    if rc != 0 {
        return Err(TpmError::ResponseError(rc as u16));
    }
    let resp_tag = get_u16_be(resp, 0);
    let mut r_idx: usize = if resp_tag == TPM2_ST_SESSIONS { 14 } else { 10 };
    let data_size = get_u16_be(resp, r_idx) as usize;
    r_idx += 2;
    if output.len() < data_size {
        return Err(TpmError::BufferTooSmall);
    }
    copy_bytes(output, 0, resp, r_idx, data_size);
    Ok(data_size)
}

/// What an unseal outcome means for unlocking: a lockout code means the TPM is locked out,
/// an authorization failure code means a wrong PIN, anything else is passed on.
pub open spec fn spec_unlock_outcome(res: Result<usize, TpmError>) -> Result<usize, UnlockError> {
    match res {
        Ok(sz) => Ok(sz),
        Err(TpmError::ResponseError(rc)) =>
            if rc & TPM_RC_LOCKOUT == TPM_RC_LOCKOUT {
                Err(UnlockError::Lockout)
            } else if rc & TPM_RC_AUTH_FAIL == TPM_RC_AUTH_FAIL {
                Err(UnlockError::WrongPin)
            } else {
                Err(UnlockError::TpmError(TpmError::ResponseError(rc)))
            },
        Err(e) => Err(UnlockError::TpmError(e)),
    }
}

/// Classifies the outcome of unsealing the disk key.
pub fn unlock_outcome(res: Result<usize, TpmError>) -> (r: Result<usize, UnlockError>)
    ensures
        r == spec_unlock_outcome(res),
{
    match res {
        Ok(sz) => Ok(sz),
        Err(TpmError::ResponseError(rc)) => {
            if rc & TPM_RC_LOCKOUT == TPM_RC_LOCKOUT {
                Err(UnlockError::Lockout)
            } else if rc & TPM_RC_AUTH_FAIL == TPM_RC_AUTH_FAIL {
                Err(UnlockError::WrongPin)
            } else {
                Err(UnlockError::TpmError(TpmError::ResponseError(rc)))
            }
        },
        Err(e) => Err(UnlockError::TpmError(e)),
    }
}

/// The verdict of a key round trip: the key that came out must fill the output buffer and
/// equal the key that was sealed; anything else counts as a wrong PIN.
pub fn key_test_verdict(sz: usize, decrypted: &[u8], master: &[u8]) -> (r: Result<(), UnlockError>)
    requires
        sz == decrypted@.len() ==> sz <= master@.len(),
    ensures
        r is Ok <==> sz == decrypted@.len() && decrypted@ == master@.subrange(0, sz as int),
        r is Err ==> r == Err::<(), UnlockError>(UnlockError::WrongPin),
{
    if sz != decrypted.len() {
        return Err(UnlockError::WrongPin);
    }
    let mut i: usize = 0;
    while i < sz
        invariant
            i <= sz,
            sz == decrypted@.len(),
            sz <= master@.len(),
            forall|j: int| 0 <= j < i ==> decrypted@[j] == master@[j],
        decreases sz - i,
    {
        if decrypted[i] != master[i] {
            assert(decrypted@[i as int] != master@.subrange(0, sz as int)[i as int]);
            return Err(UnlockError::WrongPin);
        }
        i += 1;
    }
    assert(decrypted@ =~= master@.subrange(0, sz as int));
    Ok(())
}

} // verus!
