use aes::cipher::KeyInit;
use aes::Aes256;
use s3k_fs::enc::{
    decrypt_data, encrypt_data, sealed_blob_fits, unpack_sealed_blob, BlockOperationError, DeviceMetadata,
    EncryptionState, WorkingMode, MAGIC_SIGNATURE, SEALED_BLOB_LEN,
};
use s3k_fs::errno::Errno;
use xts_mode::{get_tweak_default, Xts128};

fn test_key() -> [u8; 64] {
    let mut k = [0u8; 64];
    for (i, b) in k.iter_mut().enumerate() {
        *b = (i as u8).wrapping_mul(7).wrapping_add(3);
    }
    k
}

fn reference_encrypt(key: &[u8; 64], data: &[u8], sector: u128) -> Vec<u8> {
    let xts = Xts128::<Aes256>::new(Aes256::new(key[0..32].into()), Aes256::new(key[32..64].into()));
    let mut buf = data.to_vec();
    let len = buf.len();
    xts.encrypt_area(&mut buf, len, sector, get_tweak_default);
    buf
}

#[test]
fn encrypt_matches_aes_xts() {
    let key = test_key();
    let plain: Vec<u8> = (0..512).map(|i| (i % 251) as u8).collect();
    let mut buf = plain.clone();
    assert_eq!(encrypt_data(&mut buf, 5, 0, &key), Ok(()));
    assert_ne!(buf, plain);
    assert_eq!(buf, reference_encrypt(&key, &plain, 5));
    assert_eq!(decrypt_data(&mut buf, 5, 0, &key), Ok(()));
    assert_eq!(buf, plain);
}

#[test]
fn the_sector_index_is_the_tweak() {
    let key = test_key();
    let plain = vec![0x5Au8; 512];
    let mut a = plain.clone();
    let mut b = plain.clone();
    encrypt_data(&mut a, 1, 0, &key).unwrap();
    encrypt_data(&mut b, 2, 0, &key).unwrap();
    assert_ne!(a, b);
    decrypt_data(&mut b, 1, 0, &key).unwrap();
    assert_ne!(b, plain);
}

#[test]
fn unknown_algorithms_are_refused() {
    let key = test_key();
    let mut buf = vec![1u8; 32];
    assert_eq!(encrypt_data(&mut buf, 0, 1, &key), Err(BlockOperationError::UnSupportedAlgorithm));
    assert_eq!(decrypt_data(&mut buf, 0, 7, &key), Err(BlockOperationError::UnSupportedAlgorithm));
    assert_eq!(buf, vec![1u8; 32]);
}

#[test]
fn metadata_sector_round_trip() {
    let mut m = DeviceMetadata::new();
    assert_eq!(m.magic, MAGIC_SIGNATURE);
    assert_eq!(m.version, 1);
    m.is_encrypted = 1;
    m.pack_sealed_blob(&[1, 2, 3], 3, &[4, 5, 6, 7, 8], 5);
    let bytes = m.to_bytes();
    assert_eq!(bytes.len(), 512);
    assert_eq!(&bytes[0..7], &[0x67, 0x67, 0x67, 0x67, 1, 1, 0]);
    assert_eq!(&bytes[7..23], &[3, 0, 0, 0, 1, 2, 3, 5, 0, 0, 0, 4, 5, 6, 7, 8]);
    let back = DeviceMetadata::from_bytes(&bytes);
    assert_eq!(back.magic, m.magic);
    assert_eq!(back.version, 1);
    assert_eq!(back.is_encrypted, 1);
    assert_eq!(back.algo_id, 0);
    assert_eq!(back.sealed_blob, m.sealed_blob);
}

#[test]
fn default_metadata_is_version_zero() {
    let d = DeviceMetadata::default();
    assert_eq!(d.magic, MAGIC_SIGNATURE);
    assert_eq!(d.version, 0);
    assert_eq!(d.is_encrypted, 0);
    assert_eq!(d.sealed_blob, [0u8; 505]);
}

#[test]
fn sealed_blob_round_trip() {
    let mut m = DeviceMetadata::new();
    let pub_blob: Vec<u8> = (0..100).collect();
    let priv_blob: Vec<u8> = (100..250).collect();
    m.pack_sealed_blob(&pub_blob, 100, &priv_blob, 150);
    assert!(sealed_blob_fits(&m.sealed_blob));
    let (pa, ps, qa, qs) = unpack_sealed_blob(&m.sealed_blob);
    assert_eq!((pa, ps, qa, qs), (4, 100, 108, 150));
    assert_eq!(&m.sealed_blob[pa..pa + ps], &pub_blob[..]);
    assert_eq!(&m.sealed_blob[qa..qa + qs], &priv_blob[..]);
    assert_eq!(SEALED_BLOB_LEN, 505);
}

#[test]
fn sealed_blob_out_of_bounds() {
    let mut blob = [0u8; 505];
    blob[0] = 0xFF;
    blob[1] = 0x01;
    assert!(!sealed_blob_fits(&blob));
    let mut blob2 = [0u8; 505];
    blob2[0] = 4;
    blob2[8] = 0xF0;
    blob2[9] = 0x01;
    assert!(!sealed_blob_fits(&blob2));
    assert!(!sealed_blob_fits(&[1, 0]));
    assert!(sealed_blob_fits(&[0u8; 8]));
}

#[test]
fn mounting_a_blank_disk_asks_for_formatting() {
    let (st, fresh) = EncryptionState::mount(&[0u8; 512]);
    assert!(fresh);
    assert_eq!(st.working_mode, WorkingMode::Normal);
    assert_eq!(st.device_metadata.version, 1);
    assert_eq!(st.device_metadata.magic, MAGIC_SIGNATURE);
}

#[test]
fn mounting_an_encrypted_disk_locks_it() {
    let mut m = DeviceMetadata::new();
    m.is_encrypted = 1;
    let (st, fresh) = EncryptionState::mount(&m.to_bytes());
    assert!(!fresh);
    assert_eq!(st.working_mode, WorkingMode::Encrypted);
    assert_eq!(st.block_sector(3), Err(Errno::EUNDEF));
    assert_eq!(st.prepare_write(3, &[0u8; 512]).err(), Some(Errno::EUNDEF));
    let mut buf = [0u8; 512];
    assert_eq!(st.finish_read(3, Ok(()), &mut buf), Err(Errno::EUNDEF));
    assert_eq!(st.check_unlock(), Ok(()));
    assert_eq!(st.check_enable(0), Err(BlockOperationError::InvalidState));
}

#[test]
fn plain_disk_passes_data_through() {
    let (st, _) = EncryptionState::mount(&DeviceMetadata::new().to_bytes());
    assert_eq!(st.working_mode, WorkingMode::Normal);
    assert_eq!(st.block_sector(0), Ok(1));
    let data = vec![9u8; 512];
    let (sector, bytes) = st.prepare_write(4, &data).unwrap();
    assert_eq!(sector, 5);
    assert_eq!(bytes, data);
    let mut buf = data.clone();
    assert_eq!(st.finish_read(4, Ok(()), &mut buf), Ok(()));
    assert_eq!(buf, data);
    assert_eq!(st.finish_read(4, Err(Errno::EIO), &mut buf), Err(Errno::EIO));
    assert_eq!(st.check_unlock(), Err(BlockOperationError::InvalidState));
    assert_eq!(st.check_enable(1), Err(BlockOperationError::UnSupportedAlgorithm));
    assert_eq!(st.check_enable(0), Ok(()));
}

#[test]
fn unlocked_disk_reads_back_what_was_written() {
    let mut m = DeviceMetadata::new();
    m.is_encrypted = 1;
    let (mut st, _) = EncryptionState::mount(&m.to_bytes());
    let key = test_key();
    st.unlock(&key);
    assert_eq!(st.working_mode, WorkingMode::Unlocked);
    let data: Vec<u8> = (0..512).map(|i| (i * 3 % 256) as u8).collect();
    let (sector, mut on_disk) = st.prepare_write(7, &data).unwrap();
    assert_eq!(sector, 8);
    assert_ne!(on_disk, data);
    assert_eq!(on_disk, reference_encrypt(&key, &data, 7));
    assert_eq!(st.finish_read(7, Ok(()), &mut on_disk), Ok(()));
    assert_eq!(on_disk, data);
}

#[test]
fn sealing_records_encryption() {
    let (mut st, _) = EncryptionState::mount(&DeviceMetadata::new().to_bytes());
    st.seal(0, &[1, 2], 2, &[3], 1);
    assert_eq!(st.device_metadata.is_encrypted, 1);
    assert_eq!(st.device_metadata.algo_id, 0);
    assert_eq!(&st.device_metadata.sealed_blob[0..11], &[2, 0, 0, 0, 1, 2, 1, 0, 0, 0, 3]);
    assert_eq!(st.working_mode, WorkingMode::Normal);
}

#[test]
fn encrypted_data_survives_a_restart() {
    let (mut st, fresh) = EncryptionState::mount(&[0u8; 512]);
    assert!(fresh);
    assert_eq!(st.working_mode, WorkingMode::Normal);
    assert!(st.check_enable(0).is_ok());
    st.seal(0, &[1, 2, 3], 3, &[4, 5], 2);
    let meta = st.device_metadata.to_bytes();
    let key = test_key();
    st.unlock(&key);
    let data: Vec<u8> = (0..512).map(|i| (i % 251) as u8).collect();
    let (sector, on_disk) = st.prepare_write(9, &data).unwrap();
    assert_ne!(on_disk, data);

    let (mut again, fresh) = EncryptionState::mount(&meta);
    assert!(!fresh);
    assert_eq!(again.working_mode, WorkingMode::Encrypted);
    assert_eq!(again.block_sector(9), Err(Errno::EUNDEF));
    let mut locked_read = on_disk.clone();
    assert_eq!(again.finish_read(9, Ok(()), &mut locked_read), Err(Errno::EUNDEF));
    assert!(again.check_unlock().is_ok());
    again.unlock(&key);
    assert_eq!(again.block_sector(9), Ok(sector));
    let mut buf = on_disk.clone();
    assert_eq!(again.finish_read(9, Ok(()), &mut buf), Ok(()));
    assert_eq!(buf, data);
}
