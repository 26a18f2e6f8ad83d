use s3k_fs::tpm::{
    create_primary_srk_command, create_response_fits, flush_context_command, get_random_command,
    locality_granted, parse_create_response, parse_handle_response, parse_random_response,
    parse_startup_response, parse_unseal_response, startup_command, sts_burst_count,
    sts_command_ready, sts_data_avail, tpm2_create_command, tpm2_load_command, tpm2_unseal_command,
    unlock_outcome, unseal_response_fits, TpmDevice, TpmError, UnlockError,
};
use s3k_fs::tpm_session::{DecryptMasterKey, ProvisionMasterKey, ProvisionPhase, TpmStep, UnsealPhase};

/// A response with the sessions tag, response code `rc`, and `params` after the parameter size.
fn session_response(rc: u32, params: &[u8]) -> Vec<u8> {
    let mut r = vec![0x80, 0x02];
    r.extend_from_slice(&((14 + params.len()) as u32).to_be_bytes());
    r.extend_from_slice(&rc.to_be_bytes());
    r.extend_from_slice(&(params.len() as u32).to_be_bytes());
    r.extend_from_slice(params);
    r
}

fn handle_response(handle: u32) -> Vec<u8> {
    let mut r = vec![0x80, 0x01, 0, 0, 0, 14, 0, 0, 0, 0];
    r.extend_from_slice(&handle.to_be_bytes());
    r
}

fn sized(data: &[u8]) -> Vec<u8> {
    let mut r = (data.len() as u16).to_be_bytes().to_vec();
    r.extend_from_slice(data);
    r
}

#[test]
fn device_keeps_its_base() {
    assert_eq!(TpmDevice::new(0x0400_0000).base(), 0x0400_0000);
}

#[test]
fn status_bits() {
    assert!(locality_granted(0xA0));
    assert!(!locality_granted(0x80));
    assert!(!locality_granted(0x20));
    assert!(sts_command_ready(0x40));
    assert!(!sts_command_ready(0x10));
    assert!(sts_data_avail(0x90));
    assert_eq!(sts_burst_count(0x0012_3440), 0x1234);
}

#[test]
fn simple_commands() {
    assert_eq!(get_random_command(16), vec![0x80, 0x01, 0, 0, 0, 12, 0, 0, 0x01, 0x7B, 0, 16]);
    assert_eq!(startup_command(), vec![0x80, 0x01, 0, 0, 0, 12, 0, 0, 0x01, 0x44, 0, 0]);
    assert_eq!(
        flush_context_command(0x8000_0001),
        vec![0x80, 0x01, 0, 0, 0, 14, 0, 0, 0x01, 0x65, 0x80, 0, 0, 0x01]
    );
}

#[test]
fn create_primary_command() {
    let c = create_primary_srk_command();
    assert_eq!(c.len(), 67);
    assert_eq!(&c[0..14], &[0x80, 0x02, 0, 0, 0, 67, 0, 0, 0x01, 0x31, 0x40, 0, 0, 0x01]);
    // Empty password session.
    assert_eq!(&c[14..27], &[0, 0, 0, 9, 0x40, 0, 0, 0x09, 0, 0, 0, 0, 0]);
    // Public area: RSA, SHA-256, attributes 0x30472.
    assert_eq!(&c[33..43], &[0, 26, 0, 0x01, 0, 0x0B, 0, 0x03, 0x04, 0x72]);
    assert_eq!(&c[61..67], &[0, 0, 0, 0, 0, 0]);
}

#[test]
fn create_and_load_and_unseal_commands() {
    let key = [0xAAu8; 32];
    let c = tpm2_create_command(0x8000_0000, b"1234", &key);
    assert_eq!(c.len(), 91);
    assert_eq!(&c[0..14], &[0x80, 0x02, 0, 0, 0, 91, 0, 0, 0x01, 0x53, 0x80, 0, 0, 0]);
    assert_eq!(&c[27..35], &[0, 40, 0, 4, b'1', b'2', b'3', b'4']);
    assert_eq!(&c[35..37], &[0, 32]);
    assert_eq!(&c[37..69], &key);
    assert_eq!(&c[69..71], &[0, 14]);

    let l = tpm2_load_command(0x8000_0000, &[1, 2, 3], &[4, 5]);
    assert_eq!(l.len(), 36);
    assert_eq!(&l[0..10], &[0x80, 0x02, 0, 0, 0, 36, 0, 0, 0x01, 0x57]);
    assert_eq!(&l[27..36], &[0, 2, 4, 5, 0, 3, 1, 2, 3]);

    let u = tpm2_unseal_command(0x8000_0002, b"42");
    assert_eq!(u.len(), 29);
    assert_eq!(
        u,
        vec![0x80, 0x02, 0, 0, 0, 29, 0, 0, 0x01, 0x5E, 0x80, 0, 0, 0x02, 0, 0, 0, 11, 0x40, 0, 0, 0x09, 0, 0, 0x01, 0, 2, b'4', b'2']
    );
}

#[test]
fn handle_responses() {
    assert_eq!(parse_handle_response(&handle_response(0x8000_0001)), Ok(0x8000_0001));
    let mut bad = handle_response(0x8000_0001);
    bad[8] = 0x09;
    bad[9] = 0x8E;
    assert_eq!(parse_handle_response(&bad), Err(TpmError::ResponseError(0x098E)));
}

#[test]
fn random_responses() {
    let mut resp = vec![0x80, 0x01, 0, 0, 0, 16, 0, 0, 0, 0, 0, 4, 9, 8, 7, 6];
    let mut out = [0u8; 8];
    assert_eq!(parse_random_response(&resp, 16, &mut out), Ok(4));
    assert_eq!(out, [9, 8, 7, 6, 0, 0, 0, 0]);
    let mut small = [0u8; 2];
    assert_eq!(parse_random_response(&resp, 16, &mut small), Ok(2));
    assert_eq!(small, [9, 8]);
    assert_eq!(parse_random_response(&resp, 9, &mut small), Err(TpmError::BufferTooSmall));
    resp[9] = 0x01;
    assert_eq!(parse_random_response(&resp, 16, &mut small), Err(TpmError::ResponseError(1)));
}

#[test]
fn startup_responses() {
    let ok = vec![0x80, 0x01, 0, 0, 0, 10, 0, 0, 0, 0];
    assert_eq!(parse_startup_response(&ok, 10), Ok(()));
    assert_eq!(parse_startup_response(&ok, 9), Err(TpmError::BufferTooSmall));
    let started = vec![0x80, 0x01, 0, 0, 0, 10, 0, 0, 0x01, 0x00];
    assert_eq!(parse_startup_response(&started, 10), Ok(()));
    let failed = vec![0x80, 0x01, 0, 0, 0, 10, 0, 0, 0x01, 0x01];
    assert_eq!(parse_startup_response(&failed, 10), Err(TpmError::ResponseError(0x101)));
}

#[test]
fn create_responses() {
    let mut params = sized(&[1, 2, 3]);
    params.extend(sized(&[7, 8]));
    let resp = session_response(0, &params);
    let mut out_pub = [0u8; 4];
    let mut out_priv = [0u8; 4];
    assert!(create_response_fits(&resp, 4, 4));
    assert_eq!(parse_create_response(&resp, &mut out_pub, &mut out_priv), Ok((2, 3)));
    assert_eq!(out_priv, [1, 2, 3, 0]);
    assert_eq!(out_pub, [7, 8, 0, 0]);

    let mut tiny = [0u8; 2];
    let mut out_pub2 = [0u8; 4];
    assert_eq!(parse_create_response(&resp, &mut out_pub2, &mut tiny), Err(TpmError::BufferTooSmall));
    assert_eq!(tiny, [0, 0]);

    let failed = session_response(0x98E, &[0, 0]);
    let mut a = [0u8; 4];
    let mut b = [0u8; 4];
    assert!(create_response_fits(&failed, 4, 4));
    assert_eq!(parse_create_response(&failed, &mut a, &mut b), Err(TpmError::ResponseError(0x98E)));

    let truncated = &resp[0..17];
    assert!(!create_response_fits(truncated, 4, 4));
}

#[test]
fn unseal_responses() {
    let resp = session_response(0, &sized(&[5, 6, 7]));
    let mut out = [0u8; 4];
    assert!(unseal_response_fits(&resp, 4));
    assert_eq!(parse_unseal_response(&resp, &mut out), Ok(3));
    assert_eq!(out, [5, 6, 7, 0]);
    let mut small = [0u8; 2];
    assert_eq!(parse_unseal_response(&resp, &mut small), Err(TpmError::BufferTooSmall));
    let failed = session_response(0x921, &[0, 0]);
    assert_eq!(parse_unseal_response(&failed, &mut out), Err(TpmError::ResponseError(0x921)));
    assert!(!unseal_response_fits(&resp[0..18], 4));
}

#[test]
fn unlock_outcomes() {
    assert_eq!(unlock_outcome(Ok(64)), Ok(64));
    assert_eq!(unlock_outcome(Err(TpmError::ResponseError(0x921))), Err(UnlockError::Lockout));
    assert_eq!(unlock_outcome(Err(TpmError::ResponseError(0x98E))), Err(UnlockError::WrongPin));
    assert_eq!(
        unlock_outcome(Err(TpmError::ResponseError(0x101))),
        Err(UnlockError::TpmError(TpmError::ResponseError(0x101)))
    );
    assert_eq!(unlock_outcome(Err(TpmError::Timeout)), Err(UnlockError::TpmError(TpmError::Timeout)));
}

fn command_of<T>(step: &TpmStep<T>) -> (Vec<u8>, usize) {
    match step {
        TpmStep::Send { command, response_len } => (command.clone(), *response_len),
        TpmStep::Done(_) => panic!("session ended early"),
    }
}

fn random_response(bytes: &[u8]) -> Vec<u8> {
    let mut r = vec![0x80, 0x01, 0, 0, 0, (12 + bytes.len()) as u8, 0, 0, 0, 0];
    r.extend(sized(bytes));
    r.resize(512, 0);
    r
}

#[test]
fn sealing_a_generated_master_key() {
    let pin = b"1234";
    let first_half: Vec<u8> = (1..=32).collect();
    let second_half: Vec<u8> = (101..=132).collect();
    let mut key = [0u8; 64];
    let mut out_pub = [0u8; 16];
    let mut out_priv = [0u8; 16];
    let (mut s, first) = ProvisionMasterKey::start();
    assert_eq!(command_of(&first), (get_random_command(32), 512));
    assert_eq!(s.phase, ProvisionPhase::Generating(0));
    let step = s.step(Ok(44), &random_response(&first_half), pin, &mut key, &mut out_pub, &mut out_priv);
    assert_eq!(command_of(&step), (get_random_command(32), 512));
    assert_eq!(s.phase, ProvisionPhase::Generating(32));
    assert_eq!(&key[..32], &first_half[..]);
    assert_eq!(&key[32..], &[0u8; 32]);
    let step = s.step(Ok(44), &random_response(&second_half), pin, &mut key, &mut out_pub, &mut out_priv);
    assert_eq!(command_of(&step), (create_primary_srk_command(), 2048));
    assert_eq!(&key[..32], &first_half[..]);
    assert_eq!(&key[32..], &second_half[..]);
    assert_eq!(s.key, key.to_vec());
    let step = s.step(Ok(14), &handle_response(0x8000_0000), pin, &mut key, &mut out_pub, &mut out_priv);
    assert_eq!(command_of(&step), (tpm2_create_command(0x8000_0000, pin, &key), 2048));
    assert_eq!(s.phase, ProvisionPhase::Creating(0x8000_0000));
    let mut params = sized(&[1, 2, 3, 4, 5]);
    params.extend(sized(&[9, 9]));
    let step = s.step(Ok(40), &session_response(0, &params), pin, &mut key, &mut out_pub, &mut out_priv);
    assert_eq!(command_of(&step), (flush_context_command(0x8000_0000), 16));
    assert_eq!(&out_priv[0..5], &[1, 2, 3, 4, 5]);
    assert_eq!(&out_pub[0..2], &[9, 9]);
    let last = s.step(Ok(10), &[0x80, 0x01, 0, 0, 0, 10, 0, 0, 0, 0], pin, &mut key, &mut out_pub, &mut out_priv);
    assert!(matches!(last, TpmStep::Done(Ok((2, 5)))));
    assert_eq!(s.phase, ProvisionPhase::Finished);
}

#[test]
fn sealing_stops_generating_when_the_tpm_gives_no_bytes() {
    let mut key = [0u8; 64];
    let mut out_pub = [0u8; 4];
    let mut out_priv = [0u8; 4];
    let (mut s, _) = ProvisionMasterKey::start();
    let step = s.step(Ok(28), &random_response(&[5u8; 16]), b"1", &mut key, &mut out_pub, &mut out_priv);
    assert_eq!(command_of(&step), (get_random_command(32), 512));
    let step = s.step(Ok(12), &random_response(&[]), b"1", &mut key, &mut out_pub, &mut out_priv);
    assert_eq!(command_of(&step), (create_primary_srk_command(), 2048));
    assert_eq!(&key[..16], &[5u8; 16]);
    assert_eq!(s.key, key.to_vec());
}

#[test]
fn sealing_stops_at_the_first_failure() {
    let mut out_pub = [0u8; 4];
    let mut out_priv = [0u8; 4];
    let mut key = [7u8; 64];
    let (mut s, _) = ProvisionMasterKey::start();
    let step = s.step(Err(TpmError::Timeout), &[], b"1", &mut key, &mut out_pub, &mut out_priv);
    assert!(matches!(step, TpmStep::Done(Err(TpmError::Timeout))));
    assert_eq!(s.phase, ProvisionPhase::Finished);
    assert_eq!(key, [7u8; 64]);
    let (mut s, _) = ProvisionMasterKey::start();
    let mut refused = random_response(&[1, 2]);
    refused[9] = 0x01;
    let step = s.step(Ok(16), &refused, b"1", &mut key, &mut out_pub, &mut out_priv);
    assert!(matches!(step, TpmStep::Done(Err(TpmError::ResponseError(0x0001)))));
    assert_eq!(key, [7u8; 64]);
}

#[test]
fn unsealing_a_master_key() {
    let pin = b"1234";
    let blob_pub = [1u8, 2, 3];
    let blob_priv = [4u8, 5];
    let mut key = [0u8; 64];
    let (mut s, first) = DecryptMasterKey::start();
    assert_eq!(command_of(&first), (create_primary_srk_command(), 2048));
    let step = s.step(Ok(14), &handle_response(0x8000_0000), pin, &blob_pub, &blob_priv, &mut key);
    assert_eq!(command_of(&step), (tpm2_load_command(0x8000_0000, &blob_pub, &blob_priv), 64));
    let step = s.step(Ok(14), &handle_response(0x8000_0001), pin, &blob_pub, &blob_priv, &mut key);
    assert_eq!(command_of(&step), (tpm2_unseal_command(0x8000_0001, pin), 256));
    let secret: Vec<u8> = (0u8..64).collect();
    let step = s.step(Ok(80), &session_response(0, &sized(&secret)), pin, &blob_pub, &blob_priv, &mut key);
    assert_eq!(command_of(&step), (flush_context_command(0x8000_0001), 16));
    assert_eq!(key.to_vec(), secret);
    let step = s.step(Ok(10), &[], pin, &blob_pub, &blob_priv, &mut key);
    assert_eq!(command_of(&step), (flush_context_command(0x8000_0000), 16));
    let last = s.step(Ok(10), &[], pin, &blob_pub, &blob_priv, &mut key);
    assert!(matches!(last, TpmStep::Done(Ok(64))));
    assert!(matches!(s.phase, UnsealPhase::Finished));
}

#[test]
fn unsealing_with_a_wrong_pin() {
    let mut key = [0u8; 64];
    let (mut s, _) = DecryptMasterKey::start();
    s.step(Ok(14), &handle_response(0x8000_0000), b"0000", &[1], &[2], &mut key);
    s.step(Ok(14), &handle_response(0x8000_0001), b"0000", &[1], &[2], &mut key);
    s.step(Ok(14), &session_response(0x98E, &[0, 0]), b"0000", &[1], &[2], &mut key);
    assert_eq!(key, [0u8; 64]);
    s.step(Ok(10), &[], b"0000", &[1], &[2], &mut key);
    let last = s.step(Ok(10), &[], b"0000", &[1], &[2], &mut key);
    assert!(matches!(last, TpmStep::Done(Err(UnlockError::WrongPin))));
}

#[test]
fn failed_load_still_flushes_the_primary_key() {
    let mut key = [0u8; 64];
    let (mut s, _) = DecryptMasterKey::start();
    s.step(Ok(14), &handle_response(0x8000_0000), b"1", &[1], &[2], &mut key);
    let mut bad = handle_response(0);
    bad[9] = 0x84;
    let step = s.step(Ok(14), &bad, b"1", &[1], &[2], &mut key);
    assert_eq!(command_of(&step), (flush_context_command(0x8000_0000), 16));
    let last = s.step(Ok(10), &[], b"1", &[1], &[2], &mut key);
    assert!(matches!(last, TpmStep::Done(Err(UnlockError::TpmError(TpmError::ResponseError(0x84))))));
}
