//! The two TPM conversations of the disk encryption, one command at a time: generating a
//! master key and sealing it under a PIN, and unsealing it again.
//!
//! A session hands out the next command to send; its caller sends it, and hands back whether
//! sending succeeded together with the response buffer.
use vstd::prelude::*;
use crate::bytes::{copy_bytes, spec_be16_at, spec_be32_at};
use crate::tpm::{
    TpmError, UnlockError, create_primary_srk_command, create_primary_srk_cmd, tpm2_create_command,
    tpm2_create_cmd, flush_context_command, flush_context_cmd, tpm2_load_command, tpm2_load_cmd,
    tpm2_unseal_command, tpm2_unseal_cmd, parse_handle_response, parse_create_response,
    parse_unseal_response, resp_code, create_response_in_bounds, create_result, create_priv_out,
    create_pub_out, unseal_response_in_bounds, unseal_result, unseal_out, unlock_outcome,
    spec_unlock_outcome, get_random_cmd, get_random_command, parse_random_response,
};

verus! {

/// The next thing a TPM session asks for.
pub enum TpmStep<T> {
    /// Send `command`, with a response buffer of `response_len` bytes.
    Send { command: Vec<u8>, response_len: usize },
    /// The session is over.
    Done(T),
}

/// The handle a `TPM2_CreatePrimary` or `TPM2_Load` exchange gives, or why it failed.
pub open spec fn handle_outcome(sent: Result<usize, TpmError>, resp: Seq<u8>) -> Result<u32, TpmError> {
    match sent {
        Err(e) => Err(e),
        Ok(_) => if resp_code(resp) != 0 {
            Err(TpmError::ResponseError(resp_code(resp) as u16))
        } else {
            Ok(spec_be32_at(resp, 10))
        },
    }
}

fn handle_exchange(sent: Result<usize, TpmError>, resp: &[u8]) -> (r: Result<u32, TpmError>)
    requires
        sent is Ok ==> resp@.len() >= 14,
    ensures
        r == handle_outcome(sent, resp@),
{
    match sent {
        Err(e) => Err(e),
        Ok(_) => parse_handle_response(resp),
    }
}

/// Where sealing a master key stands.
#[derive(Debug, Clone, Copy, PartialEq, Eq, Structural)]
pub enum ProvisionPhase {
    /// Waiting for more random bytes for the key; this many of its bytes are there already.
    Generating(usize),
    /// Waiting for the storage root key.
    CreatingPrimary,
    /// Waiting for the sealed object, created under this storage root key.
    Creating(u32),
    /// Waiting for the storage root key to be flushed; the blobs have these (public, private) sizes.
    Flushing(usize, usize),
    /// Over.
    Finished,
}

/// How many random bytes sealing asks the TPM for at a time: one AES-256 key.
pub const MASTER_KEY_LEN: u16 = 32;

/// How many random bytes a `TPM2_GetRandom` exchange gives for a key buffer of `out_len`
/// bytes, or why it failed.
pub open spec fn random_outcome(sent: Result<usize, TpmError>, resp: Seq<u8>, out_len: nat) -> Result<usize, TpmError> {
    match sent {
        Err(e) => Err(e),
        Ok(len) => if len < 10 {
            Err(TpmError::BufferTooSmall)
        } else if resp_code(resp) != 0 {
            Err(TpmError::ResponseError((resp_code(resp) & 0xffff) as u16))
        } else if spec_be16_at(resp, 10) < out_len {
            Ok(spec_be16_at(resp, 10) as usize)
        } else {
            Ok(out_len as usize)
        },
    }
}

/// `n` zero bytes.
fn zeros(n: usize) -> (r: Vec<u8>)
    ensures
        r@.len() == n,
{
    let mut out: Vec<u8> = Vec::new();
    let mut i: usize = 0;
    while i < n
        invariant
            i <= n,
            out@.len() == i,
        decreases n - i,
    {
        out.push(0);
        i += 1;
    }
    out
}

/// The first `n` bytes of `s`.
fn prefix(s: &[u8], n: usize) -> (r: Vec<u8>)
    requires
        n <= s@.len(),
    ensures
        r@ == s@.subrange(0, n as int),
{
    let mut out: Vec<u8> = Vec::new();
    let mut i: usize = 0;
    while i < n
        invariant
            i <= n,
            n <= s@.len(),
            out@ == s@.subrange(0, i as int),
        decreases n - i,
    {
        out.push(s[i]);
        i += 1;
        assert(out@ =~= s@.subrange(0, i as int));
    }
    out
}

/// Sealing a freshly generated key under a PIN. The key fills the caller's key buffer: the TPM
/// is asked for `MASTER_KEY_LEN` random bytes (one AES-256 key) at a time, and they are put in
/// the buffer one after another until it is full (the disk's AES-XTS key is two such keys), or
/// until the TPM gives none. Then the storage root key is created, the key is sealed under it
/// into a public and a private blob, and the storage root key is flushed. The first failure
/// ends it.
pub struct ProvisionMasterKey {
    pub phase: ProvisionPhase,
    /// The generated key, once the TPM gave it.
    pub key: Vec<u8>,
}

/// The session's state fits a key buffer of `key_len` bytes.
pub open spec fn fits_key(s: ProvisionMasterKey, key_len: nat) -> bool {
    &&& s.key@.len() <= key_len
    &&& s.phase matches ProvisionPhase::Generating(f) ==> f <= key_len
}

impl ProvisionMasterKey {
    /// Starts sealing: the first command asks for the random bytes of the key.
    pub fn start() -> (r: (ProvisionMasterKey, TpmStep<Result<(usize, usize), TpmError>>))
        ensures
            r.0.phase == ProvisionPhase::Generating(0),
            r.0.key@.len() == 0,
            forall|n: nat| fits_key(r.0, n),
            r.1 matches TpmStep::Send { command, response_len } && command@ == get_random_cmd(MASTER_KEY_LEN)
                && response_len == 512,
    {
        (ProvisionMasterKey { phase: ProvisionPhase::Generating(0), key: Vec::new() },
         TpmStep::Send { command: get_random_command(MASTER_KEY_LEN), response_len: 512 })
    }

    /// Takes the outcome of the last command: whether sending it succeeded (and the length of
    /// the response), and the response.
    pub fn step(
        &mut self,
        sent: Result<usize, TpmError>,
        resp: &[u8],
        pin: &[u8],
        master_key: &mut [u8],
        output_pub: &mut [u8],
        output_priv: &mut [u8],
    ) -> (r: TpmStep<Result<(usize, usize), TpmError>>)
        requires
            old(self).phase != ProvisionPhase::Finished,
            55 + pin@.len() + old(master_key)@.len() <= 512,
            fits_key(*old(self), old(master_key)@.len()),
            old(self).phase is Generating && sent is Ok ==> resp@.len() >= 12 + old(master_key)@.len(),
            old(self).phase == ProvisionPhase::CreatingPrimary && sent is Ok ==> resp@.len() >= 14,
            old(self).phase is Creating && sent is Ok ==> create_response_in_bounds(
                resp@, old(output_pub)@.len(), old(output_priv)@.len()),
        ensures
            final(master_key)@.len() == old(master_key)@.len(),
            fits_key(*final(self), final(master_key)@.len()),
            match old(self).phase {
                ProvisionPhase::Generating(f) => {
                    &&& final(output_pub)@ == old(output_pub)@
                    &&& final(output_priv)@ == old(output_priv)@
                    &&& match random_outcome(sent, resp@, (old(master_key)@.len() - f) as nat) {
                        Err(e) => final(self).phase == ProvisionPhase::Finished
                            && final(master_key)@ == old(master_key)@
                            && final(self).key@ == old(self).key@
                            && r == TpmStep::<Result<(usize, usize), TpmError>>::Done(Err(e)),
                        Ok(m) => {
                            &&& final(master_key)@ == old(master_key)@.subrange(0, f as int) + resp@.subrange(12, 12 + m)
                                + old(master_key)@.subrange(f + m, old(master_key)@.len() as int)
                            &&& if m == 0 || f + m == old(master_key)@.len() {
                                &&& final(self).phase == ProvisionPhase::CreatingPrimary
                                &&& final(self).key@ == final(master_key)@
                                &&& r matches TpmStep::Send { command, response_len }
                                    && command@ == create_primary_srk_cmd() && response_len == 2048
                            } else {
                                &&& final(self).phase == ProvisionPhase::Generating((f + m) as usize)
                                &&& final(self).key@ == old(self).key@
                                &&& r matches TpmStep::Send { command, response_len }
                                    && command@ == get_random_cmd(MASTER_KEY_LEN) && response_len == 512
                            }
                        },
                    }
                },
                ProvisionPhase::CreatingPrimary => {
                    &&& final(output_pub)@ == old(output_pub)@
                    &&& final(output_priv)@ == old(output_priv)@
                    &&& final(master_key)@ == old(master_key)@
                    &&& final(self).key@ == old(self).key@
                    &&& match handle_outcome(sent, resp@) {
                        Err(e) => final(self).phase == ProvisionPhase::Finished && r == TpmStep::<Result<(usize, usize), TpmError>>::Done(Err(e)),
                        Ok(srk) => final(self).phase == ProvisionPhase::Creating(srk)
                            && (r matches TpmStep::Send { command, response_len }
                                && command@ == tpm2_create_cmd(srk, pin@, old(self).key@) && response_len == 2048),
                    }
                },
                ProvisionPhase::Creating(srk) => {
                    &&& final(master_key)@ == old(master_key)@
                    &&& final(self).key@ == old(self).key@
                    &&& match sent {
                        Err(e) => {
                            &&& final(self).phase == ProvisionPhase::Finished
                            &&& r == TpmStep::<Result<(usize, usize), TpmError>>::Done(Err(e))
                            &&& final(output_pub)@ == old(output_pub)@
                            &&& final(output_priv)@ == old(output_priv)@
                        },
                        Ok(_) => {
                            &&& final(output_priv)@ == create_priv_out(resp@, old(output_priv)@)
                            &&& final(output_pub)@ == create_pub_out(resp@, old(output_pub)@, old(output_priv)@.len())
                            &&& match create_result(resp@, old(output_pub)@.len(), old(output_priv)@.len()) {
                                Err(e) => final(self).phase == ProvisionPhase::Finished
                                    && r == TpmStep::<Result<(usize, usize), TpmError>>::Done(Err(e)),
                                Ok((p, q)) => final(self).phase == ProvisionPhase::Flushing(p, q)
                                    && (r matches TpmStep::Send { command, response_len }
                                        && command@ == flush_context_cmd(srk) && response_len == 16),
                            }
                        },
                    }
                },
                ProvisionPhase::Flushing(p, q) => {
                    &&& final(self).phase == ProvisionPhase::Finished
                    &&& final(output_pub)@ == old(output_pub)@
                    &&& final(output_priv)@ == old(output_priv)@
                    &&& final(master_key)@ == old(master_key)@
                    &&& final(self).key@ == old(self).key@
                    &&& match sent {
                        Err(e) => r == TpmStep::<Result<(usize, usize), TpmError>>::Done(Err(e)),
                        Ok(_) => r == TpmStep::<Result<(usize, usize), TpmError>>::Done(Ok((p, q))),
                    }
                },
                ProvisionPhase::Finished => true,
            },
    {
        match self.phase {
            ProvisionPhase::Generating(f) => match sent {
                Err(e) => {
                    self.phase = ProvisionPhase::Finished;
                    TpmStep::Done(Err(e))
                },
                Ok(len) => {
                    let total = master_key.len();
                    let mut fresh = zeros(total - f);
                    match parse_random_response(resp, len, fresh.as_mut_slice()) {
                        Err(e) => {
                            self.phase = ProvisionPhase::Finished;
                            TpmStep::Done(Err(e))
                        },
                        Ok(m) => {
                            copy_bytes(master_key, f, fresh.as_slice(), 0, m);
                            if m == 0 || f + m == total {
                                self.key = prefix(master_key, total);
                                assert(self.key@ =~= master_key@);
                                self.phase = ProvisionPhase::CreatingPrimary;
                                TpmStep::Send { command: create_primary_srk_command(), response_len: 2048 }
                            } else {
                                self.phase = ProvisionPhase::Generating(f + m);
                                TpmStep::Send { command: get_random_command(MASTER_KEY_LEN), response_len: 512 }
                            }
                        },
                    }
                },
            },
            ProvisionPhase::CreatingPrimary => match handle_exchange(sent, resp) {
                Err(e) => {
                    self.phase = ProvisionPhase::Finished;
                    TpmStep::Done(Err(e))
                },
                Ok(srk) => {
                    self.phase = ProvisionPhase::Creating(srk);
                    TpmStep::Send { command: tpm2_create_command(srk, pin, &self.key), response_len: 2048 }
                },
            },
            ProvisionPhase::Creating(srk) => match sent {
                Err(e) => {
                    self.phase = ProvisionPhase::Finished;
                    TpmStep::Done(Err(e))
                },
                Ok(_) => match parse_create_response(resp, output_pub, output_priv) {
                    Err(e) => {
                        self.phase = ProvisionPhase::Finished;
                        TpmStep::Done(Err(e))
                    },
                    Ok((p, q)) => {
                        self.phase = ProvisionPhase::Flushing(p, q);
                        TpmStep::Send { command: flush_context_command(srk), response_len: 16 }
                    },
                },
            },
            ProvisionPhase::Flushing(p, q) => {
                self.phase = ProvisionPhase::Finished;
                match sent {
                    Err(e) => TpmStep::Done(Err(e)),
                    Ok(_) => TpmStep::Done(Ok((p, q))),
                }
            },
            ProvisionPhase::Finished => TpmStep::Done(Err(TpmError::NotReady)),
        }
    }
}

/// Where unsealing a master key stands.
#[derive(Debug, Clone, Copy)]
pub enum UnsealPhase {
    /// Waiting for the storage root key.
    CreatingPrimary,
    /// Waiting for the sealed object to load under this storage root key.
    Loading(u32),
    /// Loading failed with this error; waiting for the storage root key to be flushed.
    FlushingAfterLoad(TpmError),
    /// Waiting for the data of this object, loaded under this storage root key.
    Unsealing(u32, u32),
    /// Unsealing gave this outcome; waiting for the object to be flushed.
    FlushingObject(u32, Result<usize, TpmError>),
    /// Waiting for the storage root key to be flushed after unsealing gave this outcome.
    FlushingPrimary(Result<usize, TpmError>),
    /// Over.
    Finished,
}

/// Unsealing a master key with a PIN: create the storage root key, load the sealed object
/// under it, unseal its data with the PIN, then flush the object and the storage root key.
/// When loading fails the storage root key is still flushed; failures to flush are not looked at.
pub struct DecryptMasterKey {
    pub phase: UnsealPhase,
}

impl DecryptMasterKey {
    /// Starts unsealing: the first command creates the storage root key.
    pub fn start() -> (r: (DecryptMasterKey, TpmStep<Result<usize, UnlockError>>))
        ensures
            r.0.phase == UnsealPhase::CreatingPrimary,
            r.1 matches TpmStep::Send { command, response_len } && command@ == create_primary_srk_cmd() && response_len == 2048,
    {
        (DecryptMasterKey { phase: UnsealPhase::CreatingPrimary },
         TpmStep::Send { command: create_primary_srk_command(), response_len: 2048 })
    }

    /// Takes the outcome of the last command: whether sending it succeeded, and the response.
    pub fn step(
        &mut self,
        sent: Result<usize, TpmError>,
        resp: &[u8],
        pin: &[u8],
        input_pub: &[u8],
        input_priv: &[u8],
        output_key: &mut [u8],
    ) -> (r: TpmStep<Result<usize, UnlockError>>)
        requires
            !(old(self).phase is Finished),
            31 + input_pub@.len() + input_priv@.len() <= 2048,
            27 + pin@.len() <= 512,
            (old(self).phase == UnsealPhase::CreatingPrimary || old(self).phase is Loading) && sent is Ok
                ==> resp@.len() >= 14,
            old(self).phase is Unsealing && sent is Ok ==> unseal_response_in_bounds(resp@, old(output_key)@.len()),
        ensures
            !(old(self).phase is Unsealing) ==> final(output_key)@ == old(output_key)@,
            match old(self).phase {
                UnsealPhase::CreatingPrimary => match handle_outcome(sent, resp@) {
                    Err(e) => final(self).phase == UnsealPhase::Finished
                        && r == TpmStep::<Result<usize, UnlockError>>::Done(Err(UnlockError::TpmError(e))),
                    Ok(srk) => final(self).phase == UnsealPhase::Loading(srk)
                        && (r matches TpmStep::Send { command, response_len }
                            && command@ == tpm2_load_cmd(srk, input_pub@, input_priv@) && response_len == 64),
                },
                UnsealPhase::Loading(srk) => {
                    &&& r matches TpmStep::Send { command, response_len }
                    &&& match handle_outcome(sent, resp@) {
                        Err(e) => final(self).phase == UnsealPhase::FlushingAfterLoad(e)
                            && (r matches TpmStep::Send { command, response_len }
                                && command@ == flush_context_cmd(srk) && response_len == 16),
                        Ok(obj) => final(self).phase == UnsealPhase::Unsealing(srk, obj)
                            && (r matches TpmStep::Send { command, response_len }
                                && command@ == tpm2_unseal_cmd(obj, pin@) && response_len == 256),
                    }
                },
                UnsealPhase::FlushingAfterLoad(e) => final(self).phase == UnsealPhase::Finished
                    && r == TpmStep::<Result<usize, UnlockError>>::Done(Err(UnlockError::TpmError(e))),
                UnsealPhase::Unsealing(srk, obj) => {
                    let outcome = match sent {
                        Err(e) => Err(e),
                        Ok(_) => unseal_result(resp@, old(output_key)@.len()),
                    };
                    &&& final(self).phase == UnsealPhase::FlushingObject(srk, outcome)
                    &&& r matches TpmStep::Send { command, response_len }
                    &&& (r matches TpmStep::Send { command, response_len }
                        && command@ == flush_context_cmd(obj) && response_len == 16)
                    &&& final(output_key)@ == match sent {
                        Err(_) => old(output_key)@,
                        Ok(_) => unseal_out(resp@, old(output_key)@),
                    }
                },
                UnsealPhase::FlushingObject(srk, outcome) => final(self).phase == UnsealPhase::FlushingPrimary(outcome)
                    && (r matches TpmStep::Send { command, response_len }
                        && command@ == flush_context_cmd(srk) && response_len == 16),
                UnsealPhase::FlushingPrimary(outcome) => final(self).phase == UnsealPhase::Finished
                    && r == TpmStep::<Result<usize, UnlockError>>::Done(spec_unlock_outcome(outcome)),
                UnsealPhase::Finished => true,
            },
    {
        match self.phase {
            UnsealPhase::CreatingPrimary => match handle_exchange(sent, resp) {
                Err(e) => {
                    self.phase = UnsealPhase::Finished;
                    TpmStep::Done(Err(UnlockError::TpmError(e)))
                },
                Ok(srk) => {
                    self.phase = UnsealPhase::Loading(srk);
                    TpmStep::Send { command: tpm2_load_command(srk, input_pub, input_priv), response_len: 64 }
                },
            },
            UnsealPhase::Loading(srk) => match handle_exchange(sent, resp) {
                Err(e) => {
                    self.phase = UnsealPhase::FlushingAfterLoad(e);
                    TpmStep::Send { command: flush_context_command(srk), response_len: 16 }
                },
                Ok(obj) => {
                    self.phase = UnsealPhase::Unsealing(srk, obj);
                    TpmStep::Send { command: tpm2_unseal_command(obj, pin), response_len: 256 }
                },
            },
            UnsealPhase::FlushingAfterLoad(e) => {
                self.phase = UnsealPhase::Finished;
                TpmStep::Done(Err(UnlockError::TpmError(e)))
            },
            UnsealPhase::Unsealing(srk, obj) => {
                let outcome = match sent {
                    Err(e) => Err(e),
                    Ok(_) => parse_unseal_response(resp, output_key),
                };
                self.phase = UnsealPhase::FlushingObject(srk, outcome);
                TpmStep::Send { command: flush_context_command(obj), response_len: 16 }
            },
            UnsealPhase::FlushingObject(srk, outcome) => {
                self.phase = UnsealPhase::FlushingPrimary(outcome);
                TpmStep::Send { command: flush_context_command(srk), response_len: 16 }
            },
            UnsealPhase::FlushingPrimary(outcome) => {
                self.phase = UnsealPhase::Finished;
                TpmStep::Done(unlock_outcome(outcome))
            },
            UnsealPhase::Finished => TpmStep::Done(Err(UnlockError::TpmError(TpmError::NotReady))),
        }
    }
}

} // verus!
