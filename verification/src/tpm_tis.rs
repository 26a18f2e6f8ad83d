//! Talking to the TPM through its TIS registers, one register access at a time: claiming
//! locality 0, and sending a command and reading its response through the FIFO.
//!
//! An exchange hands out the next register access; its caller makes it and hands back what a
//! read gave.
use vstd::prelude::*;
use crate::tpm::{
    TpmError, TPM_ACCESS_REQUEST_USE, TPM_STS_COMMAND_READY, TPM_STS_TPM_GO, locality_granted,
    sts_burst_count, sts_command_ready, sts_data_avail,
};

verus! {

/// How many times a register is read while waiting for the TPM.
pub const POLL_LIMIT: u32 = 1_000_000;

/// The next register access of an exchange.
#[derive(Debug, Clone, Copy, PartialEq, Eq, Structural)]
pub enum TisAction {
    /// Write this value to the access register.
    WriteAccess(u8),
    /// Read the access register and hand its value back.
    ReadAccess,
    /// Write this value to the status register.
    WriteSts(u8),
    /// Read the status register and hand its value back.
    ReadSts,
    /// Spin for a while, then read the status register and hand its value back.
    WaitThenReadSts,
    /// Write the command bytes `from..to` to the FIFO, in order.
    WriteFifo { from: usize, to: usize },
    /// Read a byte from the FIFO into the response at `index`, then read the status register
    /// and hand its value back.
    ReadFifoByte(usize),
}

/// What a register access gave.
#[derive(Debug, Clone, Copy, PartialEq, Eq, Structural)]
pub enum TisEvent {
    /// The write is done.
    Written,
    /// The value of the register that was read.
    Read(u32),
}

/// Where claiming locality 0 stands.
#[derive(Debug, Clone, Copy, PartialEq, Eq, Structural)]
pub enum LocalityPhase {
    /// The request is being written.
    Requesting,
    /// The access register has been read this many times.
    Polling(u32),
    /// Over.
    Finished,
}

/// Claiming locality 0: request it, then read the access register until it shows the locality
/// valid and active, at most `POLL_LIMIT` times.
pub struct LocalityRequest {
    pub phase: LocalityPhase,
}

/// The next step of an exchange: a register access, or the outcome.
#[derive(Debug, Clone, Copy, PartialEq, Eq, Structural)]
pub enum TisStep<T> {
    Access(TisAction),
    Done(T),
}

impl LocalityRequest {
    /// Starts: the request is written to the access register.
    pub fn start() -> (r: (LocalityRequest, TisStep<bool>))
        ensures
            r.0.phase == LocalityPhase::Requesting,
            r.1 == TisStep::<bool>::Access(TisAction::WriteAccess(TPM_ACCESS_REQUEST_USE)),
    {
        (LocalityRequest { phase: LocalityPhase::Requesting }, TisStep::Access(TisAction::WriteAccess(TPM_ACCESS_REQUEST_USE)))
    }

    /// Takes what the last access gave and gives the next step: whether the locality was
    /// granted, once that is known.
    pub fn step(&mut self, event: TisEvent) -> (r: TisStep<bool>)
        requires
            old(self).phase != LocalityPhase::Finished,
            old(self).phase == LocalityPhase::Requesting <==> event == TisEvent::Written,
            old(self).phase matches LocalityPhase::Polling(n) ==> 1 <= n <= POLL_LIMIT,
        ensures
            old(self).phase == LocalityPhase::Requesting ==> final(self).phase == LocalityPhase::Polling(1)
                && r == TisStep::<bool>::Access(TisAction::ReadAccess),
            match (old(self).phase, event) {
                (LocalityPhase::Polling(n), TisEvent::Read(v)) =>
                    if (v as u8) & 0x80 != 0 && (v as u8) & 0x20 != 0 {
                        final(self).phase == LocalityPhase::Finished && r == TisStep::<bool>::Done(true)
                    } else if n < POLL_LIMIT {
                        final(self).phase == LocalityPhase::Polling((n + 1) as u32)
                            && r == TisStep::<bool>::Access(TisAction::ReadAccess)
                    } else {
                        final(self).phase == LocalityPhase::Finished && r == TisStep::<bool>::Done(false)
                    },
                _ => true,
            },
            final(self).phase matches LocalityPhase::Polling(n) ==> 1 <= n <= POLL_LIMIT,
    {
        match (self.phase, event) {
            (LocalityPhase::Polling(n), TisEvent::Read(v)) => {
                if locality_granted(v as u8) {
                    self.phase = LocalityPhase::Finished;
                    TisStep::Done(true)
                } else if n < POLL_LIMIT {
                    self.phase = LocalityPhase::Polling(n + 1);
                    TisStep::Access(TisAction::ReadAccess)
                } else {
                    self.phase = LocalityPhase::Finished;
                    TisStep::Done(false)
                }
            },
            _ => {
                self.phase = LocalityPhase::Polling(1);
                TisStep::Access(TisAction::ReadAccess)
            },
        }
    }
}

/// Where sending a command stands.
#[derive(Debug, Clone, Copy, PartialEq, Eq, Structural)]
pub enum CommandPhase {
    /// Asking the TPM to get ready for a command.
    RequestingReady,
    /// The status register has been read this many times, waiting for command-ready.
    PollingReady(u32),
    /// Checking once more that the TPM is ready before writing.
    CheckingReady,
    /// Waiting for a burst count, with this many bytes written.
    AwaitingBurst(usize),
    /// Writing the command up to this many bytes.
    Writing(usize),
    /// Starting the execution, the first time.
    Going,
    /// Starting the execution, the second time.
    GoingAgain,
    /// The status register has been read this many times, waiting for response data.
    PollingData(u32),
    /// Reading the response; this many bytes are in.
    Reading(usize),
    /// Over.
    Finished,
}

/// Sending a command of `cmd_len` bytes and reading its response into a buffer of `resp_cap`
/// bytes: ask the TPM to get ready and wait for it (at most `POLL_LIMIT` reads, else
/// `NotReady`); check it is still ready (else `NotReady`); write the command to the FIFO as the
/// burst count allows, waiting while it is zero; start the execution, twice; wait for data
/// (at most `POLL_LIMIT` reads, else `Timeout`); then read bytes while data is available, and
/// give their number, or `BufferTooSmall` when the buffer is full and more data waits.
pub struct CommandExchange {
    pub phase: CommandPhase,
    pub cmd_len: usize,
    pub resp_cap: usize,
}

/// The phase and step of a command exchange are consistent with its lengths.
pub open spec fn command_phase_ok(phase: CommandPhase, cmd_len: usize, resp_cap: usize) -> bool {
    match phase {
        CommandPhase::PollingReady(n) => 1 <= n <= POLL_LIMIT,
        CommandPhase::AwaitingBurst(w) => w < cmd_len,
        CommandPhase::Writing(w) => w <= cmd_len,
        CommandPhase::PollingData(n) => 1 <= n <= POLL_LIMIT,
        CommandPhase::Reading(i) => 1 <= i <= resp_cap,
        _ => true,
    }
}

/// The phase waits for a write to finish.
pub open spec fn command_phase_writes(phase: CommandPhase) -> bool {
    ||| phase == CommandPhase::RequestingReady
    ||| phase is Writing
    ||| phase == CommandPhase::Going
    ||| phase == CommandPhase::GoingAgain
}

impl CommandExchange {
    /// Starts sending a command of `cmd_len` bytes with a response buffer of `resp_cap` bytes:
    /// the TPM is asked to get ready.
    pub fn start(cmd_len: usize, resp_cap: usize) -> (r: (CommandExchange, TisStep<Result<usize, TpmError>>))
        ensures
            r.0.phase == CommandPhase::RequestingReady,
            r.0.cmd_len == cmd_len,
            r.0.resp_cap == resp_cap,
            r.1 == TisStep::<Result<usize, TpmError>>::Access(TisAction::WriteSts(TPM_STS_COMMAND_READY)),
    {
        (CommandExchange { phase: CommandPhase::RequestingReady, cmd_len, resp_cap },
         TisStep::Access(TisAction::WriteSts(TPM_STS_COMMAND_READY)))
    }

    /// Takes what the last access gave and gives the next step.
    pub fn step(&mut self, event: TisEvent) -> (r: TisStep<Result<usize, TpmError>>)
        requires
            old(self).phase != CommandPhase::Finished,
            command_phase_ok(old(self).phase, old(self).cmd_len, old(self).resp_cap),
            command_phase_writes(old(self).phase) <==> event == TisEvent::Written,
        ensures
            final(self).cmd_len == old(self).cmd_len,
            final(self).resp_cap == old(self).resp_cap,
            command_phase_ok(final(self).phase, final(self).cmd_len, final(self).resp_cap),
            ({
                let len = old(self).cmd_len;
                let cap = old(self).resp_cap;
                match (old(self).phase, event) {
                    (CommandPhase::RequestingReady, _) => final(self).phase == CommandPhase::PollingReady(1)
                        && r == TisStep::<Result<usize, TpmError>>::Access(TisAction::ReadSts),
                    (CommandPhase::PollingReady(n), TisEvent::Read(s)) =>
                        if s & 0x40 != 0 {
                            final(self).phase == CommandPhase::CheckingReady
                                && r == TisStep::<Result<usize, TpmError>>::Access(TisAction::ReadSts)
                        } else if n < POLL_LIMIT {
                            final(self).phase == CommandPhase::PollingReady((n + 1) as u32)
                                && r == TisStep::<Result<usize, TpmError>>::Access(TisAction::ReadSts)
                        } else {
                            final(self).phase == CommandPhase::Finished
                                && r == TisStep::<Result<usize, TpmError>>::Done(Err(TpmError::NotReady))
                        },
                    (CommandPhase::CheckingReady, TisEvent::Read(s)) =>
                        if s & 0x40 == 0 {
                            final(self).phase == CommandPhase::Finished
                                && r == TisStep::<Result<usize, TpmError>>::Done(Err(TpmError::NotReady))
                        } else if 0 < len {
                            final(self).phase == CommandPhase::AwaitingBurst(0)
                                && r == TisStep::<Result<usize, TpmError>>::Access(TisAction::ReadSts)
                        } else {
                            final(self).phase == CommandPhase::Going
                                && r == TisStep::<Result<usize, TpmError>>::Access(TisAction::WriteSts(TPM_STS_TPM_GO))
                        },
                    (CommandPhase::AwaitingBurst(w), TisEvent::Read(s)) => {
                        let burst = (s >> 8u32) & 0xffff;
                        if burst == 0 {
                            final(self).phase == CommandPhase::AwaitingBurst(w)
                                && r == TisStep::<Result<usize, TpmError>>::Access(TisAction::WaitThenReadSts)
                        } else {
                            let to = if len - w < burst { len } else { (w + burst) as usize };
                            final(self).phase == CommandPhase::Writing(to)
                                && r == TisStep::<Result<usize, TpmError>>::Access(TisAction::WriteFifo { from: w, to })
                        }
                    },
                    (CommandPhase::Writing(w), _) =>
                        if w < len {
                            final(self).phase == CommandPhase::AwaitingBurst(w)
                                && r == TisStep::<Result<usize, TpmError>>::Access(TisAction::ReadSts)
                        } else {
                            final(self).phase == CommandPhase::Going
                                && r == TisStep::<Result<usize, TpmError>>::Access(TisAction::WriteSts(TPM_STS_TPM_GO))
                        },
                    (CommandPhase::Going, _) => final(self).phase == CommandPhase::GoingAgain
                        && r == TisStep::<Result<usize, TpmError>>::Access(TisAction::WriteSts(TPM_STS_TPM_GO)),
                    (CommandPhase::GoingAgain, _) => final(self).phase == CommandPhase::PollingData(1)
                        && r == TisStep::<Result<usize, TpmError>>::Access(TisAction::ReadSts),
                    (CommandPhase::PollingData(n), TisEvent::Read(s)) =>
                        if s & 0x10 != 0 {
                            if cap == 0 {
                                final(self).phase == CommandPhase::Finished
                                    && r == TisStep::<Result<usize, TpmError>>::Done(Err(TpmError::BufferTooSmall))
                            } else {
                                final(self).phase == CommandPhase::Reading(1)
                                    && r == TisStep::<Result<usize, TpmError>>::Access(TisAction::ReadFifoByte(0))
                            }
                        } else if n < POLL_LIMIT {
                            final(self).phase == CommandPhase::PollingData((n + 1) as u32)
                                && r == TisStep::<Result<usize, TpmError>>::Access(TisAction::ReadSts)
                        } else {
                            final(self).phase == CommandPhase::Finished
                                && r == TisStep::<Result<usize, TpmError>>::Done(Err(TpmError::Timeout))
                        },
                    (CommandPhase::Reading(i), TisEvent::Read(s)) =>
                        if s & 0x10 == 0 {
                            final(self).phase == CommandPhase::Finished
                                && r == TisStep::<Result<usize, TpmError>>::Done(Ok(i))
                        } else if i >= cap {
                            final(self).phase == CommandPhase::Finished
                                && r == TisStep::<Result<usize, TpmError>>::Done(Err(TpmError::BufferTooSmall))
                        } else {
                            final(self).phase == CommandPhase::Reading((i + 1) as usize)
                                && r == TisStep::<Result<usize, TpmError>>::Access(TisAction::ReadFifoByte(i))
                        },
                    _ => true,
                }
            }),
    {
        let len = self.cmd_len;
        let cap = self.resp_cap;
        match (self.phase, event) {
            (CommandPhase::RequestingReady, _) => {
                self.phase = CommandPhase::PollingReady(1);
                TisStep::Access(TisAction::ReadSts)
            },
            (CommandPhase::PollingReady(n), TisEvent::Read(s)) => {
                if sts_command_ready(s) {
                    self.phase = CommandPhase::CheckingReady;
                    TisStep::Access(TisAction::ReadSts)
                } else if n < POLL_LIMIT {
                    self.phase = CommandPhase::PollingReady(n + 1);
                    TisStep::Access(TisAction::ReadSts)
                } else {
                    self.phase = CommandPhase::Finished;
                    TisStep::Done(Err(TpmError::NotReady))
                }
            },
            (CommandPhase::CheckingReady, TisEvent::Read(s)) => {
                if !sts_command_ready(s) {
                    self.phase = CommandPhase::Finished;
                    TisStep::Done(Err(TpmError::NotReady))
                } else if 0 < len {
                    self.phase = CommandPhase::AwaitingBurst(0);
                    TisStep::Access(TisAction::ReadSts)
                } else {
                    self.phase = CommandPhase::Going;
                    TisStep::Access(TisAction::WriteSts(TPM_STS_TPM_GO))
                }
            },
            (CommandPhase::AwaitingBurst(w), TisEvent::Read(s)) => {
                let burst = sts_burst_count(s) as usize;
                if burst == 0 {
                    TisStep::Access(TisAction::WaitThenReadSts)
                } else {
                    let to = if len - w < burst { len } else { w + burst };
                    self.phase = CommandPhase::Writing(to);
                    TisStep::Access(TisAction::WriteFifo { from: w, to })
                }
            },
            (CommandPhase::Writing(w), _) => {
                if w < len {
                    self.phase = CommandPhase::AwaitingBurst(w);
                    TisStep::Access(TisAction::ReadSts)
                } else {
                    self.phase = CommandPhase::Going;
                    TisStep::Access(TisAction::WriteSts(TPM_STS_TPM_GO))
                }
            },
            (CommandPhase::Going, _) => {
                self.phase = CommandPhase::GoingAgain;
                TisStep::Access(TisAction::WriteSts(TPM_STS_TPM_GO))
            },
            (CommandPhase::GoingAgain, _) => {
                self.phase = CommandPhase::PollingData(1);
                TisStep::Access(TisAction::ReadSts)
            },
            (CommandPhase::PollingData(n), TisEvent::Read(s)) => {
                if sts_data_avail(s) {
                    if cap == 0 {
                        self.phase = CommandPhase::Finished;
                        TisStep::Done(Err(TpmError::BufferTooSmall))
                    } else {
                        self.phase = CommandPhase::Reading(1);
                        TisStep::Access(TisAction::ReadFifoByte(0))
                    }
                } else if n < POLL_LIMIT {
                    self.phase = CommandPhase::PollingData(n + 1);
                    TisStep::Access(TisAction::ReadSts)
                } else {
                    self.phase = CommandPhase::Finished;
                    TisStep::Done(Err(TpmError::Timeout))
                }
            },
            (CommandPhase::Reading(i), TisEvent::Read(s)) => {
                if !sts_data_avail(s) {
                    self.phase = CommandPhase::Finished;
                    TisStep::Done(Ok(i))
                } else if i >= cap {
                    self.phase = CommandPhase::Finished;
                    TisStep::Done(Err(TpmError::BufferTooSmall))
                } else {
                    self.phase = CommandPhase::Reading(i + 1);
                    TisStep::Access(TisAction::ReadFifoByte(i))
                }
            },
            _ => {
                self.phase = CommandPhase::Finished;
                TisStep::Done(Err(TpmError::NotReady))
            },
        }
    }
}

} // verus!
