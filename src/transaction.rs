//! The transaction primitive as a state machine: a command is written, the
//! settle delay elapses, and the response is read. The caller owns the bus
//! and the clock: it performs each action handed out and reports back what
//! happened. A failure ends the transaction at once; nothing is retried.
use vstd::prelude::*;
use crate::command::Command;

verus! {

/// What went wrong on the bus.
#[derive(Clone, Copy, Debug, PartialEq, Eq, Structural)]
pub enum BusError {
    /// The session could not be opened.
    Open,
    /// The command could not be written.
    Write,
    /// The response could not be read, or came back short.
    Read,
}

/// Whether each transaction opens a session of its own, or all of them
/// share one opened for the whole program.
#[derive(Clone, Copy, Debug, PartialEq, Eq, Structural)]
pub enum SessionMode {
    PerProgram,
    PerCall,
}

/// Where a transaction stands: the action it waits on.
#[derive(Clone, Copy, Debug, PartialEq, Eq, Structural)]
pub enum Phase {
    Opening,
    Writing,
    Settling,
    Reading,
    Done,
}

/// What the caller is asked to do next.
#[derive(Debug)]
pub enum Action {
    /// Open a fresh session to the device.
    Open,
    /// Write these bytes.
    Write(Vec<u8>),
    /// Sleep this many milliseconds.
    Sleep(u64),
    /// Read exactly this many bytes.
    Read(usize),
    /// The transaction is over, with this result.
    Finish(Result<Vec<u8>, BusError>),
}

/// What happened when the caller performed an action.
#[derive(Debug)]
pub enum Event {
    Opened,
    OpenFailed,
    Written,
    WriteFailed,
    Slept,
    /// The bytes that were read.
    ReadDone(Vec<u8>),
    ReadFailed,
}

/// The phase after a successful write: settle if a delay is due, else
/// read if a response is due, else done.
pub open spec fn phase_after_write(c: Command) -> Phase {
    if c.settle_ms > 0 {
        Phase::Settling
    } else if c.response_len > 0 {
        Phase::Reading
    } else {
        Phase::Done
    }
}

/// The phase after the settle delay.
pub open spec fn phase_after_settle(c: Command) -> Phase {
    if c.response_len > 0 {
        Phase::Reading
    } else {
        Phase::Done
    }
}

/// Whether `a` finishes with result `r`.
pub open spec fn finishes_with(a: Action, r: Result<Seq<u8>, BusError>) -> bool {
    match a {
        Action::Finish(Ok(v)) => r == Ok::<Seq<u8>, BusError>(v@),
        Action::Finish(Err(e)) => r == Err::<Seq<u8>, BusError>(e),
        _ => false,
    }
}

/// Whether `a` is the action that starts phase `p` of command `c`; on
/// entering `Done` without a read the transaction finishes with no bytes.
pub open spec fn enters(c: Command, p: Phase, a: Action) -> bool {
    match p {
        Phase::Opening => a is Open,
        Phase::Writing => a matches Action::Write(b) && b@ == c.bytes@,
        Phase::Settling => a == Action::Sleep(c.settle_ms),
        Phase::Reading => a == Action::Read(c.response_len),
        Phase::Done => finishes_with(a, Ok(Seq::<u8>::empty())),
    }
}

/// Whether `e` is a report on the action that phase `p` waits on.
pub open spec fn answers(p: Phase, e: Event) -> bool {
    match p {
        Phase::Opening => e is Opened || e is OpenFailed,
        Phase::Writing => e is Written || e is WriteFailed,
        Phase::Settling => e is Slept,
        Phase::Reading => e is ReadDone || e is ReadFailed,
        Phase::Done => false,
    }
}

/// One command's exchange with a device.
pub struct Transaction {
    command: Command,
    phase: Phase,
}

impl Transaction {
    pub closed spec fn spec_command(&self) -> Command {
        self.command
    }

    pub closed spec fn spec_phase(&self) -> Phase {
        self.phase
    }

    /// The command being carried out.
    pub fn command(&self) -> (r: &Command)
        ensures
            *r == self.spec_command(),
    {
        &self.command
    }

    /// The action the transaction waits on.
    pub fn phase(&self) -> (r: Phase)
        ensures
            r == self.spec_phase(),
    {
        self.phase
    }

    /// Whether the transaction is over.
    pub fn is_done(&self) -> (r: bool)
        ensures
            r == (self.spec_phase() == Phase::Done),
    {
        self.phase == Phase::Done
    }

    /// Whether `event` reports on the action the transaction waits on.
    pub fn accepts(&self, event: &Event) -> (r: bool)
        ensures
            r == answers(self.spec_phase(), *event),
    {
        match self.phase {
            Phase::Opening => matches!(event, Event::Opened | Event::OpenFailed),
            Phase::Writing => matches!(event, Event::Written | Event::WriteFailed),
            Phase::Settling => matches!(event, Event::Slept),
            Phase::Reading => matches!(event, Event::ReadDone(_) | Event::ReadFailed),
            Phase::Done => false,
        }
    }

    fn write_action(&self) -> (r: Action)
        ensures
            r matches Action::Write(b) && b@ == self.command.bytes@,
    {
        let b = self.command.bytes.clone();
        assert(b@ =~= self.command.bytes@);
        Action::Write(b)
    }

    /// Starts a transaction: per call, by opening a session; per program, by
    /// writing the command at once.
    pub fn begin(command: Command, mode: SessionMode) -> (r: (Transaction, Action))
        ensures
            r.0.spec_command() == command,
            r.0.spec_phase() == (if mode == SessionMode::PerCall {
                Phase::Opening
            } else {
                Phase::Writing
            }),
            enters(command, r.0.spec_phase(), r.1),
    {
        match mode {
            SessionMode::PerCall => (Transaction { command, phase: Phase::Opening }, Action::Open),
            SessionMode::PerProgram => {
                let t = Transaction { command, phase: Phase::Writing };
                let a = t.write_action();
                (t, a)
            },
        }
    }

    /// Moves on past the write, to the settle delay, the read or the end.
    fn after_write(&mut self) -> (r: Action)
        ensures
            final(self).command == old(self).command,
            final(self).phase == phase_after_write(old(self).command),
            enters(final(self).command, final(self).phase, r),
    {
        if self.command.settle_ms > 0 {
            self.phase = Phase::Settling;
            Action::Sleep(self.command.settle_ms)
        } else {
            self.after_settle()
        }
    }

    /// Moves on past the settle delay, to the read or the end.
    fn after_settle(&mut self) -> (r: Action)
        ensures
            final(self).command == old(self).command,
            final(self).phase == phase_after_settle(old(self).command),
            enters(final(self).command, final(self).phase, r),
    {
        if self.command.response_len > 0 {
            self.phase = Phase::Reading;
            Action::Read(self.command.response_len)
        } else {
            self.phase = Phase::Done;
            Action::Finish(Ok(Vec::new()))
        }
    }

    /// Takes the report on the last action and hands out the next one.
    /// A failed open, write or read, or a read of the wrong length,
    /// finishes the transaction with the matching error; a read of the
    /// expected length finishes it with those bytes.
    pub fn step(&mut self, event: Event) -> (r: Action)
        requires
            answers(old(self).spec_phase(), event),
        ensures
            final(self).spec_command() == old(self).spec_command(),
            ({
                let c = old(self).spec_command();
                let p = final(self).spec_phase();
                match event {
                    Event::Opened => p == Phase::Writing && enters(c, p, r),
                    Event::OpenFailed => p == Phase::Done && finishes_with(r, Err(BusError::Open)),
                    Event::Written => p == phase_after_write(c) && enters(c, p, r),
                    Event::WriteFailed => p == Phase::Done && finishes_with(r, Err(BusError::Write)),
                    Event::Slept => p == phase_after_settle(c) && enters(c, p, r),
                    Event::ReadDone(b) => p == Phase::Done && if b@.len() == c.response_len {
                        finishes_with(r, Ok(b@))
                    } else {
                        finishes_with(r, Err(BusError::Read))
                    },
                    Event::ReadFailed => p == Phase::Done && finishes_with(r, Err(BusError::Read)),
                }
            }),
    {
        match event {
            Event::Opened => {
                self.phase = Phase::Writing;
                self.write_action()
            },
            Event::OpenFailed => {
                self.phase = Phase::Done;
                Action::Finish(Err(BusError::Open))
            },
            Event::Written => self.after_write(),
            Event::WriteFailed => {
                self.phase = Phase::Done;
                Action::Finish(Err(BusError::Write))
            },
            Event::Slept => self.after_settle(),
            Event::ReadDone(b) => {
                self.phase = Phase::Done;
                if b.len() == self.command.response_len {
                    Action::Finish(Ok(b))
                } else {
                    Action::Finish(Err(BusError::Read))
                }
            },
            Event::ReadFailed => {
                self.phase = Phase::Done;
                Action::Finish(Err(BusError::Read))
            },
        }
    }
}

} // verus!
