//! The lock handle: which system calls an operation makes, in which order,
//! and what it reports.
//!
//! A handle never makes a call itself. Each operation starts with a method
//! that returns the first [`Step`]; the caller makes the call that a
//! [`Step::Call`] names on the handle's descriptor and hands its result to
//! [`LockFile::resume`], until a [`Step::Finish`] carries the outcome.
use vstd::prelude::*;

use crate::error::{Error, FileDesc};
use crate::payload::{pid_line, pid_payload};

verus! {

/// A call on the handle's descriptor.
#[derive(Debug, PartialEq, Eq)]
pub enum Syscall {
    /// Take the exclusive lock on the whole file, waiting until it is free.
    Lock,
    /// Take the exclusive lock if no other holder has it; the reply is
    /// `Ok(true)` when it was taken and `Ok(false)` when it is held elsewhere.
    TryLock,
    /// Release the lock.
    Unlock,
    /// Cut the file to length zero.
    Truncate,
    /// Write these bytes into the file.
    Write(Vec<u8>),
    /// Close the descriptor; its reply is not looked at.
    Close,
}

/// What a handle asks for next.
#[derive(Debug, PartialEq, Eq)]
pub enum Step {
    /// Make this call and hand its result to [`LockFile::resume`].
    Call(Syscall),
    /// The operation is over, with this outcome. Operations that return no
    /// value report `Ok(true)` on success.
    Finish(Result<bool, Error>),
}

/// What a [`Step`] asks for, with the bytes of a write as a sequence.
pub enum Action {
    Lock,
    TryLock,
    Unlock,
    Truncate,
    Write(Seq<u8>),
    Close,
    Finish(Result<bool, Error>),
}

impl View for Step {
    type V = Action;

    open spec fn view(&self) -> Action {
        match self {
            Step::Call(Syscall::Lock) => Action::Lock,
            Step::Call(Syscall::TryLock) => Action::TryLock,
            Step::Call(Syscall::Unlock) => Action::Unlock,
            Step::Call(Syscall::Truncate) => Action::Truncate,
            Step::Call(Syscall::Write(bytes)) => Action::Write(bytes@),
            Step::Call(Syscall::Close) => Action::Close,
            Step::Finish(outcome) => Action::Finish(*outcome),
        }
    }
}

/// What comes after an unlock that the handle started.
#[derive(Debug, Clone, Copy)]
pub enum After {
    /// Report how the unlock went: an explicit `unlock`.
    Report,
    /// Report this earlier error, whatever the unlock gives: a lock whose
    /// payload could not be written.
    Rollback(Error),
    /// Close the descriptor: the handle is being released.
    Release,
}

/// Where a handle stands within an operation.
#[derive(Debug, Clone, Copy)]
pub enum Phase {
    /// No operation is under way.
    Idle,
    /// Waiting for a blocking lock; with a process identifier to write after it.
    Locking { pid: Option<u32> },
    /// Waiting for a non-blocking lock; with a process identifier to write after it.
    TryLocking { pid: Option<u32> },
    /// Waiting for the file to be cleared before the payload of `pid` is written.
    Clearing { pid: u32 },
    /// Waiting for the payload to be written.
    Writing,
    /// Waiting for an unlock.
    Unlocking { then: After },
    /// Waiting for the file to be cleared after an unlock.
    Truncating { then: After },
    /// Waiting for the descriptor to be closed.
    Closing,
    /// The descriptor is closed; the handle takes no more operations.
    Closed,
}

/// The model of a handle.
pub struct HandleState {
    pub desc: FileDesc,
    pub locked: bool,
    pub truncate_on_close: bool,
    pub phase: Phase,
}

/// An operation that takes the lock may start: no operation is under way and
/// the handle does not own the lock.
pub open spec fn may_lock(s: HandleState) -> bool {
    s.phase is Idle && !s.locked
}

/// An unlock may start: no operation is under way and the handle owns the lock.
pub open spec fn may_unlock(s: HandleState) -> bool {
    s.phase is Idle && s.locked
}

/// The result of a call as an outcome that carries no value.
pub open spec fn as_done(reply: Result<bool, Error>) -> Result<bool, Error> {
    match reply {
        Ok(_) => Ok(true),
        Err(e) => Err(e),
    }
}

/// `s` in phase `p`.
pub open spec fn with_phase(s: HandleState, p: Phase) -> HandleState {
    HandleState { phase: p, ..s }
}

/// Starts a blocking lock.
pub open spec fn begin_lock(s: HandleState, pid: Option<u32>) -> (HandleState, Action) {
    (with_phase(s, Phase::Locking { pid }), Action::Lock)
}

/// Starts a non-blocking lock.
pub open spec fn begin_try_lock(s: HandleState, pid: Option<u32>) -> (HandleState, Action) {
    (with_phase(s, Phase::TryLocking { pid }), Action::TryLock)
}

/// Starts an unlock that ends in `then`: the handle stops owning the lock at once.
pub open spec fn start_unlock(s: HandleState, then: After) -> (HandleState, Action) {
    (HandleState { locked: false, phase: Phase::Unlocking { then }, ..s }, Action::Unlock)
}

/// Starts an explicit unlock.
pub open spec fn begin_unlock(s: HandleState) -> (HandleState, Action) {
    start_unlock(s, After::Report)
}

/// Starts the release of the handle: unlock first if it owns the lock, then close.
pub open spec fn begin_close(s: HandleState) -> (HandleState, Action) {
    if s.locked {
        start_unlock(s, After::Release)
    } else {
        (with_phase(s, Phase::Closing), Action::Close)
    }
}

/// Ends an unlock (and the truncation after it) whose outcome is `outcome`.
pub open spec fn end_unlock(s: HandleState, then: After, outcome: Result<bool, Error>) -> (
    HandleState,
    Action,
) {
    match then {
        After::Report => (with_phase(s, Phase::Idle), Action::Finish(as_done(outcome))),
        After::Rollback(e) => (with_phase(s, Phase::Idle), Action::Finish(Err(e))),
        After::Release => (with_phase(s, Phase::Closing), Action::Close),
    }
}

/// What the handle does with the result of the call it asked for.
pub open spec fn next(s: HandleState, reply: Result<bool, Error>) -> (HandleState, Action) {
    match s.phase {
        Phase::Locking { pid } => match reply {
            Err(e) => (with_phase(s, Phase::Idle), Action::Finish(Err(e))),
            Ok(_) => match pid {
                None => (
                    HandleState { locked: true, phase: Phase::Idle, ..s },
                    Action::Finish(Ok(true)),
                ),
                Some(p) => (
                    HandleState { locked: true, phase: Phase::Writing, ..s },
                    Action::Write(pid_line(p)),
                ),
            },
        },
        Phase::TryLocking { pid } => match reply {
            Err(e) => (with_phase(s, Phase::Idle), Action::Finish(Err(e))),
            Ok(false) => (with_phase(s, Phase::Idle), Action::Finish(Ok(false))),
            Ok(true) => match pid {
                None => (
                    HandleState { locked: true, phase: Phase::Idle, ..s },
                    Action::Finish(Ok(true)),
                ),
                Some(p) => (
                    HandleState { locked: true, phase: Phase::Clearing { pid: p }, ..s },
                    Action::Truncate,
                ),
            },
        },
        Phase::Clearing { pid } => match reply {
            Err(e) => start_unlock(s, After::Rollback(e)),
            Ok(_) => (with_phase(s, Phase::Writing), Action::Write(pid_line(pid))),
        },
        Phase::Writing => match reply {
            Err(e) => start_unlock(s, After::Rollback(e)),
            Ok(_) => (with_phase(s, Phase::Idle), Action::Finish(Ok(true))),
        },
        Phase::Unlocking { then } => match reply {
            Err(e) => end_unlock(s, then, Err(e)),
            Ok(_) => if s.truncate_on_close {
                (with_phase(s, Phase::Truncating { then }), Action::Truncate)
            } else {
                end_unlock(s, then, Ok(true))
            },
        },
        Phase::Truncating { then } => end_unlock(s, then, reply),
        Phase::Closing => (with_phase(s, Phase::Closed), Action::Finish(Ok(true))),
        Phase::Idle | Phase::Closed => (s, Action::Finish(Ok(true))),
    }
}

/// A handle on an open file, used as an advisory lock.
///
/// Locks belong to the handle, not to the process: two handles on one file
/// contend for the lock like two processes do.
#[derive(Debug)]
pub struct LockFile {
    /// Whether the file is cut to length zero after each unlock.
    pub truncate_on_close: bool,
    locked: bool,
    desc: FileDesc,
    phase: Phase,
}

impl View for LockFile {
    type V = HandleState;

    closed spec fn view(&self) -> HandleState {
        HandleState {
            desc: self.desc,
            locked: self.locked,
            truncate_on_close: self.truncate_on_close,
            phase: self.phase,
        }
    }
}

impl LockFile {
    /// The handle of a file that the system opened (`opened` is the result of
    /// its open call): in no operation and owning no lock.
    pub fn open(opened: Result<FileDesc, Error>, truncate_on_close: bool) -> (r: Result<
        LockFile,
        Error,
    >)
        ensures
            opened is Ok <==> r is Ok,
            r is Ok ==> r->Ok_0@ == (HandleState {
                desc: opened->Ok_0,
                locked: false,
                truncate_on_close,
                phase: Phase::Idle,
            }),
            r is Err ==> r->Err_0 == opened->Err_0,
    {
        match opened {
            Ok(desc) => Ok(LockFile { truncate_on_close, locked: false, desc, phase: Phase::Idle }),
            Err(e) => Err(e),
        }
    }

    /// Whether this handle owns the lock.
    pub fn owns_lock(&self) -> (r: bool)
        ensures
            r == self@.locked,
    {
        self.locked
    }

    /// Whether no operation is under way.
    pub fn is_idle(&self) -> (r: bool)
        ensures
            r == self@.phase is Idle,
    {
        match self.phase {
            Phase::Idle => true,
            _ => false,
        }
    }

    /// Whether an operation that takes the lock may start: the handle is in
    /// no operation and does not own the lock. Taking a lock that the handle
    /// already owns is a caller's error, to be stopped before the call.
    pub fn can_lock(&self) -> (r: bool)
        ensures
            r == may_lock(self@),
    {
        self.is_idle() && !self.locked
    }

    /// Whether an unlock may start: the handle is in no operation and owns
    /// the lock. Releasing a lock that the handle does not own is a caller's
    /// error, to be stopped before the call.
    pub fn can_unlock(&self) -> (r: bool)
        ensures
            r == may_unlock(self@),
    {
        self.is_idle() && self.locked
    }

    /// Whether the file is cut to length zero after each unlock.
    pub fn truncate_on_close(&self) -> (r: bool)
        ensures
            r == self@.truncate_on_close,
    {
        self.truncate_on_close
    }

    /// Sets whether the file is cut to length zero after each unlock.
    pub fn set_truncate_on_close(&mut self, truncate: bool)
        ensures
            final(self)@ == (HandleState { truncate_on_close: truncate, ..old(self)@ }),
    {
        self.truncate_on_close = truncate;
    }

    /// The descriptor that the calls are made on.
    pub fn raw(&self) -> (r: FileDesc)
        ensures
            r == self@.desc,
    {
        self.desc
    }

    /// Starts a blocking lock. Only a handle that does not own the lock may
    /// ask for it.
    pub fn lock(&mut self) -> (r: Step)
        requires
            may_lock(old(self)@),
        ensures
            (final(self)@, r@) == begin_lock(old(self)@, None),
    {
        self.phase = Phase::Locking { pid: None };
        Step::Call(Syscall::Lock)
    }

    /// Starts a blocking lock after which the payload of `pid` is written.
    pub fn lock_with_pid(&mut self, pid: u32) -> (r: Step)
        requires
            may_lock(old(self)@),
        ensures
            (final(self)@, r@) == begin_lock(old(self)@, Some(pid)),
    {
        self.phase = Phase::Locking { pid: Some(pid) };
        Step::Call(Syscall::Lock)
    }

    /// Starts a non-blocking lock. Only a handle that does not own the lock
    /// may ask for it.
    pub fn try_lock(&mut self) -> (r: Step)
        requires
            may_lock(old(self)@),
        ensures
            (final(self)@, r@) == begin_try_lock(old(self)@, None),
    {
        self.phase = Phase::TryLocking { pid: None };
        Step::Call(Syscall::TryLock)
    }

    /// Starts a non-blocking lock after which the file is cleared and the
    /// payload of `pid` is written.
    pub fn try_lock_with_pid(&mut self, pid: u32) -> (r: Step)
        requires
            may_lock(old(self)@),
        ensures
            (final(self)@, r@) == begin_try_lock(old(self)@, Some(pid)),
    {
        self.phase = Phase::TryLocking { pid: Some(pid) };
        Step::Call(Syscall::TryLock)
    }

    /// Starts an unlock. Only a handle that owns the lock may release it.
    pub fn unlock(&mut self) -> (r: Step)
        requires
            may_unlock(old(self)@),
        ensures
            (final(self)@, r@) == begin_unlock(old(self)@),
    {
        self.start_unlock(After::Report)
    }

    /// Starts the release of the handle: an unlock whose errors are not
    /// reported if it owns the lock, then the close of its descriptor.
    pub fn close(&mut self) -> (r: Step)
        requires
            old(self)@.phase is Idle,
        ensures
            (final(self)@, r@) == begin_close(old(self)@),
    {
        if self.locked {
            self.start_unlock(After::Release)
        } else {
            self.phase = Phase::Closing;
            Step::Call(Syscall::Close)
        }
    }

    fn start_unlock(&mut self, then: After) -> (r: Step)
        ensures
            (final(self)@, r@) == start_unlock(old(self)@, then),
    {
        self.locked = false;
        self.phase = Phase::Unlocking { then };
        Step::Call(Syscall::Unlock)
    }

    fn end_unlock(&mut self, then: After, outcome: Result<bool, Error>) -> (r: Step)
        ensures
            (final(self)@, r@) == end_unlock(old(self)@, then, outcome),
    {
        match then {
            After::Report => {
                self.phase = Phase::Idle;
                match outcome {
                    Ok(_) => Step::Finish(Ok(true)),
                    Err(e) => Step::Finish(Err(e)),
                }
            },
            After::Rollback(e) => {
                self.phase = Phase::Idle;
                Step::Finish(Err(e))
            },
            After::Release => {
                self.phase = Phase::Closing;
                Step::Call(Syscall::Close)
            },
        }
    }

    fn write_payload(&mut self, pid: u32) -> (r: Step)
        ensures
            (final(self)@, r@) == (with_phase(old(self)@, Phase::Writing), Action::Write(
                pid_line(pid),
            )),
    {
        self.phase = Phase::Writing;
        Step::Call(Syscall::Write(pid_payload(pid)))
    }

    /// Takes the result of the call that the last step asked for and says
    /// what comes next.
    pub fn resume(&mut self, reply: Result<bool, Error>) -> (r: Step)
        requires
            !(old(self)@.phase is Idle),
            !(old(self)@.phase is Closed),
        ensures
            (final(self)@, r@) == next(old(self)@, reply),
    {
        match self.phase {
            Phase::Locking { pid } => match reply {
                Err(e) => {
                    self.phase = Phase::Idle;
                    Step::Finish(Err(e))
                },
                Ok(_) => {
                    self.locked = true;
                    match pid {
                        None => {
                            self.phase = Phase::Idle;
                            Step::Finish(Ok(true))
                        },
                        Some(p) => self.write_payload(p),
                    }
                },
            },
            Phase::TryLocking { pid } => match reply {
                Err(e) => {
                    self.phase = Phase::Idle;
                    Step::Finish(Err(e))
                },
                Ok(false) => {
                    self.phase = Phase::Idle;
                    Step::Finish(Ok(false))
                },
                Ok(true) => {
                    self.locked = true;
                    match pid {
                        None => {
                            self.phase = Phase::Idle;
                            Step::Finish(Ok(true))
                        },
                        Some(p) => {
                            self.phase = Phase::Clearing { pid: p };
                            Step::Call(Syscall::Truncate)
                        },
                    }
                },
            },
            Phase::Clearing { pid } => match reply {
                Err(e) => self.start_unlock(After::Rollback(e)),
                Ok(_) => self.write_payload(pid),
            },
            Phase::Writing => match reply {
                Err(e) => self.start_unlock(After::Rollback(e)),
                Ok(_) => {
                    self.phase = Phase::Idle;
                    Step::Finish(Ok(true))
                },
            },
            Phase::Unlocking { then } => match reply {
                Err(e) => self.end_unlock(then, Err(e)),
                Ok(_) => if self.truncate_on_close {
                    self.phase = Phase::Truncating { then };
                    Step::Call(Syscall::Truncate)
                } else {
                    self.end_unlock(then, Ok(true))
                },
            },
            Phase::Truncating { then } => self.end_unlock(then, reply),
            Phase::Closing => {
                self.phase = Phase::Closed;
                Step::Finish(Ok(true))
            },
            Phase::Idle | Phase::Closed => Step::Finish(Ok(true)),
        }
    }
}

} // verus!
