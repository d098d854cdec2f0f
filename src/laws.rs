//! Laws of the lock handle, stated over the transitions that its methods follow.
use vstd::prelude::*;

use crate::error::Error;
use crate::handle::{
    begin_close, begin_lock, begin_try_lock, begin_unlock, may_lock, may_unlock, next, Action,
    HandleState,
};
use crate::payload::pid_line;

verus! {

/// A handle in no operation that does not own the lock.
pub open spec fn fresh(s: HandleState) -> bool {
    s.phase is Idle && !s.locked
}

/// When every call succeeds, a lock followed by an unlock succeeds and leaves
/// the handle idle and without the lock.
pub proof fn lemma_lock_then_unlock(s: HandleState)
    requires
        fresh(s),
    ensures
        ({
            let (s1, a1) = begin_lock(s, None);
            let (s2, a2) = next(s1, Ok(true));
            let (s3, a3) = begin_unlock(s2);
            let (s4, a4) = next(s3, Ok(true));
            let (s5, a5) = next(s4, Ok(true));
            &&& a1 == Action::Lock
            &&& a2 == Action::Finish(Ok(true))
            &&& s2.locked && s2.phase is Idle
            &&& a3 == Action::Unlock
            &&& if s.truncate_on_close {
                a4 == Action::Truncate && a5 == Action::Finish(Ok(true)) && fresh(s5)
            } else {
                a4 == Action::Finish(Ok(true)) && fresh(s4)
            }
        }),
{
}

/// A non-blocking lock that finds the lock held elsewhere is no error: it
/// reports `false` and leaves the handle as it was. Once the lock is free,
/// the next attempt reports `true` and the handle owns the lock.
pub proof fn lemma_try_lock_contended_then_free(s: HandleState)
    requires
        fresh(s),
    ensures
        ({
            let (s1, a1) = begin_try_lock(s, None);
            let (s2, a2) = next(s1, Ok(false));
            let (s3, a3) = begin_try_lock(s2, None);
            let (s4, a4) = next(s3, Ok(true));
            &&& a1 == Action::TryLock
            &&& a2 == Action::Finish(Ok(false))
            &&& s2 == s
            &&& a3 == Action::TryLock
            &&& a4 == Action::Finish(Ok(true))
            &&& s4.locked && s4.phase is Idle
        }),
{
}

/// A blocking lock with the process identifier writes the identifier's line
/// right after the lock, without clearing the file first.
pub proof fn lemma_lock_with_pid_writes_line(s: HandleState, pid: u32)
    requires
        fresh(s),
    ensures
        ({
            let (s1, a1) = begin_lock(s, Some(pid));
            let (s2, a2) = next(s1, Ok(true));
            let (s3, a3) = next(s2, Ok(true));
            &&& a1 == Action::Lock
            &&& a2 == Action::Write(pid_line(pid))
            &&& a3 == Action::Finish(Ok(true))
            &&& s3.locked && s3.phase is Idle
        }),
{
}

/// A non-blocking lock with the process identifier clears the file before it
/// writes the identifier's line, whether or not the handle clears the file on
/// unlock.
pub proof fn lemma_try_lock_with_pid_clears_first(s: HandleState, pid: u32)
    requires
        fresh(s),
    ensures
        ({
            let (s1, a1) = begin_try_lock(s, Some(pid));
            let (s2, a2) = next(s1, Ok(true));
            let (s3, a3) = next(s2, Ok(true));
            let (s4, a4) = next(s3, Ok(true));
            &&& a1 == Action::TryLock
            &&& a2 == Action::Truncate
            &&& a3 == Action::Write(pid_line(pid))
            &&& a4 == Action::Finish(Ok(true))
            &&& s4.locked && s4.phase is Idle
        }),
{
}

/// A handle that does not clear the file on unlock makes no call but the
/// unlock: the payload stays in the file.
pub proof fn lemma_unlock_keeps_payload(s: HandleState)
    requires
        s.phase is Idle,
        s.locked,
        !s.truncate_on_close,
    ensures
        ({
            let (s1, a1) = begin_unlock(s);
            let (s2, a2) = next(s1, Ok(true));
            &&& a1 == Action::Unlock
            &&& a2 == Action::Finish(Ok(true))
            &&& fresh(s2)
        }),
{
}

/// Releasing a handle that owns the lock unlocks it first, and closes the
/// descriptor afterwards whatever the calls reply.
pub proof fn lemma_close_releases_lock(
    s: HandleState,
    r1: Result<bool, Error>,
    r2: Result<bool, Error>,
    r3: Result<bool, Error>,
)
    requires
        s.phase is Idle,
        s.locked,
    ensures
        ({
            let (s1, a1) = begin_close(s);
            let (s2, a2) = next(s1, r1);
            let (s3, a3) = next(s2, r2);
            &&& a1 == Action::Unlock
            &&& !s1.locked
            &&& if a2 == Action::Truncate {
                a3 == Action::Close && next(s3, r3).1 == Action::Finish(Ok(true))
                    && next(s3, r3).0.phase is Closed && !next(s3, r3).0.locked
            } else {
                a2 == Action::Close && a3 == Action::Finish(Ok(true)) && s3.phase is Closed
                    && !s3.locked
            }
        }),
{
}

/// A lock whose payload cannot be written is given up again: the handle
/// unlocks, ends without the lock, and reports the error of the write,
/// whatever the unlock replies.
pub proof fn lemma_failed_payload_releases_lock(
    s: HandleState,
    pid: u32,
    e: Error,
    r1: Result<bool, Error>,
    r2: Result<bool, Error>,
)
    requires
        fresh(s),
    ensures
        ({
            let (s1, a1) = begin_lock(s, Some(pid));
            let (s2, a2) = next(s1, Ok(true));
            let (s3, a3) = next(s2, Err(e));
            let (s4, a4) = next(s3, r1);
            let (s5, a5) = next(s4, r2);
            &&& a3 == Action::Unlock
            &&& !s3.locked
            &&& if a4 == Action::Truncate {
                a5 == Action::Finish(Err(e)) && fresh(s5)
            } else {
                a4 == Action::Finish(Err(e)) && fresh(s4)
            }
        }),
{
}

/// A non-blocking lock whose file cannot be cleared for the payload is given
/// up again in the same way: unlock, no lock owned, the clearing's error
/// reported.
pub proof fn lemma_failed_clear_releases_lock(
    s: HandleState,
    pid: u32,
    e: Error,
    r1: Result<bool, Error>,
    r2: Result<bool, Error>,
)
    requires
        fresh(s),
    ensures
        ({
            let (s1, a1) = begin_try_lock(s, Some(pid));
            let (s2, a2) = next(s1, Ok(true));
            let (s3, a3) = next(s2, Err(e));
            let (s4, a4) = next(s3, r1);
            let (s5, a5) = next(s4, r2);
            &&& a3 == Action::Unlock
            &&& !s3.locked
            &&& if a4 == Action::Truncate {
                a5 == Action::Finish(Err(e)) && fresh(s5)
            } else {
                a4 == Action::Finish(Err(e)) && fresh(s4)
            }
        }),
{
}

/// A handle may not take a lock that it owns, nor release one that it does
/// not own: once a lock (blocking or not, with the process identifier or not)
/// has been taken, no lock operation may start until the unlock; a handle that
/// has just been opened or unlocked may not unlock.
pub proof fn lemma_lock_ownership_is_exclusive(s: HandleState, pid: Option<u32>)
    requires
        fresh(s),
    ensures
        may_lock(s),
        !may_unlock(s),
        ({
            let s1 = next(begin_lock(s, pid).0, Ok(true)).0;
            let s2 = next(begin_try_lock(s, None).0, Ok(true)).0;
            &&& s1.locked && !may_lock(s1)
            &&& s2.locked && !may_lock(s2) && may_unlock(s2)
            &&& (pid is None ==> may_unlock(s1))
        }),
        ({
            let (u1, _) = begin_unlock(HandleState { locked: true, ..s });
            let done = next(u1, Ok(true)).0;
            !s.truncate_on_close ==> (fresh(done) && !may_unlock(done) && may_lock(done))
        }),
{
}

} // verus!
