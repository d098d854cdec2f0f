//! Errors of the operating system, and how the results of its calls map to them.
use vstd::prelude::*;

verus! {

/// A descriptor of an open file.
pub type FileDesc = i32;

/// An error of the operating system, known by its raw error code.
#[derive(Debug, Clone, Copy, PartialEq, Eq, Structural)]
pub struct Error {
    code: i32,
}

/// `code` is one of the two codes with which the system reports that another
/// holder has the lock (they differ from one system to another).
pub open spec fn is_contention(code: i32, busy_a: i32, busy_b: i32) -> bool {
    code == busy_a || code == busy_b
}

/// Relies on libc::EACCES: the code of the system that `lockf` reports when
/// another holder has the lock.
#[verifier::external_body]
fn code_access_denied() -> (r: i32) {
    libc::EACCES
}

/// Relies on libc::EAGAIN: the other code of the system that `lockf` reports
/// when another holder has the lock.
#[verifier::external_body]
fn code_try_again() -> (r: i32) {
    libc::EAGAIN
}

/// Relies on libc::EINTR: the code of the system for a call that a signal
/// interrupted.
#[verifier::external_body]
fn code_interrupted() -> (r: i32) {
    libc::EINTR
}

/// Relies on libc::ENOMEM: the code of the system for memory that ran out.
#[verifier::external_body]
fn code_out_of_memory() -> (r: i32) {
    libc::ENOMEM
}

impl Error {
    /// The raw error code.
    pub closed spec fn code(&self) -> i32 {
        self.code
    }

    /// The error with this raw error code.
    pub closed spec fn spec_from_code(code: i32) -> Error {
        Error { code }
    }

    /// Creates an error from a raw error code of the operating system.
    pub fn from_raw_os_error(code: i32) -> (r: Error)
        ensures
            r.code() == code,
            r == Error::spec_from_code(code),
    {
        Error { code }
    }

    /// The error that stands for a failed allocation: the system's code for
    /// memory that ran out.
    pub fn out_of_memory() -> (r: Error) {
        Error { code: code_out_of_memory() }
    }

    /// The raw error code; an `Option` as in `std::io::Error`.
    pub fn raw_os_error(&self) -> (r: Option<i32>)
        ensures
            r == Some(self.code()),
    {
        Some(self.code)
    }
}

/// What [`status_reply`] returns.
pub open spec fn status_reply_spec(res: i32, code: i32) -> Result<(), Error> {
    if res == 0 {
        Ok(())
    } else {
        Err(Error::spec_from_code(code))
    }
}

/// Result of a call that reports `0` on success and the error code otherwise
/// (`code` is the value of `errno` read right after the call).
pub fn status_reply(res: i32, code: i32) -> (r: Result<(), Error>)
    ensures
        r == status_reply_spec(res, code),
        res == 0 <==> r is Ok,
        r is Err ==> r->Err_0.code() == code,
{
    if res == 0 {
        Ok(())
    } else {
        Err(Error::from_raw_os_error(code))
    }
}

/// Result of `open`: a descriptor when it is not negative, else the error.
pub fn open_reply(fd: i32, code: i32) -> (r: Result<FileDesc, Error>)
    ensures
        fd >= 0 <==> r is Ok,
        r is Ok ==> r->Ok_0 == fd,
        r is Err ==> r->Err_0.code() == code,
{
    if fd >= 0 {
        Ok(fd)
    } else {
        Err(Error::from_raw_os_error(code))
    }
}

/// Result of a non-blocking lock request: `Ok(true)` when it was granted,
/// `Ok(false)` when the code is one of the two that say another holder has the
/// lock (`busy_a`, `busy_b`), else the error.
pub fn try_lock_reply(res: i32, code: i32, busy_a: i32, busy_b: i32) -> (r: Result<bool, Error>)
    ensures
        res == 0 <==> r == Ok::<bool, Error>(true),
        (res != 0 && is_contention(code, busy_a, busy_b)) <==> r == Ok::<bool, Error>(false),
        r is Err ==> r->Err_0.code() == code,
{
    if res == 0 {
        Ok(true)
    } else if code == busy_a || code == busy_b {
        Ok(false)
    } else {
        Err(Error::from_raw_os_error(code))
    }
}

/// Result of a non-blocking lock request on this system: the two codes that
/// say another holder has the lock are the system's `EACCES` and `EAGAIN`.
pub fn try_lock_outcome(res: i32, code: i32) -> (r: Result<bool, Error>)
    ensures
        res == 0 <==> r == Ok::<bool, Error>(true),
        r is Err ==> r->Err_0.code() == code,
{
    try_lock_reply(res, code, code_access_denied(), code_try_again())
}

/// Result of a blocking call that is made again when a signal interrupted
/// it: `None` to make it again (`code` is `interrupted`), else as
/// [`status_reply`].
pub fn retry_reply(res: i32, code: i32, interrupted: i32) -> (r: Option<Result<(), Error>>)
    ensures
        r is None <==> (res != 0 && code == interrupted),
        r is Some ==> r->Some_0 == status_reply_spec(res, code),
{
    if res != 0 && code == interrupted {
        None
    } else {
        Some(status_reply(res, code))
    }
}

/// Result of a blocking call on this system, made again when a signal
/// interrupted it (the system's `EINTR`).
pub fn retry_outcome(res: i32, code: i32) -> (r: Option<Result<(), Error>>)
    ensures
        res == 0 ==> r == Some(Ok::<(), Error>(())),
        r is Some ==> r->Some_0 == status_reply_spec(res, code),
{
    retry_reply(res, code, code_interrupted())
}

} // verus!
