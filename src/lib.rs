//! Files used as advisory locks.
//!
//! The library holds the decisions of a lock handle and leaves the system
//! calls to its caller: a [`LockFile`] says which call to make next
//! ([`Step::Call`]) and is told how it went ([`LockFile::resume`]), until it
//! reports the outcome of the operation ([`Step::Finish`]). Paths are turned
//! into the nul-terminated form that the system expects by [`ToOsStr`] and
//! [`IntoOsString`], without an allocation where the caller's bytes already
//! end in a nul byte.
pub mod error;
pub mod handle;
pub mod laws;
pub mod os_str;
pub mod payload;

pub use error::{
    open_reply, retry_outcome, retry_reply, status_reply, try_lock_outcome, try_lock_reply, Error,
    FileDesc,
};
pub use handle::{Action, After, HandleState, LockFile, Phase, Step, Syscall};
pub use os_str::{is_valid_path, make_os_str, EitherOsStr, IntoOsString, OsStr, OsString, ToOsStr};
pub use payload::pid_payload;
