use fslock::{Error, LockFile, Step, Syscall};

/// A file as the system keeps it: who holds its lock, and what it holds.
struct SimFile {
    holder: Option<i32>,
    content: Vec<u8>,
    calls: Vec<&'static str>,
    fail_write: Option<i32>,
    fail_unlock: Option<i32>,
}

impl SimFile {
    fn new() -> SimFile {
        SimFile { holder: None, content: Vec::new(), calls: Vec::new(), fail_write: None, fail_unlock: None }
    }

    fn call(&mut self, fd: i32, call: Syscall) -> Result<bool, Error> {
        match call {
            Syscall::Lock => {
                self.calls.push("lock");
                assert!(self.holder.is_none() || self.holder == Some(fd), "would block");
                self.holder = Some(fd);
                Ok(true)
            },
            Syscall::TryLock => {
                self.calls.push("try_lock");
                if self.holder.is_none() || self.holder == Some(fd) {
                    self.holder = Some(fd);
                    Ok(true)
                } else {
                    Ok(false)
                }
            },
            Syscall::Unlock => {
                self.calls.push("unlock");
                if let Some(code) = self.fail_unlock {
                    return Err(Error::from_raw_os_error(code));
                }
                if self.holder == Some(fd) {
                    self.holder = None;
                }
                Ok(true)
            },
            Syscall::Truncate => {
                self.calls.push("truncate");
                self.content.clear();
                Ok(true)
            },
            Syscall::Write(bytes) => {
                self.calls.push("write");
                if let Some(code) = self.fail_write {
                    return Err(Error::from_raw_os_error(code));
                }
                self.content.extend_from_slice(&bytes);
                Ok(true)
            },
            Syscall::Close => {
                self.calls.push("close");
                if self.holder == Some(fd) {
                    self.holder = None;
                }
                Ok(true)
            },
        }
    }
}

fn run(h: &mut LockFile, f: &mut SimFile, mut step: Step) -> Result<bool, Error> {
    loop {
        match step {
            Step::Call(call) => {
                let reply = f.call(h.raw(), call);
                step = h.resume(reply);
            },
            Step::Finish(outcome) => return outcome,
        }
    }
}

fn handle(fd: i32, truncate_on_close: bool) -> LockFile {
    LockFile::open(Ok(fd), truncate_on_close).unwrap()
}

#[test]
fn open_reports_the_open_error() {
    let e = Error::from_raw_os_error(13);
    assert_eq!(LockFile::open(Err(e), true).unwrap_err(), e);
    let h = handle(4, true);
    assert_eq!(h.raw(), 4);
    assert!(!h.owns_lock());
    assert!(h.is_idle());
    assert!(h.truncate_on_close);
}

#[test]
fn lock_then_unlock_succeeds() {
    let mut f = SimFile::new();
    let mut h = handle(3, true);
    let s = h.lock();
    assert_eq!(run(&mut h, &mut f, s), Ok(true));
    assert!(h.owns_lock());
    let s = h.unlock();
    assert_eq!(run(&mut h, &mut f, s), Ok(true));
    assert!(!h.owns_lock());
    assert!(h.is_idle());
    assert_eq!(f.calls, vec!["lock", "unlock", "truncate"]);
    assert_eq!(f.holder, None);
}

#[test]
fn unlock_without_truncation_makes_one_call() {
    let mut f = SimFile::new();
    let mut h = handle(3, false);
    let s = h.lock();
    run(&mut h, &mut f, s).unwrap();
    let s = h.unlock();
    assert_eq!(run(&mut h, &mut f, s), Ok(true));
    assert_eq!(f.calls, vec!["lock", "unlock"]);
}

#[test]
fn failed_lock_leaves_handle_unlocked() {
    let mut h = handle(3, true);
    let s = h.lock();
    assert_eq!(s, Step::Call(Syscall::Lock));
    let e = Error::from_raw_os_error(9);
    assert_eq!(h.resume(Err(e)), Step::Finish(Err(e)));
    assert!(!h.owns_lock());
    assert!(h.is_idle());
}

#[test]
fn second_handle_try_lock_waits_for_first() {
    let mut f = SimFile::new();
    let mut a = handle(3, true);
    let mut b = handle(4, true);
    let s = a.lock();
    assert_eq!(run(&mut a, &mut f, s), Ok(true));
    let s = b.try_lock();
    assert_eq!(run(&mut b, &mut f, s), Ok(false));
    assert!(!b.owns_lock());
    let s = a.unlock();
    run(&mut a, &mut f, s).unwrap();
    let s = b.try_lock();
    assert_eq!(run(&mut b, &mut f, s), Ok(true));
    assert!(b.owns_lock());
}

#[test]
fn try_lock_error_is_reported() {
    let mut h = handle(3, true);
    let _ = h.try_lock();
    let e = Error::from_raw_os_error(9);
    assert_eq!(h.resume(Err(e)), Step::Finish(Err(e)));
    assert!(!h.owns_lock());
}

#[test]
fn lock_with_pid_writes_pid_line() {
    let mut f = SimFile::new();
    let mut h = handle(3, true);
    let s = h.lock_with_pid(31337);
    assert_eq!(run(&mut h, &mut f, s), Ok(true));
    assert!(h.owns_lock());
    assert_eq!(f.calls, vec!["lock", "write"]);
    let text = String::from_utf8(f.content.clone()).unwrap();
    assert_eq!(text.trim().parse::<u32>().unwrap(), 31337);
    assert_eq!(f.content, b"31337\n".to_vec());
}

#[test]
fn lock_with_pid_does_not_clear_first() {
    let mut f = SimFile::new();
    f.content = b"old\n".to_vec();
    let mut h = handle(3, false);
    let s = h.lock_with_pid(12);
    run(&mut h, &mut f, s).unwrap();
    assert_eq!(f.content, b"old\n12\n".to_vec());
}

#[test]
fn try_lock_with_pid_clears_before_writing() {
    let mut f = SimFile::new();
    let mut h = handle(3, false);
    let s = h.try_lock_with_pid(100);
    assert_eq!(run(&mut h, &mut f, s), Ok(true));
    let s = h.unlock();
    run(&mut h, &mut f, s).unwrap();
    assert_eq!(f.content, b"100\n".to_vec());
    let s = h.try_lock_with_pid(200);
    assert_eq!(run(&mut h, &mut f, s), Ok(true));
    assert_eq!(f.content, b"200\n".to_vec());
    assert_eq!(f.calls, vec!["try_lock", "truncate", "write", "unlock", "try_lock", "truncate", "write"]);
}

#[test]
fn try_lock_with_pid_not_acquired_writes_nothing() {
    let mut f = SimFile::new();
    let mut a = handle(3, true);
    let mut b = handle(4, true);
    let s = a.lock();
    run(&mut a, &mut f, s).unwrap();
    let s = b.try_lock_with_pid(5);
    assert_eq!(run(&mut b, &mut f, s), Ok(false));
    assert!(f.content.is_empty());
    assert!(!b.owns_lock());
}

#[test]
fn failed_payload_write_unlocks() {
    let mut f = SimFile::new();
    f.fail_write = Some(28);
    let mut h = handle(3, true);
    let s = h.lock_with_pid(1);
    assert_eq!(run(&mut h, &mut f, s), Err(Error::from_raw_os_error(28)));
    assert!(!h.owns_lock());
    assert_eq!(f.holder, None);
    assert_eq!(f.calls, vec!["lock", "write", "unlock", "truncate"]);
}

#[test]
fn failed_payload_reports_write_error_over_unlock_error() {
    let mut f = SimFile::new();
    f.fail_write = Some(28);
    f.fail_unlock = Some(9);
    let mut h = handle(3, true);
    let s = h.try_lock_with_pid(1);
    assert_eq!(run(&mut h, &mut f, s), Err(Error::from_raw_os_error(28)));
    assert!(!h.owns_lock());
    assert_eq!(f.calls, vec!["try_lock", "truncate", "write", "unlock"]);
}

#[test]
fn failed_unlock_is_reported_and_lock_is_given_up() {
    let mut f = SimFile::new();
    let mut h = handle(3, true);
    let s = h.lock();
    run(&mut h, &mut f, s).unwrap();
    f.fail_unlock = Some(5);
    let s = h.unlock();
    assert_eq!(run(&mut h, &mut f, s), Err(Error::from_raw_os_error(5)));
    assert!(!h.owns_lock());
}

#[test]
fn failed_truncation_after_unlock_is_reported() {
    let mut h = handle(3, true);
    let _ = h.lock();
    let _ = h.resume(Ok(true));
    assert_eq!(h.unlock(), Step::Call(Syscall::Unlock));
    assert_eq!(h.resume(Ok(true)), Step::Call(Syscall::Truncate));
    let e = Error::from_raw_os_error(5);
    assert_eq!(h.resume(Err(e)), Step::Finish(Err(e)));
    assert!(!h.owns_lock());
}

#[test]
fn releasing_a_locked_handle_frees_the_lock() {
    let mut f = SimFile::new();
    let mut a = handle(3, true);
    let s = a.lock();
    run(&mut a, &mut f, s).unwrap();
    let s = a.close();
    assert_eq!(run(&mut a, &mut f, s), Ok(true));
    assert_eq!(f.calls, vec!["lock", "unlock", "truncate", "close"]);
    let mut b = handle(4, true);
    let s = b.try_lock();
    assert_eq!(run(&mut b, &mut f, s), Ok(true));
}

#[test]
fn releasing_closes_even_when_unlock_fails() {
    let mut f = SimFile::new();
    let mut a = handle(3, true);
    let s = a.lock();
    run(&mut a, &mut f, s).unwrap();
    f.fail_unlock = Some(5);
    let s = a.close();
    assert_eq!(run(&mut a, &mut f, s), Ok(true));
    assert_eq!(f.calls, vec!["lock", "unlock", "close"]);
    assert!(!a.owns_lock());
}

#[test]
fn releasing_an_unlocked_handle_only_closes() {
    let mut f = SimFile::new();
    let mut a = handle(3, true);
    let s = a.close();
    assert_eq!(run(&mut a, &mut f, s), Ok(true));
    assert_eq!(f.calls, vec!["close"]);
}

#[test]
fn misuse_is_detected_before_the_call() {
    let mut f = SimFile::new();
    let mut h = handle(3, true);
    assert!(h.can_lock());
    assert!(!h.can_unlock());
    let s = h.lock();
    assert!(!h.can_lock());
    assert!(!h.can_unlock());
    run(&mut h, &mut f, s).unwrap();
    assert!(!h.can_lock());
    assert!(h.can_unlock());
    let s = h.unlock();
    run(&mut h, &mut f, s).unwrap();
    assert!(h.can_lock());
    assert!(!h.can_unlock());
    let s = h.try_lock();
    assert_eq!(run(&mut h, &mut f, s), Ok(true));
    assert!(!h.can_lock());
}

#[test]
fn truncate_setting_can_be_read_and_changed() {
    let mut f = SimFile::new();
    let mut h = handle(3, true);
    assert!(h.truncate_on_close());
    h.set_truncate_on_close(false);
    assert!(!h.truncate_on_close());
    assert_eq!(h.raw(), 3);
    let s = h.lock();
    run(&mut h, &mut f, s).unwrap();
    let s = h.unlock();
    run(&mut h, &mut f, s).unwrap();
    assert_eq!(f.calls, vec!["lock", "unlock"]);
}
