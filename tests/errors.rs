use fslock::{
    open_reply, pid_payload, retry_outcome, retry_reply, status_reply, try_lock_outcome, try_lock_reply,
    Error,
};

#[test]
fn error_keeps_raw_code() {
    let e = Error::from_raw_os_error(2);
    assert_eq!(e.raw_os_error(), Some(2));
    assert_eq!(e, Error::from_raw_os_error(2));
    assert_ne!(e, Error::from_raw_os_error(3));
}

#[test]
fn out_of_memory_error_has_enomem() {
    assert_eq!(Error::out_of_memory().raw_os_error(), Some(libc::ENOMEM));
}

#[test]
fn status_reply_maps_failure_to_code() {
    assert_eq!(status_reply(0, 9), Ok(()));
    assert_eq!(status_reply(-1, 9), Err(Error::from_raw_os_error(9)));
}

#[test]
fn open_reply_keeps_descriptor() {
    assert_eq!(open_reply(5, 0), Ok(5));
    assert_eq!(open_reply(0, 0), Ok(0));
    assert_eq!(open_reply(-1, 13), Err(Error::from_raw_os_error(13)));
}

#[test]
fn try_lock_reply_treats_contention_as_not_acquired() {
    assert_eq!(try_lock_reply(0, 0, 13, 35), Ok(true));
    assert_eq!(try_lock_reply(-1, 13, 13, 35), Ok(false));
    assert_eq!(try_lock_reply(-1, 35, 13, 35), Ok(false));
    assert_eq!(try_lock_reply(-1, 11, 13, 35), Err(Error::from_raw_os_error(11)));
    assert_eq!(try_lock_reply(-1, 9, 13, 11), Err(Error::from_raw_os_error(9)));
}

#[test]
fn try_lock_outcome_uses_the_system_codes() {
    assert_eq!(try_lock_outcome(0, 0), Ok(true));
    assert_eq!(try_lock_outcome(-1, libc::EACCES), Ok(false));
    assert_eq!(try_lock_outcome(-1, libc::EAGAIN), Ok(false));
    assert_eq!(try_lock_outcome(-1, libc::EBADF), Err(Error::from_raw_os_error(libc::EBADF)));
}

#[test]
fn interrupted_calls_are_made_again() {
    assert_eq!(retry_reply(-1, 4, 4), None);
    assert_eq!(retry_reply(0, 4, 4), Some(Ok(())));
    assert_eq!(retry_reply(-1, 9, 4), Some(Err(Error::from_raw_os_error(9))));
    assert_eq!(retry_outcome(-1, libc::EINTR), None);
    assert_eq!(retry_outcome(0, 0), Some(Ok(())));
    assert_eq!(retry_outcome(-1, libc::EBADF), Some(Err(Error::from_raw_os_error(libc::EBADF))));
}

#[test]
fn payload_is_decimal_pid_and_newline() {
    assert_eq!(pid_payload(0), b"0\n".to_vec());
    assert_eq!(pid_payload(7), b"7\n".to_vec());
    assert_eq!(pid_payload(10), b"10\n".to_vec());
    assert_eq!(pid_payload(4096), b"4096\n".to_vec());
    assert_eq!(pid_payload(u32::MAX), b"4294967295\n".to_vec());
}

#[test]
fn payload_trims_to_the_pid() {
    for pid in [1u32, 9, 31337, 4194304] {
        let text = String::from_utf8(pid_payload(pid)).unwrap();
        let trimmed = text.trim();
        assert!(trimmed.bytes().all(|b| b.is_ascii_digit()));
        assert_eq!(trimmed.parse::<u32>().unwrap(), pid);
    }
}
