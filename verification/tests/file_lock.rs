use typed_fuse::file_lock::{
    from_flock, getlk_reply, setlk_reply, setlk_request, to_flock, Flock, LockCommand, LockType,
    F_RDLCK, F_UNLCK, F_WRLCK, SEEK_SET,
};
use typed_fuse::{Errno, FileLock, LockKind};

fn lock(kind: LockKind, start: u64, end: u64, pid: u32) -> FileLock {
    FileLock {
        kind,
        start,
        end,
        pid,
    }
}

#[test]
fn narrowed_constants_match_libc() {
    assert_eq!(i64::from(F_RDLCK), i64::from(libc::F_RDLCK));
    assert_eq!(i64::from(F_WRLCK), i64::from(libc::F_WRLCK));
    assert_eq!(i64::from(F_UNLCK), i64::from(libc::F_UNLCK));
    assert_eq!(i64::from(SEEK_SET), i64::from(libc::SEEK_SET));
}

#[test]
fn converts_inclusive_ranges() {
    let one = to_flock(lock(LockKind::Read, 7, 7, 12)).unwrap();
    assert_eq!((one.l_start, one.l_len), (7, 1));
    assert_eq!((one.l_type, one.l_whence), (F_RDLCK, SEEK_SET));

    let finite = to_flock(lock(LockKind::Write, 7, 16, 12)).unwrap();
    assert_eq!((finite.l_start, finite.l_len), (7, 10));
    assert_eq!(finite.l_type, F_WRLCK);

    let eof = to_flock(lock(LockKind::Unlock, 7, u64::MAX, 12)).unwrap();
    assert_eq!((eof.l_start, eof.l_len), (7, 0));
    assert_eq!(eof.l_type, F_UNLCK);
}

#[test]
fn round_trips_ranges_and_eof() {
    for original in [
        lock(LockKind::Read, 7, 19, 42),
        lock(LockKind::Write, 0, 0, 1),
        lock(LockKind::Unlock, 20, u64::MAX, 0),
    ] {
        assert_eq!(from_flock(&to_flock(original).unwrap()).unwrap(), original);
    }
}

#[test]
fn rejects_invalid_ranges_and_types() {
    assert_eq!(
        to_flock(lock(LockKind::Read, 8, 7, 0)).unwrap_err(),
        Errno::einval()
    );
    assert_eq!(
        to_flock(lock(LockKind::Read, u64::MAX, u64::MAX, 0)).unwrap_err(),
        Errno::from_raw(libc::EOVERFLOW)
    );

    let mut raw = to_flock(lock(LockKind::Read, 0, 0, 0)).unwrap();
    raw.l_type = 999;
    assert_eq!(from_flock(&raw).unwrap_err(), Errno::einval());

    let mut raw = to_flock(lock(LockKind::Read, 0, 0, 0)).unwrap();
    raw.l_whence = libc::SEEK_END as LockType;
    assert_eq!(from_flock(&raw).unwrap_err(), Errno::einval());
}

#[test]
fn rejects_what_does_not_fit_the_record() {
    let overflow = Errno::from_raw(libc::EOVERFLOW);
    let too_long = lock(LockKind::Write, 0, i64::MAX as u64, 0);
    assert_eq!(to_flock(too_long).unwrap_err(), overflow);
    let longest = to_flock(lock(LockKind::Write, 0, i64::MAX as u64 - 1, 0)).unwrap();
    assert_eq!(longest.l_len, i64::MAX);
    let big_pid = lock(LockKind::Read, 0, 0, i32::MAX as u32 + 1);
    assert_eq!(to_flock(big_pid).unwrap_err(), overflow);
}

#[test]
fn negative_pid_reads_as_zero() {
    let raw = Flock {
        l_type: F_WRLCK,
        l_whence: SEEK_SET,
        l_start: 4,
        l_len: 3,
        l_pid: -1,
    };
    assert_eq!(
        from_flock(&raw),
        Ok(lock(LockKind::Write, 4, 6, 0))
    );
    let negative = Flock { l_start: -1, ..raw };
    assert_eq!(from_flock(&negative), Err(Errno::einval()));
    let negative = Flock { l_len: -1, ..raw };
    assert_eq!(from_flock(&negative), Err(Errno::einval()));
}

#[test]
fn record_round_trips_through_its_lock() {
    let raw = Flock {
        l_type: F_RDLCK,
        l_whence: SEEK_SET,
        l_start: i64::MAX,
        l_len: i64::MAX,
        l_pid: 3,
    };
    assert_eq!(to_flock(from_flock(&raw).unwrap()), Ok(raw));
}

#[test]
fn lock_requests_and_replies() {
    let wanted = lock(LockKind::Write, 0, u64::MAX, 0);
    let raw = to_flock(wanted).unwrap();
    assert_eq!(setlk_request(wanted, true), Ok((LockCommand::Wait, raw)));
    assert_eq!(setlk_request(wanted, false), Ok((LockCommand::Try, raw)));
    assert_eq!(
        setlk_request(lock(LockKind::Write, 2, 1, 0), false),
        Err(Errno::einval())
    );
    assert_eq!(getlk_reply(0, Errno::eio(), &raw), Ok(wanted));
    assert_eq!(getlk_reply(-1, Errno::ebadf(), &raw), Err(Errno::ebadf()));
}

#[test]
fn setting_a_lock_fails_on_minus_one_alone() {
    assert_eq!(setlk_reply(0, Errno::eio()), Ok(()));
    assert_eq!(setlk_reply(1, Errno::eio()), Ok(()));
    assert_eq!(setlk_reply(-2, Errno::eio()), Ok(()));
    assert_eq!(setlk_reply(-1, Errno::eacces()), Err(Errno::eacces()));
}
