//! Record locks, byte by byte.

use vstd::prelude::*;

use crate::errno::Errno;
use crate::file_lock::{Flock, LockCommand};
use crate::node_fs::{FileLock, LockKind};

verus! {

/// The number of a lock kind in the record.
pub open spec fn lock_number(kind: LockKind) -> int {
    match kind {
        LockKind::Read => 0,
        LockKind::Write => 1,
        LockKind::Unlock => 2,
    }
}

/// The record covers a byte: it begins no later, and reaches it or has no end.
pub open spec fn record_covers(raw: Flock, byte: u64) -> bool {
    raw.l_start <= byte && (raw.l_len == 0 || byte < raw.l_start + raw.l_len)
}

/// A lock is written as the record that covers exactly its bytes, from the start of the
/// file, with its kind's number and its process.
pub proof fn law_record_covers_the_locks_bytes(lock: FileLock, raw: Flock, byte: u64)
    requires
        call_ensures(crate::file_lock::to_flock, (lock,), Ok::<Flock, Errno>(raw)),
    ensures
        record_covers(raw, byte) <==> lock.start <= byte <= lock.end,
        raw.l_type == lock_number(lock.kind),
        raw.l_whence == 0,
        raw.l_pid == lock.pid,
        raw.l_start == lock.start,
        raw.l_len == 0 <==> lock.end == 0xffff_ffff_ffff_ffff,
{
}

/// A lock is refused exactly if its range is inverted, with `EINVAL`, or else if a number
/// does not fit the record's signed fields, with `EOVERFLOW`.
pub proof fn law_locks_that_do_not_fit_are_refused(lock: FileLock, raw: Result<Flock, Errno>)
    requires
        call_ensures(crate::file_lock::to_flock, (lock,), raw),
    ensures
        lock.end < lock.start <==> raw == Err::<Flock, Errno>(Errno(22)),
        lock.start <= lock.end ==> (raw == Err::<Flock, Errno>(Errno(75)) <==> lock.start
            > 0x7fff_ffff_ffff_ffff || lock.pid > 0x7fff_ffff || (lock.end < 0xffff_ffff_ffff_ffff
            && lock.end - lock.start + 1 > 0x7fff_ffff_ffff_ffff)),
        raw matches Err(e) ==> e.0 == 22 || e.0 == 75,
{
}

/// A record is read as the lock on exactly its bytes, with the kind of its number. A
/// negative process is none.
pub proof fn law_lock_covers_the_records_bytes(raw: &Flock, lock: FileLock, byte: u64)
    requires
        call_ensures(crate::file_lock::from_flock, (raw,), Ok::<FileLock, Errno>(lock)),
    ensures
        lock.start <= byte <= lock.end <==> record_covers(*raw, byte),
        lock_number(lock.kind) == raw.l_type,
        raw.l_pid >= 0 ==> lock.pid == raw.l_pid,
        raw.l_pid < 0 ==> lock.pid == 0,
        raw.l_len == 0 <==> lock.end == 0xffff_ffff_ffff_ffff,
{
}

/// A record is refused, with `EINVAL`, exactly if it is measured from elsewhere than the
/// start of the file, has a negative start or length, or an unknown type.
pub proof fn law_records_that_say_no_lock_are_refused(raw: &Flock, lock: Result<FileLock, Errno>)
    requires
        call_ensures(crate::file_lock::from_flock, (raw,), lock),
    ensures
        lock is Err <==> raw.l_whence != 0 || raw.l_start < 0 || raw.l_len < 0 || raw.l_type < 0
            || raw.l_type > 2,
        lock matches Err(e) ==> e.0 == 22,
{
}

/// A lock that is written and read again is the same lock.
pub proof fn law_written_locks_read_back(
    lock: FileLock,
    raw: Flock,
    read: Result<FileLock, Errno>,
)
    requires
        call_ensures(crate::file_lock::to_flock, (lock,), Ok::<Flock, Errno>(raw)),
        call_ensures(crate::file_lock::from_flock, (&raw,), read),
    ensures
        read == Ok::<FileLock, Errno>(lock),
{
}

/// A request hands over the record of the lock, and waits exactly if it is to block.
pub proof fn law_requests_hand_over_the_lock(
    lock: FileLock,
    block: bool,
    raw: Result<Flock, Errno>,
    request: Result<(LockCommand, Flock), Errno>,
)
    requires
        call_ensures(crate::file_lock::to_flock, (lock,), raw),
        call_ensures(crate::file_lock::setlk_request, (lock, block), request),
    ensures
        raw matches Ok(record) ==> (request matches Ok((command, handed)) && handed == record && (
        command == LockCommand::Wait <==> block) && (command == LockCommand::Try <==> !block)),
        raw matches Err(e) ==> request == Err::<(LockCommand, Flock), Errno>(e),
{
}

/// Only the status -1 is a failure, and it is reported with its error; otherwise a query is
/// answered with the record that was filled in.
pub proof fn law_minus_one_is_the_failure(
    status: i32,
    error: Errno,
    raw: &Flock,
    read: Result<FileLock, Errno>,
    query: Result<FileLock, Errno>,
    request: Result<(), Errno>,
)
    requires
        call_ensures(crate::file_lock::from_flock, (raw,), read),
        call_ensures(crate::file_lock::getlk_reply, (status, error, raw), query),
        call_ensures(crate::file_lock::setlk_reply, (status, error), request),
    ensures
        status == -1 ==> query == Err::<FileLock, Errno>(error) && request == Err::<(), Errno>(error),
        status != -1 ==> query == read && request is Ok,
{
}

} // verus!
