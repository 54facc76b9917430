//! POSIX record locks: conversions between [`FileLock`] and the C record `flock`, and the
//! decisions around the `fcntl` calls of filesystems that pass locking through to a
//! backing file descriptor.

use vstd::prelude::*;

use crate::errno::Errno;
use crate::node_fs::{FileLock, LockKind};

verus! {

/// Type of the `l_type` and `l_whence` fields of [`Flock`].
pub type LockType = i16;

/// A shared (read) lock.
pub const F_RDLCK: i16 = 0;

/// An exclusive (write) lock.
pub const F_WRLCK: i16 = 1;

/// Releases a lock.
pub const F_UNLCK: i16 = 2;

/// The `l_whence` value for ranges measured from the start of the file. It is the only
/// `l_whence` a FUSE lock request uses.
pub const SEEK_SET: i16 = 0;

/// The lock constants of the `libc` crate at the width of the record's fields:
/// `libc::F_RDLCK`, `libc::F_WRLCK`, `libc::F_UNLCK` and `libc::SEEK_SET`. The contract
/// claims the values that the crate declares for Linux on x86-64.
#[verifier::external_body]
fn libc_lock_types() -> (types: [i16; 4])
    ensures
        types@ == seq![F_RDLCK, F_WRLCK, F_UNLCK, SEEK_SET],
{
    [
        libc::F_RDLCK as i16, libc::F_WRLCK as i16, libc::F_UNLCK as i16, libc::SEEK_SET as i16,
    ]
}

/// A record lock as the C record `flock` holds it.
#[derive(Clone, Copy, PartialEq, Eq, Structural, Debug, Default)]
pub struct Flock {
    pub l_type: i16,
    pub l_whence: i16,
    pub l_start: i64,
    pub l_len: i64,
    pub l_pid: i32,
}

/// The type field of a lock kind.
pub open spec fn lock_type(kind: LockKind) -> i16 {
    match kind {
        LockKind::Read => F_RDLCK,
        LockKind::Write => F_WRLCK,
        LockKind::Unlock => F_UNLCK,
    }
}

/// The length field of an inclusive range. A zero length means "to end of file", which is
/// how the inclusive `end == u64::MAX` is spelled in the record.
pub open spec fn lock_len(lock: FileLock) -> int {
    if lock.end == u64::MAX {
        0
    } else {
        lock.end - lock.start + 1
    }
}

/// The offsets, the length and the pid fit the record's fields.
pub open spec fn fits_flock(lock: FileLock) -> bool {
    lock.start <= i64::MAX && lock_len(lock) <= i64::MAX && lock.pid <= i32::MAX
}

/// The record of a lock: none for an inverted range or one that does not fit.
pub open spec fn flock_of(lock: FileLock) -> Result<Flock, Errno> {
    if lock.end < lock.start {
        Err(Errno(crate::errno::EINVAL))
    } else if !fits_flock(lock) {
        Err(Errno(crate::errno::EOVERFLOW))
    } else {
        Ok(
            Flock {
                l_type: lock_type(lock.kind),
                l_whence: SEEK_SET,
                l_start: lock.start as i64,
                l_len: lock_len(lock) as i64,
                l_pid: lock.pid as i32,
            },
        )
    }
}

/// Converts a [`FileLock`] into the record the kernel expects, with a `SEEK_SET`-relative
/// range.
///
/// Fails with `EINVAL` for an inverted range, and `EOVERFLOW` when an offset, length, or
/// pid does not fit the corresponding field.
pub fn to_flock(lock: FileLock) -> (raw: Result<Flock, Errno>)
    ensures
        raw == flock_of(lock),
{
    let FileLock { kind, start, end, pid } = lock;
    if end < start {
        return Err(Errno::einval());
    }
    let types: [i16; 4] = libc_lock_types();
    let l_type: i16 = match kind {
        LockKind::Read => types[0],
        LockKind::Write => types[1],
        LockKind::Unlock => types[2],
    };
    if start > i64::MAX as u64 {
        return Err(Errno::eoverflow());
    }
    let l_len: i64 = if end == u64::MAX {
        0
    } else {
        let length: u64 = end - start + 1;
        if length > i64::MAX as u64 {
            return Err(Errno::eoverflow());
        }
        length as i64
    };
    if pid > i32::MAX as u32 {
        return Err(Errno::eoverflow());
    }
    Ok(Flock { l_type, l_whence: types[3], l_start: start as i64, l_len, l_pid: pid as i32 })
}

/// The record says a non-negative `SEEK_SET`-relative range with a known lock type.
pub open spec fn is_lock_record(raw: Flock) -> bool {
    &&& raw.l_whence == SEEK_SET
    &&& raw.l_start >= 0
    &&& raw.l_len >= 0
    &&& raw.l_type == F_RDLCK || raw.l_type == F_WRLCK || raw.l_type == F_UNLCK
}

/// The lock that a record says.
pub open spec fn lock_of(raw: Flock) -> Result<FileLock, Errno> {
    if !is_lock_record(raw) {
        Err(Errno(crate::errno::EINVAL))
    } else {
        Ok(
            FileLock {
                kind: if raw.l_type == F_RDLCK {
                    LockKind::Read
                } else if raw.l_type == F_WRLCK {
                    LockKind::Write
                } else {
                    LockKind::Unlock
                },
                start: raw.l_start as u64,
                end: if raw.l_len == 0 {
                    u64::MAX
                } else {
                    (raw.l_start + raw.l_len - 1) as u64
                },
                pid: if raw.l_pid >= 0 {
                    raw.l_pid as u32
                } else {
                    0
                },
            },
        )
    }
}

/// Converts a lock record into a [`FileLock`].
///
/// Fails with `EINVAL` on anything but a non-negative `SEEK_SET`-relative range with a
/// known lock type. A negative `l_pid`, which is what an open file description lock
/// reports, is mapped to pid 0.
pub fn from_flock(raw: &Flock) -> (lock: Result<FileLock, Errno>)
    ensures
        lock == lock_of(*raw),
{
    let types: [i16; 4] = libc_lock_types();
    if raw.l_whence != types[3] || raw.l_start < 0 || raw.l_len < 0 {
        return Err(Errno::einval());
    }
    let kind: LockKind = if raw.l_type == types[0] {
        LockKind::Read
    } else if raw.l_type == types[1] {
        LockKind::Write
    } else if raw.l_type == types[2] {
        LockKind::Unlock
    } else {
        return Err(Errno::einval());
    };
    let start: u64 = raw.l_start as u64;
    let end: u64 = if raw.l_len == 0 {
        u64::MAX
    } else {
        start + (raw.l_len as u64 - 1)
    };
    let pid: u32 = if raw.l_pid >= 0 {
        raw.l_pid as u32
    } else {
        0
    };
    Ok(FileLock { kind, start, end, pid })
}

/// A lock that fits the record comes back from it unchanged.
pub proof fn law_lock_round_trip(lock: FileLock)
    requires
        flock_of(lock) is Ok,
    ensures
        lock_of(flock_of(lock)->Ok_0) == Ok::<FileLock, Errno>(lock),
{
}

/// A record that is read comes back from its lock unchanged, unless its pid is negative.
pub proof fn law_lock_record_round_trip(raw: Flock)
    requires
        lock_of(raw) is Ok,
        raw.l_pid >= 0,
    ensures
        flock_of(lock_of(raw)->Ok_0) == Ok::<Flock, Errno>(raw),
{
}

/// How a lock is asked for.
#[derive(Clone, Copy, PartialEq, Eq, Structural, Debug)]
pub enum LockCommand {
    /// Take or release the lock, or fail at once (`F_SETLK`).
    Try,
    /// Wait until the lock can be taken (`F_SETLKW`).
    Wait,
}

/// What to hand to `fcntl` for a request to take or release `requested`: the command,
/// which waits for a conflicting lock to be released if `block` is set, and the record.
pub fn setlk_request(requested: FileLock, block: bool) -> (request: Result<
    (LockCommand, Flock),
    Errno,
>)
    ensures
        request == (match flock_of(requested) {
            Ok(raw) => Ok(
                (
                    if block {
                        LockCommand::Wait
                    } else {
                        LockCommand::Try
                    },
                    raw,
                ),
            ),
            Err(e) => Err(e),
        }),
{
    match to_flock(requested) {
        Ok(raw) => {
            let command: LockCommand = if block {
                LockCommand::Wait
            } else {
                LockCommand::Try
            };
            Ok((command, raw))
        },
        Err(e) => Err(e),
    }
}

/// What `fcntl` has answered to a query for a conflicting lock: `status` is what it
/// returned, `error` the error number if it failed, and `raw` the record it filled in.
/// The reply has [`LockKind::Unlock`] when nothing conflicts.
pub fn getlk_reply(status: i32, error: Errno, raw: &Flock) -> (reply: Result<FileLock, Errno>)
    ensures
        reply == (if status == -1 {
            Err(error)
        } else {
            lock_of(*raw)
        }),
{
    if status == -1 {
        Err(error)
    } else {
        from_flock(raw)
    }
}

/// What `fcntl` has answered to a request for a lock: `status` is what it returned, `error`
/// the error number if it failed.
pub fn setlk_reply(status: i32, error: Errno) -> (reply: Result<(), Errno>)
    ensures
        reply == (if status == -1 {
            Err(error)
        } else {
            Ok(())
        }),
{
    if status == -1 {
        Err(error)
    } else {
        Ok(())
    }
}

} // verus!
