//! Who may do what to a file, bit by bit.

use vstd::prelude::*;

use crate::errno::Errno;
use crate::node_fs::Caller;
use crate::time::Timestamp;

verus! {

/// An owner other than root is granted read exactly by mode bit 0400, write by 0200 and
/// execute by 0100: a request is granted exactly if each of the three that it asks for is.
/// Group and other bits do not count, and a refusal is `EACCES`.
pub proof fn law_owner_access_goes_by_the_owner_bits(
    caller: &Caller,
    file_gid: u32,
    mode: u32,
    mask: u32,
    reply: Result<(), Errno>,
)
    requires
        call_ensures(
            crate::passthrough::access_check,
            (caller, caller.uid, file_gid, mode, mask),
            reply,
        ),
        caller.uid != 0,
    ensures
        reply is Ok <==> (mask & 4 != 0 ==> mode & 0o400 != 0) && (mask & 2 != 0 ==> mode & 0o200
            != 0) && (mask & 1 != 0 ==> mode & 0o100 != 0),
        reply matches Err(e) ==> e.0 == 13,
{
    assert((mask == 0 || ((mode >> 6) & 7) & (mask & 7) == mask & 7) <==> (mask & 4 == 0 || mode
        & 0o400 != 0) && (mask & 2 == 0 || mode & 0o200 != 0) && (mask & 1 == 0 || mode & 0o100
        != 0)) by (bit_vector);
}

/// A caller who is not the owner but of the file's group is granted read exactly by mode bit
/// 0040, write by 0020 and execute by 0010.
pub proof fn law_group_access_goes_by_the_group_bits(
    caller: &Caller,
    file_uid: u32,
    mode: u32,
    mask: u32,
    reply: Result<(), Errno>,
)
    requires
        call_ensures(
            crate::passthrough::access_check,
            (caller, file_uid, caller.gid, mode, mask),
            reply,
        ),
        caller.uid != 0,
        caller.uid != file_uid,
    ensures
        reply is Ok <==> (mask & 4 != 0 ==> mode & 0o040 != 0) && (mask & 2 != 0 ==> mode & 0o020
            != 0) && (mask & 1 != 0 ==> mode & 0o010 != 0),
        reply matches Err(e) ==> e.0 == 13,
{
    assert((mask == 0 || ((mode >> 3) & 7) & (mask & 7) == mask & 7) <==> (mask & 4 == 0 || mode
        & 0o040 != 0) && (mask & 2 == 0 || mode & 0o020 != 0) && (mask & 1 == 0 || mode & 0o010
        != 0)) by (bit_vector);
}

/// A caller who is neither the owner nor of the group is granted read exactly by mode bit
/// 0004, write by 0002 and execute by 0001.
pub proof fn law_other_access_goes_by_the_other_bits(
    caller: &Caller,
    file_uid: u32,
    file_gid: u32,
    mode: u32,
    mask: u32,
    reply: Result<(), Errno>,
)
    requires
        call_ensures(
            crate::passthrough::access_check,
            (caller, file_uid, file_gid, mode, mask),
            reply,
        ),
        caller.uid != 0,
        caller.uid != file_uid,
        caller.gid != file_gid,
    ensures
        reply is Ok <==> (mask & 4 != 0 ==> mode & 0o004 != 0) && (mask & 2 != 0 ==> mode & 0o002
            != 0) && (mask & 1 != 0 ==> mode & 0o001 != 0),
        reply matches Err(e) ==> e.0 == 13,
{
    assert((mask == 0 || (mode & 7) & (mask & 7) == mask & 7) <==> (mask & 4 == 0 || mode & 0o004
        != 0) && (mask & 2 == 0 || mode & 0o002 != 0) && (mask & 1 == 0 || mode & 0o001 != 0))
        by (bit_vector);
}

/// Root is granted everything, and everyone the question whether a file is there.
pub proof fn law_root_and_existence_are_always_granted(
    caller: &Caller,
    file_uid: u32,
    file_gid: u32,
    mode: u32,
    mask: u32,
    reply: Result<(), Errno>,
)
    requires
        call_ensures(
            crate::passthrough::access_check,
            (caller, file_uid, file_gid, mode, mask),
            reply,
        ),
        caller.uid == 0 || mask == 0,
    ensures
        reply is Ok,
{
}

/// Root and the owner may set any times, and everyone may leave both untouched.
pub proof fn law_owner_may_set_any_times(
    caller: &Caller,
    file_uid: u32,
    file_gid: u32,
    mode: u32,
    times: (Option<Timestamp>, Option<Timestamp>),
    now: Timestamp,
    at: Result<(), Errno>,
    reply: Result<(), Errno>,
)
    requires
        call_ensures(
            crate::passthrough::utimens_permission_check_at,
            (caller, file_uid, file_gid, mode, times.0, times.1, now),
            at,
        ),
        call_ensures(
            crate::passthrough::utimens_permission_check,
            (caller, file_uid, file_gid, mode, times.0, times.1),
            reply,
        ),
        caller.uid == 0 || caller.uid == file_uid || (times.0 is None && times.1 is None),
    ensures
        at is Ok,
        reply is Ok,
{
}

/// A time that is given lies within ten milliseconds of `now`, on either side.
pub open spec fn is_current(now: i128, given: Option<i128>) -> bool {
    given matches Some(t) ==> now - t < 10_000_000 && t - now < 10_000_000
}

/// The nanosecond count of a time that is given.
pub open spec fn nanos_of(time: Option<Timestamp>, nanos: Option<i128>) -> bool {
    match (time, nanos) {
        (Some(t), Some(n)) => call_ensures(Timestamp::as_nanos, (&t,), n),
        (None, None) => true,
        _ => false,
    }
}

/// Someone else may only set times to the current one. Any other time is refused with
/// `EPERM`, whoever may write. The current time is for those who may write: by mode bit
/// 0020 for the group, by 0002 for everyone; the rest is refused with `EACCES`.
pub proof fn law_others_set_the_current_time_if_they_may_write(
    caller: &Caller,
    file_uid: u32,
    file_gid: u32,
    mode: u32,
    times: (Option<Timestamp>, Option<Timestamp>),
    now: Timestamp,
    counts: (Option<i128>, Option<i128>),
    now_count: i128,
    reply: Result<(), Errno>,
)
    requires
        call_ensures(
            crate::passthrough::utimens_permission_check_at,
            (caller, file_uid, file_gid, mode, times.0, times.1, now),
            reply,
        ),
        call_ensures(Timestamp::as_nanos, (&now,), now_count),
        nanos_of(times.0, counts.0),
        nanos_of(times.1, counts.1),
        caller.uid != 0,
        caller.uid != file_uid,
        times.0 is Some || times.1 is Some,
    ensures
        !is_current(now_count, counts.0) || !is_current(now_count, counts.1) ==> reply == Err::<
            (),
            Errno,
        >(Errno(1)),
        is_current(now_count, counts.0) && is_current(now_count, counts.1) ==> {
            &&& (caller.gid == file_gid && mode & 0o020 != 0) || mode & 0o002 != 0 ==> reply is Ok
            &&& !((caller.gid == file_gid && mode & 0o020 != 0) || mode & 0o002 != 0) ==> reply
                == Err::<(), Errno>(Errno(13))
        },
{
}

/// The check against the clock is the check at some time.
pub proof fn law_clock_check_is_the_check_at_some_time(
    caller: &Caller,
    file_uid: u32,
    file_gid: u32,
    mode: u32,
    times: (Option<Timestamp>, Option<Timestamp>),
    counts: (Option<i128>, Option<i128>),
    reply: Result<(), Errno>,
)
    requires
        call_ensures(
            crate::passthrough::utimens_permission_check,
            (caller, file_uid, file_gid, mode, times.0, times.1),
            reply,
        ),
        nanos_of(times.0, counts.0),
        nanos_of(times.1, counts.1),
        caller.uid != 0,
        caller.uid != file_uid,
    ensures
        reply is Ok || reply == Err::<(), Errno>(Errno(1)) || reply == Err::<(), Errno>(Errno(13)),
        times.0 is Some && mode & 0o002 != 0 && reply is Err ==> reply == Err::<(), Errno>(Errno(1)),
        counts.0 matches Some(a) && counts.1 matches Some(m) && (a - m >= 20_000_000 || m - a
            >= 20_000_000) ==> reply == Err::<(), Errno>(Errno(1)),
        ({
            let may_write = (caller.gid == file_gid && mode & 0o020 != 0) || mode & 0o002 != 0;
            let asked = times.0 is Some || times.1 is Some;
            &&& asked && !may_write ==> reply is Err
            &&& may_write ==> reply != Err::<(), Errno>(Errno(13))
            &&& !asked ==> reply is Ok
        }),
{
}

/// A new file is given to the caller unless it already is the process's own: `EPERM` of the
/// attempt is passed over, any other failure is reported. An id that is left alone is
/// handed over as the largest.
pub proof fn law_new_files_go_to_the_caller(
    caller: &Caller,
    uid: u32,
    gid: u32,
    needed: bool,
    status: i32,
    error: Errno,
    reply: Result<(), Errno>,
)
    requires
        call_ensures(crate::passthrough::needs_chown, (caller, uid, gid), needed),
        call_ensures(crate::passthrough::ownership_reply, (status, error), reply),
    ensures
        !needed <==> caller.uid == uid && caller.gid == gid,
        status != -1 ==> reply is Ok,
        status == -1 && error.0 == 1 ==> reply is Ok,
        status == -1 && error.0 != 1 ==> reply == Err::<(), Errno>(error),
{
}

/// An owner that is to be changed is handed over as it is, and one that is not as no id.
pub proof fn law_unchanged_ids_are_told_apart(a: Option<u32>, b: Option<u32>, raw: (u32, u32))
    requires
        call_ensures(crate::passthrough::chown_id, (a,), raw.0),
        call_ensures(crate::passthrough::chown_id, (b,), raw.1),
    ensures
        a is None ==> raw.0 == 0xffff_ffff,
        a matches Some(id) ==> raw.0 == id,
        raw.0 == raw.1 && raw.0 != 0xffff_ffff ==> a == b,
{
}

} // verus!
