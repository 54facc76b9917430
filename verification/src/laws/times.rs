//! Points in time, in nanoseconds.

use vstd::prelude::*;

use crate::conv::RawTime;
use crate::time::Timestamp;

verus! {

/// A time at some distance from the epoch is that many nanoseconds after or before it, and
/// says its distance and its side again.
pub proof fn law_distance_counts_from_the_epoch(
    secs: u64,
    nanos: u32,
    after: (Timestamp, i128, bool, (u64, u32)),
    before: (Timestamp, i128, bool, (u64, u32)),
)
    requires
        nanos < 1_000_000_000,
        call_ensures(Timestamp::after_epoch, (secs, nanos), after.0),
        call_ensures(Timestamp::as_nanos, (&after.0,), after.1),
        call_ensures(Timestamp::is_before_epoch, (&after.0,), after.2),
        call_ensures(Timestamp::distance_from_epoch, (&after.0,), after.3),
        call_ensures(Timestamp::before_epoch, (secs, nanos), before.0),
        call_ensures(Timestamp::as_nanos, (&before.0,), before.1),
        call_ensures(Timestamp::is_before_epoch, (&before.0,), before.2),
        call_ensures(Timestamp::distance_from_epoch, (&before.0,), before.3),
    ensures
        after.1 == secs * 1_000_000_000 + nanos,
        before.1 == -(secs * 1_000_000_000 + nanos),
        !after.2,
        before.2 <==> secs > 0 || nanos > 0,
        after.3 == (secs, nanos),
        before.3 == (secs, nanos),
{
    assert(after.3.0 * 1_000_000_000 + after.3.1 == secs * 1_000_000_000 + nanos);
    assert(before.3.0 * 1_000_000_000 + before.3.1 == secs * 1_000_000_000 + nanos);
}

/// The epoch is zero nanoseconds from itself, and times with one count of nanoseconds are
/// one.
pub proof fn law_epoch_is_zero(
    epoch: Timestamp,
    count: i128,
    a: Timestamp,
    b: Timestamp,
    counts: (i128, i128),
)
    requires
        call_ensures(Timestamp::epoch, (), epoch),
        call_ensures(Timestamp::as_nanos, (&epoch,), count),
        a.valid(),
        b.valid(),
        call_ensures(Timestamp::as_nanos, (&a,), counts.0),
        call_ensures(Timestamp::as_nanos, (&b,), counts.1),
    ensures
        count == 0,
        counts.0 == counts.1 <==> a == b,
{
    Timestamp::law_equal_times_are_one(a, b);
}

/// A distance within the range is kept; one beyond it gives the end of the range.
pub proof fn law_distances_are_kept_within_the_range(
    before: bool,
    secs: u64,
    nanos: u32,
    t: Timestamp,
    count: i128,
)
    requires
        nanos < 1_000_000_000,
        call_ensures(Timestamp::at_distance, (before, secs, nanos), t),
        call_ensures(Timestamp::as_nanos, (&t,), count),
    ensures
        !before && secs < 0x8000_0000_0000_0000 ==> count == secs * 1_000_000_000 + nanos,
        before && secs < 0x8000_0000_0000_0000 ==> count == -(secs * 1_000_000_000 + nanos),
        !before && secs >= 0x8000_0000_0000_0000 ==> count == 0x7fff_ffff_ffff_ffff
            * 1_000_000_000int + 999_999_999,
        before && secs >= 0x8000_0000_0000_0000 ==> count == -0x8000_0000_0000_0000int
            * 1_000_000_000int,
{
}

/// A time is split into whole seconds, rounded down, and the nanoseconds after them.
pub proof fn law_split_rounds_down(t: Timestamp, count: i128, split: (i64, i64))
    requires
        call_ensures(Timestamp::as_nanos, (&t,), count),
        call_ensures(crate::time::system_time_to_secs_nsecs, (t,), split),
    ensures
        split.0 * 1_000_000_000 + split.1 == count,
        0 <= split.1 < 1_000_000_000,
{
}

/// Seconds and nanoseconds denote the time that many nanoseconds from the epoch, before it
/// as well as after it; nanoseconds beyond a second carry over.
pub proof fn law_seconds_and_nanoseconds_add_up(
    secs: i64,
    nsecs: i64,
    t: Timestamp,
    metadata: Timestamp,
    counts: (i128, i128),
)
    requires
        0 <= nsecs < 0x1_0000_0000,
        call_ensures(crate::time::secs_nsecs_to_system_time, (secs, nsecs), t),
        call_ensures(crate::time::system_time_from_secs, (secs, nsecs), metadata),
        call_ensures(Timestamp::as_nanos, (&t,), counts.0),
        call_ensures(Timestamp::as_nanos, (&metadata,), counts.1),
    ensures
        counts.0 == secs * 1_000_000_000 + nsecs,
        counts.1 == secs * 1_000_000_000 + nsecs,
{
    assert(nsecs as u32 == nsecs);
}

/// Every timestamp in normal form can be read; before the epoch none whose nanoseconds make
/// more than a second can.
pub proof fn law_normal_timestamps_fit(secs: i64, nanos: i64, fits: bool)
    requires
        call_ensures(crate::time::fits_metadata_time, (secs, nanos), fits),
    ensures
        0 <= nanos < 1_000_000_000 ==> fits,
        secs < 0 && 1_000_000_000 < nanos < 0x1_0000_0000 ==> !fits,
        secs == 0x7fff_ffff_ffff_ffff && 1_000_000_000 <= nanos < 0x1_0000_0000 ==> !fits,
        0 <= secs <= 0x7fff_ffff_0000_0000 ==> fits,
{
    if 0 <= nanos < 0x1_0000_0000 {
        assert(nanos as u32 == nanos);
    }
}

/// A time that is set is set as it is, one before the epoch as the epoch, and one that is
/// left alone as the nanosecond field that says so.
pub proof fn law_times_are_set_as_given(t: Option<Timestamp>, count: i128, raw: RawTime)
    requires
        call_ensures(crate::passthrough::to_timespec, (t,), raw),
        t matches Some(t) ==> call_ensures(Timestamp::as_nanos, (&t,), count),
    ensures
        t is None ==> raw.tv_nsec == 0x3fff_fffe,
        t is Some ==> 0 <= raw.tv_nsec < 1_000_000_000,
        t is Some && count >= 0 ==> raw.tv_sec * 1_000_000_000 + raw.tv_nsec == count,
        t is Some && count < 0 ==> raw.tv_sec == 0 && raw.tv_nsec == 0,
{
}

} // verus!
