//! Points in time and their POSIX forms.

use vstd::prelude::*;

verus! {

pub const NANOS_PER_SEC: u32 = 1_000_000_000;

/// A point in time, held as its distance from the Unix epoch and the side of the epoch
/// on which it lies. Times range over what a signed 64-bit count of seconds can say.
///
/// Contracts speak of a time by its view, the signed number of nanoseconds since the
/// epoch.
#[derive(Clone, Copy, PartialEq, Eq, Structural, Debug)]
pub struct Timestamp {
    before_epoch: bool,
    secs: u64,
    nanos: u32,
}

/// The first time there is.
pub open spec fn first_time() -> int {
    i64::MIN * 1_000_000_000
}

/// The last time there is.
pub open spec fn last_time() -> int {
    i64::MAX * 1_000_000_000 + 999_999_999
}

impl View for Timestamp {
    type V = int;

    closed spec fn view(&self) -> int {
        let distance = self.secs * 1_000_000_000 + self.nanos;
        if self.before_epoch {
            -distance
        } else {
            distance
        }
    }
}

impl Timestamp {
    /// The distance is in normal form, and the time is one of the range.
    pub closed spec fn valid(self) -> bool {
        &&& self.nanos < 1_000_000_000
        &&& first_time() <= self@ <= last_time()
        &&& self.before_epoch ==> self@ < 0
    }

    #[verifier::type_invariant]
    spec fn always_valid(self) -> bool {
        self.valid()
    }

    /// The Unix epoch.
    pub fn epoch() -> (t: Timestamp)
        ensures
            t.valid(),
            t@ == 0,
    {
        Timestamp { before_epoch: false, secs: 0, nanos: 0 }
    }

    /// The time at a given distance after the epoch.
    pub fn after_epoch(secs: u64, nanos: u32) -> (t: Timestamp)
        requires
            secs <= i64::MAX,
            nanos < NANOS_PER_SEC,
        ensures
            t.valid(),
            t@ == secs * 1_000_000_000 + nanos,
    {
        Timestamp { before_epoch: false, secs, nanos }
    }

    /// The time at a given distance before the epoch.
    pub fn before_epoch(secs: u64, nanos: u32) -> (t: Timestamp)
        requires
            secs < i64::MAX as u64 + 1 || (secs == i64::MAX as u64 + 1 && nanos == 0),
            nanos < NANOS_PER_SEC,
        ensures
            t.valid(),
            t@ == -(secs * 1_000_000_000 + nanos),
    {
        Timestamp { before_epoch: secs != 0 || nanos != 0, secs, nanos }
    }

    /// The time at a given distance before or after the epoch. A distance that leads out of
    /// the range gives the first or the last time.
    pub fn at_distance(before: bool, secs: u64, nanos: u32) -> (t: Timestamp)
        requires
            nanos < NANOS_PER_SEC,
        ensures
            t.valid(),
            ({
                let distance = secs * 1_000_000_000 + nanos;
                t@ == (if before {
                    if -distance < first_time() {
                        first_time()
                    } else {
                        -distance
                    }
                } else {
                    if distance > last_time() {
                        last_time()
                    } else {
                        distance
                    }
                })
            }),
    {
        let most: u64 = i64::MAX as u64;
        if before {
            if secs > most {
                Timestamp::before_epoch(most + 1, 0)
            } else {
                Timestamp::before_epoch(secs, nanos)
            }
        } else {
            if secs > most {
                Timestamp::after_epoch(most, 999_999_999)
            } else {
                Timestamp::after_epoch(secs, nanos)
            }
        }
    }

    /// Whether the time lies before the epoch.
    pub fn is_before_epoch(&self) -> (before: bool)
        ensures
            before == (self@ < 0),
    {
        proof {
            use_type_invariant(self);
        }
        self.before_epoch
    }

    /// The distance from the epoch, in whole seconds and the nanoseconds left over.
    pub fn distance_from_epoch(&self) -> (distance: (u64, u32))
        ensures
            distance.1 < NANOS_PER_SEC,
            distance.0 * 1_000_000_000 + distance.1 == (if self@ < 0 {
                -self@
            } else {
                self@
            }),
            distance.0 <= i64::MAX as u64 + 1,
            self@ >= 0 ==> distance.0 <= i64::MAX as u64,
    {
        proof {
            use_type_invariant(self);
        }
        (self.secs, self.nanos)
    }

    /// The number of nanoseconds since the epoch.
    pub fn as_nanos(&self) -> (nanos: i128)
        ensures
            nanos == self@,
            first_time() <= nanos <= last_time(),
    {
        proof {
            use_type_invariant(self);
        }
        let distance: i128 = self.secs as i128 * 1_000_000_000 + self.nanos as i128;
        if self.before_epoch {
            -distance
        } else {
            distance
        }
    }

    /// The time with a given floor-based second count and the nanoseconds after it.
    fn at(secs: i64, nanos: u32) -> (t: Timestamp)
        requires
            nanos < NANOS_PER_SEC,
        ensures
            t.valid(),
            t@ == secs * 1_000_000_000 + nanos,
    {
        if secs >= 0 {
            Timestamp { before_epoch: false, secs: secs as u64, nanos }
        } else {
            let magnitude: u64 = (-(secs + 1)) as u64;
            if nanos == 0 {
                Timestamp { before_epoch: true, secs: magnitude + 1, nanos: 0 }
            } else {
                Timestamp { before_epoch: true, secs: magnitude, nanos: NANOS_PER_SEC - nanos }
            }
        }
    }

    /// Valid times are equal exactly if they are the same number of nanoseconds from
    /// the epoch.
    pub proof fn law_equal_times_are_one(a: Timestamp, b: Timestamp)
        requires
            a.valid(),
            b.valid(),
        ensures
            a@ == b@ <==> a == b,
    {
    }
}

/// A time in seconds, rounded down, and the nanoseconds after them.
pub open spec fn is_split(t: int, split: (i64, i64)) -> bool {
    split.0 * 1_000_000_000 + split.1 == t && 0 <= split.1 < 1_000_000_000
}

/// The time that a count of seconds and one of nanoseconds, taken modulo 2^32, denote.
pub open spec fn joined(secs: i64, nsecs: i64) -> int {
    secs * 1_000_000_000 + (nsecs as u32)
}

/// Splits a time into seconds and nanoseconds relative to the Unix epoch, with negative
/// seconds for times before it: the seconds are rounded down, so that the nanoseconds
/// are never negative.
pub fn system_time_to_secs_nsecs(t: Timestamp) -> (split: (i64, i64))
    ensures
        is_split(t@, split),
{
    proof {
        use_type_invariant(&t);
    }
    let before: bool = t.is_before_epoch();
    let (secs, nsecs) = t.distance_from_epoch();
    if !before {
        (secs as i64, nsecs as i64)
    } else if nsecs == 0 {
        (-((secs - 1) as i64) - 1, 0)
    } else {
        (-(secs as i64) - 1, 1_000_000_000 - nsecs as i64)
    }
}

/// Inverse of [`system_time_to_secs_nsecs`]. The nanoseconds are taken modulo 2^32, and
/// may exceed a second.
pub fn secs_nsecs_to_system_time(secs: i64, nsecs: i64) -> (t: Timestamp)
    requires
        secs + (nsecs as u32) / 1_000_000_000 <= i64::MAX,
    ensures
        t.valid(),
        t@ == joined(secs, nsecs),
{
    let nanos: u32 = nsecs as u32;
    Timestamp::at(secs + (nanos / NANOS_PER_SEC) as i64, nanos % NANOS_PER_SEC)
}

/// A metadata timestamp that can be represented. The nanoseconds of one before the epoch
/// are at most a second.
pub open spec fn is_metadata_time(secs: i64, nanos: i64) -> bool {
    &&& secs >= 0 ==> secs + (nanos as u32) / 1_000_000_000 <= i64::MAX
    &&& secs < 0 ==> (nanos as u32) <= 1_000_000_000
}

/// Whether a metadata timestamp can be represented.
pub fn fits_metadata_time(secs: i64, nanos: i64) -> (fits: bool)
    ensures
        fits == is_metadata_time(secs, nanos),
{
    let sub: u32 = nanos as u32;
    if secs >= 0 {
        secs <= i64::MAX - (sub / NANOS_PER_SEC) as i64
    } else {
        sub <= NANOS_PER_SEC
    }
}

/// The time of a metadata timestamp, in seconds and nanoseconds since the epoch. POSIX
/// timestamps use floor-based seconds, so (-1, 500_000_000) denotes half a second before
/// the epoch, not one-and-a-half seconds. The nanoseconds are taken modulo 2^32.
pub fn system_time_from_secs(secs: i64, nanos: i64) -> (t: Timestamp)
    requires
        is_metadata_time(secs, nanos),
    ensures
        t.valid(),
        t@ == joined(secs, nanos),
{
    let sub: u32 = nanos as u32;
    Timestamp::at(secs + (sub / NANOS_PER_SEC) as i64, sub % NANOS_PER_SEC)
}

/// A time that is split and put together again comes back unchanged.
pub proof fn law_time_round_trip(t: Timestamp, split: (i64, i64), back: Timestamp)
    requires
        t.valid(),
        is_split(t@, split),
        back.valid(),
        back@ == joined(split.0, split.1),
    ensures
        split.0 + (split.1 as u32) / 1_000_000_000 <= i64::MAX,
        back == t,
{
    Timestamp::law_equal_times_are_one(t, back);
}

} // verus!
