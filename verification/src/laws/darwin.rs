//! The records on macOS, field by field.

use vstd::prelude::*;

use crate::attr::{NodeAttr, SetAttr, StatFs, TimeOrNow};
use crate::conv::Ttl;
use crate::darwin::{DarwinEntryParam, DarwinRequestFlags, DarwinStat, DarwinStatfs};
use crate::errno::Errno;
use crate::time::Timestamp;

verus! {

/// Missing extended attributes have their own error number.
pub proof fn law_missing_attributes_have_their_number(e: Errno)
    requires
        call_ensures(crate::darwin::enoattr, (), e),
    ensures
        e == Errno(93),
{
}

/// The record of a node says the node's number and each of its attributes: the kind by its
/// number and the permissions in the mode, and nothing else there; numbers that fit as they
/// are.
pub proof fn law_darwin_stat_says_each_attribute(ino: u64, attr: &NodeAttr, st: DarwinStat)
    requires
        call_ensures(crate::darwin::attr_to_darwin_stat, (ino, attr), st),
    ensures
        st.st_ino == ino,
        st.st_mode & 0o170000 == crate::laws::attributes::type_bits(attr.kind),
        st.st_mode & 0o7777 == attr.perm & 0o7777,
        attr.nlink <= 0xffff ==> st.st_nlink == attr.nlink,
        st.st_nlink == attr.nlink as u16,
        st.st_uid == attr.uid,
        st.st_gid == attr.gid,
        st.st_rdev as u32 == attr.rdev,
        st.st_size as u64 == attr.size,
        st.st_blocks as u64 == attr.blocks,
        st.st_blksize as u32 == attr.blksize,
        st.st_flags == attr.flags,
{
    let bits = crate::laws::attributes::type_bits(attr.kind);
    let perm = attr.perm;
    let wide = perm as u32;
    let (size, blocks, rdev, blksize) = (attr.size, attr.blocks, attr.rdev, attr.blksize);
    assert(crate::conv::kind_bits(attr.kind) == bits);
    assert(bits & 0o170000 == bits && bits <= 0o170000) by {
        assert(0o010000u32 & 0o170000 == 0o010000 && 0o020000u32 & 0o170000 == 0o020000 && 0o040000u32
            & 0o170000 == 0o040000 && 0o060000u32 & 0o170000 == 0o060000 && 0o100000u32 & 0o170000
            == 0o100000 && 0o120000u32 & 0o170000 == 0o120000 && 0o140000u32 & 0o170000
            == 0o140000) by (bit_vector);
    }
    let mode = (bits | (wide & 0o7777)) as u16;
    assert(mode & 0o170000 == bits && mode & 0o7777 == perm & 0o7777 && (size as i64) as u64 == size
        && (blocks as i64) as u64 == blocks && (rdev as i32) as u32 == rdev && (blksize as i32) as u32
        == blksize) by (bit_vector)
        requires
            bits & 0o170000 == bits,
            wide == perm as u32,
            mode == (bits | (wide & 0o7777)) as u16,
    ;
}

/// The four times in the record of a node read back as the node's times.
pub proof fn law_darwin_stat_times_read_back(
    ino: u64,
    attr: &NodeAttr,
    st: DarwinStat,
    read: (Timestamp, Timestamp, Timestamp, Timestamp),
)
    requires
        attr.atime.valid(),
        attr.mtime.valid(),
        attr.ctime.valid(),
        attr.crtime.valid(),
        call_ensures(crate::darwin::attr_to_darwin_stat, (ino, attr), st),
        call_ensures(
            crate::time::secs_nsecs_to_system_time,
            (st.st_atimespec.tv_sec, st.st_atimespec.tv_nsec),
            read.0,
        ),
        call_ensures(
            crate::time::secs_nsecs_to_system_time,
            (st.st_mtimespec.tv_sec, st.st_mtimespec.tv_nsec),
            read.1,
        ),
        call_ensures(
            crate::time::secs_nsecs_to_system_time,
            (st.st_ctimespec.tv_sec, st.st_ctimespec.tv_nsec),
            read.2,
        ),
        call_ensures(
            crate::time::secs_nsecs_to_system_time,
            (st.st_birthtimespec.tv_sec, st.st_birthtimespec.tv_nsec),
            read.3,
        ),
    ensures
        read.0 == attr.atime,
        read.1 == attr.mtime,
        read.2 == attr.ctime,
        read.3 == attr.crtime,
{
    crate::conv::law_raw_time_round_trip(st.st_atimespec, attr.atime, read.0);
    crate::conv::law_raw_time_round_trip(st.st_mtimespec, attr.mtime, read.1);
    crate::conv::law_raw_time_round_trip(st.st_ctimespec, attr.ctime, read.2);
    crate::conv::law_raw_time_round_trip(st.st_birthtimespec, attr.crtime, read.3);
}

/// An entry reply says the node, its generation, the record of its attributes and how long
/// both may be kept; one for a name that is not there says no node and only its own
/// lifetime.
pub proof fn law_darwin_entry_replies_carry_the_node(
    ino: u64,
    generation: u64,
    attr: &NodeAttr,
    ttl: Ttl,
    param: DarwinEntryParam,
    st: DarwinStat,
    negative: DarwinEntryParam,
)
    requires
        call_ensures(
            crate::darwin::entry_to_darwin_entry_param,
            (ino, generation, attr, ttl),
            param,
        ),
        call_ensures(crate::darwin::attr_to_darwin_stat, (ino, attr), st),
        call_ensures(crate::darwin::negative_darwin_entry_param, (ttl,), negative),
    ensures
        param.ino == ino,
        param.generation == generation,
        param.attr == st,
        param.attr_timeout == ttl,
        param.entry_timeout == ttl,
        negative.ino == 0,
        negative.generation == 0,
        negative.entry_timeout == ttl,
        negative.attr_timeout.secs == 0 && negative.attr_timeout.nanos == 0,
        negative.attr.st_ino == 0 && negative.attr.st_mode == 0 && negative.attr.st_size == 0,
        negative.attr.st_uid == 0 && negative.attr.st_gid == 0 && negative.attr.st_nlink == 0,
        negative.attr.st_rdev == 0 && negative.attr.st_blocks == 0 && negative.attr.st_blksize == 0,
        negative.attr.st_flags == 0,
        negative.attr.st_atimespec.tv_sec == 0 && negative.attr.st_atimespec.tv_nsec == 0,
        negative.attr.st_mtimespec == negative.attr.st_atimespec,
        negative.attr.st_ctimespec == negative.attr.st_atimespec,
        negative.attr.st_birthtimespec == negative.attr.st_atimespec,
{
    crate::laws::attributes::lemma_one_record(
        param.attr.st_atimespec,
        st.st_atimespec,
        attr.atime@,
    );
    crate::laws::attributes::lemma_one_record(
        param.attr.st_mtimespec,
        st.st_mtimespec,
        attr.mtime@,
    );
    crate::laws::attributes::lemma_one_record(
        param.attr.st_ctimespec,
        st.st_ctimespec,
        attr.ctime@,
    );
    crate::laws::attributes::lemma_one_record(
        param.attr.st_birthtimespec,
        st.st_birthtimespec,
        attr.crtime@,
    );
}

/// Each field is requested exactly by its own bit, whatever the others are, and with what the
/// record says: mode, owner, group and size by 1, 2, 4 and 8, the access and the modification
/// time as "now" by 0x80 and 0x100 and otherwise as given by 0x10 and 0x20, the change time by
/// 0x400, and the creation time and the flags by the two numbers that are handed in. Without
/// a record nothing is requested.
pub proof fn law_darwin_fields_go_by_their_own_bits(
    st: &DarwinStat,
    to_set: i32,
    numbers: DarwinRequestFlags,
    set: SetAttr,
    times: (Timestamp, Timestamp, Timestamp, Timestamp),
    none: SetAttr,
)
    requires
        call_ensures(crate::darwin::setattr_from_darwin, (Some(st), to_set, numbers), set),
        call_ensures(crate::darwin::setattr_from_darwin, (None, to_set, numbers), none),
        call_ensures(
            crate::time::secs_nsecs_to_system_time,
            (st.st_atimespec.tv_sec, st.st_atimespec.tv_nsec),
            times.0,
        ),
        call_ensures(
            crate::time::secs_nsecs_to_system_time,
            (st.st_mtimespec.tv_sec, st.st_mtimespec.tv_nsec),
            times.1,
        ),
        call_ensures(
            crate::time::secs_nsecs_to_system_time,
            (st.st_ctimespec.tv_sec, st.st_ctimespec.tv_nsec),
            times.2,
        ),
        call_ensures(
            crate::time::secs_nsecs_to_system_time,
            (st.st_birthtimespec.tv_sec, st.st_birthtimespec.tv_nsec),
            times.3,
        ),
    ensures
        set.mode == (if (to_set as u32) & 1 != 0 { Some(st.st_mode as u32) } else { None }),
        set.uid == (if (to_set as u32) & 2 != 0 { Some(st.st_uid) } else { None }),
        set.gid == (if (to_set as u32) & 4 != 0 { Some(st.st_gid) } else { None }),
        set.size == (if (to_set as u32) & 8 != 0 { Some(st.st_size as u64) } else { None }),
        set.atime == (if (to_set as u32) & 0x80 != 0 {
            Some(TimeOrNow::Now)
        } else if (to_set as u32) & 0x10 != 0 {
            Some(TimeOrNow::SpecificTime(times.0))
        } else {
            None
        }),
        set.mtime == (if (to_set as u32) & 0x100 != 0 {
            Some(TimeOrNow::Now)
        } else if (to_set as u32) & 0x20 != 0 {
            Some(TimeOrNow::SpecificTime(times.1))
        } else {
            None
        }),
        set.ctime == (if (to_set as u32) & 0x400 != 0 { Some(times.2) } else { None }),
        set.crtime == (if (to_set as u32) & numbers.btime != 0 { Some(times.3) } else { None }),
        set.flags == (if (to_set as u32) & numbers.flags != 0 { Some(st.st_flags) } else { None }),
        none.mode is None && none.uid is None && none.gid is None && none.size is None,
        none.atime is None && none.mtime is None && none.ctime is None,
        none.crtime is None && none.flags is None,
{
    if let Some(TimeOrNow::SpecificTime(t)) = set.atime {
        Timestamp::law_equal_times_are_one(t, times.0);
    }
    if let Some(TimeOrNow::SpecificTime(t)) = set.mtime {
        Timestamp::law_equal_times_are_one(t, times.1);
    }
    if let Some(t) = set.ctime {
        Timestamp::law_equal_times_are_one(t, times.2);
    }
    if let Some(t) = set.crtime {
        Timestamp::law_equal_times_are_one(t, times.3);
    }
}

/// Statistics go into the record field by field, the fragment size as the preferred I/O size.
pub proof fn law_darwin_statistics_go_field_by_field(s: &StatFs, out: DarwinStatfs)
    requires
        call_ensures(crate::darwin::statfs_to_darwin, (s,), out),
    ensures
        out.f_bsize == s.bsize,
        out.f_iosize as u32 == s.frsize,
        out.f_blocks == s.blocks,
        out.f_bfree == s.bfree,
        out.f_bavail == s.bavail,
        out.f_files == s.files,
        out.f_ffree == s.ffree,
{
    let size = s.frsize;
    assert((size as i32) as u32 == size) by (bit_vector);
}

} // verus!
