//! Attributes, requests to change them and statistics, field by field.

use vstd::prelude::*;

use crate::attr::{FileKind, NodeAttr, SetAttr, StatFs, TimeOrNow};
use crate::conv::{EntryParam, RawStat, RawStatvfs, RawTime, Ttl};
use crate::errno::Errno;
use crate::time::Timestamp;

verus! {

/// The file-type bits of a kind, by number.
pub open spec fn type_bits(kind: FileKind) -> u32 {
    match kind {
        FileKind::NamedPipe => 0o010000,
        FileKind::CharDevice => 0o020000,
        FileKind::Directory => 0o040000,
        FileKind::BlockDevice => 0o060000,
        FileKind::RegularFile => 0o100000,
        FileKind::Symlink => 0o120000,
        FileKind::Socket => 0o140000,
    }
}

/// Each kind has the file-type bits that the C interface numbers it by.
pub proof fn law_kinds_have_their_numbers(kind: FileKind, bits: u32)
    requires
        call_ensures(crate::conv::kind_to_mode_bits, (kind,), bits),
    ensures
        bits == type_bits(kind),
{
}

/// A kind is read from a mode exactly if its number stands in the file-type bits, whatever
/// the others are; a mode with any other number has none.
pub proof fn law_kinds_are_read_by_their_numbers(mode: u32, kind: FileKind, read: Option<FileKind>)
    requires
        call_ensures(crate::conv::mode_bits_to_kind, (mode,), read),
    ensures
        read == Some(kind) <==> mode & 0o170000 == type_bits(kind),
{
    assert(crate::conv::kind_bits(kind) == type_bits(kind));
    if let Some(other) = read {
        assert(crate::conv::kind_bits(other) == type_bits(other));
    }
}

/// The record of a node says the node's number and each of its attributes: the kind by its
/// number and the permissions in the mode, and nothing else there; the sizes as they are.
pub proof fn law_stat_says_each_attribute(ino: u64, attr: &NodeAttr, st: RawStat)
    requires
        call_ensures(crate::conv::attr_to_stat, (ino, attr), st),
    ensures
        st.st_ino == ino,
        st.st_mode & 0o170000 == type_bits(attr.kind),
        st.st_mode & 0o7777 == attr.perm & 0o7777,
        st.st_mode <= 0o177777,
        st.st_nlink == attr.nlink,
        st.st_uid == attr.uid,
        st.st_gid == attr.gid,
        st.st_rdev == attr.rdev,
        st.st_size as u64 == attr.size,
        st.st_blocks as u64 == attr.blocks,
        st.st_blksize == attr.blksize,
{
    let bits = type_bits(attr.kind);
    let perm = attr.perm;
    let wide = perm as u32;
    let size = attr.size;
    let blocks = attr.blocks;
    assert(crate::conv::kind_bits(attr.kind) == bits);
    assert(bits & 0o170000 == bits && bits <= 0o170000) by {
        assert(0o010000u32 & 0o170000 == 0o010000 && 0o020000u32 & 0o170000 == 0o020000 && 0o040000u32
            & 0o170000 == 0o040000 && 0o060000u32 & 0o170000 == 0o060000 && 0o100000u32 & 0o170000
            == 0o100000 && 0o120000u32 & 0o170000 == 0o120000 && 0o140000u32 & 0o170000
            == 0o140000) by (bit_vector);
    }
    assert((bits | (wide & 0o7777)) & 0o170000 == bits && (bits | (wide & 0o7777)) & 0o7777 == wide
        & 0o7777 && (bits | (wide & 0o7777)) <= 0o177777 && wide & 0o7777 == perm & 0o7777
        && (size as i64) as u64 == size && (blocks as i64) as u64 == blocks) by (bit_vector)
        requires
            bits & 0o170000 == bits,
            wide == perm as u32,
    ;
}

/// The three times in the record of a node read back as the node's times.
pub proof fn law_stat_times_read_back(
    ino: u64,
    attr: &NodeAttr,
    st: RawStat,
    read: (Timestamp, Timestamp, Timestamp),
)
    requires
        attr.atime.valid(),
        attr.mtime.valid(),
        attr.ctime.valid(),
        call_ensures(crate::conv::attr_to_stat, (ino, attr), st),
        call_ensures(
            crate::time::secs_nsecs_to_system_time,
            (st.st_atim.tv_sec, st.st_atim.tv_nsec),
            read.0,
        ),
        call_ensures(
            crate::time::secs_nsecs_to_system_time,
            (st.st_mtim.tv_sec, st.st_mtim.tv_nsec),
            read.1,
        ),
        call_ensures(
            crate::time::secs_nsecs_to_system_time,
            (st.st_ctim.tv_sec, st.st_ctim.tv_nsec),
            read.2,
        ),
    ensures
        read.0 == attr.atime,
        read.1 == attr.mtime,
        read.2 == attr.ctime,
        0 <= st.st_atim.tv_nsec < 1_000_000_000,
        0 <= st.st_mtim.tv_nsec < 1_000_000_000,
        0 <= st.st_ctim.tv_nsec < 1_000_000_000,
{
    crate::conv::law_raw_time_round_trip(st.st_atim, attr.atime, read.0);
    crate::conv::law_raw_time_round_trip(st.st_mtim, attr.mtime, read.1);
    crate::conv::law_raw_time_round_trip(st.st_ctim, attr.ctime, read.2);
}

/// An entry reply says the node, its generation, the record of its attributes and how long
/// both may be kept; one for a name that is not there says no node and only its own
/// lifetime.
pub proof fn law_entry_replies_carry_the_node(
    ino: u64,
    generation: u64,
    attr: &NodeAttr,
    ttl: Ttl,
    param: EntryParam,
    st: RawStat,
    negative: EntryParam,
)
    requires
        call_ensures(crate::conv::entry_to_entry_param, (ino, generation, attr, ttl), param),
        call_ensures(crate::conv::attr_to_stat, (ino, attr), st),
        call_ensures(crate::conv::negative_entry_param, (ttl,), negative),
    ensures
        param.ino == ino,
        param.generation == generation,
        param.attr == st,
        param.attr_timeout == ttl,
        param.entry_timeout == ttl,
        negative.ino == 0,
        negative.generation == 0,
        negative.entry_timeout == ttl,
        negative.attr_timeout.secs == 0 && negative.attr_timeout.nanos == 0,
        negative.attr.st_ino == 0 && negative.attr.st_mode == 0 && negative.attr.st_size == 0,
        negative.attr.st_uid == 0 && negative.attr.st_gid == 0 && negative.attr.st_nlink == 0,
        negative.attr.st_rdev == 0 && negative.attr.st_blocks == 0 && negative.attr.st_blksize == 0,
        negative.attr.st_atim == negative.attr.st_mtim,
        negative.attr.st_atim == negative.attr.st_ctim,
        negative.attr.st_atim.tv_sec == 0 && negative.attr.st_atim.tv_nsec == 0,
{
    lemma_one_record(param.attr.st_atim, st.st_atim, attr.atime@);
    lemma_one_record(param.attr.st_mtim, st.st_mtim, attr.mtime@);
    lemma_one_record(param.attr.st_ctim, st.st_ctim, attr.ctime@);
}

pub(crate) proof fn lemma_one_record(a: RawTime, b: RawTime, t: int)
    requires
        a.denotes(t),
        b.denotes(t),
    ensures
        a == b,
{
}

/// A request without a record changes nothing.
pub proof fn law_no_record_requests_nothing(to_set: i32, set: SetAttr)
    requires
        call_ensures(crate::conv::setattr_from_raw, (None, to_set), set),
    ensures
        set.mode is None && set.uid is None && set.gid is None && set.size is None,
        set.atime is None && set.mtime is None && set.ctime is None,
        set.crtime is None && set.flags is None,
{
}

/// Each of mode, owner, group and size is requested exactly by its own bit, 1, 2, 4 and 8,
/// whatever the others are, and with what the record says.
pub proof fn law_each_field_goes_by_its_own_bit(st: &RawStat, to_set: i32, set: SetAttr)
    requires
        call_ensures(crate::conv::setattr_from_raw, (Some(st), to_set), set),
    ensures
        (to_set as u32) & 1 != 0 ==> set.mode == Some(st.st_mode),
        (to_set as u32) & 1 == 0 ==> set.mode is None,
        (to_set as u32) & 2 != 0 ==> set.uid == Some(st.st_uid),
        (to_set as u32) & 2 == 0 ==> set.uid is None,
        (to_set as u32) & 4 != 0 ==> set.gid == Some(st.st_gid),
        (to_set as u32) & 4 == 0 ==> set.gid is None,
        (to_set as u32) & 8 != 0 ==> set.size == Some(st.st_size as u64),
        (to_set as u32) & 8 == 0 ==> set.size is None,
        set.crtime is None,
        set.flags is None,
{
}

/// Two requests that agree on the bit and on the field decode to the same group, owner,
/// mode or size, however much they differ otherwise.
pub proof fn law_fields_are_decoded_apart(
    a: (&RawStat, i32, SetAttr),
    b: (&RawStat, i32, SetAttr),
)
    requires
        call_ensures(crate::conv::setattr_from_raw, (Some(a.0), a.1), a.2),
        call_ensures(crate::conv::setattr_from_raw, (Some(b.0), b.1), b.2),
    ensures
        (a.1 as u32) & 1 == (b.1 as u32) & 1 && a.0.st_mode == b.0.st_mode ==> a.2.mode == b.2.mode,
        (a.1 as u32) & 2 == (b.1 as u32) & 2 && a.0.st_uid == b.0.st_uid ==> a.2.uid == b.2.uid,
        (a.1 as u32) & 4 == (b.1 as u32) & 4 && a.0.st_gid == b.0.st_gid ==> a.2.gid == b.2.gid,
        (a.1 as u32) & 8 == (b.1 as u32) & 8 && a.0.st_size == b.0.st_size ==> a.2.size
            == b.2.size,
{
}

/// The access and the modification time are requested as "now" by bits 0x80 and 0x100, and
/// otherwise as given by bits 0x10 and 0x20; the change time as given by bit 0x400. A given
/// time is the one that the record says.
pub proof fn law_times_are_requested_by_their_bits(
    st: &RawStat,
    to_set: i32,
    set: SetAttr,
    atime: Timestamp,
    mtime: Timestamp,
    ctime: Timestamp,
)
    requires
        call_ensures(crate::conv::setattr_from_raw, (Some(st), to_set), set),
        call_ensures(
            crate::time::secs_nsecs_to_system_time,
            (st.st_atim.tv_sec, st.st_atim.tv_nsec),
            atime,
        ),
        call_ensures(
            crate::time::secs_nsecs_to_system_time,
            (st.st_mtim.tv_sec, st.st_mtim.tv_nsec),
            mtime,
        ),
        call_ensures(
            crate::time::secs_nsecs_to_system_time,
            (st.st_ctim.tv_sec, st.st_ctim.tv_nsec),
            ctime,
        ),
    ensures
        (to_set as u32) & 0x80 != 0 ==> set.atime == Some(TimeOrNow::Now),
        (to_set as u32) & 0x80 == 0 && (to_set as u32) & 0x10 != 0 ==> set.atime == Some(
            TimeOrNow::SpecificTime(atime),
        ),
        (to_set as u32) & 0x80 == 0 && (to_set as u32) & 0x10 == 0 ==> set.atime is None,
        (to_set as u32) & 0x100 != 0 ==> set.mtime == Some(TimeOrNow::Now),
        (to_set as u32) & 0x100 == 0 && (to_set as u32) & 0x20 != 0 ==> set.mtime == Some(
            TimeOrNow::SpecificTime(mtime),
        ),
        (to_set as u32) & 0x100 == 0 && (to_set as u32) & 0x20 == 0 ==> set.mtime is None,
        (to_set as u32) & 0x400 != 0 ==> set.ctime == Some(ctime),
        (to_set as u32) & 0x400 == 0 ==> set.ctime is None,
{
    if let Some(TimeOrNow::SpecificTime(t)) = set.atime {
        Timestamp::law_equal_times_are_one(t, atime);
    }
    if let Some(TimeOrNow::SpecificTime(t)) = set.mtime {
        Timestamp::law_equal_times_are_one(t, mtime);
    }
    if let Some(t) = set.ctime {
        Timestamp::law_equal_times_are_one(t, ctime);
    }
}

/// Statistics that are written into a record and read from it come back field by field, and
/// the record says each of them where it belongs.
pub proof fn law_statistics_come_back(
    s: &StatFs,
    raw: RawStatvfs,
    error: Errno,
    reply: Result<StatFs, Errno>,
)
    requires
        call_ensures(crate::conv::statfs_to_raw, (s,), raw),
        call_ensures(crate::passthrough::statfs_reply, (0i32, error, &raw), reply),
    ensures
        reply == Ok::<StatFs, Errno>(*s),
        raw.f_bsize == s.bsize && raw.f_frsize == s.frsize && raw.f_namemax == s.namelen,
        raw.f_blocks == s.blocks && raw.f_bfree == s.bfree && raw.f_bavail == s.bavail,
        raw.f_files == s.files && raw.f_ffree == s.ffree,
        raw.f_favail == 0 && raw.f_fsid == 0 && raw.f_flag == 0,
{
}

/// Each field of the statistics is the record's own.
pub proof fn law_statistics_are_read_field_by_field(
    status: i32,
    error: Errno,
    raw: &RawStatvfs,
    reply: Result<StatFs, Errno>,
)
    requires
        call_ensures(crate::passthrough::statfs_reply, (status, error, raw), reply),
    ensures
        status != 0 ==> reply == Err::<StatFs, Errno>(error),
        status == 0 ==> {
            &&& reply matches Ok(s) && s.blocks == raw.f_blocks && s.bfree == raw.f_bfree
                && s.bavail == raw.f_bavail && s.files == raw.f_files && s.ffree == raw.f_ffree
                && s.bsize == raw.f_bsize as u32 && s.namelen == raw.f_namemax as u32 && s.frsize
                == raw.f_frsize as u32
        },
{
}

/// Attributes, requests and statistics start out empty, and where a filesystem has no
/// statistics of its own it reports blocks of 512 bytes and names of up to 255.
pub proof fn law_defaults_are_empty(
    attr: NodeAttr,
    set: SetAttr,
    stat: StatFs,
    minimal: StatFs,
    count: i128,
)
    requires
        call_ensures(<NodeAttr as Default>::default, (), attr),
        call_ensures(<SetAttr as Default>::default, (), set),
        call_ensures(<StatFs as Default>::default, (), stat),
        call_ensures(StatFs::minimal, (), minimal),
        call_ensures(Timestamp::as_nanos, (&attr.crtime,), count),
    ensures
        attr.size == 0 && attr.blocks == 0 && attr.perm == 0 && attr.nlink == 0 && attr.uid == 0,
        attr.gid == 0 && attr.rdev == 0 && attr.blksize == 0 && attr.flags == 0,
        attr.kind == FileKind::RegularFile,
        count == 0,
        attr.atime@ == count && attr.mtime@ == count && attr.ctime@ == count,
        set.mode is None && set.uid is None && set.gid is None && set.size is None,
        set.atime is None && set.mtime is None && set.ctime is None,
        set.crtime is None && set.flags is None,
        stat.blocks == 0 && stat.bfree == 0 && stat.bavail == 0 && stat.files == 0,
        stat.ffree == 0 && stat.bsize == 0 && stat.namelen == 0 && stat.frsize == 0,
        minimal == (StatFs { bsize: 512, namelen: 255, ..stat }),
{
}

} // verus!
