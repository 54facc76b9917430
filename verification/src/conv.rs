//! Conversions between the backend-neutral types and the records of the FUSE low-level
//! interface.
//!
//! The records here hold the same fields as their C counterparts on Linux, at the same
//! widths, as plain values. Those of macOS are in [`crate::darwin`].

use vstd::prelude::*;

use crate::attr::{FileKind, NodeAttr, SetAttr, StatFs, TimeOrNow};
use crate::time::{secs_nsecs_to_system_time, system_time_to_secs_nsecs, Timestamp};

verus! {

/// The bits of a mode that hold the file type.
pub const S_IFMT: u32 = 0o170000;

/// A regular file.
pub const S_IFREG: u32 = 0o100000;

/// A directory.
pub const S_IFDIR: u32 = 0o040000;

/// A symbolic link.
pub const S_IFLNK: u32 = 0o120000;

/// A character device.
pub const S_IFCHR: u32 = 0o020000;

/// A block device.
pub const S_IFBLK: u32 = 0o060000;

/// A named pipe.
pub const S_IFIFO: u32 = 0o010000;

/// A socket.
pub const S_IFSOCK: u32 = 0o140000;

/// The bits of a mode that hold permissions, set-id flags and the sticky flag.
pub const PERMISSION_BITS: u32 = 0o7777;

/// The file-type constants of the `libc` crate, in the order of the constants above:
/// `libc::S_IFMT`, `libc::S_IFREG` and so on. The contract claims the values that the
/// crate declares for Linux on x86-64.
#[verifier::external_body]
fn libc_file_types() -> (types: [u32; 8])
    ensures
        types@ == seq![
            S_IFMT, S_IFREG, S_IFDIR, S_IFLNK, S_IFCHR, S_IFBLK, S_IFIFO, S_IFSOCK,
        ],
{
    [
        libc::S_IFMT, libc::S_IFREG, libc::S_IFDIR, libc::S_IFLNK, libc::S_IFCHR,
        libc::S_IFBLK, libc::S_IFIFO, libc::S_IFSOCK,
    ]
}

/// The file-type bits of a kind.
pub open spec fn kind_bits(kind: FileKind) -> u32 {
    match kind {
        FileKind::RegularFile => S_IFREG,
        FileKind::Directory => S_IFDIR,
        FileKind::Symlink => S_IFLNK,
        FileKind::CharDevice => S_IFCHR,
        FileKind::BlockDevice => S_IFBLK,
        FileKind::NamedPipe => S_IFIFO,
        FileKind::Socket => S_IFSOCK,
    }
}

/// Returns the `S_IFMT` bits corresponding to `kind`.
pub fn kind_to_mode_bits(kind: FileKind) -> (bits: u32)
    ensures
        bits == kind_bits(kind),
{
    let types: [u32; 8] = libc_file_types();
    match kind {
        FileKind::RegularFile => types[1],
        FileKind::Directory => types[2],
        FileKind::Symlink => types[3],
        FileKind::CharDevice => types[4],
        FileKind::BlockDevice => types[5],
        FileKind::NamedPipe => types[6],
        FileKind::Socket => types[7],
    }
}

/// The kind that a mode's file-type bits stand for, if they stand for one.
pub open spec fn is_kind_of(mode: u32, kind: Option<FileKind>) -> bool {
    match kind {
        Some(kind) => mode & S_IFMT == kind_bits(kind),
        None => forall|kind: FileKind| mode & S_IFMT != #[trigger] kind_bits(kind),
    }
}

/// Decodes a file kind from the `S_IFMT` bits of a mode value.
pub fn mode_bits_to_kind(mode: u32) -> (kind: Option<FileKind>)
    ensures
        is_kind_of(mode, kind),
{
    let types: [u32; 8] = libc_file_types();
    let bits: u32 = mode & types[0];
    if bits == types[1] {
        Some(FileKind::RegularFile)
    } else if bits == types[2] {
        Some(FileKind::Directory)
    } else if bits == types[3] {
        Some(FileKind::Symlink)
    } else if bits == types[4] {
        Some(FileKind::CharDevice)
    } else if bits == types[5] {
        Some(FileKind::BlockDevice)
    } else if bits == types[6] {
        Some(FileKind::NamedPipe)
    } else if bits == types[7] {
        Some(FileKind::Socket)
    } else {
        None
    }
}

/// A kind survives being written into a mode, whatever permission bits stand beside it.
pub proof fn law_kind_mode_round_trip(kind: FileKind, permissions: u32, decoded: Option<FileKind>)
    requires
        permissions & S_IFMT == 0,
        is_kind_of(kind_bits(kind) | permissions, decoded),
    ensures
        decoded == Some(kind),
{
    let bits = kind_bits(kind);
    assert(bits & S_IFMT == bits) by {
        assert(S_IFREG & S_IFMT == S_IFREG && S_IFDIR & S_IFMT == S_IFDIR && S_IFLNK & S_IFMT
            == S_IFLNK && S_IFCHR & S_IFMT == S_IFCHR && S_IFBLK & S_IFMT == S_IFBLK && S_IFIFO
            & S_IFMT == S_IFIFO && S_IFSOCK & S_IFMT == S_IFSOCK) by (bit_vector);
    }
    assert((bits | permissions) & S_IFMT == bits) by (bit_vector)
        requires
            permissions & S_IFMT == 0,
            bits & S_IFMT == bits,
    ;
}

/// A time as the C records hold it.
#[derive(Clone, Copy, PartialEq, Eq, Structural, Debug, Default)]
pub struct RawTime {
    pub tv_sec: i64,
    pub tv_nsec: i64,
}

impl RawTime {
    /// The record denotes the time `t`, with the nanoseconds in normal form.
    pub open spec fn denotes(self, t: int) -> bool {
        crate::time::is_split(t, (self.tv_sec, self.tv_nsec))
    }

    /// The time is one that can be represented.
    pub open spec fn in_range(self) -> bool {
        self.tv_sec + (self.tv_nsec as u32) / 1_000_000_000 <= i64::MAX
    }

    pub(crate) fn of(t: Timestamp) -> (raw: RawTime)
        ensures
            raw.denotes(t@),
    {
        let (tv_sec, tv_nsec) = system_time_to_secs_nsecs(t);
        RawTime { tv_sec, tv_nsec }
    }

    pub(crate) fn read(self) -> (t: Timestamp)
        requires
            self.in_range(),
        ensures
            t.valid(),
            t@ == crate::time::joined(self.tv_sec, self.tv_nsec),
    {
        secs_nsecs_to_system_time(self.tv_sec, self.tv_nsec)
    }
}

/// File attributes as the C record `stat` holds them.
#[derive(Clone, Copy, PartialEq, Eq, Structural, Debug, Default)]
pub struct RawStat {
    pub st_ino: u64,
    pub st_mode: u32,
    pub st_nlink: u64,
    pub st_uid: u32,
    pub st_gid: u32,
    pub st_rdev: u64,
    pub st_size: i64,
    pub st_blocks: i64,
    pub st_blksize: i64,
    pub st_atim: RawTime,
    pub st_mtim: RawTime,
    pub st_ctim: RawTime,
}

/// The record of a node's attributes. Sizes beyond the record's fields wrap round.
pub open spec fn is_stat_of(st: RawStat, ino: u64, attr: NodeAttr) -> bool {
    &&& st.st_ino == ino
    &&& st.st_mode == kind_bits(attr.kind) | (attr.perm as u32 & PERMISSION_BITS)
    &&& st.st_nlink == attr.nlink
    &&& st.st_uid == attr.uid
    &&& st.st_gid == attr.gid
    &&& st.st_rdev == attr.rdev
    &&& st.st_size == attr.size as i64
    &&& st.st_blocks == attr.blocks as i64
    &&& st.st_blksize == attr.blksize
    &&& st.st_atim.denotes(attr.atime@)
    &&& st.st_mtim.denotes(attr.mtime@)
    &&& st.st_ctim.denotes(attr.ctime@)
}

/// Builds the `stat` record for `ino`/`attr`. The creation time and the BSD flags have no
/// field in it.
pub fn attr_to_stat(ino: u64, attr: &NodeAttr) -> (st: RawStat)
    ensures
        is_stat_of(st, ino, *attr),
{
    RawStat {
        st_ino: ino,
        st_mode: kind_to_mode_bits(attr.kind) | (attr.perm as u32 & PERMISSION_BITS),
        st_nlink: attr.nlink as u64,
        st_uid: attr.uid,
        st_gid: attr.gid,
        st_rdev: attr.rdev as u64,
        st_size: attr.size as i64,
        st_blocks: attr.blocks as i64,
        st_blksize: attr.blksize as i64,
        st_atim: RawTime::of(attr.atime),
        st_mtim: RawTime::of(attr.mtime),
        st_ctim: RawTime::of(attr.ctime),
    }
}

/// The `stat` record of a node says its kind, its permissions and its size.
pub proof fn law_stat_keeps_kind_permissions_and_size(
    st: RawStat,
    ino: u64,
    attr: NodeAttr,
    decoded: Option<FileKind>,
)
    requires
        is_stat_of(st, ino, attr),
        is_kind_of(st.st_mode, decoded),
    ensures
        decoded == Some(attr.kind),
        st.st_mode & PERMISSION_BITS == attr.perm as u32 & PERMISSION_BITS,
        st.st_size as u64 == attr.size,
{
    let perm = attr.perm as u32;
    let size = attr.size;
    let bits = kind_bits(attr.kind);
    assert((perm & PERMISSION_BITS) & S_IFMT == 0) by (bit_vector);
    law_kind_mode_round_trip(attr.kind, perm & PERMISSION_BITS, decoded);
    assert(bits & PERMISSION_BITS == 0) by {
        assert(S_IFREG & PERMISSION_BITS == 0 && S_IFDIR & PERMISSION_BITS == 0 && S_IFLNK
            & PERMISSION_BITS == 0 && S_IFCHR & PERMISSION_BITS == 0 && S_IFBLK & PERMISSION_BITS
            == 0 && S_IFIFO & PERMISSION_BITS == 0 && S_IFSOCK & PERMISSION_BITS == 0)
            by (bit_vector);
    }
    assert((bits | (perm & PERMISSION_BITS)) & PERMISSION_BITS == perm & PERMISSION_BITS)
        by (bit_vector)
        requires
            bits & PERMISSION_BITS == 0,
    ;
    assert((size as i64) as u64 == size) by (bit_vector);
}

/// A time in a record reads back as the time that was written.
pub proof fn law_raw_time_round_trip(raw: RawTime, t: Timestamp, back: Timestamp)
    requires
        t.valid(),
        raw.denotes(t@),
        back.valid(),
        back@ == crate::time::joined(raw.tv_sec, raw.tv_nsec),
    ensures
        raw.in_range(),
        back == t,
{
    crate::time::law_time_round_trip(t, (raw.tv_sec, raw.tv_nsec), back);
}

/// How long the kernel may keep a reply.
#[derive(Clone, Copy, PartialEq, Eq, Structural, Debug, Default)]
pub struct Ttl {
    pub secs: u64,
    pub nanos: u32,
}

impl Ttl {
    pub fn new(secs: u64, nanos: u32) -> (ttl: Ttl)
        ensures
            ttl == (Ttl { secs, nanos }),
    {
        Ttl { secs, nanos }
    }
}

/// An entry reply as the C record `fuse_entry_param` holds it.
#[derive(Clone, Copy, PartialEq, Eq, Structural, Debug, Default)]
pub struct EntryParam {
    pub ino: u64,
    pub generation: u64,
    pub attr: RawStat,
    pub attr_timeout: Ttl,
    pub entry_timeout: Ttl,
}

/// Builds the entry reply for `ino`/`generation`/`attr`/`ttl`.
pub fn entry_to_entry_param(ino: u64, generation: u64, attr: &NodeAttr, ttl: Ttl) -> (param:
    EntryParam)
    ensures
        param.ino == ino,
        param.generation == generation,
        is_stat_of(param.attr, ino, *attr),
        param.attr_timeout == ttl,
        param.entry_timeout == ttl,
{
    EntryParam {
        ino,
        generation,
        attr: attr_to_stat(ino, attr),
        attr_timeout: ttl,
        entry_timeout: ttl,
    }
}

/// The record with every field zero.
pub open spec fn zeroed_stat() -> RawStat {
    RawStat {
        st_ino: 0,
        st_mode: 0,
        st_nlink: 0,
        st_uid: 0,
        st_gid: 0,
        st_rdev: 0,
        st_size: 0,
        st_blocks: 0,
        st_blksize: 0,
        st_atim: RawTime { tv_sec: 0, tv_nsec: 0 },
        st_mtim: RawTime { tv_sec: 0, tv_nsec: 0 },
        st_ctim: RawTime { tv_sec: 0, tv_nsec: 0 },
    }
}

/// The record with every field zero.
pub(crate) fn zero_stat() -> (st: RawStat)
    ensures
        st == zeroed_stat(),
{
    RawStat {
        st_ino: 0,
        st_mode: 0,
        st_nlink: 0,
        st_uid: 0,
        st_gid: 0,
        st_rdev: 0,
        st_size: 0,
        st_blocks: 0,
        st_blksize: 0,
        st_atim: RawTime { tv_sec: 0, tv_nsec: 0 },
        st_mtim: RawTime { tv_sec: 0, tv_nsec: 0 },
        st_ctim: RawTime { tv_sec: 0, tv_nsec: 0 },
    }
}

/// Builds a negative-cache entry reply (`ino: 0`) for a failed `lookup` that carries a
/// negative TTL.
pub fn negative_entry_param(ttl: Ttl) -> (param: EntryParam)
    ensures
        param == (EntryParam {
            ino: 0,
            generation: 0,
            attr: zeroed_stat(),
            attr_timeout: Ttl { secs: 0, nanos: 0 },
            entry_timeout: ttl,
        }),
{
    EntryParam {
        ino: 0,
        generation: 0,
        attr: zero_stat(),
        attr_timeout: Ttl { secs: 0, nanos: 0 },
        entry_timeout: ttl,
    }
}

/// The request sets the mode.
pub const FUSE_SET_ATTR_MODE: u32 = 0x1;

/// The request sets the owner.
pub const FUSE_SET_ATTR_UID: u32 = 0x2;

/// The request sets the group.
pub const FUSE_SET_ATTR_GID: u32 = 0x4;

/// The request sets the size.
pub const FUSE_SET_ATTR_SIZE: u32 = 0x8;

/// The request sets the access time.
pub const FUSE_SET_ATTR_ATIME: u32 = 0x10;

/// The request sets the modification time.
pub const FUSE_SET_ATTR_MTIME: u32 = 0x20;

/// The request sets the access time to now.
pub const FUSE_SET_ATTR_ATIME_NOW: u32 = 0x80;

/// The request sets the modification time to now.
pub const FUSE_SET_ATTR_MTIME_NOW: u32 = 0x100;

/// The request sets the change time.
pub const FUSE_SET_ATTR_CTIME: u32 = 0x400;

/// The request has a flag set.
pub open spec fn requests(to_set: i32, flag: u32) -> bool {
    to_set as u32 & flag != 0
}

/// The time that a request asks for: "now" has precedence over a given time.
pub open spec fn is_time_request(
    time: Option<TimeOrNow>,
    to_set: i32,
    now: u32,
    given: u32,
    at: RawTime,
) -> bool {
    if requests(to_set, now) {
        time == Some(TimeOrNow::Now)
    } else if requests(to_set, given) {
        time matches Some(TimeOrNow::SpecificTime(t)) && t.valid() && t@ == crate::time::joined(
            at.tv_sec,
            at.tv_nsec,
        )
    } else {
        time is None
    }
}

fn decode_time(to_set: u32, now: u32, given: u32, at: RawTime) -> (time: Option<TimeOrNow>)
    requires
        to_set & now == 0 && to_set & given != 0 ==> at.in_range(),
    ensures
        is_time_request(time, to_set as i32, now, given, at),
{
    assert(to_set as i32 as u32 == to_set) by (bit_vector);
    if to_set & now != 0 {
        Some(TimeOrNow::Now)
    } else if to_set & given != 0 {
        Some(TimeOrNow::SpecificTime(at.read()))
    } else {
        None
    }
}

/// The times that a request asks to be set to are ones that can be represented.
pub open spec fn has_valid_times(st: RawStat, to_set: i32) -> bool {
    &&& !requests(to_set, FUSE_SET_ATTR_ATIME_NOW) && requests(to_set, FUSE_SET_ATTR_ATIME)
        ==> st.st_atim.in_range()
    &&& !requests(to_set, FUSE_SET_ATTR_MTIME_NOW) && requests(to_set, FUSE_SET_ATTR_MTIME)
        ==> st.st_mtim.in_range()
    &&& requests(to_set, FUSE_SET_ATTR_CTIME) ==> st.st_ctim.in_range()
}

/// What a request asks for, apart from the creation time and the BSD flags: the fields of
/// the record whose flags are set.
pub open spec fn is_request(set: SetAttr, st: RawStat, to_set: i32) -> bool {
    &&& set.mode == (if requests(to_set, FUSE_SET_ATTR_MODE) {
        Some(st.st_mode)
    } else {
        None
    })
    &&& set.uid == (if requests(to_set, FUSE_SET_ATTR_UID) {
        Some(st.st_uid)
    } else {
        None
    })
    &&& set.gid == (if requests(to_set, FUSE_SET_ATTR_GID) {
        Some(st.st_gid)
    } else {
        None
    })
    &&& set.size == (if requests(to_set, FUSE_SET_ATTR_SIZE) {
        Some(st.st_size as u64)
    } else {
        None
    })
    &&& is_time_request(
        set.atime,
        to_set,
        FUSE_SET_ATTR_ATIME_NOW,
        FUSE_SET_ATTR_ATIME,
        st.st_atim,
    )
    &&& is_time_request(
        set.mtime,
        to_set,
        FUSE_SET_ATTR_MTIME_NOW,
        FUSE_SET_ATTR_MTIME,
        st.st_mtim,
    )
    &&& is_given_time(set.ctime, to_set, FUSE_SET_ATTR_CTIME, st.st_ctim)
}

/// The time that a request gives, if it has the flag for it set.
pub open spec fn is_given_time(
    time: Option<Timestamp>,
    to_set: i32,
    given: u32,
    at: RawTime,
) -> bool {
    if requests(to_set, given) {
        time matches Some(t) && t.valid() && t@ == crate::time::joined(at.tv_sec, at.tv_nsec)
    } else {
        time is None
    }
}

/// Decodes a `setattr` request from the raw `stat`/`to_set` bitmask pair. Without a
/// record nothing is requested. The creation time and the BSD flags have no field in it.
pub fn setattr_from_raw(attr: Option<&RawStat>, to_set: i32) -> (set: SetAttr)
    requires
        attr matches Some(st) ==> has_valid_times(*st, to_set),
    ensures
        match attr {
            None => set == SetAttr::nothing(),
            Some(st) => is_request(set, *st, to_set) && set.crtime is None && set.flags is None,
        },
{
    let mut out: SetAttr = SetAttr::default();
    let st: &RawStat = match attr {
        Some(st) => st,
        None => {
            return out;
        },
    };
    let flags: u32 = to_set as u32;
    assert(flags as i32 == to_set) by (bit_vector)
        requires
            flags == to_set as u32,
    ;
    if flags & FUSE_SET_ATTR_MODE != 0 {
        out.mode = Some(st.st_mode);
    }
    if flags & FUSE_SET_ATTR_UID != 0 {
        out.uid = Some(st.st_uid);
    }
    if flags & FUSE_SET_ATTR_GID != 0 {
        out.gid = Some(st.st_gid);
    }
    if flags & FUSE_SET_ATTR_SIZE != 0 {
        out.size = Some(st.st_size as u64);
    }
    out.atime = decode_time(flags, FUSE_SET_ATTR_ATIME_NOW, FUSE_SET_ATTR_ATIME, st.st_atim);
    out.mtime = decode_time(flags, FUSE_SET_ATTR_MTIME_NOW, FUSE_SET_ATTR_MTIME, st.st_mtim);
    if flags & FUSE_SET_ATTR_CTIME != 0 {
        out.ctime = Some(st.st_ctim.read());
    }
    out
}

/// Filesystem statistics as the C record `statvfs` holds them.
#[derive(Clone, Copy, PartialEq, Eq, Structural, Debug, Default)]
pub struct RawStatvfs {
    pub f_bsize: u64,
    pub f_frsize: u64,
    pub f_blocks: u64,
    pub f_bfree: u64,
    pub f_bavail: u64,
    pub f_files: u64,
    pub f_ffree: u64,
    pub f_favail: u64,
    pub f_fsid: u64,
    pub f_flag: u64,
    pub f_namemax: u64,
}

/// Converts to the record that the reply to a statistics request takes.
pub fn statfs_to_raw(s: &StatFs) -> (out: RawStatvfs)
    ensures
        out == (RawStatvfs {
            f_bsize: s.bsize as u64,
            f_frsize: s.frsize as u64,
            f_blocks: s.blocks,
            f_bfree: s.bfree,
            f_bavail: s.bavail,
            f_files: s.files,
            f_ffree: s.ffree,
            f_favail: 0,
            f_fsid: 0,
            f_flag: 0,
            f_namemax: s.namelen as u64,
        }),
{
    RawStatvfs {
        f_bsize: s.bsize as u64,
        f_frsize: s.frsize as u64,
        f_blocks: s.blocks,
        f_bfree: s.bfree,
        f_bavail: s.bavail,
        f_files: s.files,
        f_ffree: s.ffree,
        f_favail: 0,
        f_fsid: 0,
        f_flag: 0,
        f_namemax: s.namelen as u64,
    }
}

} // verus!
