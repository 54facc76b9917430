//! The records of the FUSE low-level interface on macOS.
//!
//! They differ from those on Linux in the widths of some fields. Attributes have a creation
//! time and BSD flags besides, and filesystem statistics are another record.

use vstd::prelude::*;

use crate::attr::{NodeAttr, SetAttr, StatFs};
use crate::conv::{attr_to_stat, setattr_from_raw, RawStat, RawTime, Ttl};
use crate::errno::Errno;

verus! {

/// The error number for missing extended attributes.
pub const ENOATTR: i32 = 93;

/// The error used for missing extended attributes.
pub fn enoattr() -> (e: Errno)
    ensures
        e == Errno(ENOATTR),
{
    Errno(ENOATTR)
}

/// File attributes as the C record `stat` holds them on macOS.
#[derive(Clone, Copy, PartialEq, Eq, Structural, Debug, Default)]
pub struct DarwinStat {
    pub st_mode: u16,
    pub st_nlink: u16,
    pub st_ino: u64,
    pub st_uid: u32,
    pub st_gid: u32,
    pub st_rdev: i32,
    pub st_atimespec: RawTime,
    pub st_mtimespec: RawTime,
    pub st_ctimespec: RawTime,
    pub st_birthtimespec: RawTime,
    pub st_size: i64,
    pub st_blocks: i64,
    pub st_blksize: i32,
    pub st_flags: u32,
}

impl DarwinStat {
    /// The same attributes in the wider record, which has no creation time and no flags.
    pub open spec fn widened(self) -> RawStat {
        RawStat {
            st_ino: self.st_ino,
            st_mode: self.st_mode as u32,
            st_nlink: self.st_nlink as u64,
            st_uid: self.st_uid,
            st_gid: self.st_gid,
            st_rdev: self.st_rdev as u64,
            st_size: self.st_size,
            st_blocks: self.st_blocks,
            st_blksize: self.st_blksize as i64,
            st_atim: self.st_atimespec,
            st_mtim: self.st_mtimespec,
            st_ctim: self.st_ctimespec,
        }
    }

    fn widen(&self) -> (st: RawStat)
        ensures
            st == self.widened(),
    {
        RawStat {
            st_ino: self.st_ino,
            st_mode: self.st_mode as u32,
            st_nlink: self.st_nlink as u64,
            st_uid: self.st_uid,
            st_gid: self.st_gid,
            st_rdev: self.st_rdev as u64,
            st_size: self.st_size,
            st_blocks: self.st_blocks,
            st_blksize: self.st_blksize as i64,
            st_atim: self.st_atimespec,
            st_mtim: self.st_mtimespec,
            st_ctim: self.st_ctimespec,
        }
    }
}

/// The record of a node's attributes. Numbers beyond the record's fields wrap round.
pub open spec fn is_darwin_stat_of(st: DarwinStat, ino: u64, attr: NodeAttr) -> bool {
    &&& st.st_ino == ino
    &&& st.st_mode == (crate::conv::kind_bits(attr.kind) | (attr.perm as u32
        & crate::conv::PERMISSION_BITS)) as u16
    &&& st.st_nlink == attr.nlink as u16
    &&& st.st_uid == attr.uid
    &&& st.st_gid == attr.gid
    &&& st.st_rdev == attr.rdev as i32
    &&& st.st_size == attr.size as i64
    &&& st.st_blocks == attr.blocks as i64
    &&& st.st_blksize == attr.blksize as i32
    &&& st.st_atimespec.denotes(attr.atime@)
    &&& st.st_mtimespec.denotes(attr.mtime@)
    &&& st.st_ctimespec.denotes(attr.ctime@)
    &&& st.st_birthtimespec.denotes(attr.crtime@)
    &&& st.st_flags == attr.flags
}

/// Builds the `stat` record for `ino`/`attr`.
pub fn attr_to_darwin_stat(ino: u64, attr: &NodeAttr) -> (st: DarwinStat)
    ensures
        is_darwin_stat_of(st, ino, *attr),
{
    let common: RawStat = attr_to_stat(ino, attr);
    DarwinStat {
        st_mode: common.st_mode as u16,
        st_nlink: attr.nlink as u16,
        st_ino: ino,
        st_uid: attr.uid,
        st_gid: attr.gid,
        st_rdev: attr.rdev as i32,
        st_atimespec: common.st_atim,
        st_mtimespec: common.st_mtim,
        st_ctimespec: common.st_ctim,
        st_birthtimespec: RawTime::of(attr.crtime),
        st_size: common.st_size,
        st_blocks: common.st_blocks,
        st_blksize: attr.blksize as i32,
        st_flags: attr.flags,
    }
}

/// The `stat` record of a node says its kind, its permissions and its size, narrow as its
/// mode is.
pub proof fn law_darwin_stat_keeps_kind_permissions_and_size(
    st: DarwinStat,
    ino: u64,
    attr: NodeAttr,
    decoded: Option<crate::attr::FileKind>,
)
    requires
        is_darwin_stat_of(st, ino, attr),
        crate::conv::is_kind_of(st.st_mode as u32, decoded),
    ensures
        decoded == Some(attr.kind),
        st.st_mode as u32 & crate::conv::PERMISSION_BITS == attr.perm as u32
            & crate::conv::PERMISSION_BITS,
        st.st_size as u64 == attr.size,
{
    let perm = attr.perm as u32;
    let bits = crate::conv::kind_bits(attr.kind);
    let mode = bits | (perm & crate::conv::PERMISSION_BITS);
    assert(bits <= 0xffff);
    assert((bits | (perm & 0o7777)) as u16 as u32 == bits | (perm & 0o7777)) by (bit_vector)
        requires
            bits <= 0xffff,
    ;
    let wide = RawStat {
        st_mode: mode,
        st_nlink: attr.nlink as u64,
        st_rdev: attr.rdev as u64,
        st_blksize: attr.blksize as i64,
        ..st.widened()
    };
    crate::conv::law_stat_keeps_kind_permissions_and_size(wide, ino, attr, decoded);
}

/// The flags of a request that there are on macOS alone, as the C interface numbers them.
#[derive(Clone, Copy, PartialEq, Eq, Structural, Debug)]
pub struct DarwinRequestFlags {
    /// The request sets the creation time (`FUSE_SET_ATTR_BTIME`).
    pub btime: u32,
    /// The request sets the BSD flags (`FUSE_SET_ATTR_FLAGS`).
    pub flags: u32,
}

/// Decodes a `setattr` request from the raw `stat`/`to_set` bitmask pair. Without a
/// record nothing is requested.
pub fn setattr_from_darwin(
    attr: Option<&DarwinStat>,
    to_set: i32,
    numbers: DarwinRequestFlags,
) -> (set: SetAttr)
    requires
        attr matches Some(st) ==> {
            &&& crate::conv::has_valid_times(st.widened(), to_set)
            &&& crate::conv::requests(to_set, numbers.btime) ==> st.st_birthtimespec.in_range()
        },
    ensures
        match attr {
            None => set == SetAttr::nothing(),
            Some(st) => {
                &&& crate::conv::is_request(set, st.widened(), to_set)
                &&& crate::conv::is_given_time(
                    set.crtime,
                    to_set,
                    numbers.btime,
                    st.st_birthtimespec,
                )
                &&& set.flags == (if crate::conv::requests(to_set, numbers.flags) {
                    Some(st.st_flags)
                } else {
                    None
                })
            },
        },
{
    let st: &DarwinStat = match attr {
        Some(st) => st,
        None => {
            return setattr_from_raw(None, to_set);
        },
    };
    let mut out: SetAttr = setattr_from_raw(Some(&st.widen()), to_set);
    if to_set as u32 & numbers.btime != 0 {
        out.crtime = Some(st.st_birthtimespec.read());
    }
    if to_set as u32 & numbers.flags != 0 {
        out.flags = Some(st.st_flags);
    }
    out
}

/// An entry reply as the C record `fuse_entry_param` holds it on macOS.
#[derive(Clone, Copy, PartialEq, Eq, Structural, Debug, Default)]
pub struct DarwinEntryParam {
    pub ino: u64,
    pub generation: u64,
    pub attr: DarwinStat,
    pub attr_timeout: Ttl,
    pub entry_timeout: Ttl,
}

/// Builds the entry reply for `ino`/`generation`/`attr`/`ttl`.
pub fn entry_to_darwin_entry_param(ino: u64, generation: u64, attr: &NodeAttr, ttl: Ttl) -> (param:
    DarwinEntryParam)
    ensures
        param.ino == ino,
        param.generation == generation,
        is_darwin_stat_of(param.attr, ino, *attr),
        param.attr_timeout == ttl,
        param.entry_timeout == ttl,
{
    DarwinEntryParam {
        ino,
        generation,
        attr: attr_to_darwin_stat(ino, attr),
        attr_timeout: ttl,
        entry_timeout: ttl,
    }
}

/// The record with every field zero.
pub open spec fn zeroed_darwin_stat() -> DarwinStat {
    let zero = RawTime { tv_sec: 0, tv_nsec: 0 };
    DarwinStat {
        st_mode: 0,
        st_nlink: 0,
        st_ino: 0,
        st_uid: 0,
        st_gid: 0,
        st_rdev: 0,
        st_atimespec: zero,
        st_mtimespec: zero,
        st_ctimespec: zero,
        st_birthtimespec: zero,
        st_size: 0,
        st_blocks: 0,
        st_blksize: 0,
        st_flags: 0,
    }
}

/// Builds a negative-cache entry reply (`ino: 0`) for a failed `lookup` that carries a
/// negative TTL.
pub fn negative_darwin_entry_param(ttl: Ttl) -> (param: DarwinEntryParam)
    ensures
        param == (DarwinEntryParam {
            ino: 0,
            generation: 0,
            attr: zeroed_darwin_stat(),
            attr_timeout: Ttl { secs: 0, nanos: 0 },
            entry_timeout: ttl,
        }),
{
    let zero: RawTime = RawTime { tv_sec: 0, tv_nsec: 0 };
    DarwinEntryParam {
        ino: 0,
        generation: 0,
        attr: DarwinStat {
            st_mode: 0,
            st_nlink: 0,
            st_ino: 0,
            st_uid: 0,
            st_gid: 0,
            st_rdev: 0,
            st_atimespec: zero,
            st_mtimespec: zero,
            st_ctimespec: zero,
            st_birthtimespec: zero,
            st_size: 0,
            st_blocks: 0,
            st_blksize: 0,
            st_flags: 0,
        },
        attr_timeout: Ttl { secs: 0, nanos: 0 },
        entry_timeout: ttl,
    }
}

/// Filesystem statistics as the C record `statfs` holds them on macOS. The fields of the
/// record that are not here are zero in a reply.
#[derive(Clone, Copy, PartialEq, Eq, Structural, Debug, Default)]
pub struct DarwinStatfs {
    pub f_bsize: u32,
    pub f_iosize: i32,
    pub f_blocks: u64,
    pub f_bfree: u64,
    pub f_bavail: u64,
    pub f_files: u64,
    pub f_ffree: u64,
}

/// Converts to the record that the reply to a statistics request takes. It has no field for
/// the longest name; the preferred I/O size is the closest analog to the fragment size.
pub fn statfs_to_darwin(s: &StatFs) -> (out: DarwinStatfs)
    ensures
        out == (DarwinStatfs {
            f_bsize: s.bsize,
            f_iosize: s.frsize as i32,
            f_blocks: s.blocks,
            f_bfree: s.bfree,
            f_bavail: s.bavail,
            f_files: s.files,
            f_ffree: s.ffree,
        }),
{
    DarwinStatfs {
        f_bsize: s.bsize,
        f_iosize: s.frsize as i32,
        f_blocks: s.blocks,
        f_bfree: s.bfree,
        f_bavail: s.bavail,
        f_files: s.files,
        f_ffree: s.ffree,
    }
}

} // verus!
