//! Backend-neutral attribute types. These carry no inode number (the runtime supplies
//! it separately) and no raw C types.

use vstd::prelude::*;

use crate::time::Timestamp;

verus! {

/// The type of a filesystem entry, corresponding to the `S_IFMT` bits of `st_mode`.
#[derive(Clone, Copy, PartialEq, Eq, Structural, Debug, Hash, Default)]
pub enum FileKind {
    #[default]
    RegularFile,
    Directory,
    Symlink,
    CharDevice,
    BlockDevice,
    NamedPipe,
    Socket,
}

/// Filesystem entry attributes (the backend-neutral equivalent of `struct stat`), minus
/// the inode number.
///
/// The filesystem is responsible for supplying an accurate `nlink` value.
#[derive(Clone, Copy, PartialEq, Eq, Structural, Debug)]
pub struct NodeAttr {
    pub size: u64,
    pub blocks: u64,
    pub atime: Timestamp,
    pub mtime: Timestamp,
    pub ctime: Timestamp,
    /// Creation time. Only meaningful on macOS; ignored on Linux.
    pub crtime: Timestamp,
    pub kind: FileKind,
    pub perm: u16,
    /// Number of hard links to this node.
    pub nlink: u32,
    pub uid: u32,
    pub gid: u32,
    pub rdev: u32,
    pub blksize: u32,
    /// BSD file flags (`chflags(2)`). Only meaningful on macOS; ignored on Linux.
    pub flags: u32,
}

impl Default for NodeAttr {
    /// An empty regular file without permissions, links or owner, dated at the epoch.
    fn default() -> (attr: NodeAttr)
        ensures
            attr.size == 0,
            attr.blocks == 0,
            attr.atime@ == 0,
            attr.mtime@ == 0,
            attr.ctime@ == 0,
            attr.crtime@ == 0,
            attr.kind == FileKind::RegularFile,
            attr.perm == 0,
            attr.nlink == 0,
            attr.uid == 0,
            attr.gid == 0,
            attr.rdev == 0,
            attr.blksize == 0,
            attr.flags == 0,
    {
        NodeAttr {
            size: 0,
            blocks: 0,
            atime: Timestamp::epoch(),
            mtime: Timestamp::epoch(),
            ctime: Timestamp::epoch(),
            crtime: Timestamp::epoch(),
            kind: FileKind::RegularFile,
            perm: 0,
            nlink: 0,
            uid: 0,
            gid: 0,
            rdev: 0,
            blksize: 0,
            flags: 0,
        }
    }
}

/// Either a specific point in time, or "now" (as requested by e.g. `utimes(2)` with
/// `UTIME_NOW`).
#[derive(Clone, Copy, PartialEq, Eq, Structural, Debug)]
pub enum TimeOrNow {
    SpecificTime(Timestamp),
    Now,
}

/// The decoded `setattr` request: which fields the caller wants changed, and to what.
/// Only the `Some` fields should be applied.
#[derive(Clone, Copy, Debug)]
pub struct SetAttr {
    pub mode: Option<u32>,
    pub uid: Option<u32>,
    pub gid: Option<u32>,
    pub size: Option<u64>,
    pub atime: Option<TimeOrNow>,
    pub mtime: Option<TimeOrNow>,
    pub ctime: Option<Timestamp>,
    /// Creation time (macOS only; the `FUSE_SET_ATTR_BTIME` bit).
    pub crtime: Option<Timestamp>,
    /// BSD file flags (macOS only; the `FUSE_SET_ATTR_FLAGS` bit).
    pub flags: Option<u32>,
}

impl SetAttr {
    /// The request that changes nothing.
    pub open spec fn nothing() -> SetAttr {
        SetAttr {
            mode: None,
            uid: None,
            gid: None,
            size: None,
            atime: None,
            mtime: None,
            ctime: None,
            crtime: None,
            flags: None,
        }
    }
}

impl Default for SetAttr {
    /// The request that changes nothing.
    fn default() -> (set: SetAttr)
        ensures
            set == SetAttr::nothing(),
    {
        SetAttr {
            mode: None,
            uid: None,
            gid: None,
            size: None,
            atime: None,
            mtime: None,
            ctime: None,
            crtime: None,
            flags: None,
        }
    }
}

/// Filesystem-wide statistics, the backend-neutral equivalent of `statvfs`/`statfs`.
#[derive(Clone, Copy, PartialEq, Eq, Structural, Debug)]
pub struct StatFs {
    pub blocks: u64,
    pub bfree: u64,
    pub bavail: u64,
    pub files: u64,
    pub ffree: u64,
    pub bsize: u32,
    pub namelen: u32,
    pub frsize: u32,
}

impl StatFs {
    /// The minimal valid statistics, reported where a filesystem has none of its own.
    pub open spec fn is_minimal(self) -> bool {
        self == StatFs {
            blocks: 0,
            bfree: 0,
            bavail: 0,
            files: 0,
            ffree: 0,
            bsize: 512,
            namelen: 255,
            frsize: 0,
        }
    }

    /// The minimal valid statistics (as libfuse reports when the callback is unset).
    pub fn minimal() -> (stat: StatFs)
        ensures
            stat.is_minimal(),
    {
        StatFs { bsize: 512, namelen: 255, ..StatFs::default() }
    }
}

impl Default for StatFs {
    fn default() -> (stat: StatFs)
        ensures
            stat == (StatFs {
                blocks: 0,
                bfree: 0,
                bavail: 0,
                files: 0,
                ffree: 0,
                bsize: 0,
                namelen: 0,
                frsize: 0,
            }),
    {
        StatFs {
            blocks: 0,
            bfree: 0,
            bavail: 0,
            files: 0,
            ffree: 0,
            bsize: 0,
            namelen: 0,
            frsize: 0,
        }
    }
}

} // verus!
