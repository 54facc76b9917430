//! Helpers for passthrough-style filesystems that serve a view of a backing directory
//! tree: attribute conversions, what to hand to the system calls and what to make of their
//! results, and POSIX permission checks.
//!
//! The system calls themselves are made elsewhere. What they returned comes in here as
//! plain values: the status, and the error number to report if it says failure.

use vstd::prelude::*;

use crate::attr::{FileKind, NodeAttr, StatFs};
use crate::bytes::{copy_bytes, has_nul};
use crate::conv::{mode_bits_to_kind, RawStatvfs, RawTime};
use crate::errno::Errno;
use crate::node_fs::Caller;
use crate::text::begins_with;
use crate::time::{system_time_from_secs, Timestamp};

verus! {

/// What a backing file's type is reported as.
#[derive(Clone, Copy, PartialEq, Eq, Structural, Debug, Default)]
pub struct FileType {
    pub is_dir: bool,
    pub is_symlink: bool,
    pub is_block_device: bool,
    pub is_char_device: bool,
    pub is_fifo: bool,
    pub is_socket: bool,
}

/// A backing file's metadata.
#[derive(Clone, Copy, PartialEq, Eq, Structural, Debug)]
pub struct Metadata {
    pub file_type: FileType,
    pub mode: u32,
    pub nlink: u64,
    pub uid: u32,
    pub gid: u32,
    pub rdev: u64,
    pub blksize: u64,
    pub blocks: u64,
    pub atime: i64,
    pub atime_nsec: i64,
    pub mtime: i64,
    pub mtime_nsec: i64,
    pub ctime: i64,
    pub ctime_nsec: i64,
    /// The creation time, where the backing filesystem records one.
    pub created: Option<Timestamp>,
}

/// The kind that a file type is reported as; anything that is nothing else is a regular
/// file.
pub open spec fn kind_of_type(ft: FileType) -> FileKind {
    if ft.is_dir {
        FileKind::Directory
    } else if ft.is_symlink {
        FileKind::Symlink
    } else if ft.is_block_device {
        FileKind::BlockDevice
    } else if ft.is_char_device {
        FileKind::CharDevice
    } else if ft.is_fifo {
        FileKind::NamedPipe
    } else if ft.is_socket {
        FileKind::Socket
    } else {
        FileKind::RegularFile
    }
}

/// Maps a backing file's type to a FUSE [`FileKind`].
pub fn file_type_from_metadata(metadata: &Metadata) -> (kind: FileKind)
    ensures
        kind == kind_of_type(metadata.file_type),
{
    let ft: FileType = metadata.file_type;
    if ft.is_dir {
        FileKind::Directory
    } else if ft.is_symlink {
        FileKind::Symlink
    } else if ft.is_block_device {
        FileKind::BlockDevice
    } else if ft.is_char_device {
        FileKind::CharDevice
    } else if ft.is_fifo {
        FileKind::NamedPipe
    } else if ft.is_socket {
        FileKind::Socket
    } else {
        FileKind::RegularFile
    }
}

impl Metadata {
    /// The timestamps are ones that can be represented.
    pub open spec fn times_in_range(self) -> bool {
        &&& crate::time::is_metadata_time(self.atime, self.atime_nsec)
        &&& crate::time::is_metadata_time(self.mtime, self.mtime_nsec)
        &&& crate::time::is_metadata_time(self.ctime, self.ctime_nsec)
    }

    /// Whether the three times can be represented.
    pub fn has_times_in_range(&self) -> (valid: bool)
        ensures
            valid == self.times_in_range(),
    {
        crate::time::fits_metadata_time(self.atime, self.atime_nsec)
            && crate::time::fits_metadata_time(self.mtime, self.mtime_nsec)
            && crate::time::fits_metadata_time(self.ctime, self.ctime_nsec)
    }
}

/// Builds a FUSE [`NodeAttr`] from file metadata, with an explicit size override
/// (passthrough filesystems that transform contents report a different size than the
/// backing file's length).
pub fn file_attr_from_metadata(metadata: &Metadata, size: u64) -> (attr: NodeAttr)
    requires
        metadata.times_in_range(),
    ensures
        attr.size == size,
        attr.blocks == metadata.blocks,
        attr.atime@ == crate::time::joined(metadata.atime, metadata.atime_nsec),
        attr.mtime@ == crate::time::joined(metadata.mtime, metadata.mtime_nsec),
        attr.ctime@ == crate::time::joined(metadata.ctime, metadata.ctime_nsec),
        match metadata.created {
            Some(created) => attr.crtime == created,
            None => attr.crtime@ == 0,
        },
        attr.kind == kind_of_type(metadata.file_type),
        attr.perm == (metadata.mode & crate::conv::PERMISSION_BITS) as u16,
        attr.nlink == metadata.nlink as u32,
        attr.uid == metadata.uid,
        attr.gid == metadata.gid,
        attr.rdev == metadata.rdev as u32,
        attr.flags == 0,
        attr.blksize == metadata.blksize as u32,
{
    NodeAttr {
        size,
        blocks: metadata.blocks,
        atime: system_time_from_secs(metadata.atime, metadata.atime_nsec),
        mtime: system_time_from_secs(metadata.mtime, metadata.mtime_nsec),
        ctime: system_time_from_secs(metadata.ctime, metadata.ctime_nsec),
        crtime: match metadata.created {
            Some(created) => created,
            None => Timestamp::epoch(),
        },
        kind: file_type_from_metadata(metadata),
        perm: (metadata.mode & crate::conv::PERMISSION_BITS) as u16,
        nlink: metadata.nlink as u32,
        uid: metadata.uid,
        gid: metadata.gid,
        rdev: metadata.rdev as u32,
        flags: 0,
        blksize: metadata.blksize as u32,
    }
}

/// Builds a [`NodeAttr`] for a virtual (in-memory) regular file, such as a synthesized
/// config file presented by a passthrough filesystem.
pub fn synthetic_file_attr(size: u64, mtime: Timestamp, perm: u16, uid: u32, gid: u32) -> (attr:
    NodeAttr)
    ensures
        attr == (NodeAttr {
            size,
            blocks: ((size + 511) / 512) as u64,
            atime: mtime,
            mtime,
            ctime: mtime,
            crtime: mtime,
            kind: FileKind::RegularFile,
            perm,
            nlink: 1,
            uid,
            gid,
            rdev: 0,
            flags: 0,
            blksize: 4096,
        }),
{
    let whole: u64 = size / 512;
    let blocks: u64 = if size % 512 == 0 {
        whole
    } else {
        whole + 1
    };
    NodeAttr {
        size,
        blocks,
        atime: mtime,
        mtime,
        ctime: mtime,
        crtime: mtime,
        kind: FileKind::RegularFile,
        perm,
        nlink: 1,
        uid,
        gid,
        rdev: 0,
        flags: 0,
        blksize: 4096,
    }
}

/// The statistics that a record says. Values beyond the fields wrap round.
pub open spec fn statfs_of(raw: RawStatvfs) -> StatFs {
    StatFs {
        blocks: raw.f_blocks,
        bfree: raw.f_bfree,
        bavail: raw.f_bavail,
        files: raw.f_files,
        ffree: raw.f_ffree,
        bsize: raw.f_bsize as u32,
        namelen: raw.f_namemax as u32,
        frsize: raw.f_frsize as u32,
    }
}

/// What to make of `statvfs(2)`: any status but zero is a failure.
pub fn statfs_reply(status: i32, error: Errno, raw: &RawStatvfs) -> (reply: Result<StatFs, Errno>)
    ensures
        reply == (if status != 0 {
            Err(error)
        } else {
            Ok(statfs_of(*raw))
        }),
{
    if status != 0 {
        return Err(error);
    }
    Ok(
        StatFs {
            blocks: raw.f_blocks,
            bfree: raw.f_bfree,
            bavail: raw.f_bavail,
            files: raw.f_files,
            ffree: raw.f_ffree,
            bsize: raw.f_bsize as u32,
            namelen: raw.f_namemax as u32,
            frsize: raw.f_frsize as u32,
        },
    )
}

/// Statistics that are passed on come out as the backing filesystem reported them.
pub proof fn law_statfs_round_trip(s: StatFs, raw: RawStatvfs)
    requires
        raw.f_bsize == s.bsize,
        raw.f_frsize == s.frsize,
        raw.f_blocks == s.blocks,
        raw.f_bfree == s.bfree,
        raw.f_bavail == s.bavail,
        raw.f_files == s.files,
        raw.f_ffree == s.ffree,
        raw.f_namemax == s.namelen,
    ensures
        statfs_of(raw) == s,
{
}

/// What to make of a call that returns zero on success (`lsetxattr`, `fchmod`, `lchown`,
/// `utimensat` and the like).
pub fn status_reply(status: i32, error: Errno) -> (reply: Result<(), Errno>)
    ensures
        status == 0 <==> reply is Ok,
        reply matches Err(e) ==> e == error,
{
    if status == 0 {
        Ok(())
    } else {
        Err(error)
    }
}

/// What to make of a call that returns a byte count, or a negative number on failure
/// (`lgetxattr`, `llistxattr`).
pub fn count_reply(status: isize, error: Errno) -> (reply: Result<usize, Errno>)
    ensures
        reply == (if status < 0 {
            Err(error)
        } else {
            Ok(status as usize)
        }),
{
    if status < 0 {
        Err(error)
    } else {
        Ok(status as usize)
    }
}

/// The buffer to read a value or a name list into, once a probe has said its length: that
/// many zero bytes.
pub fn xattr_buffer(probe: Result<usize, Errno>) -> (buffer: Result<Vec<u8>, Errno>)
    ensures
        match probe {
            Ok(size) => buffer matches Ok(bytes) && bytes@ == Seq::new(size as nat, |i: int| 0u8),
            Err(e) => buffer matches Err(error) && error == e,
        },
{
    match probe {
        Ok(size) => {
            let mut bytes: Vec<u8> = Vec::new();
            while bytes.len() < size
                invariant
                    bytes.len() <= size,
                    bytes@ == Seq::new(bytes@.len(), |i: int| 0u8),
                decreases size - bytes.len(),
            {
                bytes.push(0);
                assert(bytes@ =~= Seq::new(bytes@.len(), |i: int| 0u8));
            }
            Ok(bytes)
        },
        Err(e) => Err(e),
    }
}

/// The part of a buffer that was filled: its first `len` bytes, or all of them.
pub open spec fn filled(buffer: Seq<u8>, len: usize) -> Seq<u8> {
    if len < buffer.len() {
        buffer.take(len as int)
    } else {
        buffer
    }
}

/// The value that was read into a buffer: the part of it that was filled.
pub fn xattr_value(buffer: Vec<u8>, read: Result<usize, Errno>) -> (value: Result<Vec<u8>, Errno>)
    ensures
        match read {
            Ok(len) => value matches Ok(bytes) && bytes@ == filled(buffer@, len),
            Err(e) => value matches Err(error) && error == e,
        },
{
    match read {
        Ok(len) => {
            let mut bytes: Vec<u8> = buffer;
            if len < bytes.len() {
                bytes.truncate(len);
                assert(bytes@ =~= buffer@.take(len as int));
            }
            Ok(bytes)
        },
        Err(e) => Err(e),
    }
}

/// The parts of a byte string between its NUL bytes.
pub open spec fn split_at_nul(bytes: Seq<u8>) -> Seq<Seq<u8>>
    decreases bytes.len(),
{
    if bytes.len() == 0 {
        seq![Seq::empty()]
    } else {
        let parts = split_at_nul(bytes.drop_last());
        if bytes.last() == 0 {
            parts.push(Seq::empty())
        } else {
            parts.drop_last().push(parts.last().push(bytes.last()))
        }
    }
}

/// The names in a list: the parts between its NUL bytes that are not empty.
pub open spec fn names_in(list: Seq<u8>) -> Seq<Seq<u8>> {
    split_at_nul(list).filter(|name: Seq<u8>| name.len() > 0)
}

/// A list of byte strings as values.
pub open spec fn name_views(names: Seq<Vec<u8>>) -> Seq<Seq<u8>> {
    names.map_values(|name: Vec<u8>| name@)
}

fn push_name(names: &mut Vec<Vec<u8>>, name: Vec<u8>)
    ensures
        name_views(final(names)@) == (if name@.len() > 0 {
            name_views(old(names)@).push(name@)
        } else {
            name_views(old(names)@)
        }),
{
    if name.len() > 0 {
        names.push(name);
        assert(name_views(names@) =~= name_views(old(names)@).push(name@));
    }
}

/// Splits a list of NUL-terminated names into the names, without their terminators.
pub fn split_names(list: &[u8]) -> (names: Vec<Vec<u8>>)
    ensures
        name_views(names@) == names_in(list@),
{
    let mut names: Vec<Vec<u8>> = Vec::new();
    let mut name: Vec<u8> = Vec::new();
    let ghost mut done: Seq<Seq<u8>> = Seq::empty();
    let mut index: usize = 0;
    proof {
        reveal(Seq::filter);
        assert(name_views(names@) =~= done.filter(|name: Seq<u8>| name.len() > 0));
        assert(split_at_nul(list@.take(0)) =~= done.push(name@));
    }
    while index < list.len()
        invariant
            index <= list.len(),
            split_at_nul(list@.take(index as int)) == done.push(name@),
            name_views(names@) == done.filter(|name: Seq<u8>| name.len() > 0),
        decreases list.len() - index,
    {
        let byte: u8 = list[index];
        let ghost next = list@.take(index + 1);
        assert(next.drop_last() =~= list@.take(index as int));
        let ghost before = name@;
        if byte == 0 {
            proof {
                done.lemma_filter_push(name@, |name: Seq<u8>| name.len() > 0);
            }
            push_name(&mut names, name);
            name = Vec::new();
            proof {
                done = done.push(before);
                assert(name@ =~= Seq::empty());
            }
        } else {
            name.push(byte);
            assert(done.push(before).drop_last() =~= done);
        }
        assert(split_at_nul(next) == done.push(name@));
        index += 1;
    }
    proof {
        done.lemma_filter_push(name@, |name: Seq<u8>| name.len() > 0);
        assert(list@.take(index as int) =~= list@);
    }
    push_name(&mut names, name);
    names
}

/// The names that were read into a buffer: those in the part of it that was filled.
pub fn xattr_names(buffer: Vec<u8>, read: Result<usize, Errno>) -> (names: Result<
    Vec<Vec<u8>>,
    Errno,
>)
    ensures
        match read {
            Ok(len) => names matches Ok(list) && name_views(list@) == names_in(
                filled(buffer@, len),
            ),
            Err(e) => names matches Err(error) && error == e,
        },
{
    match xattr_value(buffer, read) {
        Ok(list) => Ok(split_names(list.as_slice())),
        Err(e) => Err(e),
    }
}

/// A list of names, each with a NUL terminator.
pub open spec fn terminated(names: Seq<Seq<u8>>) -> Seq<u8>
    decreases names.len(),
{
    if names.len() == 0 {
        Seq::empty()
    } else {
        terminated(names.drop_last()) + names.last().push(0u8)
    }
}

/// Names that are written with terminators are read back as they were.
pub proof fn law_name_list_round_trip(names: Seq<Seq<u8>>)
    requires
        forall|i: int|
            0 <= i < names.len() ==> (#[trigger] names[i]).len() > 0 && !names[i].contains(0u8),
    ensures
        names_in(terminated(names)) == names,
{
    lemma_split_terminated(names);
    let nonempty = |name: Seq<u8>| name.len() > 0;
    names.lemma_filter_push(Seq::empty(), nonempty);
    lemma_filter_keeps_all(names);
}

proof fn lemma_filter_keeps_all(names: Seq<Seq<u8>>)
    requires
        forall|i: int| 0 <= i < names.len() ==> (#[trigger] names[i]).len() > 0,
    ensures
        names.filter(|name: Seq<u8>| name.len() > 0) == names,
    decreases names.len(),
{
    reveal(Seq::filter);
    if names.len() > 0 {
        lemma_filter_keeps_all(names.drop_last());
        assert(names.drop_last().push(names.last()) =~= names);
    }
}

proof fn lemma_split_terminated(names: Seq<Seq<u8>>)
    requires
        forall|i: int|
            0 <= i < names.len() ==> (#[trigger] names[i]).len() > 0 && !names[i].contains(0u8),
    ensures
        split_at_nul(terminated(names)) == names.push(Seq::empty()),
    decreases names.len(),
{
    if names.len() == 0 {
        assert(names.push(Seq::empty()) =~= seq![Seq::<u8>::empty()]);
    } else {
        let rest = names.drop_last();
        let last = names.last();
        lemma_split_terminated(rest);
        assert(!names[names.len() - 1].contains(0u8));
        lemma_split_grows(terminated(rest), rest, last);
        let all = terminated(names);
        assert(all.drop_last() =~= terminated(rest) + last);
        assert(all.last() == 0);
        assert(rest.push(last) =~= names);
    }
}

proof fn lemma_split_grows(start: Seq<u8>, done: Seq<Seq<u8>>, name: Seq<u8>)
    requires
        split_at_nul(start) == done.push(Seq::empty()),
        !name.contains(0u8),
    ensures
        split_at_nul(start + name) == done.push(name),
    decreases name.len(),
{
    if name.len() == 0 {
        assert(start + name =~= start);
        assert(name =~= Seq::empty());
    } else {
        let shorter = name.drop_last();
        assert forall|i: int| 0 <= i < shorter.len() implies shorter[i] != 0u8 by {
            assert(name[i] == shorter[i]);
        }
        lemma_split_grows(start, done, shorter);
        let all = start + name;
        assert(all.drop_last() =~= start + shorter);
        assert(name[name.len() - 1] == name.last());
        assert(all.last() == name.last());
        assert(done.push(shorter).drop_last() =~= done);
        assert(shorter.push(name.last()) =~= name);
    }
}

/// The bytes with a NUL terminator, or `EINVAL` if they hold a NUL themselves.
pub open spec fn c_string(bytes: Seq<u8>) -> Result<Seq<u8>, Errno> {
    if bytes.contains(0u8) {
        Err(Errno(crate::errno::EINVAL))
    } else {
        Ok(bytes.push(0u8))
    }
}

fn terminate(bytes: &[u8]) -> (terminated: Result<Vec<u8>, Errno>)
    ensures
        match terminated {
            Ok(out) => c_string(bytes@) == Ok::<Seq<u8>, Errno>(out@),
            Err(e) => c_string(bytes@) == Err::<Seq<u8>, Errno>(e),
        },
{
    if has_nul(bytes) {
        Err(Errno::einval())
    } else {
        let mut out: Vec<u8> = copy_bytes(bytes);
        out.push(0);
        Ok(out)
    }
}

/// Builds a NUL-terminated string from a filesystem path, for use with the system calls.
pub fn c_path(path: &[u8]) -> (terminated: Result<Vec<u8>, Errno>)
    ensures
        match terminated {
            Ok(out) => c_string(path@) == Ok::<Seq<u8>, Errno>(out@),
            Err(e) => c_string(path@) == Err::<Seq<u8>, Errno>(e),
        },
{
    terminate(path)
}

/// Builds a NUL-terminated string from an extended attribute name.
pub fn c_name(name: &[u8]) -> (terminated: Result<Vec<u8>, Errno>)
    ensures
        match terminated {
            Ok(out) => c_string(name@) == Ok::<Seq<u8>, Errno>(out@),
            Err(e) => c_string(name@) == Err::<Seq<u8>, Errno>(e),
        },
{
    terminate(name)
}

/// Returns true for macOS-resident metadata attributes (e.g. `com.apple.*`) that the
/// underlying filesystem may attach to backing files. Passthrough filesystems usually hide
/// these from the mounted view.
pub fn is_apple_xattr(name: &str) -> (hidden: bool)
    ensures
        hidden == "com.apple."@.is_prefix_of(name@),
{
    begins_with(name, "com.apple.")
}

/// The permission bits that apply to a caller: the owner's, the group's or the others'.
pub open spec fn effective_bits(caller: Caller, file_uid: u32, file_gid: u32, mode: u32) -> u32 {
    if caller.uid == file_uid {
        (mode >> 6) & 7
    } else if caller.gid == file_gid {
        (mode >> 3) & 7
    } else {
        mode & 7
    }
}

/// The caller has the access that the mask asks for: root always has, asking for nothing
/// always succeeds, and otherwise every bit asked for must be among those that apply.
pub open spec fn may_access(
    caller: Caller,
    file_uid: u32,
    file_gid: u32,
    mode: u32,
    mask: u32,
) -> bool {
    ||| mask == 0
    ||| caller.uid == 0
    ||| effective_bits(caller, file_uid, file_gid, mode) & (mask & 7) == mask & 7
}

/// POSIX `access(2)` permission check: selects the owner/group/other mode triplet based on
/// the caller's uid/gid versus the file's, and verifies the requested `mask`
/// (`R_OK`/`W_OK`/`X_OK` bits) against it. Root always passes; `mask == 0` (`F_OK`) only
/// checks existence, which callers signal by not calling this at all — kept here as an
/// explicit early-out since the mask still arrives as a bitmask that may legitimately be
/// zero.
pub fn access_check(caller: &Caller, file_uid: u32, file_gid: u32, mode: u32, mask: u32) -> (reply:
    Result<(), Errno>)
    ensures
        reply is Ok <==> may_access(*caller, file_uid, file_gid, mode, mask),
        reply matches Err(e) ==> e == Errno(crate::errno::EACCES),
{
    if mask == 0 {
        return Ok(());
    }
    if caller.uid == 0 {
        return Ok(());
    }
    let effective: u32 = if caller.uid == file_uid {
        (mode >> 6) & 7
    } else if caller.gid == file_gid {
        (mode >> 3) & 7
    } else {
        mode & 7
    };
    let need: u32 = mask & 7;
    if (effective & need) == need {
        Ok(())
    } else {
        Err(Errno::eacces())
    }
}

/// Who has some access has any part of it.
pub proof fn law_access_includes_its_parts(
    caller: Caller,
    file_uid: u32,
    file_gid: u32,
    mode: u32,
    mask: u32,
    part: u32,
)
    requires
        may_access(caller, file_uid, file_gid, mode, mask),
        mask != 0,
        part & mask == part,
    ensures
        may_access(caller, file_uid, file_gid, mode, part),
{
    let bits = effective_bits(caller, file_uid, file_gid, mode);
    if caller.uid != 0 {
        assert(bits & (part & 7) == part & 7) by (bit_vector)
            requires
                bits & (mask & 7) == mask & 7,
                part & mask == part,
        ;
    }
}

/// How far a time may be from now to count as "now", in nanoseconds.
pub const NOW_WINDOW_NANOS: i128 = 10_000_000;

/// The time is as good as now. The kernel passes "now" as the time at which the request
/// was made; explicit times can be tens of milliseconds in the past. A small window tells
/// the one from the other.
pub open spec fn near_now(now: int, t: int) -> bool {
    -10_000_000 < now - t < 10_000_000
}

/// The time is left untouched, or set to now.
pub open spec fn keeps_or_now(now: int, t: Option<Timestamp>) -> bool {
    match t {
        Some(t) => near_now(now, t@),
        None => true,
    }
}

/// The mode lets the caller write. An owner's bit counts for the owner and the group's bit
/// for the group; the others' bit counts for everyone.
pub open spec fn mode_lets_write(caller: Caller, file_uid: u32, file_gid: u32, mode: u32) -> bool {
    ||| caller.uid == file_uid && mode & 0o200 != 0
    ||| caller.gid == file_gid && mode & 0o020 != 0
    ||| mode & 0o002 != 0
}

/// The verdict on a request to set a file's times.
pub open spec fn utimens_verdict(
    caller: Caller,
    file_uid: u32,
    file_gid: u32,
    mode: u32,
    atime: Option<Timestamp>,
    mtime: Option<Timestamp>,
    now: int,
) -> Result<(), Errno> {
    if caller.uid == 0 || caller.uid == file_uid || (atime is None && mtime is None) {
        Ok(())
    } else if !(keeps_or_now(now, atime) && keeps_or_now(now, mtime)) {
        Err(Errno(crate::errno::EPERM))
    } else if mode_lets_write(caller, file_uid, file_gid, mode) {
        Ok(())
    } else {
        Err(Errno(crate::errno::EACCES))
    }
}

/// `std::time::SystemTime::now`: the current time, as whether it lies before the Unix epoch
/// and its distance from it in seconds and nanoseconds. The contract claims that the
/// nanoseconds make less than a second; nothing is claimed of which time it is.
#[verifier::external_body]
fn system_clock() -> (now: (bool, u64, u32))
    ensures
        now.2 < 1_000_000_000,
{
    match std::time::SystemTime::now().duration_since(std::time::SystemTime::UNIX_EPOCH) {
        Ok(since) => (false, since.as_secs(), since.subsec_nanos()),
        Err(e) => (true, e.duration().as_secs(), e.duration().subsec_nanos()),
    }
}

fn is_near(now: &Timestamp, t: Option<Timestamp>) -> (near: bool)
    ensures
        near == keeps_or_now(now@, t),
{
    match t {
        Some(t) => {
            let distance: i128 = now.as_nanos() - t.as_nanos();
            -NOW_WINDOW_NANOS < distance && distance < NOW_WINDOW_NANOS
        },
        None => true,
    }
}

/// POSIX utimens permission check at a given time; see [`utimens_permission_check`].
pub fn utimens_permission_check_at(
    caller: &Caller,
    file_uid: u32,
    file_gid: u32,
    mode: u32,
    atime: Option<Timestamp>,
    mtime: Option<Timestamp>,
    now: Timestamp,
) -> (reply: Result<(), Errno>)
    ensures
        reply == utimens_verdict(*caller, file_uid, file_gid, mode, atime, mtime, now@),
{
    if caller.uid == 0 {
        return Ok(());
    }
    if caller.uid == file_uid {
        return Ok(());
    }
    if atime.is_none() && mtime.is_none() {
        return Ok(());
    }
    let setting_to_current: bool = is_near(&now, atime) && is_near(&now, mtime);
    if setting_to_current {
        let has_write: bool = (caller.uid == file_uid && mode & 0o200 != 0) || (caller.gid
            == file_gid && mode & 0o020 != 0) || mode & 0o002 != 0;
        if has_write {
            return Ok(());
        }
        return Err(Errno::eacces());
    }
    Err(Errno::eperm())
}

/// POSIX utimens permission check: the owner and root may always set times; others may set
/// both times to the current time only if they have write access; setting an explicit time
/// requires the owner or root.
///
/// `atime`/`mtime` are `Some` when the caller requested an explicit or current time (as
/// opposed to leaving the timestamp untouched). What counts as the current time is read
/// from the system clock: the verdict is the one at some time.
pub fn utimens_permission_check(
    caller: &Caller,
    file_uid: u32,
    file_gid: u32,
    mode: u32,
    atime: Option<Timestamp>,
    mtime: Option<Timestamp>,
) -> (reply: Result<(), Errno>)
    ensures
        caller.uid == 0 || caller.uid == file_uid || (atime is None && mtime is None)
            ==> reply is Ok,
        exists|now: int|
            reply == #[trigger] utimens_verdict(
                *caller,
                file_uid,
                file_gid,
                mode,
                atime,
                mtime,
                now,
            ),
{
    let (before, secs, nanos) = system_clock();
    let now: Timestamp = Timestamp::at_distance(before, secs, nanos);
    utimens_permission_check_at(caller, file_uid, file_gid, mode, atime, mtime, now)
}

/// Whether a new file has to be given to the caller: only if it would belong to someone
/// else, the process's own user and group being `uid` and `gid`.
pub fn needs_chown(caller: &Caller, uid: u32, gid: u32) -> (needed: bool)
    ensures
        needed == !(caller.uid == uid && caller.gid == gid),
{
    !(caller.uid == uid && caller.gid == gid)
}

/// What to make of the attempt to give a new file to the caller: `EPERM` is ignored so that
/// unprivileged mounts continue to work.
pub fn ownership_reply(status: i32, error: Errno) -> (reply: Result<(), Errno>)
    ensures
        reply is Ok <==> (status != -1 || error == Errno(crate::errno::EPERM)),
        reply matches Err(e) ==> e == error,
{
    if status == -1 && error.raw() != Errno::eperm().raw() {
        Err(error)
    } else {
        Ok(())
    }
}

/// The user or group id to hand to `chown(2)`: `None` leaves the id unchanged, which is
/// said by the largest id.
pub fn chown_id(id: Option<u32>) -> (raw: u32)
    ensures
        raw == (match id {
            Some(id) => id,
            None => u32::MAX,
        }),
{
    match id {
        Some(id) => id,
        None => u32::MAX,
    }
}

/// The nanosecond field that leaves a timestamp untouched.
pub const UTIME_OMIT: i64 = 1_073_741_822;

/// The `libc` crate's `UTIME_OMIT`. The contract claims the value that the crate declares
/// for Linux on x86-64.
#[verifier::external_body]
fn libc_utime_omit() -> (omit: i64)
    ensures
        omit == UTIME_OMIT,
{
    libc::UTIME_OMIT
}

/// The record to set a timestamp with: `None` leaves it untouched (`UTIME_OMIT`), and a
/// time before the epoch is taken as the epoch.
pub fn to_timespec(t: Option<Timestamp>) -> (raw: RawTime)
    ensures
        match t {
            Some(t) => raw.denotes(
                if t@ < 0 {
                    0
                } else {
                    t@
                },
            ),
            None => raw == (RawTime { tv_sec: 0, tv_nsec: UTIME_OMIT }),
        },
{
    match t {
        Some(t) => {
            if t.is_before_epoch() {
                RawTime { tv_sec: 0, tv_nsec: 0 }
            } else {
                let (secs, nanos) = t.distance_from_epoch();
                RawTime { tv_sec: secs as i64, tv_nsec: nanos as i64 }
            }
        },
        None => RawTime { tv_sec: 0, tv_nsec: libc_utime_omit() },
    }
}

/// The call that creates a filesystem node.
#[derive(Clone, Copy, PartialEq, Eq, Structural, Debug)]
pub enum NodeCall {
    /// `mkfifo`
    Fifo,
    /// `mknod`
    Special,
}

/// The call that creates a node of a given mode: a FIFO, a character or block device or a
/// socket, dispatched on the `S_IFMT` bits. Regular files and all else are rejected with
/// `EINVAL` — open them with `create` semantics so callers can write payload metadata
/// (headers) atomically.
pub fn node_call(mode: u32) -> (call: Result<NodeCall, Errno>)
    ensures
        ({
            let bits = mode & crate::conv::S_IFMT;
            call == (if bits == crate::conv::S_IFIFO {
                Ok(NodeCall::Fifo)
            } else if bits == crate::conv::S_IFCHR || bits == crate::conv::S_IFBLK || bits
                == crate::conv::S_IFSOCK {
                Ok(NodeCall::Special)
            } else {
                Err(Errno(crate::errno::EINVAL))
            })
        }),
{
    match mode_bits_to_kind(mode) {
        Some(FileKind::NamedPipe) => Ok(NodeCall::Fifo),
        Some(FileKind::CharDevice) => Ok(NodeCall::Special),
        Some(FileKind::BlockDevice) => Ok(NodeCall::Special),
        Some(FileKind::Socket) => Ok(NodeCall::Special),
        Some(_) => Err(Errno::einval()),
        None => {
            assert(crate::conv::kind_bits(FileKind::NamedPipe) == crate::conv::S_IFIFO);
            assert(crate::conv::kind_bits(FileKind::CharDevice) == crate::conv::S_IFCHR);
            assert(crate::conv::kind_bits(FileKind::BlockDevice) == crate::conv::S_IFBLK);
            assert(crate::conv::kind_bits(FileKind::Socket) == crate::conv::S_IFSOCK);
            Err(Errno::einval())
        },
    }
}

} // verus!
