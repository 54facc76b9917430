//! The records of the low-level interface around an open file, a connection and a
//! directory listing, and what the bridge reads from and writes into them.
//!
//! A record that the kernel may leave out is an `Option` here. Attributes are handled by
//! the `conv` module instead.

use vstd::prelude::*;

use crate::attr::{FileKind, NodeAttr};
use crate::bytes::{append_bytes, copy_bytes, has_nul};
use crate::conv::{entry_to_entry_param, kind_to_mode_bits, EntryParam, RawStat, Ttl};
use crate::node_fs::{ConnInfo, OpenHints};
use crate::node_id::NodeId;

verus! {

/// An open file as the C record `fuse_file_info` holds it.
#[derive(Clone, Copy, PartialEq, Eq, Structural, Debug, Default)]
pub struct FileInfo {
    pub fh: u64,
    pub flags: i32,
    pub direct_io: bool,
    pub keep_cache: bool,
    pub nonseekable: bool,
    pub cache_readdir: bool,
    pub parallel_direct_writes: bool,
}

/// The file handle carried in a (possibly absent) file record.
pub fn fi_fh(fi: Option<&FileInfo>) -> (fh: u64)
    ensures
        fh == (match fi {
            Some(fi) => fi.fh,
            None => 0,
        }),
{
    match fi {
        Some(fi) => fi.fh,
        None => 0,
    }
}

/// The file handle carried in a file record, or `None` without a record.
pub fn fi_fh_opt(fi: Option<&FileInfo>) -> (fh: Option<u64>)
    ensures
        fh == (match fi {
            Some(fi) => Some(fi.fh),
            None => None,
        }),
{
    match fi {
        Some(fi) => Some(fi.fh),
        None => None,
    }
}

/// The open flags carried in a (possibly absent) file record.
pub fn fi_flags(fi: Option<&FileInfo>) -> (flags: i32)
    ensures
        flags == (match fi {
            Some(fi) => fi.flags,
            None => 0,
        }),
{
    match fi {
        Some(fi) => fi.flags,
        None => 0,
    }
}

/// The record with a handle and caching hints written into it. Direct writes may overlap
/// only on a file that is opened for direct I/O.
pub open spec fn with_open(fi: FileInfo, fh: u64, hints: OpenHints) -> FileInfo {
    FileInfo {
        fh,
        flags: fi.flags,
        direct_io: hints.direct_io,
        keep_cache: hints.keep_cache,
        nonseekable: hints.nonseekable,
        cache_readdir: hints.cache_readdir,
        parallel_direct_writes: hints.direct_io && hints.parallel_direct_writes,
    }
}

/// Writes the runtime-assigned handle and caching hints back into the kernel's file
/// record. No-op without a record.
pub fn apply_open(fi: Option<&mut FileInfo>, fh: u64, hints: OpenHints)
    ensures
        match fi {
            Some(fi) => *final(fi) == with_open(*fi, fh, hints),
            None => true,
        },
{
    if let Some(fi) = fi {
        fi.fh = fh;
        fi.direct_io = hints.direct_io;
        fi.keep_cache = hints.keep_cache;
        fi.nonseekable = hints.nonseekable;
        fi.cache_readdir = hints.cache_readdir;
        fi.parallel_direct_writes = hints.direct_io && hints.parallel_direct_writes;
    }
}

/// A connection as the C record `fuse_conn_info` holds it.
#[derive(Clone, Copy, PartialEq, Eq, Structural, Debug, Default)]
pub struct RawConnInfo {
    pub proto_major: u32,
    pub proto_minor: u32,
    pub max_write: u32,
    pub max_readahead: u32,
    pub capable: u32,
    pub want: u32,
}

/// Reads the connection parameters libfuse negotiated into a plain [`ConnInfo`].
pub fn conn_read(conn: &RawConnInfo) -> (info: ConnInfo)
    ensures
        info@ == (crate::node_fs::ConnView {
            proto_major: conn.proto_major,
            proto_minor: conn.proto_minor,
            max_write: conn.max_write,
            max_readahead: conn.max_readahead,
            capable: conn.capable,
            want: conn.want,
        }),
{
    ConnInfo::from_raw(
        conn.proto_major,
        conn.proto_minor,
        conn.max_write,
        conn.max_readahead,
        conn.capable,
        conn.want,
    )
}

/// Writes back the fields of [`ConnInfo`] the filesystem is allowed to tune.
pub fn conn_apply(conn: &mut RawConnInfo, info: &ConnInfo)
    ensures
        *final(conn) == (RawConnInfo {
            max_write: info@.max_write,
            max_readahead: info@.max_readahead,
            want: info@.want,
            ..*old(conn)
        }),
{
    conn.max_write = info.max_write_bytes();
    conn.max_readahead = info.max_readahead_bytes();
    conn.want = info.want_bits();
}

/// How the entries of a listing are laid out.
#[derive(Clone, Copy, PartialEq, Eq, Structural, Debug)]
pub enum Format {
    /// Plain `READDIR` entries.
    Plain,
    /// `READDIRPLUS`-shaped entries with attributes.
    Plus,
}

/// An entry reply: the node, its generation and its attributes.
#[derive(Clone, Copy, PartialEq, Eq, Structural, Debug)]
pub struct EntryReply {
    pub ino: u64,
    pub generation: u64,
    pub attr: NodeAttr,
}

/// A `readdir` reply builder over libfuse's size-limited buffer protocol. Its content never
/// exceeds the size that the kernel asked for.
pub struct RawDirentBuf {
    capacity: usize,
    buf: Vec<u8>,
    format: Format,
    ttl: Ttl,
}

/// A reply builder as a value.
pub struct DirentView {
    pub capacity: usize,
    pub content: Seq<u8>,
    pub format: Format,
    pub ttl: Ttl,
}

impl DirentView {
    /// What becomes of the content when an entry is offered in its encoded form: a name
    /// with an interior NUL is skipped, and an entry that does not fit is refused.
    pub open spec fn offered(self, name: Seq<u8>, encoded: Seq<u8>) -> (DirentView, bool) {
        if name.contains(0u8) {
            (self, true)
        } else if self.content.len() + encoded.len() > self.capacity {
            (self, false)
        } else {
            (DirentView { content: self.content + encoded, ..self }, true)
        }
    }
}

impl View for RawDirentBuf {
    type V = DirentView;

    closed spec fn view(&self) -> DirentView {
        DirentView {
            capacity: self.capacity,
            content: self.buf@,
            format: self.format,
            ttl: self.ttl,
        }
    }
}

impl RawDirentBuf {
    /// The content is within the size that the kernel asked for.
    pub open spec fn wf(&self) -> bool {
        self@.content.len() <= self@.capacity
    }

    pub fn new(size: usize) -> (buf: RawDirentBuf)
        ensures
            buf.wf(),
            buf@ == (DirentView {
                capacity: size,
                content: Seq::empty(),
                format: Format::Plain,
                ttl: Ttl { secs: 0, nanos: 0 },
            }),
    {
        RawDirentBuf {
            capacity: size,
            buf: Vec::with_capacity(size),
            format: Format::Plain,
            ttl: Ttl { secs: 0, nanos: 0 },
        }
    }

    /// Like [`RawDirentBuf::new`], but for attribute-carrying `READDIRPLUS` entries.
    pub fn new_plus(size: usize, ttl: Ttl) -> (buf: RawDirentBuf)
        ensures
            buf.wf(),
            buf@ == (DirentView {
                capacity: size,
                content: Seq::empty(),
                format: Format::Plus,
                ttl,
            }),
    {
        RawDirentBuf { capacity: size, buf: Vec::with_capacity(size), format: Format::Plus, ttl }
    }

    pub fn as_slice(&self) -> (content: &[u8])
        ensures
            content@ == self@.content,
    {
        self.buf.as_slice()
    }

    /// What libfuse is to encode for a plain entry: the NUL-terminated name and a record
    /// with the inode number and the file type. `None` for a name with an interior NUL,
    /// which no real file has: such an entry is skipped rather than aborting the whole
    /// listing.
    pub fn plain_entry(&self, name: &[u8], id: NodeId, kind: FileKind) -> (entry: Option<
        (Vec<u8>, RawStat),
    >)
        ensures
            match entry {
                Some((cname, st)) => {
                    &&& !name@.contains(0u8)
                    &&& cname@ == name@.push(0u8)
                    &&& st == (RawStat {
                        st_ino: id@,
                        st_mode: crate::conv::kind_bits(kind),
                        ..crate::conv::zeroed_stat()
                    })
                },
                None => name@.contains(0u8),
            },
    {
        if has_nul(name) {
            return None;
        }
        let mut cname: Vec<u8> = copy_bytes(name);
        cname.push(0);
        let mut st: RawStat = crate::conv::zero_stat();
        st.st_ino = id.ino();
        st.st_mode = kind_to_mode_bits(kind);
        Some((cname, st))
    }

    /// What libfuse is to encode for an entry with attributes: the NUL-terminated name and
    /// the entry record. `None` for a name with an interior NUL.
    pub fn plus_entry(&self, name: &[u8], entry: &EntryReply) -> (encoded: Option<
        (Vec<u8>, EntryParam),
    >)
        ensures
            match encoded {
                Some((cname, param)) => {
                    &&& !name@.contains(0u8)
                    &&& cname@ == name@.push(0u8)
                    &&& param.ino == entry.ino
                    &&& param.generation == entry.generation
                    &&& crate::conv::is_stat_of(param.attr, entry.ino, entry.attr)
                    &&& param.attr_timeout == self@.ttl
                    &&& param.entry_timeout == self@.ttl
                },
                None => name@.contains(0u8),
            },
    {
        if has_nul(name) {
            return None;
        }
        let mut cname: Vec<u8> = copy_bytes(name);
        cname.push(0);
        Some((cname, entry_to_entry_param(entry.ino, entry.generation, &entry.attr, self.ttl)))
    }

    /// Adds one plain entry in the form that libfuse has encoded. Returns `false` once the
    /// buffer is full.
    pub fn add(&mut self, name: &[u8], encoded: &[u8]) -> (more: bool)
        requires
            old(self).wf(),
            !name@.contains(0u8) ==> old(self)@.format == Format::Plain,
        ensures
            final(self).wf(),
            (final(self)@, more) == old(self)@.offered(name@, encoded@),
    {
        self.append(name, encoded)
    }

    /// Adds one entry with attributes in the form that libfuse has encoded. Returns `false`
    /// once the buffer is full.
    pub fn add_plus(&mut self, name: &[u8], encoded: &[u8]) -> (more: bool)
        requires
            old(self).wf(),
        ensures
            final(self).wf(),
            (final(self)@, more) == old(self)@.offered(name@, encoded@),
    {
        self.append(name, encoded)
    }

    fn append(&mut self, name: &[u8], encoded: &[u8]) -> (more: bool)
        requires
            old(self).wf(),
        ensures
            final(self).wf(),
            (final(self)@, more) == old(self)@.offered(name@, encoded@),
    {
        if has_nul(name) {
            return true;
        }
        if encoded.len() > self.capacity - self.buf.len() {
            return false;
        }
        append_bytes(&mut self.buf, encoded);
        true
    }
}

/// An entry that is taken is at the end of the content, after all that was there; one that
/// is refused or skipped leaves the content as it was.
pub proof fn law_entries_are_appended_whole(before: DirentView, name: Seq<u8>, encoded: Seq<u8>)
    requires
        before.content.len() <= before.capacity,
    ensures
        ({
            let (after, more) = before.offered(name, encoded);
            &&& after.content.len() <= after.capacity
            &&& before.content.is_prefix_of(after.content)
            &&& after.content == before.content || after.content == before.content + encoded
            &&& !more ==> after == before
        }),
{
    assert(before.content =~= (before.content + encoded).subrange(0, before.content.len() as int));
    assert(before.content =~= before.content.subrange(0, before.content.len() as int));
}

} // verus!
