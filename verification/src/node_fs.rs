//! The [`NodeFs`] trait and the value types it exchanges with the runtime.

use vstd::prelude::*;

use std::borrow::Cow;

use crate::attr::{FileKind, NodeAttr, SetAttr, StatFs};
use crate::cx::Cx;
use crate::errno::Errno;
use crate::node_id::NodeId;

verus! {

/// Credentials of the process that issued the current request.
#[derive(Clone, Copy, PartialEq, Eq, Structural, Debug)]
pub struct Caller {
    pub uid: u32,
    pub gid: u32,
    pub pid: u32,
    pub umask: u32,
}

impl Default for Caller {
    fn default() -> (caller: Caller)
        ensures
            caller == (Caller { uid: 0, gid: 0, pid: 0, umask: 0 }),
    {
        Caller { uid: 0, gid: 0, pid: 0, umask: 0 }
    }
}

/// Kernel/libfuse features that a filesystem may negotiate in [`NodeFs::init`].
#[derive(Clone, Copy, PartialEq, Eq, Structural, Debug)]
pub enum ConnectionCapability {
    AsyncRead,
    AsyncDirectIo,
    ParallelDirectoryOperations,
}

/// The connection flag of asynchronous reads.
pub const ASYNC_READ: u32 = 0x1;

/// The connection flag of asynchronous direct I/O.
pub const ASYNC_DIO: u32 = 0x8000;

/// The connection flag of parallel directory operations.
pub const PARALLEL_DIROPS: u32 = 0x40000;

/// The connection flag of a capability.
pub open spec fn capability_flag(capability: ConnectionCapability) -> u32 {
    match capability {
        ConnectionCapability::AsyncRead => ASYNC_READ,
        ConnectionCapability::AsyncDirectIo => ASYNC_DIO,
        ConnectionCapability::ParallelDirectoryOperations => PARALLEL_DIROPS,
    }
}

/// Connection parameters passed to [`NodeFs::init`], read from (and, for the mutable
/// fields, written back into) the kernel connection.
#[derive(Clone, Copy, PartialEq, Eq, Structural, Debug)]
pub struct ConnInfo {
    pub proto_major: u32,
    pub proto_minor: u32,
    pub max_write: u32,
    pub max_readahead: u32,
    capable: u32,
    want: u32,
}

/// The connection parameters as a value: with the flags of all that the kernel supports
/// and of all that the session requests.
pub struct ConnView {
    pub proto_major: u32,
    pub proto_minor: u32,
    pub max_write: u32,
    pub max_readahead: u32,
    pub capable: u32,
    pub want: u32,
}

impl View for ConnInfo {
    type V = ConnView;

    closed spec fn view(&self) -> ConnView {
        ConnView {
            proto_major: self.proto_major,
            proto_minor: self.proto_minor,
            max_write: self.max_write,
            max_readahead: self.max_readahead,
            capable: self.capable,
            want: self.want,
        }
    }
}

impl ConnInfo {
    fn bit(capability: ConnectionCapability) -> (flag: u32)
        ensures
            flag == capability_flag(capability),
    {
        match capability {
            ConnectionCapability::AsyncRead => ASYNC_READ,
            ConnectionCapability::AsyncDirectIo => ASYNC_DIO,
            ConnectionCapability::ParallelDirectoryOperations => PARALLEL_DIROPS,
        }
    }

    /// Whether the kernel supports `capability`.
    pub fn capable(&self, capability: ConnectionCapability) -> (supported: bool)
        ensures
            supported == (self@.capable & capability_flag(capability) != 0),
    {
        self.capable & Self::bit(capability) != 0
    }

    /// Whether this session currently requests `capability`.
    pub fn enabled(&self, capability: ConnectionCapability) -> (requested: bool)
        ensures
            requested == (self@.want & capability_flag(capability) != 0),
    {
        self.want & Self::bit(capability) != 0
    }

    /// Requests or disables a supported capability. Enabling an unsupported capability
    /// returns `false` and leaves the request mask unchanged.
    pub fn set_enabled(&mut self, capability: ConnectionCapability, enabled: bool) -> (done: bool)
        ensures
            done == (!enabled || old(self)@.capable & capability_flag(capability) != 0),
            final(self)@ == (ConnView {
                want: if !done {
                    old(self)@.want
                } else if enabled {
                    old(self)@.want | capability_flag(capability)
                } else {
                    old(self)@.want & !capability_flag(capability)
                },
                ..old(self)@
            }),
    {
        let bit: u32 = Self::bit(capability);
        if enabled && self.capable & bit == 0 {
            return false;
        }
        if enabled {
            self.want = self.want | bit;
        } else {
            self.want = self.want & !bit;
        }
        true
    }

    pub fn from_raw(
        proto_major: u32,
        proto_minor: u32,
        max_write: u32,
        max_readahead: u32,
        capable: u32,
        want: u32,
    ) -> (conn: ConnInfo)
        ensures
            conn@ == (ConnView {
                proto_major,
                proto_minor,
                max_write,
                max_readahead,
                capable,
                want,
            }),
    {
        ConnInfo { proto_major, proto_minor, max_write, max_readahead, capable, want }
    }

    pub(crate) fn max_write_bytes(&self) -> (bytes: u32)
        ensures
            bytes == self@.max_write,
    {
        self.max_write
    }

    pub(crate) fn max_readahead_bytes(&self) -> (bytes: u32)
        ensures
            bytes == self@.max_readahead,
    {
        self.max_readahead
    }

    pub fn want_bits(&self) -> (want: u32)
        ensures
            want == self@.want,
    {
        self.want
    }
}

impl Default for ConnInfo {
    fn default() -> (conn: ConnInfo)
        ensures
            conn@ == (ConnView {
                proto_major: 0,
                proto_minor: 0,
                max_write: 0,
                max_readahead: 0,
                capable: 0,
                want: 0,
            }),
    {
        ConnInfo::from_raw(0, 0, 0, 0, 0, 0)
    }
}

/// A connection holds what it was made of, each parameter in its own field, and what the
/// kernel supports and the session requests is found again bit by bit.
proof fn law_connections_hold_what_they_are_made_of(
    numbers: (u32, u32, u32, u32, u32, u32),
    conn: ConnInfo,
    empty: ConnInfo,
    want: u32,
)
    requires
        call_ensures(ConnInfo::from_raw, numbers, conn),
        call_ensures(<ConnInfo as Default>::default, (), empty),
        call_ensures(ConnInfo::want_bits, (&conn,), want),
    ensures
        conn.proto_major == numbers.0,
        conn.proto_minor == numbers.1,
        conn.max_write == numbers.2,
        conn.max_readahead == numbers.3,
        conn.capable == numbers.4,
        want == numbers.5,
        conn@.max_write == conn.max_write,
        conn@.max_readahead == conn.max_readahead,
        empty.proto_major == 0 && empty.proto_minor == 0 && empty.max_write == 0,
        empty.max_readahead == 0 && empty.capable == 0 && empty.want == 0,
{
}

/// Requesting or disabling a capability decides about that capability alone: its own
/// flag is set or cleared, and no other flag, known or unknown, changes.
pub proof fn law_capability_update_keeps_other_flags(
    capability: ConnectionCapability,
    want: u32,
    other: u32,
)
    requires
        other & capability_flag(capability) == 0,
    ensures
        (want | capability_flag(capability)) & other == want & other,
        (want & !capability_flag(capability)) & other == want & other,
        (want | capability_flag(capability)) & capability_flag(capability) != 0,
        (want & !capability_flag(capability)) & capability_flag(capability) == 0,
{
    let flag = capability_flag(capability);
    assert(flag != 0);
    assert((want | flag) & other == want & other) by (bit_vector)
        requires
            other & flag == 0,
    ;
    assert((want & !flag) & other == want & other) by (bit_vector)
        requires
            other & flag == 0,
    ;
    assert((want | flag) & flag == flag && (want & !flag) & flag == 0) by (bit_vector);
}

/// Kernel caching hints returned alongside an opened handle.
#[derive(Clone, Copy, PartialEq, Eq, Structural, Debug)]
pub struct OpenHints {
    pub direct_io: bool,
    pub keep_cache: bool,
    pub nonseekable: bool,
    pub cache_readdir: bool,
    pub parallel_direct_writes: bool,
}

impl OpenHints {
    /// No hint is given.
    pub open spec fn none() -> OpenHints {
        OpenHints {
            direct_io: false,
            keep_cache: false,
            nonseekable: false,
            cache_readdir: false,
            parallel_direct_writes: false,
        }
    }
}

impl Default for OpenHints {
    fn default() -> (hints: OpenHints)
        ensures
            hints == OpenHints::none(),
    {
        OpenHints {
            direct_io: false,
            keep_cache: false,
            nonseekable: false,
            cache_readdir: false,
            parallel_direct_writes: false,
        }
    }
}

/// The result of an `open`/`opendir`/`create`: the filesystem's own handle object plus
/// optional caching hints. The runtime assigns the integer file handle; the filesystem
/// never sees it.
#[derive(Clone, Copy, Debug, Default)]
pub struct Opened<H> {
    pub handle: H,
    pub hints: OpenHints,
}

impl<H> Opened<H> {
    pub fn new(handle: H) -> (opened: Opened<H>)
        ensures
            opened == (Opened { handle, hints: OpenHints::none() }),
    {
        Opened { handle, hints: OpenHints::default() }
    }

    pub fn direct_io(self, value: bool) -> (opened: Opened<H>)
        ensures
            opened == (Opened { hints: OpenHints { direct_io: value, ..self.hints }, ..self }),
    {
        Opened { hints: OpenHints { direct_io: value, ..self.hints }, ..self }
    }

    pub fn keep_cache(self, value: bool) -> (opened: Opened<H>)
        ensures
            opened == (Opened { hints: OpenHints { keep_cache: value, ..self.hints }, ..self }),
    {
        Opened { hints: OpenHints { keep_cache: value, ..self.hints }, ..self }
    }

    pub fn nonseekable(self, value: bool) -> (opened: Opened<H>)
        ensures
            opened == (Opened { hints: OpenHints { nonseekable: value, ..self.hints }, ..self }),
    {
        Opened { hints: OpenHints { nonseekable: value, ..self.hints }, ..self }
    }

    pub fn cache_readdir(self, value: bool) -> (opened: Opened<H>)
        ensures
            opened == (Opened { hints: OpenHints { cache_readdir: value, ..self.hints }, ..self }),
    {
        Opened { hints: OpenHints { cache_readdir: value, ..self.hints }, ..self }
    }

    /// Allows direct writes issued through this open handle to overlap.
    pub fn parallel_direct_writes(self, value: bool) -> (opened: Opened<H>)
        ensures
            opened == (Opened {
                hints: OpenHints { parallel_direct_writes: value, ..self.hints },
                ..self
            }),
    {
        Opened { hints: OpenHints { parallel_direct_writes: value, ..self.hints }, ..self }
    }
}

/// The reply to `getxattr`/`listxattr`. The kernel's xattr protocol is two-phase
/// (`size == 0` asks only for the length); [`XattrReply::Size`] answers the length
/// without materializing the value.
#[derive(Clone, Debug, PartialEq, Eq)]
pub enum XattrReply {
    Size(usize),
    Data(Vec<u8>),
}

impl From<Vec<u8>> for XattrReply {
    fn from(data: Vec<u8>) -> (reply: XattrReply) {
        XattrReply::Data(data)
    }
}

impl vstd::std_specs::convert::FromSpecImpl<Vec<u8>> for XattrReply {
    open spec fn obeys_from_spec() -> bool {
        true
    }

    open spec fn from_spec(data: Vec<u8>) -> XattrReply {
        XattrReply::Data(data)
    }
}

impl XattrReply {
    /// The reply that the size protocol asks for.
    pub open spec fn sized_reply(data: Vec<u8>, size: usize) -> Result<XattrReply, Errno> {
        if size == 0 {
            Ok(XattrReply::Size(data@.len() as usize))
        } else if data@.len() > size {
            Err(Errno(crate::errno::ERANGE))
        } else {
            Ok(XattrReply::Data(data))
        }
    }

    /// Applies the kernel's getxattr/listxattr size protocol to a fully materialized
    /// value: `size == 0` probes the length; otherwise the value must fit in the
    /// caller's buffer or the request fails with `ERANGE`.
    pub fn sized(data: Vec<u8>, size: usize) -> (reply: Result<XattrReply, Errno>)
        ensures
            reply == XattrReply::sized_reply(data, size),
    {
        if size == 0 {
            Ok(XattrReply::Size(data.len()))
        } else if data.len() > size {
            Err(Errno::erange())
        } else {
            Ok(XattrReply::Data(data))
        }
    }
}

/// A caller that first asks for the length of a value and then hands in a buffer of that
/// length gets the value; with any smaller buffer it is refused.
pub proof fn law_probed_length_suffices(data: Vec<u8>, smaller: usize)
    requires
        data@.len() <= usize::MAX,
    ensures
        ({
            let length = data@.len() as usize;
            &&& XattrReply::sized_reply(data, 0) == Ok::<XattrReply, Errno>(XattrReply::Size(length))
            &&& length > 0 ==> XattrReply::sized_reply(data, length) == Ok::<XattrReply, Errno>(
                XattrReply::Data(data),
            )
            &&& 0 < smaller < length ==> XattrReply::sized_reply(data, smaller) == Err::<
                XattrReply,
                Errno,
            >(Errno(crate::errno::ERANGE))
        }),
{
}

/// A sink [`NodeFs::readdir`] pushes directory entries into. The runtime implements this
/// over libfuse's size-limited buffer protocol.
pub trait DirSink: Sized {
    /// What adding an entry does to the sink, and whether the entry is taken. Unless an
    /// implementation says more, anything may happen.
    open spec fn added(
        self,
        name: Seq<u8>,
        id: NodeId,
        kind: FileKind,
        next_offset: u64,
        after: Self,
        accepted: bool,
    ) -> bool {
        true
    }

    /// Adds one entry. `next_offset` is the resume cookie the kernel will hand back to
    /// continue after this entry. Returns `false` once the buffer is full, at which point
    /// the caller must stop iterating.
    fn add(&mut self, name: &[u8], id: NodeId, kind: FileKind, next_offset: u64) -> (accepted: bool)
        ensures
            old(self).added(name@, id, kind, next_offset, *final(self), accepted),
    ;
}

/// A sink [`NodeFs::readdirplus`] pushes directory entries (with attributes) into. Like
/// [`DirSink`], but each entry carries a [`NodeAttr`] so the kernel can populate its
/// attribute cache and skip a follow-up `lookup`.
pub trait PlusDirSink: Sized {
    /// What adding an entry does to the sink, and whether the entry is taken. Unless an
    /// implementation says more, anything may happen.
    open spec fn added(
        self,
        name: Seq<u8>,
        id: NodeId,
        attr: NodeAttr,
        next_offset: u64,
        after: Self,
        accepted: bool,
    ) -> bool {
        true
    }

    /// Adds one entry with its attributes. `next_offset` is the resume cookie the kernel
    /// will hand back to continue after this entry. Returns `false` once the buffer is
    /// full, at which point the caller must stop iterating.
    fn add(&mut self, name: &[u8], id: NodeId, attr: NodeAttr, next_offset: u64) -> (accepted: bool)
        ensures
            old(self).added(name@, id, attr, next_offset, *final(self), accepted),
    ;
}

/// The kind of a POSIX record lock, as used by [`NodeFs::getlk`] and [`NodeFs::setlk`].
#[derive(Clone, Copy, PartialEq, Eq, Structural, Debug)]
pub enum LockKind {
    Read,
    Write,
    /// Releases a previously held lock over the range.
    Unlock,
}

/// A POSIX record lock request or reply, covering the byte range `[start, end]`
/// inclusive (`end == u64::MAX` means "to end of file").
#[derive(Clone, Copy, PartialEq, Eq, Structural, Debug)]
pub struct FileLock {
    pub kind: LockKind,
    pub start: u64,
    pub end: u64,
    /// The process id holding or requesting the lock.
    pub pid: u32,
}

/// The safe, node-based FUSE filesystem interface.
///
/// The runtime owns node identity, lifetime (lookup/link/open refcounts and deferred
/// deletion), and the file-handle table. Filesystem authors work with their own
/// [`NodeFs::Node`] and [`NodeFs::Handle`] payloads:
///
/// * Operations on a single existing node receive `&Self::Node` directly (the runtime
///   resolves it, replying `ENOENT` if it is gone).
/// * I/O operations additionally receive `&Self::Handle`.
/// * Structural / naming operations receive the node table [`Cx`] to resolve, insert, and
///   link other nodes.
///
/// Names, paths and link targets are byte strings. Every method has a default (fallible
/// ones default to `Err(ENOSYS)`; no-op-style ones to `Ok`), so a filesystem overrides
/// only what it supports. Request callbacks take `&self` and may overlap, including on the
/// same node and handle. Implementations choose their own interior locking.
pub trait NodeFs: Sized + Send + Sync {
    /// Per-node data owned and stored by the runtime.
    type Node: Send + Sync;

    /// Per-open-file data. Use `()` if the filesystem is stateless per open.
    type Handle: Send + Sync;

    /// Per-open-directory data. Use `()` if not needed.
    type DirHandle: Send + Sync;

    /// Set to `true` to register the `getlk`/`setlk` callbacks and enable
    /// [`NodeFs::getlk`]/[`NodeFs::setlk`]. Left disabled by default since most
    /// filesystems delegate POSIX locking to the kernel.
    const SUPPORTS_POSIX_LOCKS: bool = false;

    /// Set to `true` to register the `flock` callback and enable [`NodeFs::flock`]. Left
    /// disabled by default since most filesystems delegate BSD locking to the kernel.
    const SUPPORTS_FLOCK: bool = false;

    /// Set to `true` to register the `readdirplus` callback and enable
    /// [`NodeFs::readdirplus`], letting the kernel populate its attribute cache from
    /// directory listings instead of a follow-up `lookup` per entry.
    const SUPPORTS_READDIRPLUS: bool = false;

    /// Builds the payload for the root directory. Called once, when the runtime is
    /// constructed.
    fn root(&mut self) -> Self::Node;

    /// Populates the initial tree beneath the (already-inserted) root, for filesystems
    /// with statically-known contents. Called once, right after [`NodeFs::root`]. Default:
    /// no-op (an empty root).
    fn populate(&mut self, cx: &mut Cx<Self::Node>)
        default_ensures
            *final(self) == *old(self),
            *final(cx) == *old(cx),
    {
    }

    /// Called once when libfuse establishes communication with the kernel.
    fn init(&self, conn: &mut ConnInfo)
        default_ensures
            *final(conn) == *old(conn),
    {
    }

    /// Called on filesystem exit.
    fn destroy(&self) {
    }

    /// Called when the kernel's lookup count for `node` reaches zero.
    ///
    /// This notification is independent of the node's link and open-handle counts: the
    /// runtime may retain the node after this callback returns. It has no result because
    /// FUSE forget requests do not receive replies.
    fn forget(&self, node: &Self::Node) {
    }

    /// Returns the attributes of `node`, including its current link count. `handle` is
    /// the open file/dir handle if the call arrived through one, or `None` (e.g. an
    /// `fstat` on a path rather than a descriptor).
    fn getattr(&self, node: &Self::Node, handle: Option<&Self::Handle>, caller: &Caller) -> Result<
        NodeAttr,
        Errno,
    >;

    /// Returns attributes for a newly looked-up or created entry.
    ///
    /// The default obtains the attributes normally. Adapters which already received
    /// attributes while discovering the node can override this to avoid issuing an
    /// immediate, duplicate `getattr` request.
    fn entry_attr(&self, node: &Self::Node, caller: &Caller) -> (reply: Result<NodeAttr, Errno>)
        default_ensures
            call_ensures(Self::getattr, (self, node, None::<&Self::Handle>, caller), reply),
    {
        self.getattr(node, None, caller)
    }

    /// Applies the `Some` fields of `set` to `node`, returning the resulting attributes.
    /// `handle` is the open handle if the call arrived through one, or `None` otherwise.
    fn setattr(
        &self,
        node: &Self::Node,
        handle: Option<&Self::Handle>,
        set: &SetAttr,
        caller: &Caller,
    ) -> (reply: Result<NodeAttr, Errno>)
        default_ensures
            reply == Err::<NodeAttr, Errno>(Errno(crate::errno::ENOSYS)),
    {
        Err(Errno::enosys())
    }

    /// Looks up `name` in directory `parent`. Return `Ok(Some(id))` for a hit, `Ok(None)` to
    /// populate the kernel's negative-lookup cache, or `Err` for a hard failure.
    fn lookup(
        &self,
        cx: &mut Cx<Self::Node>,
        parent: NodeId,
        name: &[u8],
        caller: &Caller,
    ) -> (reply: Result<Option<NodeId>, Errno>)
        default_ensures
            reply == Err::<Option<NodeId>, Errno>(Errno(crate::errno::ENOSYS)),
            *final(cx) == *old(cx),
    {
        Err(Errno::enosys())
    }

    /// Reads the target of the symbolic link `node`.
    fn readlink(&self, node: &Self::Node, caller: &Caller) -> (reply: Result<Vec<u8>, Errno>)
        default_ensures
            reply == Err::<Vec<u8>, Errno>(Errno(crate::errno::ENOSYS)),
    {
        Err(Errno::enosys())
    }

    /// Creates a non-directory, non-symlink node named `name` in `parent`. Insert it via
    /// `cx.insert(..)`, record its [`NodeId`] in the parent, and return the id.
    fn mknod(
        &self,
        cx: &mut Cx<Self::Node>,
        parent: NodeId,
        name: &[u8],
        mode: u32,
        rdev: u32,
        umask: u32,
        caller: &Caller,
    ) -> (reply: Result<NodeId, Errno>)
        default_ensures
            reply == Err::<NodeId, Errno>(Errno(crate::errno::ENOSYS)),
            *final(cx) == *old(cx),
    {
        Err(Errno::enosys())
    }

    /// Creates a directory named `name` in `parent`.
    fn mkdir(
        &self,
        cx: &mut Cx<Self::Node>,
        parent: NodeId,
        name: &[u8],
        mode: u32,
        umask: u32,
        caller: &Caller,
    ) -> (reply: Result<NodeId, Errno>)
        default_ensures
            reply == Err::<NodeId, Errno>(Errno(crate::errno::ENOSYS)),
            *final(cx) == *old(cx),
    {
        Err(Errno::enosys())
    }

    /// Creates a symbolic link named `name` in `parent` pointing at `target`.
    fn symlink(
        &self,
        cx: &mut Cx<Self::Node>,
        parent: NodeId,
        name: &[u8],
        target: &[u8],
        caller: &Caller,
    ) -> (reply: Result<NodeId, Errno>)
        default_ensures
            reply == Err::<NodeId, Errno>(Errno(crate::errno::ENOSYS)),
            *final(cx) == *old(cx),
    {
        Err(Errno::enosys())
    }

    /// Removes the non-directory entry `name` from `parent`. Remove the name from the parent
    /// and call `cx.remove_link(id)`; the runtime frees the node once it is also un-looked-up
    /// and closed.
    fn unlink(
        &self,
        cx: &mut Cx<Self::Node>,
        parent: NodeId,
        name: &[u8],
        caller: &Caller,
    ) -> (reply: Result<(), Errno>)
        default_ensures
            reply == Err::<(), Errno>(Errno(crate::errno::ENOSYS)),
            *final(cx) == *old(cx),
    {
        Err(Errno::enosys())
    }

    /// Removes the empty directory `name` from `parent`.
    fn rmdir(
        &self,
        cx: &mut Cx<Self::Node>,
        parent: NodeId,
        name: &[u8],
        caller: &Caller,
    ) -> (reply: Result<(), Errno>)
        default_ensures
            reply == Err::<(), Errno>(Errno(crate::errno::ENOSYS)),
            *final(cx) == *old(cx),
    {
        Err(Errno::enosys())
    }

    /// Renames `name` in `parent` to `newname` in `newparent`.
    fn rename(
        &self,
        cx: &mut Cx<Self::Node>,
        parent: NodeId,
        name: &[u8],
        newparent: NodeId,
        newname: &[u8],
        flags: u32,
        caller: &Caller,
    ) -> (reply: Result<(), Errno>)
        default_ensures
            reply == Err::<(), Errno>(Errno(crate::errno::ENOSYS)),
            *final(cx) == *old(cx),
    {
        Err(Errno::enosys())
    }

    /// Creates a hard link to `id` named `newname` in `newparent`. Record the name and call
    /// `cx.add_link(id)`.
    fn link(
        &self,
        cx: &mut Cx<Self::Node>,
        id: NodeId,
        newparent: NodeId,
        newname: &[u8],
        caller: &Caller,
    ) -> (reply: Result<NodeId, Errno>)
        default_ensures
            reply == Err::<NodeId, Errno>(Errno(crate::errno::ENOSYS)),
            *final(cx) == *old(cx),
    {
        Err(Errno::enosys())
    }

    /// Opens `node`, returning the filesystem's handle object.
    fn open(
        &self,
        node: &Self::Node,
        flags: i32,
        caller: &Caller,
    ) -> (reply: Result<Opened<Self::Handle>, Errno>)
        default_ensures
            reply == Err::<Opened<Self::Handle>, Errno>(Errno(crate::errno::ENOSYS)),
    {
        Err(Errno::enosys())
    }

    /// Reads up to `size` bytes from `node` at `offset`. The returned data may borrow from
    /// `self`/`node`/`handle` for a zero-copy reply (they all share the lifetime `'a`).
    fn read<'a>(
        &'a self,
        node: &'a Self::Node,
        handle: &'a Self::Handle,
        offset: u64,
        size: usize,
        caller: &Caller,
    ) -> (reply: Result<Cow<'a, [u8]>, Errno>)
        default_ensures
            reply == Err::<Cow<'a, [u8]>, Errno>(Errno(crate::errno::ENOSYS)),
    {
        Err(Errno::enosys())
    }

    /// Writes `data` to `node` at `offset`, returning the count written.
    fn write(
        &self,
        node: &Self::Node,
        handle: &Self::Handle,
        data: &[u8],
        offset: u64,
        caller: &Caller,
    ) -> (reply: Result<usize, Errno>)
        default_ensures
            reply == Err::<usize, Errno>(Errno(crate::errno::ENOSYS)),
    {
        Err(Errno::enosys())
    }

    /// Called on each `close()` of an open file.
    fn flush(
        &self,
        node: &Self::Node,
        handle: &Self::Handle,
        caller: &Caller,
    ) -> (reply: Result<(), Errno>)
        default_ensures
            reply == Ok::<(), Errno>(()),
    {
        Ok(())
    }

    /// Called when the last reference to an open file is dropped; consumes the handle.
    fn release(
        &self,
        node: &Self::Node,
        handle: Self::Handle,
        caller: &Caller,
    ) -> (reply: Result<(), Errno>)
        default_ensures
            reply == Ok::<(), Errno>(()),
    {
        Ok(())
    }

    /// Flushes file contents (and metadata unless `datasync`).
    fn fsync(
        &self,
        node: &Self::Node,
        handle: &Self::Handle,
        datasync: bool,
        caller: &Caller,
    ) -> (reply: Result<(), Errno>)
        default_ensures
            reply == Ok::<(), Errno>(()),
    {
        Ok(())
    }

    /// Opens the directory `node`.
    fn opendir(
        &self,
        node: &Self::Node,
        flags: i32,
        caller: &Caller,
    ) -> (reply: Result<Opened<Self::DirHandle>, Errno>)
        default_ensures
            reply == Err::<Opened<Self::DirHandle>, Errno>(Errno(crate::errno::ENOSYS)),
    {
        Err(Errno::enosys())
    }

    /// Emits the entries of directory `node` into `sink`, starting at `offset`, and hands the
    /// sink back. `this`/`parent` are provided so the filesystem can emit `.` and `..`
    /// correctly. Push each entry with a strictly increasing `next_offset` cookie and stop as
    /// soon as [`DirSink::add`] returns `false`.
    fn readdir<K: DirSink>(
        &self,
        cx: &mut Cx<Self::Node>,
        node: &Self::Node,
        this: NodeId,
        parent: NodeId,
        handle: &Self::DirHandle,
        offset: u64,
        sink: K,
        caller: &Caller,
    ) -> (reply: (K, Result<(), Errno>))
        default_ensures
            reply.0 == sink,
            reply.1 == Err::<(), Errno>(Errno(crate::errno::ENOSYS)),
            *final(cx) == *old(cx),
    {
        (sink, Err(Errno::enosys()))
    }

    /// Like [`NodeFs::readdir`], but emits attributes alongside each entry via
    /// [`PlusDirSink`]. Only called when [`NodeFs::SUPPORTS_READDIRPLUS`] is `true`.
    fn readdirplus<K: PlusDirSink>(
        &self,
        cx: &mut Cx<Self::Node>,
        node: &Self::Node,
        this: NodeId,
        parent: NodeId,
        handle: &Self::DirHandle,
        offset: u64,
        sink: K,
        caller: &Caller,
    ) -> (reply: (K, Result<(), Errno>))
        default_ensures
            reply.0 == sink,
            reply.1 == Err::<(), Errno>(Errno(crate::errno::ENOSYS)),
            *final(cx) == *old(cx),
    {
        (sink, Err(Errno::enosys()))
    }

    /// Releases a directory handle; consumes it.
    fn releasedir(
        &self,
        node: &Self::Node,
        handle: Self::DirHandle,
        caller: &Caller,
    ) -> (reply: Result<(), Errno>)
        default_ensures
            reply == Ok::<(), Errno>(()),
    {
        Ok(())
    }

    /// Flushes directory contents.
    fn fsyncdir(
        &self,
        node: &Self::Node,
        handle: &Self::DirHandle,
        datasync: bool,
        caller: &Caller,
    ) -> (reply: Result<(), Errno>)
        default_ensures
            reply == Ok::<(), Errno>(()),
    {
        Ok(())
    }

    /// Returns filesystem-wide statistics. Defaults to a minimal-but-valid value (as libfuse
    /// does when the callback is unset).
    fn statfs(&self, caller: &Caller) -> (reply: Result<StatFs, Errno>)
        default_ensures
            reply matches Ok(stat) && stat.is_minimal(),
    {
        Ok(StatFs::minimal())
    }

    /// Sets extended attribute `name` on `node`.
    fn setxattr(
        &self,
        node: &Self::Node,
        name: &[u8],
        value: &[u8],
        flags: i32,
        caller: &Caller,
    ) -> (reply: Result<(), Errno>)
        default_ensures
            reply == Err::<(), Errno>(Errno(crate::errno::ENOSYS)),
    {
        Err(Errno::enosys())
    }

    /// Returns extended attribute `name` on `node`. A `size` of zero is a length query (return
    /// [`XattrReply::Size`]).
    fn getxattr(
        &self,
        node: &Self::Node,
        name: &[u8],
        size: usize,
        caller: &Caller,
    ) -> (reply: Result<XattrReply, Errno>)
        default_ensures
            reply == Err::<XattrReply, Errno>(Errno(crate::errno::ENOSYS)),
    {
        Err(Errno::enosys())
    }

    /// Returns the NUL-separated extended attribute names on `node`. Same size-query protocol
    /// as [`NodeFs::getxattr`].
    fn listxattr(
        &self,
        node: &Self::Node,
        size: usize,
        caller: &Caller,
    ) -> (reply: Result<XattrReply, Errno>)
        default_ensures
            reply == Err::<XattrReply, Errno>(Errno(crate::errno::ENOSYS)),
    {
        Err(Errno::enosys())
    }

    /// Removes extended attribute `name` from `node`.
    fn removexattr(
        &self,
        node: &Self::Node,
        name: &[u8],
        caller: &Caller,
    ) -> (reply: Result<(), Errno>)
        default_ensures
            reply == Err::<(), Errno>(Errno(crate::errno::ENOSYS)),
    {
        Err(Errno::enosys())
    }

    /// Checks access to `node` per the `access(2)` `mask`.
    fn access(&self, node: &Self::Node, mask: i32, caller: &Caller) -> (reply: Result<(), Errno>)
        default_ensures
            reply == Ok::<(), Errno>(()),
    {
        Ok(())
    }

    /// Atomically creates and opens a regular file named `name` in `parent`.
    fn create(
        &self,
        cx: &mut Cx<Self::Node>,
        parent: NodeId,
        name: &[u8],
        mode: u32,
        umask: u32,
        flags: i32,
        caller: &Caller,
    ) -> (reply: Result<(NodeId, Opened<Self::Handle>), Errno>)
        default_ensures
            reply == Err::<(NodeId, Opened<Self::Handle>), Errno>(Errno(crate::errno::ENOSYS)),
            *final(cx) == *old(cx),
    {
        Err(Errno::enosys())
    }

    /// Pre-allocates/punches `length` bytes at `offset` in `node`.
    fn fallocate(
        &self,
        node: &Self::Node,
        handle: &Self::Handle,
        mode: i32,
        offset: u64,
        length: u64,
        caller: &Caller,
    ) -> (reply: Result<(), Errno>)
        default_ensures
            reply == Err::<(), Errno>(Errno(crate::errno::ENOSYS)),
    {
        Err(Errno::enosys())
    }

    /// Finds the next data region or hole at or after `offset`.
    fn lseek(
        &self,
        node: &Self::Node,
        handle: &Self::Handle,
        offset: u64,
        whence: i32,
        caller: &Caller,
    ) -> (reply: Result<u64, Errno>)
        default_ensures
            reply == Err::<u64, Errno>(Errno(crate::errno::ENOSYS)),
    {
        Err(Errno::enosys())
    }

    /// Tests whether `lock` could be acquired on `node` by `owner`, returning the conflicting
    /// lock (or `lock` itself with [`LockKind::Unlock`] if it would succeed). Only called when
    /// [`NodeFs::SUPPORTS_POSIX_LOCKS`] is `true`.
    fn getlk(
        &self,
        node: &Self::Node,
        handle: &Self::Handle,
        owner: u64,
        lock: FileLock,
        caller: &Caller,
    ) -> (reply: Result<FileLock, Errno>)
        default_ensures
            reply == Err::<FileLock, Errno>(Errno(crate::errno::ENOSYS)),
    {
        Err(Errno::enosys())
    }

    /// Acquires or releases `lock` on `node` for `owner`. If `sleep` is `true`, block until the
    /// lock is available rather than failing immediately. Only called when
    /// [`NodeFs::SUPPORTS_POSIX_LOCKS`] is `true`.
    fn setlk(
        &self,
        node: &Self::Node,
        handle: &Self::Handle,
        owner: u64,
        lock: FileLock,
        sleep: bool,
        caller: &Caller,
    ) -> (reply: Result<(), Errno>)
        default_ensures
            reply == Err::<(), Errno>(Errno(crate::errno::ENOSYS)),
    {
        Err(Errno::enosys())
    }

    /// Acquires, modifies, or releases a BSD lock on `handle`. `operation` is the platform's
    /// `LOCK_SH`, `LOCK_EX`, or `LOCK_UN`, optionally combined with `LOCK_NB`. Only called when
    /// [`NodeFs::SUPPORTS_FLOCK`] is `true`.
    fn flock(
        &self,
        node: &Self::Node,
        handle: &Self::Handle,
        operation: i32,
        caller: &Caller,
    ) -> (reply: Result<(), Errno>)
        default_ensures
            reply == Err::<(), Errno>(Errno(crate::errno::ENOSYS)),
    {
        Err(Errno::enosys())
    }

    /// Copies `len` bytes between two nodes (resolvable via `cx`).
    fn copy_file_range(
        &self,
        cx: &mut Cx<Self::Node>,
        id_in: NodeId,
        off_in: u64,
        id_out: NodeId,
        off_out: u64,
        len: u64,
        flags: i32,
        caller: &Caller,
    ) -> (reply: Result<usize, Errno>)
        default_ensures
            reply == Err::<usize, Errno>(Errno(crate::errno::ENOSYS)),
            *final(cx) == *old(cx),
    {
        Err(Errno::enosys())
    }
}

} // verus!
