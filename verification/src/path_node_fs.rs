//! The adapter from path filesystems to nodes.
//!
//! The adapter keeps the namespace: it turns a node into the path that the filesystem
//! knows it by, and what the filesystem discovers into nodes. Each callback that names an
//! entry comes in two parts: the call into the filesystem, and what the adapter makes of
//! its outcome.

use vstd::prelude::*;

use std::borrow::Cow;
use std::sync::Arc;

use crate::attr::{NodeAttr, SetAttr, StatFs};
use crate::cx::{Cx, CxView};
use crate::dentry::{Dentry, DentryView};
use crate::discovery::{Discovery, ListingSink};
use crate::errno::Errno;
use crate::namespace::{Namespace, NamespaceView, SLASH};
use crate::node_fs::{Caller, ConnInfo, DirSink, FileLock, Opened, PlusDirSink, XattrReply};
use crate::node_id::NodeId;
use crate::path_fs::{PathEntry, PathFilesystem, PathNodeRef};
use crate::tree::{PathNode, Tree};

verus! {

/// Adapts a [`PathFilesystem`] to the node-based runtime.
pub struct PathNodeFs<P> {
    inner: P,
    namespace: Namespace,
    /// The attributes that came with the node discovered last, until its entry reply.
    pending: Option<(NodeId, NodeAttr)>,
}

/// The node that an entry reply is pending for, and its attributes.
pub open spec fn pending_entry(id: NodeId, attr: NodeAttr) -> Option<(u64, NodeAttr)> {
    Some((id@, attr))
}

impl<P: PathFilesystem> PathNodeFs<P> {
    /// The filesystem behind the adapter.
    pub closed spec fn filesystem(self) -> P {
        self.inner
    }

    /// The names that the adapter knows.
    pub closed spec fn names(self) -> NamespaceView {
        self.namespace@
    }

    /// The names and, from the node table, the nodes.
    pub open spec fn tree(self, nodes: CxView<PathNode<P::NodeState>>) -> Tree<P::NodeState> {
        Tree { names: self.names(), nodes }
    }

    /// The entry reply that the adapter has attributes for.
    pub closed spec fn pending(self) -> Option<(u64, NodeAttr)> {
        match self.pending {
            Some((id, attr)) => Some((id@, attr)),
            None => None,
        }
    }

    /// The namespace is in order.
    pub closed spec fn wf(self) -> bool {
        self.namespace.wf()
    }

    /// The names of an adapter in order agree with each other.
    pub proof fn lemma_names_agree(self)
        requires
            self.wf(),
        ensures
            self.names().inv(),
    {
        self.namespace.lemma_inv();
    }

    /// The current path of the node that holds a payload.
    pub open spec fn path_of(self, node: PathNode<P::NodeState>) -> Option<Seq<u8>> {
        match self.names().holder(node.key()) {
            Some(id) => self.names().path(id),
            None => None,
        }
    }

    /// The way up from the node that holds a payload comes to an end.
    pub open spec fn can_path(self, node: PathNode<P::NodeState>) -> bool {
        self.names().holder(node.key()) matches Some(id) ==> self.names().resolves(id)
    }

    /// The path and the state of a live node that has a path.
    pub open spec fn place(self, nodes: CxView<PathNode<P::NodeState>>, id: u64) -> Option<
        (Seq<u8>, Arc<P::NodeState>),
    > {
        if nodes.nodes.contains_key(id) {
            match self.names().path(id) {
                Some(path) => Some((path, nodes.nodes[id].payload.state())),
                None => None,
            }
        } else {
            None
        }
    }

    /// The way up from a live node comes to an end.
    pub open spec fn can_place(self, nodes: CxView<PathNode<P::NodeState>>, id: u64) -> bool {
        nodes.nodes.contains_key(id) ==> self.names().resolves(id)
    }

    /// The ways up from two live nodes come to an end; that from the second one matters only
    /// if the first has a path.
    pub open spec fn can_place_both(
        self,
        nodes: CxView<PathNode<P::NodeState>>,
        id: u64,
        other: u64,
    ) -> bool {
        nodes.nodes.contains_key(id) && nodes.nodes.contains_key(other) ==> {
            &&& self.names().resolves(id)
            &&& self.names().path(id) is Some ==> self.names().resolves(other)
        }
    }

    /// Nothing that the adapter knows has changed, and no entry reply is pending.
    pub open spec fn settled(self, after: PathNodeFs<P>) -> bool {
        &&& after.names() == self.names()
        &&& after.filesystem() == self.filesystem()
        &&& after.pending() is None
    }

    /// Wraps `inner` for use with the node-based runtime.
    pub fn new(inner: P) -> (fs: PathNodeFs<P>)
        ensures
            fs.wf(),
            fs.filesystem() == inner,
            fs.names().names == Map::<DentryView, u64>::empty(),
            fs.names().aliases == Map::<u64, Set<DentryView>>::empty(),
            fs.names().keys == map![1u64 => crate::node_id::ROOT_INO],
            fs.names().next_key == 2,
            fs.pending() is None,
    {
        PathNodeFs { inner, namespace: Namespace::new(), pending: None }
    }

    /// Unwraps the adapter, discarding the path namespace it built up.
    pub fn into_inner(self) -> (inner: P)
        ensures
            inner == self.filesystem(),
    {
        self.inner
    }

    /// Whether the way up from a node comes to an end, so that it can be asked for a path.
    pub fn resolves(&self, id: NodeId) -> (ends: bool)
        requires
            self.wf(),
        ensures
            ends == self.names().resolves(id@),
    {
        self.namespace.resolves(id)
    }

    /// Whether the ways up from two nodes come to an end as far as a callback on both of them
    /// needs it: that from the second one matters only if both are live and the first has a
    /// path.
    pub fn resolves_both(
        &self,
        cx: &Cx<PathNode<P::NodeState>>,
        id: NodeId,
        other: NodeId,
    ) -> (end: bool)
        requires
            self.wf(),
        ensures
            end == self.can_place_both(cx@, id@, other@),
    {
        if !cx.contains(id) || !cx.contains(other) {
            return true;
        }
        if !self.namespace.resolves(id) {
            return false;
        }
        self.namespace.path_for(id).is_none() || self.namespace.resolves(other)
    }

    /// Whether the way up from the node that holds a payload comes to an end.
    pub fn node_resolves(&self, node: &PathNode<P::NodeState>) -> (ends: bool)
        requires
            self.wf(),
        ensures
            ends == self.can_path(*node),
    {
        match self.namespace.id_for_node(node) {
            Some(id) => self.namespace.resolves(id),
            None => true,
        }
    }

    /// Whether the adapter has a key left for a further node.
    pub fn has_room(&self) -> (room: bool)
        ensures
            room == (self.names().next_key < u64::MAX),
    {
        self.namespace.has_room()
    }

    /// Whether a name in a directory is known.
    pub fn knows(&self, parent: NodeId, name: &[u8]) -> (known: bool)
        requires
            self.wf(),
        ensures
            known == self.names().names.contains_key(DentryView { parent: parent@, name: name@ }),
    {
        self.namespace.get(&Dentry::new(parent, name)).is_some()
    }

    fn node_path(&self, node: &PathNode<P::NodeState>) -> (path: Option<Vec<u8>>)
        requires
            self.wf(),
            self.can_path(*node),
        ensures
            match path {
                Some(path) => self.path_of(*node) == Some(path@),
                None => self.path_of(*node) is None,
            },
    {
        match self.namespace.id_for_node(node) {
            Some(id) => self.namespace.path_for(id),
            None => None,
        }
    }

    /// The reference that the filesystem is handed for a node, given its path.
    fn node_ref<'a>(path: &'a Option<Vec<u8>>, node: &'a PathNode<P::NodeState>) -> (at: PathNodeRef<
        'a,
        P::NodeState,
    >)
        ensures
            at.is(
                match path {
                    Some(path) => Some(path@),
                    None => None,
                },
                node.state(),
            ),
    {
        PathNodeRef::new(
            match path {
                Some(path) => Some(path.as_slice()),
                None => None,
            },
            node.state_ref(),
        )
    }

    /// The reference that the filesystem is handed for a node with a path.
    fn placed_ref<'a>(path: &'a Vec<u8>, node: &'a PathNode<P::NodeState>) -> (at: PathNodeRef<
        'a,
        P::NodeState,
    >)
        ensures
            at.is(Some(path@), node.state()),
    {
        PathNodeRef::new(Some(path.as_slice()), node.state_ref())
    }

    /// The payload and the path of a live node that has a path; else `ENOENT`.
    fn locate<'c>(&self, cx: &'c Cx<PathNode<P::NodeState>>, id: NodeId) -> (found: Result<
        (&'c PathNode<P::NodeState>, Vec<u8>),
        Errno,
    >)
        requires
            self.wf(),
            self.can_place(cx@, id@),
        ensures
            match found {
                Ok((node, path)) => self.place(cx@, id@) == Some((path@, node.state())),
                Err(e) => self.place(cx@, id@) is None && e == Errno(crate::errno::ENOENT),
            },
    {
        match cx.get(id) {
            Some(node) => match self.namespace.path_for(id) {
                Some(path) => Ok((node, path)),
                None => Err(Errno::enoent()),
            },
            None => Err(Errno::enoent()),
        }
    }

    /// Builds the payload of the root. The state is the filesystem's.
    pub fn root(&mut self) -> (node: PathNode<P::NodeState>)
        ensures
            node.key() == 1,
            final(self).names() == old(self).names(),
            final(self).pending() == old(self).pending(),
            old(self).wf() ==> final(self).wf(),
            exists|asked: &mut P|
                *asked == old(self).filesystem() && *final(asked) == final(self).filesystem()
                    && #[trigger] call_ensures(P::root_state, (asked,), node.state()),
    {
        let state: Arc<P::NodeState> = self.inner.root_state();
        proof {
            PathNode::lemma_of(1, state);
        }
        PathNode::new(1, state)
    }

    /// Passes the connection on to the filesystem, which negotiates as it likes: what it
    /// makes of the connection is what the connection becomes.
    pub fn init(&self, conn: &mut ConnInfo)
        ensures
            exists|passed: &mut ConnInfo|
                *passed == *old(conn) && *final(passed) == *final(conn) && #[trigger] call_ensures(
                    P::init,
                    (&self.filesystem(), passed),
                    (),
                ),
    {
        self.inner.init(conn);
        assert(self.filesystem() == self.inner);
    }

    /// Tells the filesystem that it is being unmounted.
    pub fn destroy(&self)
        ensures
            call_ensures(P::destroy, (&self.filesystem(),), ()),
    {
        self.inner.destroy()
    }

    /// The attributes that came with the discovery of the node that holds a payload are
    /// still waiting for its entry reply.
    pub open spec fn holds_attr_for(self, node: PathNode<P::NodeState>) -> bool {
        self.pending() matches Some((id, _)) && self.names().holder(node.key()) == Some(id)
    }

    /// Whether the attributes of the node that holds a payload are still waiting for its
    /// entry reply.
    pub fn has_entry_attr(&self, node: &PathNode<P::NodeState>) -> (waiting: bool)
        requires
            self.wf(),
        ensures
            waiting == self.holds_attr_for(*node),
    {
        match self.pending {
            Some((id, _)) => match self.namespace.id_for_node(node) {
                Some(holder) => holder.ino() == id.ino(),
                None => false,
            },
            None => false,
        }
    }

    /// Returns attributes for a newly looked-up or created entry: those that came with its
    /// discovery, once, and else those that the filesystem reports.
    pub fn entry_attr(&mut self, node: &PathNode<P::NodeState>, caller: &Caller) -> (reply: Result<
        NodeAttr,
        Errno,
    >)
        requires
            old(self).wf(),
            !old(self).holds_attr_for(*node) ==> old(self).can_path(*node),
        ensures
            final(self).wf(),
            old(self).settled(*final(self)),
            if old(self).holds_attr_for(*node) {
                reply == Ok::<NodeAttr, Errno>((old(self).pending()->0).1)
            } else {
                old(self).asks_getattr(*node, None, caller, reply)
            },
    {
        let waiting: bool = self.has_entry_attr(node);
        let pending: Option<(NodeId, NodeAttr)> = self.pending;
        self.pending = None;
        if waiting {
            if let Some((_, attr)) = pending {
                return Ok(attr);
            }
        }
        self.getattr(node, None, caller)
    }

    /// The reply is what the filesystem says of the node's attributes.
    pub open spec fn asks_getattr(
        self,
        node: PathNode<P::NodeState>,
        handle: Option<&P::Handle>,
        caller: &Caller,
        reply: Result<NodeAttr, Errno>,
    ) -> bool {
        exists|at: PathNodeRef<'_, P::NodeState>|
            at.is(self.path_of(node), node.state()) && #[trigger] call_ensures(
                P::getattr,
                (&self.filesystem(), at, handle, caller),
                reply,
            )
    }

    /// Tells the filesystem that the kernel has forgotten a node, by the path that it has now.
    pub fn forget(&self, node: &PathNode<P::NodeState>) -> (reply: ())
        requires
            self.wf(),
            self.can_path(*node),
        ensures
            exists|at: PathNodeRef<'_, P::NodeState>|
                at.is(self.path_of(*node), node.state()) && #[trigger] call_ensures(
                    P::forget,
                    (&self.filesystem(), at),
                    reply,
                ),
    {
        let path: Option<Vec<u8>> = self.node_path(node);
        let at = Self::node_ref(&path, node);
        let reply: () = self.inner.forget(at);
        assert(call_ensures(P::forget, (&self.filesystem(), at), reply));
        reply
    }

    /// Returns the attributes of a node.
    pub fn getattr(
        &self,
        node: &PathNode<P::NodeState>,
        handle: Option<&P::Handle>,
        caller: &Caller,
    ) -> (reply: Result<NodeAttr, Errno>)
        requires
            self.wf(),
            self.can_path(*node),
        ensures
            self.asks_getattr(*node, handle, caller, reply),
    {
        let path: Option<Vec<u8>> = self.node_path(node);
        let at = Self::node_ref(&path, node);
        let reply: Result<NodeAttr, Errno> = self.inner.getattr(at, handle, caller);
        assert(call_ensures(P::getattr, (&self.filesystem(), at, handle, caller), reply));
        reply
    }

    /// Applies the `Some` fields of `set` to a node.
    pub fn setattr(
        &self,
        node: &PathNode<P::NodeState>,
        handle: Option<&P::Handle>,
        set: &SetAttr,
        caller: &Caller,
    ) -> (reply: Result<NodeAttr, Errno>)
        requires
            self.wf(),
            self.can_path(*node),
        ensures
            exists|at: PathNodeRef<'_, P::NodeState>|
                at.is(self.path_of(*node), node.state()) && #[trigger] call_ensures(
                    P::setattr,
                    (&self.filesystem(), at, handle, set, caller),
                    reply,
                ),
    {
        let path: Option<Vec<u8>> = self.node_path(node);
        let at = Self::node_ref(&path, node);
        let reply: Result<NodeAttr, Errno> = self.inner.setattr(at, handle, set, caller);
        assert(call_ensures(P::setattr, (&self.filesystem(), at, handle, set, caller), reply));
        reply
    }

    /// Reads the target of a symbolic link. A node without a path is refused
    /// with `ENOENT`.
    pub fn readlink(
        &self,
        node: &PathNode<P::NodeState>,
        caller: &Caller,
    ) -> (reply: Result<Vec<u8>, Errno>)
        requires
            self.wf(),
            self.can_path(*node),
        ensures
            match self.path_of(*node) {
                Some(path) => exists|at: PathNodeRef<'_, P::NodeState>|
                    at.is(Some(path), node.state()) && #[trigger] call_ensures(
                        P::readlink,
                        (&self.filesystem(), at, caller),
                        reply,
                    ),
                None => reply == Err::<Vec<u8>, Errno>(Errno(crate::errno::ENOENT)),
            },
    {
        match self.node_path(node) {
            Some(path) => {
                let at = Self::placed_ref(&path, node);
                let reply: Result<Vec<u8>, Errno> = self.inner.readlink(at, caller);
                assert(call_ensures(P::readlink, (&self.filesystem(), at, caller), reply));
                reply
            },
            None => Err(Errno::enoent()),
        }
    }

    /// Opens a node. A node without a path is refused
    /// with `ENOENT`.
    pub fn open(
        &self,
        node: &PathNode<P::NodeState>,
        flags: i32,
        caller: &Caller,
    ) -> (reply: Result<Opened<P::Handle>, Errno>)
        requires
            self.wf(),
            self.can_path(*node),
        ensures
            match self.path_of(*node) {
                Some(path) => exists|at: PathNodeRef<'_, P::NodeState>|
                    at.is(Some(path), node.state()) && #[trigger] call_ensures(
                        P::open,
                        (&self.filesystem(), at, flags, caller),
                        reply,
                    ),
                None => reply == Err::<Opened<P::Handle>, Errno>(Errno(crate::errno::ENOENT)),
            },
    {
        match self.node_path(node) {
            Some(path) => {
                let at = Self::placed_ref(&path, node);
                let reply: Result<Opened<P::Handle>, Errno> = self.inner.open(at, flags, caller);
                assert(call_ensures(P::open, (&self.filesystem(), at, flags, caller), reply));
                reply
            },
            None => Err(Errno::enoent()),
        }
    }

    /// Reads from an open node, which need not have a path any more.
    pub fn read<'a>(
        &'a self,
        node: &PathNode<P::NodeState>,
        handle: &'a P::Handle,
        offset: u64,
        size: usize,
        caller: &Caller,
    ) -> (reply: Result<Cow<'a, [u8]>, Errno>)
        requires
            self.wf(),
            self.can_path(*node),
        ensures
            exists|at: PathNodeRef<'_, P::NodeState>|
                at.is(self.path_of(*node), node.state()) && #[trigger] call_ensures(
                    P::read,
                    (&self.filesystem(), at, handle, offset, size, caller),
                    reply,
                ),
    {
        let path: Option<Vec<u8>> = self.node_path(node);
        let at = Self::node_ref(&path, node);
        let reply: Result<Cow<'a, [u8]>, Errno> = self.inner.read(at, handle, offset, size, caller);
        assert(call_ensures(
            P::read,
            (&self.filesystem(), at, handle, offset, size, caller),
            reply,
        ));
        reply
    }

    /// Writes to an open node, which need not have a path any more.
    pub fn write(
        &self,
        node: &PathNode<P::NodeState>,
        handle: &P::Handle,
        data: &[u8],
        offset: u64,
        caller: &Caller,
    ) -> (reply: Result<usize, Errno>)
        requires
            self.wf(),
            self.can_path(*node),
        ensures
            exists|at: PathNodeRef<'_, P::NodeState>|
                at.is(self.path_of(*node), node.state()) && #[trigger] call_ensures(
                    P::write,
                    (&self.filesystem(), at, handle, data, offset, caller),
                    reply,
                ),
    {
        let path: Option<Vec<u8>> = self.node_path(node);
        let at = Self::node_ref(&path, node);
        let reply: Result<usize, Errno> = self.inner.write(at, handle, data, offset, caller);
        assert(call_ensures(
            P::write,
            (&self.filesystem(), at, handle, data, offset, caller),
            reply,
        ));
        reply
    }

    /// Passes on each `close()` of an open file.
    pub fn flush(
        &self,
        node: &PathNode<P::NodeState>,
        handle: &P::Handle,
        caller: &Caller,
    ) -> (reply: Result<(), Errno>)
        requires
            self.wf(),
            self.can_path(*node),
        ensures
            exists|at: PathNodeRef<'_, P::NodeState>|
                at.is(self.path_of(*node), node.state()) && #[trigger] call_ensures(
                    P::flush,
                    (&self.filesystem(), at, handle, caller),
                    reply,
                ),
    {
        let path: Option<Vec<u8>> = self.node_path(node);
        let at = Self::node_ref(&path, node);
        let reply: Result<(), Errno> = self.inner.flush(at, handle, caller);
        assert(call_ensures(P::flush, (&self.filesystem(), at, handle, caller), reply));
        reply
    }

    /// Hands an open file's handle back to the filesystem.
    pub fn release(
        &self,
        node: &PathNode<P::NodeState>,
        handle: P::Handle,
        caller: &Caller,
    ) -> (reply: Result<(), Errno>)
        requires
            self.wf(),
            self.can_path(*node),
        ensures
            exists|at: PathNodeRef<'_, P::NodeState>|
                at.is(self.path_of(*node), node.state()) && #[trigger] call_ensures(
                    P::release,
                    (&self.filesystem(), at, handle, caller),
                    reply,
                ),
    {
        let path: Option<Vec<u8>> = self.node_path(node);
        let at = Self::node_ref(&path, node);
        let reply: Result<(), Errno> = self.inner.release(at, handle, caller);
        assert(call_ensures(P::release, (&self.filesystem(), at, handle, caller), reply));
        reply
    }

    /// Flushes file contents.
    pub fn fsync(
        &self,
        node: &PathNode<P::NodeState>,
        handle: &P::Handle,
        datasync: bool,
        caller: &Caller,
    ) -> (reply: Result<(), Errno>)
        requires
            self.wf(),
            self.can_path(*node),
        ensures
            exists|at: PathNodeRef<'_, P::NodeState>|
                at.is(self.path_of(*node), node.state()) && #[trigger] call_ensures(
                    P::fsync,
                    (&self.filesystem(), at, handle, datasync, caller),
                    reply,
                ),
    {
        let path: Option<Vec<u8>> = self.node_path(node);
        let at = Self::node_ref(&path, node);
        let reply: Result<(), Errno> = self.inner.fsync(at, handle, datasync, caller);
        assert(call_ensures(P::fsync, (&self.filesystem(), at, handle, datasync, caller), reply));
        reply
    }

    /// Opens a directory. A node without a path is refused
    /// with `ENOENT`.
    pub fn opendir(
        &self,
        node: &PathNode<P::NodeState>,
        flags: i32,
        caller: &Caller,
    ) -> (reply: Result<Opened<P::DirHandle>, Errno>)
        requires
            self.wf(),
            self.can_path(*node),
        ensures
            match self.path_of(*node) {
                Some(path) => exists|at: PathNodeRef<'_, P::NodeState>|
                    at.is(Some(path), node.state()) && #[trigger] call_ensures(
                        P::opendir,
                        (&self.filesystem(), at, flags, caller),
                        reply,
                    ),
                None => reply == Err::<Opened<P::DirHandle>, Errno>(Errno(crate::errno::ENOENT)),
            },
    {
        match self.node_path(node) {
            Some(path) => {
                let at = Self::placed_ref(&path, node);
                let reply: Result<Opened<P::DirHandle>, Errno> = self.inner.opendir(
                    at,
                    flags,
                    caller,
                );
                assert(call_ensures(P::opendir, (&self.filesystem(), at, flags, caller), reply));
                reply
            },
            None => Err(Errno::enoent()),
        }
    }

    /// Hands a directory's handle back to the filesystem.
    pub fn releasedir(
        &self,
        node: &PathNode<P::NodeState>,
        handle: P::DirHandle,
        caller: &Caller,
    ) -> (reply: Result<(), Errno>)
        requires
            self.wf(),
            self.can_path(*node),
        ensures
            exists|at: PathNodeRef<'_, P::NodeState>|
                at.is(self.path_of(*node), node.state()) && #[trigger] call_ensures(
                    P::releasedir,
                    (&self.filesystem(), at, handle, caller),
                    reply,
                ),
    {
        let path: Option<Vec<u8>> = self.node_path(node);
        let at = Self::node_ref(&path, node);
        let reply: Result<(), Errno> = self.inner.releasedir(at, handle, caller);
        assert(call_ensures(P::releasedir, (&self.filesystem(), at, handle, caller), reply));
        reply
    }

    /// Flushes directory contents.
    pub fn fsyncdir(
        &self,
        node: &PathNode<P::NodeState>,
        handle: &P::DirHandle,
        datasync: bool,
        caller: &Caller,
    ) -> (reply: Result<(), Errno>)
        requires
            self.wf(),
            self.can_path(*node),
        ensures
            exists|at: PathNodeRef<'_, P::NodeState>|
                at.is(self.path_of(*node), node.state()) && #[trigger] call_ensures(
                    P::fsyncdir,
                    (&self.filesystem(), at, handle, datasync, caller),
                    reply,
                ),
    {
        let path: Option<Vec<u8>> = self.node_path(node);
        let at = Self::node_ref(&path, node);
        let reply: Result<(), Errno> = self.inner.fsyncdir(at, handle, datasync, caller);
        assert(call_ensures(
            P::fsyncdir,
            (&self.filesystem(), at, handle, datasync, caller),
            reply,
        ));
        reply
    }

    /// Sets an extended attribute. A node without a path is refused
    /// with `ENOENT`.
    pub fn setxattr(
        &self,
        node: &PathNode<P::NodeState>,
        name: &[u8],
        value: &[u8],
        flags: i32,
        caller: &Caller,
    ) -> (reply: Result<(), Errno>)
        requires
            self.wf(),
            self.can_path(*node),
        ensures
            match self.path_of(*node) {
                Some(path) => exists|at: PathNodeRef<'_, P::NodeState>|
                    at.is(Some(path), node.state()) && #[trigger] call_ensures(
                        P::setxattr,
                        (&self.filesystem(), at, name, value, flags, caller),
                        reply,
                    ),
                None => reply == Err::<(), Errno>(Errno(crate::errno::ENOENT)),
            },
    {
        match self.node_path(node) {
            Some(path) => {
                let at = Self::placed_ref(&path, node);
                let reply: Result<(), Errno> = self.inner.setxattr(at, name, value, flags, caller);
                assert(call_ensures(
                    P::setxattr,
                    (&self.filesystem(), at, name, value, flags, caller),
                    reply,
                ));
                reply
            },
            None => Err(Errno::enoent()),
        }
    }

    /// Returns an extended attribute. A node without a path is refused
    /// with `ENOENT`.
    pub fn getxattr(
        &self,
        node: &PathNode<P::NodeState>,
        name: &[u8],
        size: usize,
        caller: &Caller,
    ) -> (reply: Result<XattrReply, Errno>)
        requires
            self.wf(),
            self.can_path(*node),
        ensures
            match self.path_of(*node) {
                Some(path) => exists|at: PathNodeRef<'_, P::NodeState>|
                    at.is(Some(path), node.state()) && #[trigger] call_ensures(
                        P::getxattr,
                        (&self.filesystem(), at, name, size, caller),
                        reply,
                    ),
                None => reply == Err::<XattrReply, Errno>(Errno(crate::errno::ENOENT)),
            },
    {
        match self.node_path(node) {
            Some(path) => {
                let at = Self::placed_ref(&path, node);
                let reply: Result<XattrReply, Errno> = self.inner.getxattr(at, name, size, caller);
                assert(call_ensures(
                    P::getxattr,
                    (&self.filesystem(), at, name, size, caller),
                    reply,
                ));
                reply
            },
            None => Err(Errno::enoent()),
        }
    }

    /// Returns the names of a node's extended attributes. A node without a path is refused
    /// with `ENOENT`.
    pub fn listxattr(
        &self,
        node: &PathNode<P::NodeState>,
        size: usize,
        caller: &Caller,
    ) -> (reply: Result<XattrReply, Errno>)
        requires
            self.wf(),
            self.can_path(*node),
        ensures
            match self.path_of(*node) {
                Some(path) => exists|at: PathNodeRef<'_, P::NodeState>|
                    at.is(Some(path), node.state()) && #[trigger] call_ensures(
                        P::listxattr,
                        (&self.filesystem(), at, size, caller),
                        reply,
                    ),
                None => reply == Err::<XattrReply, Errno>(Errno(crate::errno::ENOENT)),
            },
    {
        match self.node_path(node) {
            Some(path) => {
                let at = Self::placed_ref(&path, node);
                let reply: Result<XattrReply, Errno> = self.inner.listxattr(at, size, caller);
                assert(call_ensures(P::listxattr, (&self.filesystem(), at, size, caller), reply));
                reply
            },
            None => Err(Errno::enoent()),
        }
    }

    /// Removes an extended attribute. A node without a path is refused
    /// with `ENOENT`.
    pub fn removexattr(
        &self,
        node: &PathNode<P::NodeState>,
        name: &[u8],
        caller: &Caller,
    ) -> (reply: Result<(), Errno>)
        requires
            self.wf(),
            self.can_path(*node),
        ensures
            match self.path_of(*node) {
                Some(path) => exists|at: PathNodeRef<'_, P::NodeState>|
                    at.is(Some(path), node.state()) && #[trigger] call_ensures(
                        P::removexattr,
                        (&self.filesystem(), at, name, caller),
                        reply,
                    ),
                None => reply == Err::<(), Errno>(Errno(crate::errno::ENOENT)),
            },
    {
        match self.node_path(node) {
            Some(path) => {
                let at = Self::placed_ref(&path, node);
                let reply: Result<(), Errno> = self.inner.removexattr(at, name, caller);
                assert(call_ensures(P::removexattr, (&self.filesystem(), at, name, caller), reply));
                reply
            },
            None => Err(Errno::enoent()),
        }
    }

    /// Checks access to a node. A node without a path is refused
    /// with `ENOENT`.
    pub fn access(
        &self,
        node: &PathNode<P::NodeState>,
        mask: i32,
        caller: &Caller,
    ) -> (reply: Result<(), Errno>)
        requires
            self.wf(),
            self.can_path(*node),
        ensures
            match self.path_of(*node) {
                Some(path) => exists|at: PathNodeRef<'_, P::NodeState>|
                    at.is(Some(path), node.state()) && #[trigger] call_ensures(
                        P::access,
                        (&self.filesystem(), at, mask, caller),
                        reply,
                    ),
                None => reply == Err::<(), Errno>(Errno(crate::errno::ENOENT)),
            },
    {
        match self.node_path(node) {
            Some(path) => {
                let at = Self::placed_ref(&path, node);
                let reply: Result<(), Errno> = self.inner.access(at, mask, caller);
                assert(call_ensures(P::access, (&self.filesystem(), at, mask, caller), reply));
                reply
            },
            None => Err(Errno::enoent()),
        }
    }

    /// Pre-allocates or punches a range of an open node.
    pub fn fallocate(
        &self,
        node: &PathNode<P::NodeState>,
        handle: &P::Handle,
        mode: i32,
        offset: u64,
        length: u64,
        caller: &Caller,
    ) -> (reply: Result<(), Errno>)
        requires
            self.wf(),
            self.can_path(*node),
        ensures
            exists|at: PathNodeRef<'_, P::NodeState>|
                at.is(self.path_of(*node), node.state()) && #[trigger] call_ensures(
                    P::fallocate,
                    (&self.filesystem(), at, handle, mode, offset, length, caller),
                    reply,
                ),
    {
        let path: Option<Vec<u8>> = self.node_path(node);
        let at = Self::node_ref(&path, node);
        let reply: Result<(), Errno> = self.inner.fallocate(
            at,
            handle,
            mode,
            offset,
            length,
            caller,
        );
        assert(call_ensures(
            P::fallocate,
            (&self.filesystem(), at, handle, mode, offset, length, caller),
            reply,
        ));
        reply
    }

    /// Finds the next data region or hole.
    pub fn lseek(
        &self,
        node: &PathNode<P::NodeState>,
        handle: &P::Handle,
        offset: u64,
        whence: i32,
        caller: &Caller,
    ) -> (reply: Result<u64, Errno>)
        requires
            self.wf(),
            self.can_path(*node),
        ensures
            exists|at: PathNodeRef<'_, P::NodeState>|
                at.is(self.path_of(*node), node.state()) && #[trigger] call_ensures(
                    P::lseek,
                    (&self.filesystem(), at, handle, offset, whence, caller),
                    reply,
                ),
    {
        let path: Option<Vec<u8>> = self.node_path(node);
        let at = Self::node_ref(&path, node);
        let reply: Result<u64, Errno> = self.inner.lseek(at, handle, offset, whence, caller);
        assert(call_ensures(
            P::lseek,
            (&self.filesystem(), at, handle, offset, whence, caller),
            reply,
        ));
        reply
    }

    /// Tests whether a record lock could be acquired.
    pub fn getlk(
        &self,
        node: &PathNode<P::NodeState>,
        handle: &P::Handle,
        owner: u64,
        lock: FileLock,
        caller: &Caller,
    ) -> (reply: Result<FileLock, Errno>)
        requires
            self.wf(),
            self.can_path(*node),
        ensures
            exists|at: PathNodeRef<'_, P::NodeState>|
                at.is(self.path_of(*node), node.state()) && #[trigger] call_ensures(
                    P::getlk,
                    (&self.filesystem(), at, handle, owner, lock, caller),
                    reply,
                ),
    {
        let path: Option<Vec<u8>> = self.node_path(node);
        let at = Self::node_ref(&path, node);
        let reply: Result<FileLock, Errno> = self.inner.getlk(at, handle, owner, lock, caller);
        assert(call_ensures(
            P::getlk,
            (&self.filesystem(), at, handle, owner, lock, caller),
            reply,
        ));
        reply
    }

    /// Acquires or releases a record lock.
    pub fn setlk(
        &self,
        node: &PathNode<P::NodeState>,
        handle: &P::Handle,
        owner: u64,
        lock: FileLock,
        sleep: bool,
        caller: &Caller,
    ) -> (reply: Result<(), Errno>)
        requires
            self.wf(),
            self.can_path(*node),
        ensures
            exists|at: PathNodeRef<'_, P::NodeState>|
                at.is(self.path_of(*node), node.state()) && #[trigger] call_ensures(
                    P::setlk,
                    (&self.filesystem(), at, handle, owner, lock, sleep, caller),
                    reply,
                ),
    {
        let path: Option<Vec<u8>> = self.node_path(node);
        let at = Self::node_ref(&path, node);
        let reply: Result<(), Errno> = self.inner.setlk(at, handle, owner, lock, sleep, caller);
        assert(call_ensures(
            P::setlk,
            (&self.filesystem(), at, handle, owner, lock, sleep, caller),
            reply,
        ));
        reply
    }

    /// Acquires, modifies, or releases a BSD lock.
    pub fn flock(
        &self,
        node: &PathNode<P::NodeState>,
        handle: &P::Handle,
        operation: i32,
        caller: &Caller,
    ) -> (reply: Result<(), Errno>)
        requires
            self.wf(),
            self.can_path(*node),
        ensures
            exists|at: PathNodeRef<'_, P::NodeState>|
                at.is(self.path_of(*node), node.state()) && #[trigger] call_ensures(
                    P::flock,
                    (&self.filesystem(), at, handle, operation, caller),
                    reply,
                ),
    {
        let path: Option<Vec<u8>> = self.node_path(node);
        let at = Self::node_ref(&path, node);
        let reply: Result<(), Errno> = self.inner.flock(at, handle, operation, caller);
        assert(call_ensures(P::flock, (&self.filesystem(), at, handle, operation, caller), reply));
        reply
    }

    /// Returns filesystem-wide statistics: the filesystem is asked about `/`.
    pub fn statfs(&self, caller: &Caller) -> (reply: Result<StatFs, Errno>)
        ensures
            exists|root: &[u8]|
                root@ == seq![SLASH] && #[trigger] call_ensures(
                    P::statfs,
                    (&self.filesystem(), root, caller),
                    reply,
                ),
    {
        let root: Vec<u8> = vec![SLASH];
        assert(root@ =~= seq![SLASH]);
        let root: &[u8] = root.as_slice();
        let reply: Result<StatFs, Errno> = self.inner.statfs(root, caller);
        assert(call_ensures(P::statfs, (&self.filesystem(), root, caller), reply));
        reply
    }

    /// What a lookup makes of the filesystem's outcome: an entry that was found is
    /// discovered, and its attributes wait for the entry reply.
    pub open spec fn lookup_concluded(
        before: Tree<P::NodeState>,
        parent: NodeId,
        name: Seq<u8>,
        outcome: Result<Option<PathEntry<P::NodeState>>, Errno>,
        after: Tree<P::NodeState>,
        pending: Option<(u64, NodeAttr)>,
        reply: Result<Option<NodeId>, Errno>,
    ) -> bool {
        match outcome {
            Ok(Some(entry)) => {
                &&& after == before.discovered(parent, name, entry.state)
                &&& reply matches Ok(Some(id)) && id@ == before.discovered_id(parent, name)
                    && pending == pending_entry(id, entry.attr)
            },
            Ok(None) => after == before && pending is None && reply == Ok::<Option<NodeId>, Errno>(
                None,
            ),
            Err(e) => after == before && pending is None && reply == Err::<Option<NodeId>, Errno>(e),
        }
    }

    /// What a creation makes of the filesystem's outcome: the new entry is discovered, and
    /// its attributes wait for the entry reply.
    pub open spec fn creation_concluded(
        before: Tree<P::NodeState>,
        parent: NodeId,
        name: Seq<u8>,
        outcome: Result<PathEntry<P::NodeState>, Errno>,
        after: Tree<P::NodeState>,
        pending: Option<(u64, NodeAttr)>,
        reply: Result<NodeId, Errno>,
    ) -> bool {
        match outcome {
            Ok(entry) => {
                &&& after == before.discovered(parent, name, entry.state)
                &&& reply matches Ok(id) && id@ == before.discovered_id(parent, name) && pending
                    == pending_entry(id, entry.attr)
            },
            Err(e) => after == before && pending is None && reply == Err::<NodeId, Errno>(e),
        }
    }

    /// What a removal makes of the filesystem's outcome: the name is gone.
    pub open spec fn removal_concluded(
        before: Tree<P::NodeState>,
        parent: NodeId,
        name: Seq<u8>,
        outcome: Result<(), Errno>,
        after: Tree<P::NodeState>,
        reply: Result<(), Errno>,
    ) -> bool {
        &&& reply == outcome
        &&& after == (if outcome is Ok {
            before.name_removed(DentryView { parent: parent@, name })
        } else {
            before
        })
    }

    /// What a rename makes of the filesystem's outcome: the old name becomes the new one.
    pub open spec fn rename_concluded(
        before: Tree<P::NodeState>,
        parent: NodeId,
        name: Seq<u8>,
        newparent: NodeId,
        newname: Seq<u8>,
        outcome: Result<(), Errno>,
        after: Tree<P::NodeState>,
        reply: Result<(), Errno>,
    ) -> bool {
        &&& reply == outcome
        &&& after == (if outcome is Ok {
            before.renamed(DentryView { parent: parent@, name }, newparent, newname)
        } else {
            before
        })
    }

    /// What a hard link makes of the filesystem's outcome: the node has a further name.
    pub open spec fn link_concluded(
        before: Tree<P::NodeState>,
        id: NodeId,
        newparent: NodeId,
        newname: Seq<u8>,
        outcome: Result<NodeAttr, Errno>,
        after: Tree<P::NodeState>,
        reply: Result<NodeId, Errno>,
    ) -> bool {
        match outcome {
            Ok(_) => {
                &&& reply == Ok::<NodeId, Errno>(id)
                &&& after == before.linked(id@, DentryView { parent: newparent@, name: newname })
            },
            Err(e) => reply == Err::<NodeId, Errno>(e) && after == before,
        }
    }

    /// Records what a lookup has found.
    pub fn conclude_lookup(
        &mut self,
        cx: &mut Cx<PathNode<P::NodeState>>,
        parent: NodeId,
        name: &[u8],
        outcome: Result<Option<PathEntry<P::NodeState>>, Errno>,
    ) -> (reply: Result<Option<NodeId>, Errno>)
        requires
            old(self).wf(),
            old(cx)@.inv(),
            old(self).tree(old(cx)@).can_discover(parent, name@),
        ensures
            final(self).wf(),
            final(cx)@.inv(),
            final(self).filesystem() == old(self).filesystem(),
            Self::lookup_concluded(
                old(self).tree(old(cx)@),
                parent,
                name@,
                outcome,
                final(self).tree(final(cx)@),
                final(self).pending(),
                reply,
            ),
    {
        self.pending = None;
        match outcome {
            Ok(Some(entry)) => {
                let (id, _fresh) = self.namespace.insert(cx, parent, name, entry.state);
                self.pending = Some((id, entry.attr));
                Ok(Some(id))
            },
            Ok(None) => Ok(None),
            Err(e) => Err(e),
        }
    }

    /// Records what a callback has created.
    pub fn conclude_creation(
        &mut self,
        cx: &mut Cx<PathNode<P::NodeState>>,
        parent: NodeId,
        name: &[u8],
        outcome: Result<PathEntry<P::NodeState>, Errno>,
    ) -> (reply: Result<NodeId, Errno>)
        requires
            old(self).wf(),
            old(cx)@.inv(),
            old(self).tree(old(cx)@).can_discover(parent, name@),
        ensures
            final(self).wf(),
            final(cx)@.inv(),
            final(self).filesystem() == old(self).filesystem(),
            Self::creation_concluded(
                old(self).tree(old(cx)@),
                parent,
                name@,
                outcome,
                final(self).tree(final(cx)@),
                final(self).pending(),
                reply,
            ),
    {
        self.pending = None;
        match outcome {
            Ok(entry) => {
                let (id, _fresh) = self.namespace.insert(cx, parent, name, entry.state);
                self.pending = Some((id, entry.attr));
                Ok(id)
            },
            Err(e) => Err(e),
        }
    }

    /// Records that a name was removed.
    pub fn conclude_removal(
        &mut self,
        cx: &mut Cx<PathNode<P::NodeState>>,
        parent: NodeId,
        name: &[u8],
        outcome: Result<(), Errno>,
    ) -> (reply: Result<(), Errno>)
        requires
            old(self).wf(),
            old(cx)@.inv(),
        ensures
            final(self).wf(),
            final(cx)@.inv(),
            final(self).filesystem() == old(self).filesystem(),
            final(self).pending() is None,
            Self::removal_concluded(
                old(self).tree(old(cx)@),
                parent,
                name@,
                outcome,
                final(self).tree(final(cx)@),
                reply,
            ),
    {
        self.pending = None;
        if outcome.is_ok() {
            let dentry: Dentry = Dentry::new(parent, name);
            if let Some(id) = self.namespace.remove(&dentry) {
                cx.remove_link(id);
            }
        }
        outcome
    }

    /// Records that a name was changed.
    pub fn conclude_rename(
        &mut self,
        cx: &mut Cx<PathNode<P::NodeState>>,
        parent: NodeId,
        name: &[u8],
        newparent: NodeId,
        newname: &[u8],
        outcome: Result<(), Errno>,
    ) -> (reply: Result<(), Errno>)
        requires
            old(self).wf(),
            old(cx)@.inv(),
        ensures
            final(self).wf(),
            final(cx)@.inv(),
            final(self).filesystem() == old(self).filesystem(),
            final(self).pending() is None,
            Self::rename_concluded(
                old(self).tree(old(cx)@),
                parent,
                name@,
                newparent,
                newname@,
                outcome,
                final(self).tree(final(cx)@),
                reply,
            ),
    {
        self.pending = None;
        if outcome.is_err() {
            return outcome;
        }
        let old_name: Dentry = Dentry::new(parent, name);
        let new_name: Dentry = Dentry::new(newparent, newname);
        let source: NodeId = match self.namespace.get(&old_name) {
            Some(source) => source,
            None => {
                return outcome;
            },
        };
        if let Some(taken) = self.namespace.get(&new_name) {
            if taken.ino() == source.ino() {
                return outcome;
            }
        }
        if let Some(replaced) = self.namespace.remove(&new_name) {
            cx.remove_link(replaced);
        }
        self.namespace.remove(&old_name);
        self.namespace.add_alias(source, new_name);
        cx.reparent(source, newparent);
        outcome
    }

    /// Records that a node was linked.
    pub fn conclude_link(
        &mut self,
        cx: &mut Cx<PathNode<P::NodeState>>,
        id: NodeId,
        newparent: NodeId,
        newname: &[u8],
        outcome: Result<NodeAttr, Errno>,
    ) -> (reply: Result<NodeId, Errno>)
        requires
            old(self).wf(),
            old(cx)@.inv(),
            old(cx)@.nodes.contains_key(id@) ==> old(cx)@.nodes[id@].links < u64::MAX,
        ensures
            final(self).wf(),
            final(cx)@.inv(),
            final(self).filesystem() == old(self).filesystem(),
            final(self).pending() is None,
            Self::link_concluded(
                old(self).tree(old(cx)@),
                id,
                newparent,
                newname@,
                outcome,
                final(self).tree(final(cx)@),
                reply,
            ),
    {
        self.pending = None;
        match outcome {
            Ok(_) => {
                self.namespace.add_alias(id, Dentry::new(newparent, newname));
                cx.add_link(id);
                Ok(id)
            },
            Err(e) => Err(e),
        }
    }

    /// Looks up a name in a directory. A directory that is gone or has no path is refused with
    /// `ENOENT`; otherwise the filesystem is asked, and what it finds is discovered.
    pub fn lookup(
        &mut self,
        cx: &mut Cx<PathNode<P::NodeState>>,
        parent: NodeId,
        name: &[u8],
        caller: &Caller,
    ) -> (reply: Result<Option<NodeId>, Errno>)
        requires
            old(self).wf(),
            old(cx)@.inv(),
            old(self).can_place(old(cx)@, parent@),
            old(self).tree(old(cx)@).can_discover(parent, name@),
        ensures
            final(self).wf(),
            final(cx)@.inv(),
            match old(self).place(old(cx)@, parent@) {
                Some((path, state)) => {
                    &&& final(self).filesystem() == old(self).filesystem()
                    &&& exists|
                        at: PathNodeRef<'_, P::NodeState>,
                        outcome: Result<Option<PathEntry<P::NodeState>>, Errno>,
                    |
                        at.is(Some(path), state) && #[trigger] call_ensures(
                            P::lookup,
                            (&old(self).filesystem(), at, name, caller),
                            outcome,
                        ) && Self::lookup_concluded(
                            old(self).tree(old(cx)@),
                            parent,
                            name@,
                            outcome,
                            final(self).tree(final(cx)@),
                            final(self).pending(),
                            reply,
                        )
                },
                None => {
                    &&& reply == Err::<Option<NodeId>, Errno>(Errno(crate::errno::ENOENT))
                    &&& old(self).settled(*final(self))
                    &&& final(cx)@ == old(cx)@
                },
            },
    {
        self.pending = None;
        let outcome: Result<Option<PathEntry<P::NodeState>>, Errno> = match self.locate(
            cx,
            parent,
        ) {
            Ok((node, path)) => {
                let at = Self::placed_ref(&path, node);
                let outcome: Result<Option<PathEntry<P::NodeState>>, Errno> = self.inner.lookup(
                    at,
                    name,
                    caller,
                );
                assert(call_ensures(
                    P::lookup,
                    (&old(self).filesystem(), at, name, caller),
                    outcome,
                ));
                outcome
            },
            Err(e) => {
                return Err(e);
            },
        };
        self.conclude_lookup(cx, parent, name, outcome)
    }

    /// Creates a non-directory, non-symlink node in a directory.
    pub fn mknod(
        &mut self,
        cx: &mut Cx<PathNode<P::NodeState>>,
        parent: NodeId,
        name: &[u8],
        mode: u32,
        rdev: u32,
        umask: u32,
        caller: &Caller,
    ) -> (reply: Result<NodeId, Errno>)
        requires
            old(self).wf(),
            old(cx)@.inv(),
            old(self).can_place(old(cx)@, parent@),
            old(self).tree(old(cx)@).can_discover(parent, name@),
        ensures
            final(self).wf(),
            final(cx)@.inv(),
            match old(self).place(old(cx)@, parent@) {
                Some((path, state)) => {
                    &&& final(self).filesystem() == old(self).filesystem()
                    &&& exists|
                        at: PathNodeRef<'_, P::NodeState>,
                        outcome: Result<PathEntry<P::NodeState>, Errno>,
                    |
                        at.is(Some(path), state) && #[trigger] call_ensures(
                            P::mknod,
                            (&old(self).filesystem(), at, name, mode, rdev, umask, caller),
                            outcome,
                        ) && Self::creation_concluded(
                            old(self).tree(old(cx)@),
                            parent,
                            name@,
                            outcome,
                            final(self).tree(final(cx)@),
                            final(self).pending(),
                            reply,
                        )
                },
                None => {
                    &&& reply == Err::<NodeId, Errno>(Errno(crate::errno::ENOENT))
                    &&& old(self).settled(*final(self))
                    &&& final(cx)@ == old(cx)@
                },
            },
    {
        self.pending = None;
        let outcome: Result<PathEntry<P::NodeState>, Errno> = match self.locate(cx, parent) {
            Ok((node, path)) => {
                let at = Self::placed_ref(&path, node);
                let outcome: Result<PathEntry<P::NodeState>, Errno> = self.inner.mknod(
                    at,
                    name,
                    mode,
                    rdev,
                    umask,
                    caller,
                );
                assert(call_ensures(
                    P::mknod,
                    (&old(self).filesystem(), at, name, mode, rdev, umask, caller),
                    outcome,
                ));
                outcome
            },
            Err(e) => {
                return Err(e);
            },
        };
        self.conclude_creation(cx, parent, name, outcome)
    }

    /// Creates a directory in a directory.
    pub fn mkdir(
        &mut self,
        cx: &mut Cx<PathNode<P::NodeState>>,
        parent: NodeId,
        name: &[u8],
        mode: u32,
        umask: u32,
        caller: &Caller,
    ) -> (reply: Result<NodeId, Errno>)
        requires
            old(self).wf(),
            old(cx)@.inv(),
            old(self).can_place(old(cx)@, parent@),
            old(self).tree(old(cx)@).can_discover(parent, name@),
        ensures
            final(self).wf(),
            final(cx)@.inv(),
            match old(self).place(old(cx)@, parent@) {
                Some((path, state)) => {
                    &&& final(self).filesystem() == old(self).filesystem()
                    &&& exists|
                        at: PathNodeRef<'_, P::NodeState>,
                        outcome: Result<PathEntry<P::NodeState>, Errno>,
                    |
                        at.is(Some(path), state) && #[trigger] call_ensures(
                            P::mkdir,
                            (&old(self).filesystem(), at, name, mode, umask, caller),
                            outcome,
                        ) && Self::creation_concluded(
                            old(self).tree(old(cx)@),
                            parent,
                            name@,
                            outcome,
                            final(self).tree(final(cx)@),
                            final(self).pending(),
                            reply,
                        )
                },
                None => {
                    &&& reply == Err::<NodeId, Errno>(Errno(crate::errno::ENOENT))
                    &&& old(self).settled(*final(self))
                    &&& final(cx)@ == old(cx)@
                },
            },
    {
        self.pending = None;
        let outcome: Result<PathEntry<P::NodeState>, Errno> = match self.locate(cx, parent) {
            Ok((node, path)) => {
                let at = Self::placed_ref(&path, node);
                let outcome: Result<PathEntry<P::NodeState>, Errno> = self.inner.mkdir(
                    at,
                    name,
                    mode,
                    umask,
                    caller,
                );
                assert(call_ensures(
                    P::mkdir,
                    (&old(self).filesystem(), at, name, mode, umask, caller),
                    outcome,
                ));
                outcome
            },
            Err(e) => {
                return Err(e);
            },
        };
        self.conclude_creation(cx, parent, name, outcome)
    }

    /// Creates a symbolic link in a directory.
    pub fn symlink(
        &mut self,
        cx: &mut Cx<PathNode<P::NodeState>>,
        parent: NodeId,
        name: &[u8],
        target: &[u8],
        caller: &Caller,
    ) -> (reply: Result<NodeId, Errno>)
        requires
            old(self).wf(),
            old(cx)@.inv(),
            old(self).can_place(old(cx)@, parent@),
            old(self).tree(old(cx)@).can_discover(parent, name@),
        ensures
            final(self).wf(),
            final(cx)@.inv(),
            match old(self).place(old(cx)@, parent@) {
                Some((path, state)) => {
                    &&& final(self).filesystem() == old(self).filesystem()
                    &&& exists|
                        at: PathNodeRef<'_, P::NodeState>,
                        outcome: Result<PathEntry<P::NodeState>, Errno>,
                    |
                        at.is(Some(path), state) && #[trigger] call_ensures(
                            P::symlink,
                            (&old(self).filesystem(), at, name, target, caller),
                            outcome,
                        ) && Self::creation_concluded(
                            old(self).tree(old(cx)@),
                            parent,
                            name@,
                            outcome,
                            final(self).tree(final(cx)@),
                            final(self).pending(),
                            reply,
                        )
                },
                None => {
                    &&& reply == Err::<NodeId, Errno>(Errno(crate::errno::ENOENT))
                    &&& old(self).settled(*final(self))
                    &&& final(cx)@ == old(cx)@
                },
            },
    {
        self.pending = None;
        let outcome: Result<PathEntry<P::NodeState>, Errno> = match self.locate(cx, parent) {
            Ok((node, path)) => {
                let at = Self::placed_ref(&path, node);
                let outcome: Result<PathEntry<P::NodeState>, Errno> = self.inner.symlink(
                    at,
                    name,
                    target,
                    caller,
                );
                assert(call_ensures(
                    P::symlink,
                    (&old(self).filesystem(), at, name, target, caller),
                    outcome,
                ));
                outcome
            },
            Err(e) => {
                return Err(e);
            },
        };
        self.conclude_creation(cx, parent, name, outcome)
    }

    /// Atomically creates and opens a regular file in a directory.
    pub fn create(
        &mut self,
        cx: &mut Cx<PathNode<P::NodeState>>,
        parent: NodeId,
        name: &[u8],
        mode: u32,
        umask: u32,
        flags: i32,
        caller: &Caller,
    ) -> (reply: Result<(NodeId, Opened<P::Handle>), Errno>)
        requires
            old(self).wf(),
            old(cx)@.inv(),
            old(self).can_place(old(cx)@, parent@),
            old(self).tree(old(cx)@).can_discover(parent, name@),
        ensures
            final(self).wf(),
            final(cx)@.inv(),
            match old(self).place(old(cx)@, parent@) {
                Some((path, state)) => {
                    &&& final(self).filesystem() == old(self).filesystem()
                    &&& exists|
                        at: PathNodeRef<'_, P::NodeState>,
                        outcome: Result<(PathEntry<P::NodeState>, Opened<P::Handle>), Errno>,
                    |
                        at.is(Some(path), state) && #[trigger] call_ensures(
                            P::create,
                            (&old(self).filesystem(), at, name, mode, umask, flags, caller),
                            outcome,
                        ) && Self::creation_concluded(
                            old(self).tree(old(cx)@),
                            parent,
                            name@,
                            match outcome {
                                Ok((entry, _)) => Ok(entry),
                                Err(e) => Err(e),
                            },
                            final(self).tree(final(cx)@),
                            final(self).pending(),
                            match reply {
                                Ok((id, _)) => Ok(id),
                                Err(e) => Err(e),
                            },
                        ) && (reply matches Ok((_, opened)) ==> opened == outcome->Ok_0.1)
                },
                None => {
                    &&& reply == Err::<(NodeId, Opened<P::Handle>), Errno>(
                        Errno(crate::errno::ENOENT),
                    )
                    &&& old(self).settled(*final(self))
                    &&& final(cx)@ == old(cx)@
                },
            },
    {
        self.pending = None;
        let outcome: Result<(PathEntry<P::NodeState>, Opened<P::Handle>), Errno> = match self.locate(
            cx,
            parent,
        ) {
            Ok((node, path)) => {
                let at = Self::placed_ref(&path, node);
                let outcome: Result<(PathEntry<P::NodeState>, Opened<P::Handle>), Errno> =
                    self.inner.create(at, name, mode, umask, flags, caller);
                assert(call_ensures(
                    P::create,
                    (&old(self).filesystem(), at, name, mode, umask, flags, caller),
                    outcome,
                ));
                outcome
            },
            Err(e) => {
                return Err(e);
            },
        };
        match outcome {
            Ok((entry, opened)) => match self.conclude_creation(cx, parent, name, Ok(entry)) {
                Ok(id) => Ok((id, opened)),
                Err(e) => Err(e),
            },
            Err(e) => Err(e),
        }
    }

    /// Removes a non-directory entry. A node that is still open or looked up outlives its name.
    pub fn unlink(
        &mut self,
        cx: &mut Cx<PathNode<P::NodeState>>,
        parent: NodeId,
        name: &[u8],
        caller: &Caller,
    ) -> (reply: Result<(), Errno>)
        requires
            old(self).wf(),
            old(cx)@.inv(),
            old(self).can_place(old(cx)@, parent@),
        ensures
            final(self).wf(),
            final(cx)@.inv(),
            match old(self).place(old(cx)@, parent@) {
                Some((path, state)) => {
                    &&& final(self).filesystem() == old(self).filesystem()
                    &&& final(self).pending() is None
                    &&& exists|at: PathNodeRef<'_, P::NodeState>, outcome: Result<(), Errno>|
                        at.is(Some(path), state) && #[trigger] call_ensures(
                            P::unlink,
                            (&old(self).filesystem(), at, name, caller),
                            outcome,
                        ) && Self::removal_concluded(
                            old(self).tree(old(cx)@),
                            parent,
                            name@,
                            outcome,
                            final(self).tree(final(cx)@),
                            reply,
                        )
                },
                None => {
                    &&& reply == Err::<(), Errno>(Errno(crate::errno::ENOENT))
                    &&& old(self).settled(*final(self))
                    &&& final(cx)@ == old(cx)@
                },
            },
    {
        self.pending = None;
        let outcome: Result<(), Errno> = match self.locate(cx, parent) {
            Ok((node, path)) => {
                let at = Self::placed_ref(&path, node);
                let outcome: Result<(), Errno> = self.inner.unlink(at, name, caller);
                assert(call_ensures(
                    P::unlink,
                    (&old(self).filesystem(), at, name, caller),
                    outcome,
                ));
                outcome
            },
            Err(e) => {
                return Err(e);
            },
        };
        self.conclude_removal(cx, parent, name, outcome)
    }

    /// Removes an empty directory.
    pub fn rmdir(
        &mut self,
        cx: &mut Cx<PathNode<P::NodeState>>,
        parent: NodeId,
        name: &[u8],
        caller: &Caller,
    ) -> (reply: Result<(), Errno>)
        requires
            old(self).wf(),
            old(cx)@.inv(),
            old(self).can_place(old(cx)@, parent@),
        ensures
            final(self).wf(),
            final(cx)@.inv(),
            match old(self).place(old(cx)@, parent@) {
                Some((path, state)) => {
                    &&& final(self).filesystem() == old(self).filesystem()
                    &&& final(self).pending() is None
                    &&& exists|at: PathNodeRef<'_, P::NodeState>, outcome: Result<(), Errno>|
                        at.is(Some(path), state) && #[trigger] call_ensures(
                            P::rmdir,
                            (&old(self).filesystem(), at, name, caller),
                            outcome,
                        ) && Self::removal_concluded(
                            old(self).tree(old(cx)@),
                            parent,
                            name@,
                            outcome,
                            final(self).tree(final(cx)@),
                            reply,
                        )
                },
                None => {
                    &&& reply == Err::<(), Errno>(Errno(crate::errno::ENOENT))
                    &&& old(self).settled(*final(self))
                    &&& final(cx)@ == old(cx)@
                },
            },
    {
        self.pending = None;
        let outcome: Result<(), Errno> = match self.locate(cx, parent) {
            Ok((node, path)) => {
                let at = Self::placed_ref(&path, node);
                let outcome: Result<(), Errno> = self.inner.rmdir(at, name, caller);
                assert(call_ensures(
                    P::rmdir,
                    (&old(self).filesystem(), at, name, caller),
                    outcome,
                ));
                outcome
            },
            Err(e) => {
                return Err(e);
            },
        };
        self.conclude_removal(cx, parent, name, outcome)
    }

    /// Renames an entry. Flags are not supported: any is refused with `EOPNOTSUPP`.
    pub fn rename(
        &mut self,
        cx: &mut Cx<PathNode<P::NodeState>>,
        parent: NodeId,
        name: &[u8],
        newparent: NodeId,
        newname: &[u8],
        flags: u32,
        caller: &Caller,
    ) -> (reply: Result<(), Errno>)
        requires
            old(self).wf(),
            old(cx)@.inv(),
            flags == 0 ==> old(self).can_place_both(old(cx)@, parent@, newparent@),
        ensures
            final(self).wf(),
            final(cx)@.inv(),
            if flags != 0 {
                &&& reply == Err::<(), Errno>(Errno(crate::errno::EOPNOTSUPP))
                &&& old(self).settled(*final(self))
                &&& final(cx)@ == old(cx)@
            } else {
                match (
                    old(self).place(old(cx)@, parent@),
                    old(self).place(old(cx)@, newparent@),
                ) {
                    (Some((path, state)), Some((newpath, newstate))) => {
                        &&& final(self).filesystem() == old(self).filesystem()
                        &&& final(self).pending() is None
                        &&& exists|
                            at: PathNodeRef<'_, P::NodeState>,
                            to: PathNodeRef<'_, P::NodeState>,
                            outcome: Result<(), Errno>,
                        |
                            at.is(Some(path), state) && to.is(Some(newpath), newstate)
                                && #[trigger] call_ensures(
                                P::rename,
                                (&old(self).filesystem(), at, name, to, newname, caller),
                                outcome,
                            ) && Self::rename_concluded(
                                old(self).tree(old(cx)@),
                                parent,
                                name@,
                                newparent,
                                newname@,
                                outcome,
                                final(self).tree(final(cx)@),
                                reply,
                            )
                    },
                    _ => {
                        &&& reply == Err::<(), Errno>(Errno(crate::errno::ENOENT))
                        &&& old(self).settled(*final(self))
                        &&& final(cx)@ == old(cx)@
                    },
                }
            },
    {
        self.pending = None;
        if flags != 0 {
            return Err(Errno::eopnotsupp());
        }
        if !cx.contains(parent) || !cx.contains(newparent) {
            return Err(Errno::enoent());
        }
        let outcome: Result<(), Errno> = match self.locate(cx, parent) {
            Ok((node, path)) => match self.locate(cx, newparent) {
                Ok((newnode, newpath)) => {
                    let at = Self::placed_ref(&path, node);
                    let to = Self::placed_ref(&newpath, newnode);
                    let outcome: Result<(), Errno> = self.inner.rename(
                        at,
                        name,
                        to,
                        newname,
                        caller,
                    );
                    assert(call_ensures(
                        P::rename,
                        (&old(self).filesystem(), at, name, to, newname, caller),
                        outcome,
                    ));
                    outcome
                },
                Err(e) => {
                    return Err(e);
                },
            },
            Err(e) => {
                return Err(e);
            },
        };
        self.conclude_rename(cx, parent, name, newparent, newname, outcome)
    }

    /// Creates a hard link to a node.
    pub fn link(
        &mut self,
        cx: &mut Cx<PathNode<P::NodeState>>,
        id: NodeId,
        newparent: NodeId,
        newname: &[u8],
        caller: &Caller,
    ) -> (reply: Result<NodeId, Errno>)
        requires
            old(self).wf(),
            old(cx)@.inv(),
            old(self).can_place_both(old(cx)@, id@, newparent@),
            old(cx)@.nodes.contains_key(id@) ==> old(cx)@.nodes[id@].links < u64::MAX,
        ensures
            final(self).wf(),
            final(cx)@.inv(),
            match (old(self).place(old(cx)@, id@), old(self).place(old(cx)@, newparent@)) {
                (Some((path, state)), Some((newpath, newstate))) => {
                    &&& final(self).filesystem() == old(self).filesystem()
                    &&& final(self).pending() is None
                    &&& exists|
                        at: PathNodeRef<'_, P::NodeState>,
                        to: PathNodeRef<'_, P::NodeState>,
                        outcome: Result<NodeAttr, Errno>,
                    |
                        at.is(Some(path), state) && to.is(Some(newpath), newstate)
                            && #[trigger] call_ensures(
                            P::link,
                            (&old(self).filesystem(), at, to, newname, caller),
                            outcome,
                        ) && Self::link_concluded(
                            old(self).tree(old(cx)@),
                            id,
                            newparent,
                            newname@,
                            outcome,
                            final(self).tree(final(cx)@),
                            reply,
                        )
                },
                _ => {
                    &&& reply == Err::<NodeId, Errno>(Errno(crate::errno::ENOENT))
                    &&& old(self).settled(*final(self))
                    &&& final(cx)@ == old(cx)@
                },
            },
    {
        self.pending = None;
        if !cx.contains(id) || !cx.contains(newparent) {
            return Err(Errno::enoent());
        }
        let outcome: Result<NodeAttr, Errno> = match self.locate(cx, id) {
            Ok((node, path)) => match self.locate(cx, newparent) {
                Ok((newnode, newpath)) => {
                    let at = Self::placed_ref(&path, node);
                    let to = Self::placed_ref(&newpath, newnode);
                    let outcome: Result<NodeAttr, Errno> = self.inner.link(at, to, newname, caller);
                    assert(call_ensures(
                        P::link,
                        (&old(self).filesystem(), at, to, newname, caller),
                        outcome,
                    ));
                    outcome
                },
                Err(e) => {
                    return Err(e);
                },
            },
            Err(e) => {
                return Err(e);
            },
        };
        self.conclude_link(cx, id, newparent, newname, outcome)
    }

    /// The path that a live node's payload is answered with is the path of the node.
    pub proof fn law_payload_gives_the_nodes_path(
        self,
        nodes: CxView<PathNode<P::NodeState>>,
        id: u64,
    )
        requires
            self.tree(nodes).coherent(),
            nodes.nodes.contains_key(id),
        ensures
            self.path_of(nodes.nodes[id].payload) == self.names().path(id),
            self.can_path(nodes.nodes[id].payload) == self.names().resolves(id),
    {
        assert(self.tree(nodes).nodes.nodes.contains_key(id));
    }

    /// What a listing makes of the filesystem's outcome: the tree that the listing grew, or,
    /// when it failed, that tree with all discoveries taken back.
    pub open spec fn listing_concluded<O>(
        outcome: (ListingSink<P::NodeState, O>, Result<(), Errno>),
        after: Tree<P::NodeState>,
        reply: (O, Result<(), Errno>),
    ) -> bool {
        let p = outcome.0.progress();
        &&& reply.0 == outcome.0.target()
        &&& reply.1 == crate::discovery::listing_reply(p.error, outcome.1)
        &&& after == (if reply.1 is Err {
            crate::discovery::rolled_back(p.tree, p.inserted)
        } else {
            p.tree
        })
    }

    proof fn lemma_same_content_coherent(a: Tree<P::NodeState>, b: Tree<P::NodeState>)
        requires
            crate::discovery::same_content(a, b),
            b.names.keys.submap_of(a.names.keys),
            b.coherent(),
        ensures
            a.coherent(),
    {
        assert forall|id: u64| #[trigger] a.nodes.nodes.contains_key(id) implies a.names.holder(
            a.nodes.nodes[id].payload.key(),
        ) == Some(id) by {
            assert(b.nodes.nodes.contains_key(id));
            assert(b.names.keys.dom().contains(b.nodes.nodes[id].payload.key()));
        }
    }

    /// Lists a directory into `sink`, and hands the sink back. Each entry that the filesystem
    /// offers goes on to the sink as it is, with its node. New children are discovered as
    /// the sink takes them; a listing that fails leaves the names and the live nodes as they
    /// were.
    pub fn readdir<O: DirSink>(
        &mut self,
        cx: &mut Cx<PathNode<P::NodeState>>,
        node: &PathNode<P::NodeState>,
        this: NodeId,
        parent: NodeId,
        handle: &P::DirHandle,
        offset: u64,
        sink: O,
        caller: &Caller,
    ) -> (reply: (O, Result<(), Errno>))
        requires
            old(self).wf(),
            old(cx)@.inv(),
            old(self).can_path(*node),
        ensures
            final(self).wf(),
            final(cx)@.inv(),
            final(self).filesystem() == old(self).filesystem(),
            final(self).pending() is None,
            match old(self).path_of(*node) {
                Some(path) => {
                    let before = old(self).tree(old(cx)@);
                    let after = final(self).tree(final(cx)@);
                    &&& exists|
                        at: PathNodeRef<'_, P::NodeState>,
                        start: ListingSink<P::NodeState, O>,
                        outcome: (ListingSink<P::NodeState, O>, Result<(), Errno>),
                    |
                        at.is(Some(path), node.state()) && start.is_start(
                            before,
                            this,
                            parent,
                            sink,
                        ) && #[trigger] call_ensures(
                            P::readdir::<ListingSink<P::NodeState, O>>,
                            (&old(self).filesystem(), at, handle, offset, start, caller),
                            outcome,
                        ) && crate::path_fs::offered::<P::NodeState, _>(start, outcome.0)
                            && Self::listing_concluded(outcome, after, reply) && exists|
                            states: Seq<ListingSink<P::NodeState, O>>,
                            offers: Seq<crate::path_fs::Offer<P::NodeState>>,
                            ids: Seq<Option<NodeId>>,
                            outputs: Seq<O>,
                        |
                            #[trigger] crate::path_fs::listing(
                                start,
                                states,
                                offers,
                                outcome.0,
                            ) && #[trigger] crate::discovery::passed_on(
                                this,
                                parent,
                                outcome.0.progress().tree.names.names,
                                offers,
                                ids,
                                sink,
                                outputs,
                                reply.0,
                            ) && outcome.0.progress().error == (if ids.contains(None) {
                                Some(Errno(crate::errno::EOVERFLOW))
                            } else {
                                None
                            })
                    &&& before.coherent() ==> after.coherent()
                    &&& before.coherent() && reply.1 is Err ==> crate::discovery::same_content(
                        after,
                        before,
                    )
                    &&& before.coherent() ==> before.names.names.submap_of(after.names.names)
                        && before.names.aliases.submap_of(after.names.aliases)
                        && before.nodes.nodes.submap_of(after.nodes.nodes)
                    &&& before.coherent() ==> forall|d: DentryView| #[trigger]
                        after.names.names.contains_key(d) && !before.names.names.contains_key(d)
                            ==> d.parent == this@
                },
                None => {
                    &&& reply.0 == sink
                    &&& reply.1 == Err::<(), Errno>(Errno(crate::errno::ENOENT))
                    &&& final(self).names() == old(self).names()
                    &&& final(cx)@ == old(cx)@
                },
            },
    {
        self.pending = None;
        let path: Vec<u8> = match self.node_path(node) {
            Some(path) => path,
            None => {
                return (sink, Err(Errno::enoent()));
            },
        };
        let ghost before = old(self).tree(old(cx)@);
        proof {
            self.lemma_names_agree();
        }
        let mut namespace: Namespace = Namespace::new();
        std::mem::swap(&mut namespace, &mut self.namespace);
        let mut nodes: Cx<PathNode<P::NodeState>> = Cx::vacant();
        std::mem::swap(&mut nodes, cx);
        let start = ListingSink::start(Discovery::begin(namespace, nodes), this, parent, sink);
        let at = Self::placed_ref(&path, node);
        let outcome = self.inner.readdir(at, handle, offset, start, caller);
        assert(call_ensures(
            P::readdir::<ListingSink<P::NodeState, O>>,
            (&old(self).filesystem(), at, handle, offset, start, caller),
            outcome,
        ));
        let (listed, result) = outcome;
        let (discovery, sink, reply) = listed.finish(result);
        let (namespace, nodes) = discovery.end();
        self.namespace = namespace;
        *cx = nodes;
        proof {
            let after = self.tree(cx@);
            assert(Self::listing_concluded(outcome, after, (sink, reply)));
            let (states, offers) = choose|
                states: Seq<ListingSink<P::NodeState, O>>,
                offers: Seq<crate::path_fs::Offer<P::NodeState>>,
            | #[trigger] crate::path_fs::listing(start, states, offers, outcome.0);
            crate::discovery::law_offers_are_passed_on(start, states, offers, outcome.0);
            if before.coherent() {
                crate::discovery::law_listing_can_be_taken_back(
                    start,
                    states,
                    offers,
                    outcome.0,
                );
                if reply is Err {
                    let p = outcome.0.progress();
                    crate::discovery::lemma_rolled_back_keys(p.tree, p.inserted);
                    Self::lemma_same_content_coherent(after, before);
                }
            }
        }
        (sink, reply)
    }

    /// Lists a directory with attributes into `sink`, and hands the sink back.
    pub fn readdirplus<O: PlusDirSink>(
        &mut self,
        cx: &mut Cx<PathNode<P::NodeState>>,
        node: &PathNode<P::NodeState>,
        this: NodeId,
        parent: NodeId,
        handle: &P::DirHandle,
        offset: u64,
        sink: O,
        caller: &Caller,
    ) -> (reply: (O, Result<(), Errno>))
        requires
            old(self).wf(),
            old(cx)@.inv(),
            old(self).can_path(*node),
        ensures
            final(self).wf(),
            final(cx)@.inv(),
            final(self).filesystem() == old(self).filesystem(),
            final(self).pending() is None,
            match old(self).path_of(*node) {
                Some(path) => {
                    let before = old(self).tree(old(cx)@);
                    let after = final(self).tree(final(cx)@);
                    &&& exists|
                        at: PathNodeRef<'_, P::NodeState>,
                        start: ListingSink<P::NodeState, O>,
                        outcome: (ListingSink<P::NodeState, O>, Result<(), Errno>),
                    |
                        at.is(Some(path), node.state()) && start.is_start(
                            before,
                            this,
                            parent,
                            sink,
                        ) && #[trigger] call_ensures(
                            P::readdirplus::<ListingSink<P::NodeState, O>>,
                            (&old(self).filesystem(), at, handle, offset, start, caller),
                            outcome,
                        ) && crate::path_fs::plus_offered::<P::NodeState, _>(start, outcome.0)
                            && Self::listing_concluded(outcome, after, reply) && exists|
                            states: Seq<ListingSink<P::NodeState, O>>,
                            offers: Seq<crate::path_fs::PlusOffer<P::NodeState>>,
                            ids: Seq<Option<NodeId>>,
                            outputs: Seq<O>,
                        |
                            #[trigger] crate::path_fs::plus_listing(
                                start,
                                states,
                                offers,
                                outcome.0,
                            ) && #[trigger] crate::discovery::plus_passed_on(
                                this,
                                parent,
                                outcome.0.progress().tree.names.names,
                                offers,
                                ids,
                                sink,
                                outputs,
                                reply.0,
                            ) && outcome.0.progress().error == (if ids.contains(None) {
                                Some(Errno(crate::errno::EOVERFLOW))
                            } else {
                                None
                            })
                    &&& before.coherent() ==> after.coherent()
                    &&& before.coherent() && reply.1 is Err ==> crate::discovery::same_content(
                        after,
                        before,
                    )
                    &&& before.coherent() ==> before.names.names.submap_of(after.names.names)
                        && before.names.aliases.submap_of(after.names.aliases)
                        && before.nodes.nodes.submap_of(after.nodes.nodes)
                    &&& before.coherent() ==> forall|d: DentryView| #[trigger]
                        after.names.names.contains_key(d) && !before.names.names.contains_key(d)
                            ==> d.parent == this@
                },
                None => {
                    &&& reply.0 == sink
                    &&& reply.1 == Err::<(), Errno>(Errno(crate::errno::ENOENT))
                    &&& final(self).names() == old(self).names()
                    &&& final(cx)@ == old(cx)@
                },
            },
    {
        self.pending = None;
        let path: Vec<u8> = match self.node_path(node) {
            Some(path) => path,
            None => {
                return (sink, Err(Errno::enoent()));
            },
        };
        let ghost before = old(self).tree(old(cx)@);
        proof {
            self.lemma_names_agree();
        }
        let mut namespace: Namespace = Namespace::new();
        std::mem::swap(&mut namespace, &mut self.namespace);
        let mut nodes: Cx<PathNode<P::NodeState>> = Cx::vacant();
        std::mem::swap(&mut nodes, cx);
        let start = ListingSink::start(Discovery::begin(namespace, nodes), this, parent, sink);
        let at = Self::placed_ref(&path, node);
        let outcome = self.inner.readdirplus(at, handle, offset, start, caller);
        assert(call_ensures(
            P::readdirplus::<ListingSink<P::NodeState, O>>,
            (&old(self).filesystem(), at, handle, offset, start, caller),
            outcome,
        ));
        let (listed, result) = outcome;
        let (discovery, sink, reply) = listed.finish(result);
        let (namespace, nodes) = discovery.end();
        self.namespace = namespace;
        *cx = nodes;
        proof {
            let after = self.tree(cx@);
            assert(Self::listing_concluded(outcome, after, (sink, reply)));
            let (states, offers) = choose|
                states: Seq<ListingSink<P::NodeState, O>>,
                offers: Seq<crate::path_fs::PlusOffer<P::NodeState>>,
            | #[trigger] crate::path_fs::plus_listing(start, states, offers, outcome.0);
            crate::discovery::law_plus_offers_are_passed_on(start, states, offers, outcome.0);
            if before.coherent() {
                crate::discovery::law_plus_listing_can_be_taken_back(
                    start,
                    states,
                    offers,
                    outcome.0,
                );
                if reply is Err {
                    let p = outcome.0.progress();
                    crate::discovery::lemma_rolled_back_keys(p.tree, p.inserted);
                    Self::lemma_same_content_coherent(after, before);
                }
            }
        }
        (sink, reply)
    }
}

} // verus!
