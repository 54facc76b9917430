//! Callbacks on one node: the filesystem is asked about the path and the state that the node
//! has now, with the same arguments, and its answer is passed on.

use vstd::prelude::*;

use std::borrow::Cow;

use crate::attr::{NodeAttr, SetAttr, StatFs};
use crate::cx::Cx;
use crate::errno::Errno;
use crate::node_fs::{Caller, ConnInfo, FileLock, Opened, XattrReply};
use crate::node_id::NodeId;
use crate::path_fs::{PathFilesystem, PathNodeRef};
use crate::path_node_fs::PathNodeFs;
use crate::tree::PathNode;

verus! {

/// `forget` asks the filesystem about the node's current path, if it has one, and its state,
/// with the same arguments, and passes the answer on.
pub proof fn law_forget_is_passed_on<P: PathFilesystem>(
    fs: &PathNodeFs<P>,
    cx: &Cx<PathNode<P::NodeState>>,
    id: NodeId,
    node: &PathNode<P::NodeState>,
    reply: (),
)
    requires
        fs.tree(cx@).coherent(),
        call_ensures(Cx::<PathNode<P::NodeState>>::get, (cx, id), Some(node)),
        call_ensures(PathNodeFs::<P>::forget, (fs, node), reply),
    ensures
        exists|at: PathNodeRef<'_, P::NodeState>|
            at.path_view() == fs.names().path(id@) && at.state_view() == node.state()
                && #[trigger] call_ensures(P::forget, (&fs.filesystem(), at), reply),
{
    fs.law_payload_gives_the_nodes_path(cx@, id@);
}

/// `getattr` asks the filesystem about the node's current path, if it has one, and its state,
/// with the same arguments, and passes the answer on.
pub proof fn law_getattr_is_passed_on<P: PathFilesystem>(
    fs: &PathNodeFs<P>,
    cx: &Cx<PathNode<P::NodeState>>,
    id: NodeId,
    node: &PathNode<P::NodeState>,
    handle: Option<&P::Handle>,
    caller: &Caller,
    reply: Result<NodeAttr, Errno>,
)
    requires
        fs.tree(cx@).coherent(),
        call_ensures(Cx::<PathNode<P::NodeState>>::get, (cx, id), Some(node)),
        call_ensures(PathNodeFs::<P>::getattr, (fs, node, handle, caller), reply),
    ensures
        exists|at: PathNodeRef<'_, P::NodeState>|
            at.path_view() == fs.names().path(id@) && at.state_view() == node.state()
                && #[trigger] call_ensures(
                P::getattr,
                (&fs.filesystem(), at, handle, caller),
                reply,
            ),
{
    fs.law_payload_gives_the_nodes_path(cx@, id@);
}

/// `setattr` asks the filesystem about the node's current path, if it has one, and its state,
/// with the same arguments, and passes the answer on.
pub proof fn law_setattr_is_passed_on<P: PathFilesystem>(
    fs: &PathNodeFs<P>,
    cx: &Cx<PathNode<P::NodeState>>,
    id: NodeId,
    node: &PathNode<P::NodeState>,
    handle: Option<&P::Handle>,
    set: &SetAttr,
    caller: &Caller,
    reply: Result<NodeAttr, Errno>,
)
    requires
        fs.tree(cx@).coherent(),
        call_ensures(Cx::<PathNode<P::NodeState>>::get, (cx, id), Some(node)),
        call_ensures(PathNodeFs::<P>::setattr, (fs, node, handle, set, caller), reply),
    ensures
        exists|at: PathNodeRef<'_, P::NodeState>|
            at.path_view() == fs.names().path(id@) && at.state_view() == node.state()
                && #[trigger] call_ensures(
                P::setattr,
                (&fs.filesystem(), at, handle, set, caller),
                reply,
            ),
{
    fs.law_payload_gives_the_nodes_path(cx@, id@);
}

/// `readlink` asks the filesystem about the node's current path and its state, with the same
/// arguments, and passes the answer on. Of a node without a path it says `ENOENT`.
pub proof fn law_readlink_is_passed_on<P: PathFilesystem>(
    fs: &PathNodeFs<P>,
    cx: &Cx<PathNode<P::NodeState>>,
    id: NodeId,
    node: &PathNode<P::NodeState>,
    caller: &Caller,
    reply: Result<Vec<u8>, Errno>,
)
    requires
        fs.tree(cx@).coherent(),
        call_ensures(Cx::<PathNode<P::NodeState>>::get, (cx, id), Some(node)),
        call_ensures(PathNodeFs::<P>::readlink, (fs, node, caller), reply),
    ensures
        fs.names().path(id@) is None ==> reply == Err::<Vec<u8>, Errno>(Errno(2)),
        fs.names().path(id@) is Some ==> exists|at: PathNodeRef<'_, P::NodeState>|
            at.path_view() == fs.names().path(id@) && at.state_view() == node.state()
                && #[trigger] call_ensures(P::readlink, (&fs.filesystem(), at, caller), reply),
{
    fs.law_payload_gives_the_nodes_path(cx@, id@);
}

/// `open` asks the filesystem about the node's current path and its state, with the same
/// arguments, and passes the answer on. Of a node without a path it says `ENOENT`.
pub proof fn law_open_is_passed_on<P: PathFilesystem>(
    fs: &PathNodeFs<P>,
    cx: &Cx<PathNode<P::NodeState>>,
    id: NodeId,
    node: &PathNode<P::NodeState>,
    flags: i32,
    caller: &Caller,
    reply: Result<Opened<P::Handle>, Errno>,
)
    requires
        fs.tree(cx@).coherent(),
        call_ensures(Cx::<PathNode<P::NodeState>>::get, (cx, id), Some(node)),
        call_ensures(PathNodeFs::<P>::open, (fs, node, flags, caller), reply),
    ensures
        fs.names().path(id@) is None ==> reply == Err::<Opened<P::Handle>, Errno>(Errno(2)),
        fs.names().path(id@) is Some ==> exists|at: PathNodeRef<'_, P::NodeState>|
            at.path_view() == fs.names().path(id@) && at.state_view() == node.state()
                && #[trigger] call_ensures(P::open, (&fs.filesystem(), at, flags, caller), reply),
{
    fs.law_payload_gives_the_nodes_path(cx@, id@);
}

/// `read` asks the filesystem about the node's current path, if it has one, and its state,
/// with the same arguments, and passes the answer on.
pub proof fn law_read_is_passed_on<'a, P: PathFilesystem>(
    fs: &'a PathNodeFs<P>,
    cx: &Cx<PathNode<P::NodeState>>,
    id: NodeId,
    node: &PathNode<P::NodeState>,
    handle: &'a P::Handle,
    offset: u64,
    size: usize,
    caller: &Caller,
    reply: Result<Cow<'a, [u8]>, Errno>,
)
    requires
        fs.tree(cx@).coherent(),
        call_ensures(Cx::<PathNode<P::NodeState>>::get, (cx, id), Some(node)),
        call_ensures(PathNodeFs::<P>::read, (fs, node, handle, offset, size, caller), reply),
    ensures
        exists|at: PathNodeRef<'_, P::NodeState>|
            at.path_view() == fs.names().path(id@) && at.state_view() == node.state()
                && #[trigger] call_ensures(
                P::read,
                (&fs.filesystem(), at, handle, offset, size, caller),
                reply,
            ),
{
    fs.law_payload_gives_the_nodes_path(cx@, id@);
}

/// `write` asks the filesystem about the node's current path, if it has one, and its state,
/// with the same arguments, and passes the answer on.
pub proof fn law_write_is_passed_on<P: PathFilesystem>(
    fs: &PathNodeFs<P>,
    cx: &Cx<PathNode<P::NodeState>>,
    id: NodeId,
    node: &PathNode<P::NodeState>,
    handle: &P::Handle,
    data: &[u8],
    offset: u64,
    caller: &Caller,
    reply: Result<usize, Errno>,
)
    requires
        fs.tree(cx@).coherent(),
        call_ensures(Cx::<PathNode<P::NodeState>>::get, (cx, id), Some(node)),
        call_ensures(PathNodeFs::<P>::write, (fs, node, handle, data, offset, caller), reply),
    ensures
        exists|at: PathNodeRef<'_, P::NodeState>|
            at.path_view() == fs.names().path(id@) && at.state_view() == node.state()
                && #[trigger] call_ensures(
                P::write,
                (&fs.filesystem(), at, handle, data, offset, caller),
                reply,
            ),
{
    fs.law_payload_gives_the_nodes_path(cx@, id@);
}

/// `flush` asks the filesystem about the node's current path, if it has one, and its state,
/// with the same arguments, and passes the answer on.
pub proof fn law_flush_is_passed_on<P: PathFilesystem>(
    fs: &PathNodeFs<P>,
    cx: &Cx<PathNode<P::NodeState>>,
    id: NodeId,
    node: &PathNode<P::NodeState>,
    handle: &P::Handle,
    caller: &Caller,
    reply: Result<(), Errno>,
)
    requires
        fs.tree(cx@).coherent(),
        call_ensures(Cx::<PathNode<P::NodeState>>::get, (cx, id), Some(node)),
        call_ensures(PathNodeFs::<P>::flush, (fs, node, handle, caller), reply),
    ensures
        exists|at: PathNodeRef<'_, P::NodeState>|
            at.path_view() == fs.names().path(id@) && at.state_view() == node.state()
                && #[trigger] call_ensures(P::flush, (&fs.filesystem(), at, handle, caller), reply),
{
    fs.law_payload_gives_the_nodes_path(cx@, id@);
}

/// `release` asks the filesystem about the node's current path, if it has one, and its state,
/// with the same arguments, and passes the answer on.
pub proof fn law_release_is_passed_on<P: PathFilesystem>(
    fs: &PathNodeFs<P>,
    cx: &Cx<PathNode<P::NodeState>>,
    id: NodeId,
    node: &PathNode<P::NodeState>,
    handle: P::Handle,
    caller: &Caller,
    reply: Result<(), Errno>,
)
    requires
        fs.tree(cx@).coherent(),
        call_ensures(Cx::<PathNode<P::NodeState>>::get, (cx, id), Some(node)),
        call_ensures(PathNodeFs::<P>::release, (fs, node, handle, caller), reply),
    ensures
        exists|at: PathNodeRef<'_, P::NodeState>|
            at.path_view() == fs.names().path(id@) && at.state_view() == node.state()
                && #[trigger] call_ensures(
                P::release,
                (&fs.filesystem(), at, handle, caller),
                reply,
            ),
{
    fs.law_payload_gives_the_nodes_path(cx@, id@);
}

/// `fsync` asks the filesystem about the node's current path, if it has one, and its state,
/// with the same arguments, and passes the answer on.
pub proof fn law_fsync_is_passed_on<P: PathFilesystem>(
    fs: &PathNodeFs<P>,
    cx: &Cx<PathNode<P::NodeState>>,
    id: NodeId,
    node: &PathNode<P::NodeState>,
    handle: &P::Handle,
    datasync: bool,
    caller: &Caller,
    reply: Result<(), Errno>,
)
    requires
        fs.tree(cx@).coherent(),
        call_ensures(Cx::<PathNode<P::NodeState>>::get, (cx, id), Some(node)),
        call_ensures(PathNodeFs::<P>::fsync, (fs, node, handle, datasync, caller), reply),
    ensures
        exists|at: PathNodeRef<'_, P::NodeState>|
            at.path_view() == fs.names().path(id@) && at.state_view() == node.state()
                && #[trigger] call_ensures(
                P::fsync,
                (&fs.filesystem(), at, handle, datasync, caller),
                reply,
            ),
{
    fs.law_payload_gives_the_nodes_path(cx@, id@);
}

/// `opendir` asks the filesystem about the node's current path and its state, with the same
/// arguments, and passes the answer on. Of a node without a path it says `ENOENT`.
pub proof fn law_opendir_is_passed_on<P: PathFilesystem>(
    fs: &PathNodeFs<P>,
    cx: &Cx<PathNode<P::NodeState>>,
    id: NodeId,
    node: &PathNode<P::NodeState>,
    flags: i32,
    caller: &Caller,
    reply: Result<Opened<P::DirHandle>, Errno>,
)
    requires
        fs.tree(cx@).coherent(),
        call_ensures(Cx::<PathNode<P::NodeState>>::get, (cx, id), Some(node)),
        call_ensures(PathNodeFs::<P>::opendir, (fs, node, flags, caller), reply),
    ensures
        fs.names().path(id@) is None ==> reply == Err::<Opened<P::DirHandle>, Errno>(Errno(2)),
        fs.names().path(id@) is Some ==> exists|at: PathNodeRef<'_, P::NodeState>|
            at.path_view() == fs.names().path(id@) && at.state_view() == node.state()
                && #[trigger] call_ensures(
                P::opendir,
                (&fs.filesystem(), at, flags, caller),
                reply,
            ),
{
    fs.law_payload_gives_the_nodes_path(cx@, id@);
}

/// `releasedir` asks the filesystem about the node's current path, if it has one, and its state,
/// with the same arguments, and passes the answer on.
pub proof fn law_releasedir_is_passed_on<P: PathFilesystem>(
    fs: &PathNodeFs<P>,
    cx: &Cx<PathNode<P::NodeState>>,
    id: NodeId,
    node: &PathNode<P::NodeState>,
    handle: P::DirHandle,
    caller: &Caller,
    reply: Result<(), Errno>,
)
    requires
        fs.tree(cx@).coherent(),
        call_ensures(Cx::<PathNode<P::NodeState>>::get, (cx, id), Some(node)),
        call_ensures(PathNodeFs::<P>::releasedir, (fs, node, handle, caller), reply),
    ensures
        exists|at: PathNodeRef<'_, P::NodeState>|
            at.path_view() == fs.names().path(id@) && at.state_view() == node.state()
                && #[trigger] call_ensures(
                P::releasedir,
                (&fs.filesystem(), at, handle, caller),
                reply,
            ),
{
    fs.law_payload_gives_the_nodes_path(cx@, id@);
}

/// `fsyncdir` asks the filesystem about the node's current path, if it has one, and its state,
/// with the same arguments, and passes the answer on.
pub proof fn law_fsyncdir_is_passed_on<P: PathFilesystem>(
    fs: &PathNodeFs<P>,
    cx: &Cx<PathNode<P::NodeState>>,
    id: NodeId,
    node: &PathNode<P::NodeState>,
    handle: &P::DirHandle,
    datasync: bool,
    caller: &Caller,
    reply: Result<(), Errno>,
)
    requires
        fs.tree(cx@).coherent(),
        call_ensures(Cx::<PathNode<P::NodeState>>::get, (cx, id), Some(node)),
        call_ensures(PathNodeFs::<P>::fsyncdir, (fs, node, handle, datasync, caller), reply),
    ensures
        exists|at: PathNodeRef<'_, P::NodeState>|
            at.path_view() == fs.names().path(id@) && at.state_view() == node.state()
                && #[trigger] call_ensures(
                P::fsyncdir,
                (&fs.filesystem(), at, handle, datasync, caller),
                reply,
            ),
{
    fs.law_payload_gives_the_nodes_path(cx@, id@);
}

/// `setxattr` asks the filesystem about the node's current path and its state, with the same
/// arguments, and passes the answer on. Of a node without a path it says `ENOENT`.
pub proof fn law_setxattr_is_passed_on<P: PathFilesystem>(
    fs: &PathNodeFs<P>,
    cx: &Cx<PathNode<P::NodeState>>,
    id: NodeId,
    node: &PathNode<P::NodeState>,
    name: &[u8],
    value: &[u8],
    flags: i32,
    caller: &Caller,
    reply: Result<(), Errno>,
)
    requires
        fs.tree(cx@).coherent(),
        call_ensures(Cx::<PathNode<P::NodeState>>::get, (cx, id), Some(node)),
        call_ensures(PathNodeFs::<P>::setxattr, (fs, node, name, value, flags, caller), reply),
    ensures
        fs.names().path(id@) is None ==> reply == Err::<(), Errno>(Errno(2)),
        fs.names().path(id@) is Some ==> exists|at: PathNodeRef<'_, P::NodeState>|
            at.path_view() == fs.names().path(id@) && at.state_view() == node.state()
                && #[trigger] call_ensures(
                P::setxattr,
                (&fs.filesystem(), at, name, value, flags, caller),
                reply,
            ),
{
    fs.law_payload_gives_the_nodes_path(cx@, id@);
}

/// `getxattr` asks the filesystem about the node's current path and its state, with the same
/// arguments, and passes the answer on. Of a node without a path it says `ENOENT`.
pub proof fn law_getxattr_is_passed_on<P: PathFilesystem>(
    fs: &PathNodeFs<P>,
    cx: &Cx<PathNode<P::NodeState>>,
    id: NodeId,
    node: &PathNode<P::NodeState>,
    name: &[u8],
    size: usize,
    caller: &Caller,
    reply: Result<XattrReply, Errno>,
)
    requires
        fs.tree(cx@).coherent(),
        call_ensures(Cx::<PathNode<P::NodeState>>::get, (cx, id), Some(node)),
        call_ensures(PathNodeFs::<P>::getxattr, (fs, node, name, size, caller), reply),
    ensures
        fs.names().path(id@) is None ==> reply == Err::<XattrReply, Errno>(Errno(2)),
        fs.names().path(id@) is Some ==> exists|at: PathNodeRef<'_, P::NodeState>|
            at.path_view() == fs.names().path(id@) && at.state_view() == node.state()
                && #[trigger] call_ensures(
                P::getxattr,
                (&fs.filesystem(), at, name, size, caller),
                reply,
            ),
{
    fs.law_payload_gives_the_nodes_path(cx@, id@);
}

/// `listxattr` asks the filesystem about the node's current path and its state, with the same
/// arguments, and passes the answer on. Of a node without a path it says `ENOENT`.
pub proof fn law_listxattr_is_passed_on<P: PathFilesystem>(
    fs: &PathNodeFs<P>,
    cx: &Cx<PathNode<P::NodeState>>,
    id: NodeId,
    node: &PathNode<P::NodeState>,
    size: usize,
    caller: &Caller,
    reply: Result<XattrReply, Errno>,
)
    requires
        fs.tree(cx@).coherent(),
        call_ensures(Cx::<PathNode<P::NodeState>>::get, (cx, id), Some(node)),
        call_ensures(PathNodeFs::<P>::listxattr, (fs, node, size, caller), reply),
    ensures
        fs.names().path(id@) is None ==> reply == Err::<XattrReply, Errno>(Errno(2)),
        fs.names().path(id@) is Some ==> exists|at: PathNodeRef<'_, P::NodeState>|
            at.path_view() == fs.names().path(id@) && at.state_view() == node.state()
                && #[trigger] call_ensures(
                P::listxattr,
                (&fs.filesystem(), at, size, caller),
                reply,
            ),
{
    fs.law_payload_gives_the_nodes_path(cx@, id@);
}

/// `removexattr` asks the filesystem about the node's current path and its state, with the same
/// arguments, and passes the answer on. Of a node without a path it says `ENOENT`.
pub proof fn law_removexattr_is_passed_on<P: PathFilesystem>(
    fs: &PathNodeFs<P>,
    cx: &Cx<PathNode<P::NodeState>>,
    id: NodeId,
    node: &PathNode<P::NodeState>,
    name: &[u8],
    caller: &Caller,
    reply: Result<(), Errno>,
)
    requires
        fs.tree(cx@).coherent(),
        call_ensures(Cx::<PathNode<P::NodeState>>::get, (cx, id), Some(node)),
        call_ensures(PathNodeFs::<P>::removexattr, (fs, node, name, caller), reply),
    ensures
        fs.names().path(id@) is None ==> reply == Err::<(), Errno>(Errno(2)),
        fs.names().path(id@) is Some ==> exists|at: PathNodeRef<'_, P::NodeState>|
            at.path_view() == fs.names().path(id@) && at.state_view() == node.state()
                && #[trigger] call_ensures(
                P::removexattr,
                (&fs.filesystem(), at, name, caller),
                reply,
            ),
{
    fs.law_payload_gives_the_nodes_path(cx@, id@);
}

/// `access` asks the filesystem about the node's current path and its state, with the same
/// arguments, and passes the answer on. Of a node without a path it says `ENOENT`.
pub proof fn law_access_is_passed_on<P: PathFilesystem>(
    fs: &PathNodeFs<P>,
    cx: &Cx<PathNode<P::NodeState>>,
    id: NodeId,
    node: &PathNode<P::NodeState>,
    mask: i32,
    caller: &Caller,
    reply: Result<(), Errno>,
)
    requires
        fs.tree(cx@).coherent(),
        call_ensures(Cx::<PathNode<P::NodeState>>::get, (cx, id), Some(node)),
        call_ensures(PathNodeFs::<P>::access, (fs, node, mask, caller), reply),
    ensures
        fs.names().path(id@) is None ==> reply == Err::<(), Errno>(Errno(2)),
        fs.names().path(id@) is Some ==> exists|at: PathNodeRef<'_, P::NodeState>|
            at.path_view() == fs.names().path(id@) && at.state_view() == node.state()
                && #[trigger] call_ensures(P::access, (&fs.filesystem(), at, mask, caller), reply),
{
    fs.law_payload_gives_the_nodes_path(cx@, id@);
}

/// `fallocate` asks the filesystem about the node's current path, if it has one, and its state,
/// with the same arguments, and passes the answer on.
pub proof fn law_fallocate_is_passed_on<P: PathFilesystem>(
    fs: &PathNodeFs<P>,
    cx: &Cx<PathNode<P::NodeState>>,
    id: NodeId,
    node: &PathNode<P::NodeState>,
    handle: &P::Handle,
    mode: i32,
    offset: u64,
    length: u64,
    caller: &Caller,
    reply: Result<(), Errno>,
)
    requires
        fs.tree(cx@).coherent(),
        call_ensures(Cx::<PathNode<P::NodeState>>::get, (cx, id), Some(node)),
        call_ensures(
            PathNodeFs::<P>::fallocate,
            (fs, node, handle, mode, offset, length, caller),
            reply,
        ),
    ensures
        exists|at: PathNodeRef<'_, P::NodeState>|
            at.path_view() == fs.names().path(id@) && at.state_view() == node.state()
                && #[trigger] call_ensures(
                P::fallocate,
                (&fs.filesystem(), at, handle, mode, offset, length, caller),
                reply,
            ),
{
    fs.law_payload_gives_the_nodes_path(cx@, id@);
}

/// `lseek` asks the filesystem about the node's current path, if it has one, and its state,
/// with the same arguments, and passes the answer on.
pub proof fn law_lseek_is_passed_on<P: PathFilesystem>(
    fs: &PathNodeFs<P>,
    cx: &Cx<PathNode<P::NodeState>>,
    id: NodeId,
    node: &PathNode<P::NodeState>,
    handle: &P::Handle,
    offset: u64,
    whence: i32,
    caller: &Caller,
    reply: Result<u64, Errno>,
)
    requires
        fs.tree(cx@).coherent(),
        call_ensures(Cx::<PathNode<P::NodeState>>::get, (cx, id), Some(node)),
        call_ensures(PathNodeFs::<P>::lseek, (fs, node, handle, offset, whence, caller), reply),
    ensures
        exists|at: PathNodeRef<'_, P::NodeState>|
            at.path_view() == fs.names().path(id@) && at.state_view() == node.state()
                && #[trigger] call_ensures(
                P::lseek,
                (&fs.filesystem(), at, handle, offset, whence, caller),
                reply,
            ),
{
    fs.law_payload_gives_the_nodes_path(cx@, id@);
}

/// `getlk` asks the filesystem about the node's current path, if it has one, and its state,
/// with the same arguments, and passes the answer on.
pub proof fn law_getlk_is_passed_on<P: PathFilesystem>(
    fs: &PathNodeFs<P>,
    cx: &Cx<PathNode<P::NodeState>>,
    id: NodeId,
    node: &PathNode<P::NodeState>,
    handle: &P::Handle,
    owner: u64,
    lock: FileLock,
    caller: &Caller,
    reply: Result<FileLock, Errno>,
)
    requires
        fs.tree(cx@).coherent(),
        call_ensures(Cx::<PathNode<P::NodeState>>::get, (cx, id), Some(node)),
        call_ensures(PathNodeFs::<P>::getlk, (fs, node, handle, owner, lock, caller), reply),
    ensures
        exists|at: PathNodeRef<'_, P::NodeState>|
            at.path_view() == fs.names().path(id@) && at.state_view() == node.state()
                && #[trigger] call_ensures(
                P::getlk,
                (&fs.filesystem(), at, handle, owner, lock, caller),
                reply,
            ),
{
    fs.law_payload_gives_the_nodes_path(cx@, id@);
}

/// `setlk` asks the filesystem about the node's current path, if it has one, and its state,
/// with the same arguments, and passes the answer on.
pub proof fn law_setlk_is_passed_on<P: PathFilesystem>(
    fs: &PathNodeFs<P>,
    cx: &Cx<PathNode<P::NodeState>>,
    id: NodeId,
    node: &PathNode<P::NodeState>,
    handle: &P::Handle,
    owner: u64,
    lock: FileLock,
    sleep: bool,
    caller: &Caller,
    reply: Result<(), Errno>,
)
    requires
        fs.tree(cx@).coherent(),
        call_ensures(Cx::<PathNode<P::NodeState>>::get, (cx, id), Some(node)),
        call_ensures(PathNodeFs::<P>::setlk, (fs, node, handle, owner, lock, sleep, caller), reply),
    ensures
        exists|at: PathNodeRef<'_, P::NodeState>|
            at.path_view() == fs.names().path(id@) && at.state_view() == node.state()
                && #[trigger] call_ensures(
                P::setlk,
                (&fs.filesystem(), at, handle, owner, lock, sleep, caller),
                reply,
            ),
{
    fs.law_payload_gives_the_nodes_path(cx@, id@);
}

/// `flock` asks the filesystem about the node's current path, if it has one, and its state,
/// with the same arguments, and passes the answer on.
pub proof fn law_flock_is_passed_on<P: PathFilesystem>(
    fs: &PathNodeFs<P>,
    cx: &Cx<PathNode<P::NodeState>>,
    id: NodeId,
    node: &PathNode<P::NodeState>,
    handle: &P::Handle,
    operation: i32,
    caller: &Caller,
    reply: Result<(), Errno>,
)
    requires
        fs.tree(cx@).coherent(),
        call_ensures(Cx::<PathNode<P::NodeState>>::get, (cx, id), Some(node)),
        call_ensures(PathNodeFs::<P>::flock, (fs, node, handle, operation, caller), reply),
    ensures
        exists|at: PathNodeRef<'_, P::NodeState>|
            at.path_view() == fs.names().path(id@) && at.state_view() == node.state()
                && #[trigger] call_ensures(
                P::flock,
                (&fs.filesystem(), at, handle, operation, caller),
                reply,
            ),
{
    fs.law_payload_gives_the_nodes_path(cx@, id@);
}

/// `statfs` asks the filesystem about the root's path and passes the answer on.
pub proof fn law_statfs_is_passed_on<P: PathFilesystem>(
    fs: &PathNodeFs<P>,
    caller: &Caller,
    reply: Result<StatFs, Errno>,
)
    requires
        call_ensures(PathNodeFs::<P>::statfs, (fs, caller), reply),
    ensures
        exists|root: &[u8]|
            root@ == seq![47u8] && #[trigger] call_ensures(
                P::statfs,
                (&fs.filesystem(), root, caller),
                reply,
            ),
{
}

/// `init` and `destroy` reach the filesystem, and the connection is what the filesystem makes
/// of it.
pub proof fn law_start_and_end_are_passed_on<P: PathFilesystem>(
    fs: &PathNodeFs<P>,
    args: (&PathNodeFs<P>, &mut ConnInfo),
)
    requires
        args.0 == fs,
        call_ensures(PathNodeFs::<P>::init, args, ()),
        call_ensures(PathNodeFs::<P>::destroy, (fs,), ()),
    ensures
        exists|passed: &mut ConnInfo|
            *passed == *old(args.1) && *final(passed) == *final(args.1) && #[trigger] call_ensures(
                P::init,
                (&fs.filesystem(), passed),
                (),
            ),
        call_ensures(P::destroy, (&fs.filesystem(),), ()),
{
}

/// The root's payload has the state that the filesystem gives for it, and a new adapter over a
/// new table of that payload finds the root by it: with the path `/`.
pub proof fn law_root_payload_leads_to_the_root<P: PathFilesystem>(
    inner: P,
    fs: PathNodeFs<P>,
    args: (&mut PathNodeFs<P>,),
    node: PathNode<P::NodeState>,
    cx: Cx<PathNode<P::NodeState>>,
    root: NodeId,
)
    requires
        call_ensures(PathNodeFs::<P>::new, (inner,), fs),
        *args.0 == fs,
        call_ensures(PathNodeFs::<P>::root, args, node),
        call_ensures(Cx::<PathNode<P::NodeState>>::new, (node,), cx),
        call_ensures(NodeId::root, (), root),
    ensures
        exists|asked: &mut P|
            *asked == inner && *final(asked) == final(args.0).filesystem()
                && #[trigger] call_ensures(P::root_state, (asked,), node.state()),
        final(args.0).tree(cx@).coherent(),
        final(args.0).path_of(node) == Some(seq![47u8]),
        final(args.0).names().names == Map::<crate::dentry::DentryView, u64>::empty(),
{
    let t = final(args.0).tree(cx@);
    crate::tree::law_fresh_tree_is_coherent(t);
    crate::namespace::law_path_of_root_and_nameless(t.names, root@);
}

/// An entry reply for which no attributes wait says what the filesystem says of the node, by
/// its current path and without a handle. Each entry reply uses up what waited.
pub proof fn law_other_entry_replies_ask_the_filesystem<P: PathFilesystem>(
    cx: &Cx<PathNode<P::NodeState>>,
    id: NodeId,
    args: (&mut PathNodeFs<P>, &PathNode<P::NodeState>, &Caller),
    waiting: bool,
    reply: Result<NodeAttr, Errno>,
    still: bool,
)
    requires
        old(args.0).tree(cx@).coherent(),
        call_ensures(Cx::<PathNode<P::NodeState>>::get, (cx, id), Some(args.1)),
        call_ensures(PathNodeFs::<P>::has_entry_attr, (&*old(args.0), args.1), waiting),
        call_ensures(PathNodeFs::<P>::entry_attr, args, reply),
        call_ensures(PathNodeFs::<P>::has_entry_attr, (&*final(args.0), args.1), still),
    ensures
        !waiting ==> exists|at: PathNodeRef<'_, P::NodeState>|
            at.path_view() == old(args.0).names().path(id@) && at.state_view() == args.1.state()
                && #[trigger] call_ensures(
                P::getattr,
                (&old(args.0).filesystem(), at, None::<&P::Handle>, args.2),
                reply,
            ),
        waiting ==> reply is Ok,
        !still,
        final(args.0).names() == old(args.0).names(),
        final(args.0).filesystem() == old(args.0).filesystem(),
{
    old(args.0).law_payload_gives_the_nodes_path(cx@, id@);
    if !waiting {
        assert(old(args.0).asks_getattr(*args.1, None, args.2, reply));
    }
}

/// Whether a node, a payload or two nodes can be asked for their paths is said of the ways up
/// from them, and whether there is room, of the keys that are left.
pub proof fn law_adapter_tells_what_it_can_do<P: PathFilesystem>(
    fs: &PathNodeFs<P>,
    cx: &Cx<PathNode<P::NodeState>>,
    id: NodeId,
    other: NodeId,
    node: &PathNode<P::NodeState>,
    found: (bool, bool, bool, bool),
    room: bool,
)
    requires
        fs.tree(cx@).coherent(),
        call_ensures(Cx::<PathNode<P::NodeState>>::get, (cx, id), Some(node)),
        call_ensures(PathNodeFs::<P>::resolves, (fs, id), found.0),
        call_ensures(PathNodeFs::<P>::resolves, (fs, other), found.1),
        call_ensures(PathNodeFs::<P>::node_resolves, (fs, node), found.2),
        call_ensures(PathNodeFs::<P>::resolves_both, (fs, cx, id, other), found.3),
        call_ensures(PathNodeFs::<P>::has_room, (fs,), room),
    ensures
        found.2 == found.0,
        cx@.nodes.contains_key(other@) ==> found.3 == (found.0 && (fs.names().path(id@) is None
            || found.1)),
        !cx@.nodes.contains_key(other@) ==> found.3,
        found.0 <==> fs.names().resolves(id@),
        room <==> fs.names().next_key < 0xffff_ffff_ffff_ffff,
{
    fs.law_payload_gives_the_nodes_path(cx@, id@);
}

} // verus!
