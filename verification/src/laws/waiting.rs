//! Attributes wait for one entry reply, and only for that of the callback just before it.

use vstd::prelude::*;

use crate::cx::Cx;
use crate::errno::Errno;
use crate::node_fs::{Caller, DirSink, Opened, PlusDirSink};
use crate::node_id::NodeId;
use crate::path_fs::PathFilesystem;
use crate::path_node_fs::PathNodeFs;
use crate::tree::PathNode;

verus! {

/// For a new adapter no attributes wait.
pub proof fn law_no_attributes_wait_at_first<P: PathFilesystem>(
    inner: P,
    fs: PathNodeFs<P>,
    node: &PathNode<P::NodeState>,
    waiting: bool,
)
    requires
        call_ensures(PathNodeFs::<P>::new, (inner,), fs),
        call_ensures(PathNodeFs::<P>::has_entry_attr, (&fs, node), waiting),
    ensures
        !waiting,
{
}

/// After a `unlink` no attributes wait, whatever waited before.
pub proof fn law_no_attributes_wait_after_unlink<P: PathFilesystem>(
    args: (&mut PathNodeFs<P>, &mut Cx<PathNode<P::NodeState>>, NodeId, &[u8], &Caller),
    reply: Result<(), Errno>,
    node: &PathNode<P::NodeState>,
    waiting: bool,
)
    requires
        call_ensures(PathNodeFs::<P>::unlink, args, reply),
        call_ensures(PathNodeFs::<P>::has_entry_attr, (&*final(args.0), node), waiting),
    ensures
        !waiting,
{
}

/// After a `rmdir` no attributes wait, whatever waited before.
pub proof fn law_no_attributes_wait_after_rmdir<P: PathFilesystem>(
    args: (&mut PathNodeFs<P>, &mut Cx<PathNode<P::NodeState>>, NodeId, &[u8], &Caller),
    reply: Result<(), Errno>,
    node: &PathNode<P::NodeState>,
    waiting: bool,
)
    requires
        call_ensures(PathNodeFs::<P>::rmdir, args, reply),
        call_ensures(PathNodeFs::<P>::has_entry_attr, (&*final(args.0), node), waiting),
    ensures
        !waiting,
{
}

/// After a `rename` no attributes wait, whatever waited before.
pub proof fn law_no_attributes_wait_after_rename<P: PathFilesystem>(
    args: (&mut PathNodeFs<P>, &mut Cx<PathNode<P::NodeState>>, NodeId, &[u8], NodeId, &[u8], u32, &Caller),
    reply: Result<(), Errno>,
    node: &PathNode<P::NodeState>,
    waiting: bool,
)
    requires
        call_ensures(PathNodeFs::<P>::rename, args, reply),
        call_ensures(PathNodeFs::<P>::has_entry_attr, (&*final(args.0), node), waiting),
    ensures
        !waiting,
{
}

/// After a `link` no attributes wait, whatever waited before.
pub proof fn law_no_attributes_wait_after_link<P: PathFilesystem>(
    args: (&mut PathNodeFs<P>, &mut Cx<PathNode<P::NodeState>>, NodeId, NodeId, &[u8], &Caller),
    reply: Result<NodeId, Errno>,
    node: &PathNode<P::NodeState>,
    waiting: bool,
)
    requires
        call_ensures(PathNodeFs::<P>::link, args, reply),
        call_ensures(PathNodeFs::<P>::has_entry_attr, (&*final(args.0), node), waiting),
    ensures
        !waiting,
{
}

/// After a `lookup` that finds nothing no attributes wait, whatever waited before.
pub proof fn law_no_attributes_wait_after_lookup<P: PathFilesystem>(
    args: (&mut PathNodeFs<P>, &mut Cx<PathNode<P::NodeState>>, NodeId, &[u8], &Caller),
    reply: Result<Option<NodeId>, Errno>,
    node: &PathNode<P::NodeState>,
    waiting: bool,
)
    requires
        call_ensures(PathNodeFs::<P>::lookup, args, reply),
        !(reply matches Ok(Some(_))),
        call_ensures(PathNodeFs::<P>::has_entry_attr, (&*final(args.0), node), waiting),
    ensures
        !waiting,
{
}

/// After a `mknod` that fails no attributes wait, whatever waited before.
pub proof fn law_no_attributes_wait_after_mknod<P: PathFilesystem>(
    args: (&mut PathNodeFs<P>, &mut Cx<PathNode<P::NodeState>>, NodeId, &[u8], u32, u32, u32, &Caller),
    reply: Result<NodeId, Errno>,
    node: &PathNode<P::NodeState>,
    waiting: bool,
)
    requires
        call_ensures(PathNodeFs::<P>::mknod, args, reply),
        reply is Err,
        call_ensures(PathNodeFs::<P>::has_entry_attr, (&*final(args.0), node), waiting),
    ensures
        !waiting,
{
}

/// After a `mkdir` that fails no attributes wait, whatever waited before.
pub proof fn law_no_attributes_wait_after_mkdir<P: PathFilesystem>(
    args: (&mut PathNodeFs<P>, &mut Cx<PathNode<P::NodeState>>, NodeId, &[u8], u32, u32, &Caller),
    reply: Result<NodeId, Errno>,
    node: &PathNode<P::NodeState>,
    waiting: bool,
)
    requires
        call_ensures(PathNodeFs::<P>::mkdir, args, reply),
        reply is Err,
        call_ensures(PathNodeFs::<P>::has_entry_attr, (&*final(args.0), node), waiting),
    ensures
        !waiting,
{
}

/// After a `symlink` that fails no attributes wait, whatever waited before.
pub proof fn law_no_attributes_wait_after_symlink<P: PathFilesystem>(
    args: (&mut PathNodeFs<P>, &mut Cx<PathNode<P::NodeState>>, NodeId, &[u8], &[u8], &Caller),
    reply: Result<NodeId, Errno>,
    node: &PathNode<P::NodeState>,
    waiting: bool,
)
    requires
        call_ensures(PathNodeFs::<P>::symlink, args, reply),
        reply is Err,
        call_ensures(PathNodeFs::<P>::has_entry_attr, (&*final(args.0), node), waiting),
    ensures
        !waiting,
{
}

/// After a `create` that fails no attributes wait, whatever waited before.
pub proof fn law_no_attributes_wait_after_create<P: PathFilesystem>(
    args: (&mut PathNodeFs<P>, &mut Cx<PathNode<P::NodeState>>, NodeId, &[u8], u32, u32, i32, &Caller),
    reply: Result<(NodeId, Opened<P::Handle>), Errno>,
    node: &PathNode<P::NodeState>,
    waiting: bool,
)
    requires
        call_ensures(PathNodeFs::<P>::create, args, reply),
        reply is Err,
        call_ensures(PathNodeFs::<P>::has_entry_attr, (&*final(args.0), node), waiting),
    ensures
        !waiting,
{
}

/// After a `readdir` no attributes wait, whatever waited before.
pub proof fn law_no_attributes_wait_after_readdir<P: PathFilesystem, O: DirSink>(
    args: (
        &mut PathNodeFs<P>,
        &mut Cx<PathNode<P::NodeState>>,
        &PathNode<P::NodeState>,
        NodeId,
        NodeId,
        &P::DirHandle,
        u64,
        O,
        &Caller,
    ),
    reply: (O, Result<(), Errno>),
    node: &PathNode<P::NodeState>,
    waiting: bool,
)
    requires
        call_ensures(PathNodeFs::<P>::readdir::<O>, args, reply),
        call_ensures(PathNodeFs::<P>::has_entry_attr, (&*final(args.0), node), waiting),
    ensures
        !waiting,
{
}

/// After a `readdirplus` no attributes wait, whatever waited before.
pub proof fn law_no_attributes_wait_after_readdirplus<P: PathFilesystem, O: PlusDirSink>(
    args: (
        &mut PathNodeFs<P>,
        &mut Cx<PathNode<P::NodeState>>,
        &PathNode<P::NodeState>,
        NodeId,
        NodeId,
        &P::DirHandle,
        u64,
        O,
        &Caller,
    ),
    reply: (O, Result<(), Errno>),
    node: &PathNode<P::NodeState>,
    waiting: bool,
)
    requires
        call_ensures(PathNodeFs::<P>::readdirplus::<O>, args, reply),
        call_ensures(PathNodeFs::<P>::has_entry_attr, (&*final(args.0), node), waiting),
    ensures
        !waiting,
{
}

} // verus!
