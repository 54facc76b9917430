//! What a filesystem answers that implements only what it has to.

use vstd::prelude::*;

use std::borrow::Cow;
use std::sync::Arc;

use crate::attr::{NodeAttr, SetAttr, StatFs};
use crate::cx::Cx;
use crate::errno::Errno;
use crate::node_fs::{
    Caller,
    ConnInfo,
    DirSink,
    FileLock,
    NodeFs,
    Opened,
    PlusDirSink,
    XattrReply,
};
use crate::node_id::NodeId;
use crate::path_fs::{PathDirSink, PathEntry, PathFilesystem, PathNodeRef, PathPlusDirSink};

verus! {

/// A filesystem of nodes with nothing of its own but empty listings: whatever else it answers,
/// the interface answers for it.
#[allow(dead_code)]
struct BareNodes;

/// A filesystem of paths with nothing of its own but empty listings.
#[allow(dead_code)]
struct BarePaths;

impl NodeFs for BareNodes {
    type Node = ();

    type Handle = ();

    type DirHandle = ();

    fn root(&mut self) -> (node: ())
        ensures
            *final(self) == *old(self),
    {
    }

    fn getattr(&self, node: &(), handle: Option<&()>, caller: &Caller) -> (reply: Result<
        NodeAttr,
        Errno,
    >)
        ensures
            reply == Err::<NodeAttr, Errno>(Errno(crate::errno::ENOENT)),
    {
        Err(Errno::enoent())
    }

    fn readdir<K: DirSink>(
        &self,
        cx: &mut Cx<()>,
        node: &(),
        this: NodeId,
        parent: NodeId,
        handle: &(),
        offset: u64,
        sink: K,
        caller: &Caller,
    ) -> (K, Result<(), Errno>) {
        (sink, Ok(()))
    }

    fn readdirplus<K: PlusDirSink>(
        &self,
        cx: &mut Cx<()>,
        node: &(),
        this: NodeId,
        parent: NodeId,
        handle: &(),
        offset: u64,
        sink: K,
        caller: &Caller,
    ) -> (K, Result<(), Errno>) {
        (sink, Ok(()))
    }
}

impl PathFilesystem for BarePaths {
    type NodeState = ();

    type Handle = ();

    type DirHandle = ();

    fn root_state(&mut self) -> (state: Arc<()>)
        ensures
            *final(self) == *old(self),
    {
        Arc::new(())
    }

    fn getattr(
        &self,
        node: PathNodeRef<'_, ()>,
        handle: Option<&()>,
        caller: &Caller,
    ) -> (reply: Result<NodeAttr, Errno>)
        ensures
            reply == Err::<NodeAttr, Errno>(Errno(crate::errno::ENOENT)),
    {
        Err(Errno::enoent())
    }

    fn readdir<K: PathDirSink<()>>(
        &self,
        node: PathNodeRef<'_, ()>,
        handle: &(),
        offset: u64,
        sink: K,
        caller: &Caller,
    ) -> (K, Result<(), Errno>) {
        proof {
            crate::path_fs::lemma_no_offers::<(), K>(sink);
        }
        (sink, Ok(()))
    }

    fn readdirplus<K: PathPlusDirSink<()>>(
        &self,
        node: PathNodeRef<'_, ()>,
        handle: &(),
        offset: u64,
        sink: K,
        caller: &Caller,
    ) -> (K, Result<(), Errno>) {
        proof {
            crate::path_fs::lemma_no_plus_offers::<(), K>(sink);
        }
        (sink, Ok(()))
    }
}

/// By default, `populate` of a filesystem of nodes does nothing.
proof fn law_node_populate_by_default(
    args: (&mut BareNodes, &mut Cx<()>),
)
    requires
        call_ensures(<BareNodes as NodeFs>::populate, args, ()),
    ensures
        *final(args.0) == *old(args.0),
        *final(args.1) == *old(args.1),
{
}

/// By default, `init` of a filesystem of nodes does nothing.
proof fn law_node_init_by_default(
    args: (&BareNodes, &mut ConnInfo),
)
    requires
        call_ensures(<BareNodes as NodeFs>::init, args, ()),
    ensures
        *final(args.1) == *old(args.1),
{
}

/// By default, `entry_attr` of a filesystem of nodes asks for the attributes, without a handle.
proof fn law_node_entry_attr_by_default(
    args: (&BareNodes, &(), &Caller),
    reply: Result<NodeAttr, Errno>,
)
    requires
        call_ensures(<BareNodes as NodeFs>::entry_attr, args, reply),
    ensures
        call_ensures(<BareNodes as NodeFs>::getattr, (args.0, args.1, None::<&()>, args.2), reply),
{
}

/// By default, `setattr` of a filesystem of nodes is answered with `ENOSYS`.
proof fn law_node_setattr_by_default(
    args: (&BareNodes, &(), Option<&()>, &SetAttr, &Caller),
    reply: Result<NodeAttr, Errno>,
)
    requires
        call_ensures(<BareNodes as NodeFs>::setattr, args, reply),
    ensures
        reply == Err::<NodeAttr, Errno>(Errno(38)),
{
}

/// By default, `lookup` of a filesystem of nodes is answered with `ENOSYS`, with nothing changed.
proof fn law_node_lookup_by_default(
    args: (&BareNodes, &mut Cx<()>, NodeId, &[u8], &Caller),
    reply: Result<Option<NodeId>, Errno>,
)
    requires
        call_ensures(<BareNodes as NodeFs>::lookup, args, reply),
    ensures
        reply == Err::<Option<NodeId>, Errno>(Errno(38)),
        *final(args.1) == *old(args.1),
{
}

/// By default, `readlink` of a filesystem of nodes is answered with `ENOSYS`.
proof fn law_node_readlink_by_default(
    args: (&BareNodes, &(), &Caller),
    reply: Result<Vec<u8>, Errno>,
)
    requires
        call_ensures(<BareNodes as NodeFs>::readlink, args, reply),
    ensures
        reply == Err::<Vec<u8>, Errno>(Errno(38)),
{
}

/// By default, `mknod` of a filesystem of nodes is answered with `ENOSYS`, with nothing changed.
proof fn law_node_mknod_by_default(
    args: (&BareNodes, &mut Cx<()>, NodeId, &[u8], u32, u32, u32, &Caller),
    reply: Result<NodeId, Errno>,
)
    requires
        call_ensures(<BareNodes as NodeFs>::mknod, args, reply),
    ensures
        reply == Err::<NodeId, Errno>(Errno(38)),
        *final(args.1) == *old(args.1),
{
}

/// By default, `mkdir` of a filesystem of nodes is answered with `ENOSYS`, with nothing changed.
proof fn law_node_mkdir_by_default(
    args: (&BareNodes, &mut Cx<()>, NodeId, &[u8], u32, u32, &Caller),
    reply: Result<NodeId, Errno>,
)
    requires
        call_ensures(<BareNodes as NodeFs>::mkdir, args, reply),
    ensures
        reply == Err::<NodeId, Errno>(Errno(38)),
        *final(args.1) == *old(args.1),
{
}

/// By default, `symlink` of a filesystem of nodes is answered with `ENOSYS`, with nothing changed.
proof fn law_node_symlink_by_default(
    args: (&BareNodes, &mut Cx<()>, NodeId, &[u8], &[u8], &Caller),
    reply: Result<NodeId, Errno>,
)
    requires
        call_ensures(<BareNodes as NodeFs>::symlink, args, reply),
    ensures
        reply == Err::<NodeId, Errno>(Errno(38)),
        *final(args.1) == *old(args.1),
{
}

/// By default, `unlink` of a filesystem of nodes is answered with `ENOSYS`, with nothing changed.
proof fn law_node_unlink_by_default(
    args: (&BareNodes, &mut Cx<()>, NodeId, &[u8], &Caller),
    reply: Result<(), Errno>,
)
    requires
        call_ensures(<BareNodes as NodeFs>::unlink, args, reply),
    ensures
        reply == Err::<(), Errno>(Errno(38)),
        *final(args.1) == *old(args.1),
{
}

/// By default, `rmdir` of a filesystem of nodes is answered with `ENOSYS`, with nothing changed.
proof fn law_node_rmdir_by_default(
    args: (&BareNodes, &mut Cx<()>, NodeId, &[u8], &Caller),
    reply: Result<(), Errno>,
)
    requires
        call_ensures(<BareNodes as NodeFs>::rmdir, args, reply),
    ensures
        reply == Err::<(), Errno>(Errno(38)),
        *final(args.1) == *old(args.1),
{
}

/// By default, `rename` of a filesystem of nodes is answered with `ENOSYS`, with nothing changed.
proof fn law_node_rename_by_default(
    args: (&BareNodes, &mut Cx<()>, NodeId, &[u8], NodeId, &[u8], u32, &Caller),
    reply: Result<(), Errno>,
)
    requires
        call_ensures(<BareNodes as NodeFs>::rename, args, reply),
    ensures
        reply == Err::<(), Errno>(Errno(38)),
        *final(args.1) == *old(args.1),
{
}

/// By default, `link` of a filesystem of nodes is answered with `ENOSYS`, with nothing changed.
proof fn law_node_link_by_default(
    args: (&BareNodes, &mut Cx<()>, NodeId, NodeId, &[u8], &Caller),
    reply: Result<NodeId, Errno>,
)
    requires
        call_ensures(<BareNodes as NodeFs>::link, args, reply),
    ensures
        reply == Err::<NodeId, Errno>(Errno(38)),
        *final(args.1) == *old(args.1),
{
}

/// By default, `open` of a filesystem of nodes is answered with `ENOSYS`.
proof fn law_node_open_by_default(
    args: (&BareNodes, &(), i32, &Caller),
    reply: Result<Opened<()>, Errno>,
)
    requires
        call_ensures(<BareNodes as NodeFs>::open, args, reply),
    ensures
        reply == Err::<Opened<()>, Errno>(Errno(38)),
{
}

/// By default, `read` of a filesystem of nodes is answered with `ENOSYS`.
proof fn law_node_read_by_default<'a>(
    args: (&'a BareNodes, &'a (), &'a (), u64, usize, &Caller),
    reply: Result<Cow<'a, [u8]>, Errno>,
)
    requires
        call_ensures(<BareNodes as NodeFs>::read, args, reply),
    ensures
        reply == Err::<Cow<'a, [u8]>, Errno>(Errno(38)),
{
}

/// By default, `write` of a filesystem of nodes is answered with `ENOSYS`.
proof fn law_node_write_by_default(
    args: (&BareNodes, &(), &(), &[u8], u64, &Caller),
    reply: Result<usize, Errno>,
)
    requires
        call_ensures(<BareNodes as NodeFs>::write, args, reply),
    ensures
        reply == Err::<usize, Errno>(Errno(38)),
{
}

/// By default, `flush` of a filesystem of nodes succeeds.
proof fn law_node_flush_by_default(
    args: (&BareNodes, &(), &(), &Caller),
    reply: Result<(), Errno>,
)
    requires
        call_ensures(<BareNodes as NodeFs>::flush, args, reply),
    ensures
        reply is Ok,
{
}

/// By default, `release` of a filesystem of nodes succeeds.
proof fn law_node_release_by_default(
    args: (&BareNodes, &(), (), &Caller),
    reply: Result<(), Errno>,
)
    requires
        call_ensures(<BareNodes as NodeFs>::release, args, reply),
    ensures
        reply is Ok,
{
}

/// By default, `fsync` of a filesystem of nodes succeeds.
proof fn law_node_fsync_by_default(
    args: (&BareNodes, &(), &(), bool, &Caller),
    reply: Result<(), Errno>,
)
    requires
        call_ensures(<BareNodes as NodeFs>::fsync, args, reply),
    ensures
        reply is Ok,
{
}

/// By default, `opendir` of a filesystem of nodes is answered with `ENOSYS`.
proof fn law_node_opendir_by_default(
    args: (&BareNodes, &(), i32, &Caller),
    reply: Result<Opened<()>, Errno>,
)
    requires
        call_ensures(<BareNodes as NodeFs>::opendir, args, reply),
    ensures
        reply == Err::<Opened<()>, Errno>(Errno(38)),
{
}

/// By default, `releasedir` of a filesystem of nodes succeeds.
proof fn law_node_releasedir_by_default(
    args: (&BareNodes, &(), (), &Caller),
    reply: Result<(), Errno>,
)
    requires
        call_ensures(<BareNodes as NodeFs>::releasedir, args, reply),
    ensures
        reply is Ok,
{
}

/// By default, `fsyncdir` of a filesystem of nodes succeeds.
proof fn law_node_fsyncdir_by_default(
    args: (&BareNodes, &(), &(), bool, &Caller),
    reply: Result<(), Errno>,
)
    requires
        call_ensures(<BareNodes as NodeFs>::fsyncdir, args, reply),
    ensures
        reply is Ok,
{
}

/// By default, `statfs` of a filesystem of nodes says blocks of 512 bytes, names of up to 255
/// and nothing else.
proof fn law_node_statfs_by_default(
    args: (&BareNodes, &Caller),
    reply: Result<StatFs, Errno>,
)
    requires
        call_ensures(<BareNodes as NodeFs>::statfs, args, reply),
    ensures
        reply matches Ok(s) && s.bsize == 512 && s.namelen == 255 && s.frsize == 0 && s.blocks == 0
            && s.bfree == 0 && s.bavail == 0 && s.files == 0 && s.ffree == 0,
{
}

/// By default, `setxattr` of a filesystem of nodes is answered with `ENOSYS`.
proof fn law_node_setxattr_by_default(
    args: (&BareNodes, &(), &[u8], &[u8], i32, &Caller),
    reply: Result<(), Errno>,
)
    requires
        call_ensures(<BareNodes as NodeFs>::setxattr, args, reply),
    ensures
        reply == Err::<(), Errno>(Errno(38)),
{
}

/// By default, `getxattr` of a filesystem of nodes is answered with `ENOSYS`.
proof fn law_node_getxattr_by_default(
    args: (&BareNodes, &(), &[u8], usize, &Caller),
    reply: Result<XattrReply, Errno>,
)
    requires
        call_ensures(<BareNodes as NodeFs>::getxattr, args, reply),
    ensures
        reply == Err::<XattrReply, Errno>(Errno(38)),
{
}

/// By default, `listxattr` of a filesystem of nodes is answered with `ENOSYS`.
proof fn law_node_listxattr_by_default(
    args: (&BareNodes, &(), usize, &Caller),
    reply: Result<XattrReply, Errno>,
)
    requires
        call_ensures(<BareNodes as NodeFs>::listxattr, args, reply),
    ensures
        reply == Err::<XattrReply, Errno>(Errno(38)),
{
}

/// By default, `removexattr` of a filesystem of nodes is answered with `ENOSYS`.
proof fn law_node_removexattr_by_default(
    args: (&BareNodes, &(), &[u8], &Caller),
    reply: Result<(), Errno>,
)
    requires
        call_ensures(<BareNodes as NodeFs>::removexattr, args, reply),
    ensures
        reply == Err::<(), Errno>(Errno(38)),
{
}

/// By default, `access` of a filesystem of nodes succeeds.
proof fn law_node_access_by_default(
    args: (&BareNodes, &(), i32, &Caller),
    reply: Result<(), Errno>,
)
    requires
        call_ensures(<BareNodes as NodeFs>::access, args, reply),
    ensures
        reply is Ok,
{
}

/// By default, `create` of a filesystem of nodes is answered with `ENOSYS`, with nothing changed.
proof fn law_node_create_by_default(
    args: (&BareNodes, &mut Cx<()>, NodeId, &[u8], u32, u32, i32, &Caller),
    reply: Result<(NodeId, Opened<()>), Errno>,
)
    requires
        call_ensures(<BareNodes as NodeFs>::create, args, reply),
    ensures
        reply == Err::<(NodeId, Opened<()>), Errno>(Errno(38)),
        *final(args.1) == *old(args.1),
{
}

/// By default, `fallocate` of a filesystem of nodes is answered with `ENOSYS`.
proof fn law_node_fallocate_by_default(
    args: (&BareNodes, &(), &(), i32, u64, u64, &Caller),
    reply: Result<(), Errno>,
)
    requires
        call_ensures(<BareNodes as NodeFs>::fallocate, args, reply),
    ensures
        reply == Err::<(), Errno>(Errno(38)),
{
}

/// By default, `lseek` of a filesystem of nodes is answered with `ENOSYS`.
proof fn law_node_lseek_by_default(
    args: (&BareNodes, &(), &(), u64, i32, &Caller),
    reply: Result<u64, Errno>,
)
    requires
        call_ensures(<BareNodes as NodeFs>::lseek, args, reply),
    ensures
        reply == Err::<u64, Errno>(Errno(38)),
{
}

/// By default, `getlk` of a filesystem of nodes is answered with `ENOSYS`.
proof fn law_node_getlk_by_default(
    args: (&BareNodes, &(), &(), u64, FileLock, &Caller),
    reply: Result<FileLock, Errno>,
)
    requires
        call_ensures(<BareNodes as NodeFs>::getlk, args, reply),
    ensures
        reply == Err::<FileLock, Errno>(Errno(38)),
{
}

/// By default, `setlk` of a filesystem of nodes is answered with `ENOSYS`.
proof fn law_node_setlk_by_default(
    args: (&BareNodes, &(), &(), u64, FileLock, bool, &Caller),
    reply: Result<(), Errno>,
)
    requires
        call_ensures(<BareNodes as NodeFs>::setlk, args, reply),
    ensures
        reply == Err::<(), Errno>(Errno(38)),
{
}

/// By default, `flock` of a filesystem of nodes is answered with `ENOSYS`.
proof fn law_node_flock_by_default(
    args: (&BareNodes, &(), &(), i32, &Caller),
    reply: Result<(), Errno>,
)
    requires
        call_ensures(<BareNodes as NodeFs>::flock, args, reply),
    ensures
        reply == Err::<(), Errno>(Errno(38)),
{
}

/// By default, `copy_file_range` of a filesystem of nodes is answered with `ENOSYS`, with
/// nothing changed.
proof fn law_node_copy_file_range_by_default(
    args: (&BareNodes, &mut Cx<()>, NodeId, u64, NodeId, u64, u64, i32, &Caller),
    reply: Result<usize, Errno>,
)
    requires
        call_ensures(<BareNodes as NodeFs>::copy_file_range, args, reply),
    ensures
        reply == Err::<usize, Errno>(Errno(38)),
        *final(args.1) == *old(args.1),
{
}

/// By default, `init` of a filesystem of paths does nothing.
proof fn law_path_init_by_default(
    args: (&BarePaths, &mut ConnInfo),
)
    requires
        call_ensures(<BarePaths as PathFilesystem>::init, args, ()),
    ensures
        *final(args.1) == *old(args.1),
{
}

/// By default, `lookup` of a filesystem of paths is answered with `ENOSYS`.
proof fn law_path_lookup_by_default(
    args: (&BarePaths, PathNodeRef<'_, ()>, &[u8], &Caller),
    reply: Result<Option<PathEntry<()>>, Errno>,
)
    requires
        call_ensures(<BarePaths as PathFilesystem>::lookup, args, reply),
    ensures
        reply == Err::<Option<PathEntry<()>>, Errno>(Errno(38)),
{
}

/// By default, `setattr` of a filesystem of paths is answered with `ENOSYS`.
proof fn law_path_setattr_by_default(
    args: (&BarePaths, PathNodeRef<'_, ()>, Option<&()>, &SetAttr, &Caller),
    reply: Result<NodeAttr, Errno>,
)
    requires
        call_ensures(<BarePaths as PathFilesystem>::setattr, args, reply),
    ensures
        reply == Err::<NodeAttr, Errno>(Errno(38)),
{
}

/// By default, `readlink` of a filesystem of paths is answered with `ENOSYS`.
proof fn law_path_readlink_by_default(
    args: (&BarePaths, PathNodeRef<'_, ()>, &Caller),
    reply: Result<Vec<u8>, Errno>,
)
    requires
        call_ensures(<BarePaths as PathFilesystem>::readlink, args, reply),
    ensures
        reply == Err::<Vec<u8>, Errno>(Errno(38)),
{
}

/// By default, `mknod` of a filesystem of paths is answered with `ENOSYS`.
proof fn law_path_mknod_by_default(
    args: (&BarePaths, PathNodeRef<'_, ()>, &[u8], u32, u32, u32, &Caller),
    reply: Result<PathEntry<()>, Errno>,
)
    requires
        call_ensures(<BarePaths as PathFilesystem>::mknod, args, reply),
    ensures
        reply == Err::<PathEntry<()>, Errno>(Errno(38)),
{
}

/// By default, `mkdir` of a filesystem of paths is answered with `ENOSYS`.
proof fn law_path_mkdir_by_default(
    args: (&BarePaths, PathNodeRef<'_, ()>, &[u8], u32, u32, &Caller),
    reply: Result<PathEntry<()>, Errno>,
)
    requires
        call_ensures(<BarePaths as PathFilesystem>::mkdir, args, reply),
    ensures
        reply == Err::<PathEntry<()>, Errno>(Errno(38)),
{
}

/// By default, `symlink` of a filesystem of paths is answered with `ENOSYS`.
proof fn law_path_symlink_by_default(
    args: (&BarePaths, PathNodeRef<'_, ()>, &[u8], &[u8], &Caller),
    reply: Result<PathEntry<()>, Errno>,
)
    requires
        call_ensures(<BarePaths as PathFilesystem>::symlink, args, reply),
    ensures
        reply == Err::<PathEntry<()>, Errno>(Errno(38)),
{
}

/// By default, `unlink` of a filesystem of paths is answered with `ENOSYS`.
proof fn law_path_unlink_by_default(
    args: (&BarePaths, PathNodeRef<'_, ()>, &[u8], &Caller),
    reply: Result<(), Errno>,
)
    requires
        call_ensures(<BarePaths as PathFilesystem>::unlink, args, reply),
    ensures
        reply == Err::<(), Errno>(Errno(38)),
{
}

/// By default, `rmdir` of a filesystem of paths is answered with `ENOSYS`.
proof fn law_path_rmdir_by_default(
    args: (&BarePaths, PathNodeRef<'_, ()>, &[u8], &Caller),
    reply: Result<(), Errno>,
)
    requires
        call_ensures(<BarePaths as PathFilesystem>::rmdir, args, reply),
    ensures
        reply == Err::<(), Errno>(Errno(38)),
{
}

/// By default, `rename` of a filesystem of paths is answered with `ENOSYS`.
proof fn law_path_rename_by_default(
    args: (&BarePaths, PathNodeRef<'_, ()>, &[u8], PathNodeRef<'_, ()>, &[u8], &Caller),
    reply: Result<(), Errno>,
)
    requires
        call_ensures(<BarePaths as PathFilesystem>::rename, args, reply),
    ensures
        reply == Err::<(), Errno>(Errno(38)),
{
}

/// By default, `link` of a filesystem of paths is answered with `ENOSYS`.
proof fn law_path_link_by_default(
    args: (&BarePaths, PathNodeRef<'_, ()>, PathNodeRef<'_, ()>, &[u8], &Caller),
    reply: Result<NodeAttr, Errno>,
)
    requires
        call_ensures(<BarePaths as PathFilesystem>::link, args, reply),
    ensures
        reply == Err::<NodeAttr, Errno>(Errno(38)),
{
}

/// By default, `open` of a filesystem of paths is answered with `ENOSYS`.
proof fn law_path_open_by_default(
    args: (&BarePaths, PathNodeRef<'_, ()>, i32, &Caller),
    reply: Result<Opened<()>, Errno>,
)
    requires
        call_ensures(<BarePaths as PathFilesystem>::open, args, reply),
    ensures
        reply == Err::<Opened<()>, Errno>(Errno(38)),
{
}

/// By default, `read` of a filesystem of paths is answered with `ENOSYS`.
proof fn law_path_read_by_default<'a>(
    args: (&'a BarePaths, PathNodeRef<'_, ()>, &'a (), u64, usize, &Caller),
    reply: Result<Cow<'a, [u8]>, Errno>,
)
    requires
        call_ensures(<BarePaths as PathFilesystem>::read, args, reply),
    ensures
        reply == Err::<Cow<'a, [u8]>, Errno>(Errno(38)),
{
}

/// By default, `write` of a filesystem of paths is answered with `ENOSYS`.
proof fn law_path_write_by_default(
    args: (&BarePaths, PathNodeRef<'_, ()>, &(), &[u8], u64, &Caller),
    reply: Result<usize, Errno>,
)
    requires
        call_ensures(<BarePaths as PathFilesystem>::write, args, reply),
    ensures
        reply == Err::<usize, Errno>(Errno(38)),
{
}

/// By default, `flush` of a filesystem of paths succeeds.
proof fn law_path_flush_by_default(
    args: (&BarePaths, PathNodeRef<'_, ()>, &(), &Caller),
    reply: Result<(), Errno>,
)
    requires
        call_ensures(<BarePaths as PathFilesystem>::flush, args, reply),
    ensures
        reply is Ok,
{
}

/// By default, `release` of a filesystem of paths succeeds.
proof fn law_path_release_by_default(
    args: (&BarePaths, PathNodeRef<'_, ()>, (), &Caller),
    reply: Result<(), Errno>,
)
    requires
        call_ensures(<BarePaths as PathFilesystem>::release, args, reply),
    ensures
        reply is Ok,
{
}

/// By default, `fsync` of a filesystem of paths succeeds.
proof fn law_path_fsync_by_default(
    args: (&BarePaths, PathNodeRef<'_, ()>, &(), bool, &Caller),
    reply: Result<(), Errno>,
)
    requires
        call_ensures(<BarePaths as PathFilesystem>::fsync, args, reply),
    ensures
        reply is Ok,
{
}

/// By default, `opendir` of a filesystem of paths is answered with `ENOSYS`.
proof fn law_path_opendir_by_default(
    args: (&BarePaths, PathNodeRef<'_, ()>, i32, &Caller),
    reply: Result<Opened<()>, Errno>,
)
    requires
        call_ensures(<BarePaths as PathFilesystem>::opendir, args, reply),
    ensures
        reply == Err::<Opened<()>, Errno>(Errno(38)),
{
}

/// By default, `releasedir` of a filesystem of paths succeeds.
proof fn law_path_releasedir_by_default(
    args: (&BarePaths, PathNodeRef<'_, ()>, (), &Caller),
    reply: Result<(), Errno>,
)
    requires
        call_ensures(<BarePaths as PathFilesystem>::releasedir, args, reply),
    ensures
        reply is Ok,
{
}

/// By default, `fsyncdir` of a filesystem of paths succeeds.
proof fn law_path_fsyncdir_by_default(
    args: (&BarePaths, PathNodeRef<'_, ()>, &(), bool, &Caller),
    reply: Result<(), Errno>,
)
    requires
        call_ensures(<BarePaths as PathFilesystem>::fsyncdir, args, reply),
    ensures
        reply is Ok,
{
}

/// By default, `statfs` of a filesystem of paths says blocks of 512 bytes, names of up to 255
/// and nothing else.
proof fn law_path_statfs_by_default(
    args: (&BarePaths, &[u8], &Caller),
    reply: Result<StatFs, Errno>,
)
    requires
        call_ensures(<BarePaths as PathFilesystem>::statfs, args, reply),
    ensures
        reply matches Ok(s) && s.bsize == 512 && s.namelen == 255 && s.frsize == 0 && s.blocks == 0
            && s.bfree == 0 && s.bavail == 0 && s.files == 0 && s.ffree == 0,
{
}

/// By default, `setxattr` of a filesystem of paths is answered with `ENOSYS`.
proof fn law_path_setxattr_by_default(
    args: (&BarePaths, PathNodeRef<'_, ()>, &[u8], &[u8], i32, &Caller),
    reply: Result<(), Errno>,
)
    requires
        call_ensures(<BarePaths as PathFilesystem>::setxattr, args, reply),
    ensures
        reply == Err::<(), Errno>(Errno(38)),
{
}

/// By default, `getxattr` of a filesystem of paths is answered with `ENOSYS`.
proof fn law_path_getxattr_by_default(
    args: (&BarePaths, PathNodeRef<'_, ()>, &[u8], usize, &Caller),
    reply: Result<XattrReply, Errno>,
)
    requires
        call_ensures(<BarePaths as PathFilesystem>::getxattr, args, reply),
    ensures
        reply == Err::<XattrReply, Errno>(Errno(38)),
{
}

/// By default, `listxattr` of a filesystem of paths is answered with `ENOSYS`.
proof fn law_path_listxattr_by_default(
    args: (&BarePaths, PathNodeRef<'_, ()>, usize, &Caller),
    reply: Result<XattrReply, Errno>,
)
    requires
        call_ensures(<BarePaths as PathFilesystem>::listxattr, args, reply),
    ensures
        reply == Err::<XattrReply, Errno>(Errno(38)),
{
}

/// By default, `removexattr` of a filesystem of paths is answered with `ENOSYS`.
proof fn law_path_removexattr_by_default(
    args: (&BarePaths, PathNodeRef<'_, ()>, &[u8], &Caller),
    reply: Result<(), Errno>,
)
    requires
        call_ensures(<BarePaths as PathFilesystem>::removexattr, args, reply),
    ensures
        reply == Err::<(), Errno>(Errno(38)),
{
}

/// By default, `access` of a filesystem of paths succeeds.
proof fn law_path_access_by_default(
    args: (&BarePaths, PathNodeRef<'_, ()>, i32, &Caller),
    reply: Result<(), Errno>,
)
    requires
        call_ensures(<BarePaths as PathFilesystem>::access, args, reply),
    ensures
        reply is Ok,
{
}

/// By default, `create` of a filesystem of paths is answered with `ENOSYS`.
proof fn law_path_create_by_default(
    args: (&BarePaths, PathNodeRef<'_, ()>, &[u8], u32, u32, i32, &Caller),
    reply: Result<(PathEntry<()>, Opened<()>), Errno>,
)
    requires
        call_ensures(<BarePaths as PathFilesystem>::create, args, reply),
    ensures
        reply == Err::<(PathEntry<()>, Opened<()>), Errno>(Errno(38)),
{
}

/// By default, `fallocate` of a filesystem of paths is answered with `ENOSYS`.
proof fn law_path_fallocate_by_default(
    args: (&BarePaths, PathNodeRef<'_, ()>, &(), i32, u64, u64, &Caller),
    reply: Result<(), Errno>,
)
    requires
        call_ensures(<BarePaths as PathFilesystem>::fallocate, args, reply),
    ensures
        reply == Err::<(), Errno>(Errno(38)),
{
}

/// By default, `lseek` of a filesystem of paths is answered with `ENOSYS`.
proof fn law_path_lseek_by_default(
    args: (&BarePaths, PathNodeRef<'_, ()>, &(), u64, i32, &Caller),
    reply: Result<u64, Errno>,
)
    requires
        call_ensures(<BarePaths as PathFilesystem>::lseek, args, reply),
    ensures
        reply == Err::<u64, Errno>(Errno(38)),
{
}

/// By default, `getlk` of a filesystem of paths is answered with `ENOSYS`.
proof fn law_path_getlk_by_default(
    args: (&BarePaths, PathNodeRef<'_, ()>, &(), u64, FileLock, &Caller),
    reply: Result<FileLock, Errno>,
)
    requires
        call_ensures(<BarePaths as PathFilesystem>::getlk, args, reply),
    ensures
        reply == Err::<FileLock, Errno>(Errno(38)),
{
}

/// By default, `setlk` of a filesystem of paths is answered with `ENOSYS`.
proof fn law_path_setlk_by_default(
    args: (&BarePaths, PathNodeRef<'_, ()>, &(), u64, FileLock, bool, &Caller),
    reply: Result<(), Errno>,
)
    requires
        call_ensures(<BarePaths as PathFilesystem>::setlk, args, reply),
    ensures
        reply == Err::<(), Errno>(Errno(38)),
{
}

/// By default, `flock` of a filesystem of paths is answered with `ENOSYS`.
proof fn law_path_flock_by_default(
    args: (&BarePaths, PathNodeRef<'_, ()>, &(), i32, &Caller),
    reply: Result<(), Errno>,
)
    requires
        call_ensures(<BarePaths as PathFilesystem>::flock, args, reply),
    ensures
        reply == Err::<(), Errno>(Errno(38)),
{
}

} // verus!
