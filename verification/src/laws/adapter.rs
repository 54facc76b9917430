//! The adapter between nodes and paths: what the filesystem is asked, and what becomes of
//! its answers.

use vstd::prelude::*;

use std::sync::Arc;

use crate::attr::NodeAttr;
use crate::cx::Cx;
use crate::dentry::DentryView;
use crate::errno::Errno;
use crate::node_fs::{Caller, Opened};
use crate::node_id::NodeId;
use crate::path_fs::{PathEntry, PathFilesystem, PathNodeRef};
use crate::path_node_fs::PathNodeFs;
use crate::tree::{PathNode, Tree};

verus! {

/// A new adapter has the filesystem it was made of, gives it back, and knows no name.
pub proof fn law_adapters_hold_their_filesystem<P: PathFilesystem>(
    inner: P,
    fs: PathNodeFs<P>,
    back: P,
    given: PathNodeFs<P>,
    returned: P,
    parent: NodeId,
    name: &[u8],
    known: bool,
)
    requires
        call_ensures(PathNodeFs::<P>::new, (inner,), fs),
        call_ensures(PathNodeFs::<P>::into_inner, (fs,), back),
        call_ensures(PathNodeFs::<P>::into_inner, (given,), returned),
        call_ensures(PathNodeFs::<P>::knows, (&fs, parent, name), known),
    ensures
        back == inner,
        returned == given.filesystem(),
        !known,
{
}

/// A name is known exactly if it stands for a node.
pub proof fn law_known_names_stand_for_nodes<P: PathFilesystem>(
    fs: &PathNodeFs<P>,
    parent: NodeId,
    name: &[u8],
    known: bool,
)
    requires
        call_ensures(PathNodeFs::<P>::knows, (fs, parent, name), known),
    ensures
        known <==> fs.names().names.contains_key(DentryView { parent: parent@, name: name@ }),
{
}

/// The entry reply for a node found by a lookup says exactly the attributes that the filesystem
/// gave, in every field, when it was asked in the directory by the directory's own path and
/// state. A node for a name that was not known has the state that came with them.
pub proof fn law_lookup_reply_says_the_filesystems_attributes<P: PathFilesystem>(
    args: (
        &mut PathNodeFs<P>,
        &mut Cx<PathNode<P::NodeState>>,
        NodeId,
        &[u8],
        &Caller,
    ),
    id: NodeId,
    node: &PathNode<P::NodeState>,
    later: (&mut PathNodeFs<P>, &PathNode<P::NodeState>, &Caller),
    reply: Result<NodeAttr, Errno>,
)
    requires
        old(args.0).wf(),
        old(args.1)@.inv(),
        old(args.0).tree(old(args.1)@).coherent(),
        old(args.0).tree(old(args.1)@).can_discover(args.2, args.3@),
        call_ensures(PathNodeFs::<P>::lookup, args, Ok::<Option<NodeId>, Errno>(Some(id))),
        call_ensures(Cx::<PathNode<P::NodeState>>::get, (&*final(args.1), id), Some(node)),
        *later.0 == *final(args.0),
        later.1 == node,
        call_ensures(PathNodeFs::<P>::entry_attr, later, reply),
    ensures
        exists|at: PathNodeRef<'_, P::NodeState>, entry: PathEntry<P::NodeState>|
            at.path_view() == old(args.0).names().path(args.2@) && at.state_view() == old(
                args.1,
            )@.nodes[args.2@].payload.state() && #[trigger] call_ensures(
                P::lookup,
                (&old(args.0).filesystem(), at, args.3, args.4),
                Ok::<Option<PathEntry<P::NodeState>>, Errno>(Some(entry)),
            ) && reply == Ok::<NodeAttr, Errno>(entry.attr) && (old(args.0).names().names.contains_key(
                DentryView { parent: args.2@, name: args.3@ },
            ) || node.state() == entry.state),
{
    let fs = *old(args.0);
    let before = fs.tree(old(args.1)@);
    fs.lemma_names_agree();
    let (at, outcome) = choose|
        at: PathNodeRef<'_, P::NodeState>,
        outcome: Result<Option<PathEntry<P::NodeState>>, Errno>,
    |
        at.path_view() == fs.names().path(args.2@) && at.state_view() == old(
            args.1,
        )@.nodes[args.2@].payload.state() && #[trigger] call_ensures(
            P::lookup,
            (&old(args.0).filesystem(), at, args.3, args.4),
            outcome,
        ) && PathNodeFs::<P>::lookup_concluded(
            before,
            args.2,
            args.3@,
            outcome,
            final(args.0).tree(final(args.1)@),
            final(args.0).pending(),
            Ok::<Option<NodeId>, Errno>(Some(id)),
        );
    let entry = outcome->Ok_0->0;
    crate::tree::law_named_nodes_are_live(
        before,
        args.2,
        args.3@,
        entry.state,
        0,
        DentryView { parent: 0, name: Seq::empty() },
    );
    let after = final(args.0).tree(final(args.1)@);
    assert(after.nodes.nodes.contains_key(id@));
    assert(after.names.holder(node.key()) == Some(id@));
    PathNode::lemma_of(before.names.next_key, entry.state);
    assert(reply == Ok::<NodeAttr, Errno>(entry.attr));
    assert(call_ensures(
        P::lookup,
        (&old(args.0).filesystem(), at, args.3, args.4),
        Ok::<Option<PathEntry<P::NodeState>>, Errno>(Some(entry)),
    ));
}

/// The entry reply for a node made by `mknod` says exactly the attributes that the filesystem
/// gave, in every field, when it was asked in the directory by the directory's own path and
/// state. A node for a name that was not known has the state that came with them.
pub proof fn law_mknod_reply_says_the_filesystems_attributes<P: PathFilesystem>(
    args: (
        &mut PathNodeFs<P>,
        &mut Cx<PathNode<P::NodeState>>,
        NodeId,
        &[u8],
        u32,
        u32,
        u32,
        &Caller,
    ),
    id: NodeId,
    node: &PathNode<P::NodeState>,
    later: (&mut PathNodeFs<P>, &PathNode<P::NodeState>, &Caller),
    reply: Result<NodeAttr, Errno>,
)
    requires
        old(args.0).wf(),
        old(args.1)@.inv(),
        old(args.0).tree(old(args.1)@).coherent(),
        old(args.0).tree(old(args.1)@).can_discover(args.2, args.3@),
        call_ensures(PathNodeFs::<P>::mknod, args, Ok::<NodeId, Errno>(id)),
        call_ensures(Cx::<PathNode<P::NodeState>>::get, (&*final(args.1), id), Some(node)),
        *later.0 == *final(args.0),
        later.1 == node,
        call_ensures(PathNodeFs::<P>::entry_attr, later, reply),
    ensures
        exists|at: PathNodeRef<'_, P::NodeState>, entry: PathEntry<P::NodeState>|
            at.path_view() == old(args.0).names().path(args.2@) && at.state_view() == old(
                args.1,
            )@.nodes[args.2@].payload.state() && #[trigger] call_ensures(
                P::mknod,
                (&old(args.0).filesystem(), at, args.3, args.4, args.5, args.6, args.7),
                Ok::<PathEntry<P::NodeState>, Errno>(entry),
            ) && reply == Ok::<NodeAttr, Errno>(entry.attr) && (old(args.0).names().names.contains_key(
                DentryView { parent: args.2@, name: args.3@ },
            ) || node.state() == entry.state),
{
    let fs = *old(args.0);
    let before = fs.tree(old(args.1)@);
    fs.lemma_names_agree();
    let (at, outcome) = choose|
        at: PathNodeRef<'_, P::NodeState>,
        outcome: Result<PathEntry<P::NodeState>, Errno>,
    |
        at.path_view() == fs.names().path(args.2@) && at.state_view() == old(
            args.1,
        )@.nodes[args.2@].payload.state() && #[trigger] call_ensures(
            P::mknod,
            (&old(args.0).filesystem(), at, args.3, args.4, args.5, args.6, args.7),
            outcome,
        ) && PathNodeFs::<P>::creation_concluded(
            before,
            args.2,
            args.3@,
            outcome,
            final(args.0).tree(final(args.1)@),
            final(args.0).pending(),
            Ok::<NodeId, Errno>(id),
        );
    let entry = outcome->Ok_0;
    crate::tree::law_named_nodes_are_live(
        before,
        args.2,
        args.3@,
        entry.state,
        0,
        DentryView { parent: 0, name: Seq::empty() },
    );
    let after = final(args.0).tree(final(args.1)@);
    assert(after.nodes.nodes.contains_key(id@));
    assert(after.names.holder(node.key()) == Some(id@));
    PathNode::lemma_of(before.names.next_key, entry.state);
    assert(reply == Ok::<NodeAttr, Errno>(entry.attr));
    assert(call_ensures(
        P::mknod,
        (&old(args.0).filesystem(), at, args.3, args.4, args.5, args.6, args.7),
        Ok::<PathEntry<P::NodeState>, Errno>(entry),
    ));
}

/// The entry reply for a node made by `mkdir` says exactly the attributes that the filesystem
/// gave, in every field, when it was asked in the directory by the directory's own path and
/// state. A node for a name that was not known has the state that came with them.
pub proof fn law_mkdir_reply_says_the_filesystems_attributes<P: PathFilesystem>(
    args: (
        &mut PathNodeFs<P>,
        &mut Cx<PathNode<P::NodeState>>,
        NodeId,
        &[u8],
        u32,
        u32,
        &Caller,
    ),
    id: NodeId,
    node: &PathNode<P::NodeState>,
    later: (&mut PathNodeFs<P>, &PathNode<P::NodeState>, &Caller),
    reply: Result<NodeAttr, Errno>,
)
    requires
        old(args.0).wf(),
        old(args.1)@.inv(),
        old(args.0).tree(old(args.1)@).coherent(),
        old(args.0).tree(old(args.1)@).can_discover(args.2, args.3@),
        call_ensures(PathNodeFs::<P>::mkdir, args, Ok::<NodeId, Errno>(id)),
        call_ensures(Cx::<PathNode<P::NodeState>>::get, (&*final(args.1), id), Some(node)),
        *later.0 == *final(args.0),
        later.1 == node,
        call_ensures(PathNodeFs::<P>::entry_attr, later, reply),
    ensures
        exists|at: PathNodeRef<'_, P::NodeState>, entry: PathEntry<P::NodeState>|
            at.path_view() == old(args.0).names().path(args.2@) && at.state_view() == old(
                args.1,
            )@.nodes[args.2@].payload.state() && #[trigger] call_ensures(
                P::mkdir,
                (&old(args.0).filesystem(), at, args.3, args.4, args.5, args.6),
                Ok::<PathEntry<P::NodeState>, Errno>(entry),
            ) && reply == Ok::<NodeAttr, Errno>(entry.attr) && (old(args.0).names().names.contains_key(
                DentryView { parent: args.2@, name: args.3@ },
            ) || node.state() == entry.state),
{
    let fs = *old(args.0);
    let before = fs.tree(old(args.1)@);
    fs.lemma_names_agree();
    let (at, outcome) = choose|
        at: PathNodeRef<'_, P::NodeState>,
        outcome: Result<PathEntry<P::NodeState>, Errno>,
    |
        at.path_view() == fs.names().path(args.2@) && at.state_view() == old(
            args.1,
        )@.nodes[args.2@].payload.state() && #[trigger] call_ensures(
            P::mkdir,
            (&old(args.0).filesystem(), at, args.3, args.4, args.5, args.6),
            outcome,
        ) && PathNodeFs::<P>::creation_concluded(
            before,
            args.2,
            args.3@,
            outcome,
            final(args.0).tree(final(args.1)@),
            final(args.0).pending(),
            Ok::<NodeId, Errno>(id),
        );
    let entry = outcome->Ok_0;
    crate::tree::law_named_nodes_are_live(
        before,
        args.2,
        args.3@,
        entry.state,
        0,
        DentryView { parent: 0, name: Seq::empty() },
    );
    let after = final(args.0).tree(final(args.1)@);
    assert(after.nodes.nodes.contains_key(id@));
    assert(after.names.holder(node.key()) == Some(id@));
    PathNode::lemma_of(before.names.next_key, entry.state);
    assert(reply == Ok::<NodeAttr, Errno>(entry.attr));
    assert(call_ensures(
        P::mkdir,
        (&old(args.0).filesystem(), at, args.3, args.4, args.5, args.6),
        Ok::<PathEntry<P::NodeState>, Errno>(entry),
    ));
}

/// The entry reply for a node made by `symlink` says exactly the attributes that the filesystem
/// gave, in every field, when it was asked in the directory by the directory's own path and
/// state. A node for a name that was not known has the state that came with them.
pub proof fn law_symlink_reply_says_the_filesystems_attributes<P: PathFilesystem>(
    args: (
        &mut PathNodeFs<P>,
        &mut Cx<PathNode<P::NodeState>>,
        NodeId,
        &[u8],
        &[u8],
        &Caller,
    ),
    id: NodeId,
    node: &PathNode<P::NodeState>,
    later: (&mut PathNodeFs<P>, &PathNode<P::NodeState>, &Caller),
    reply: Result<NodeAttr, Errno>,
)
    requires
        old(args.0).wf(),
        old(args.1)@.inv(),
        old(args.0).tree(old(args.1)@).coherent(),
        old(args.0).tree(old(args.1)@).can_discover(args.2, args.3@),
        call_ensures(PathNodeFs::<P>::symlink, args, Ok::<NodeId, Errno>(id)),
        call_ensures(Cx::<PathNode<P::NodeState>>::get, (&*final(args.1), id), Some(node)),
        *later.0 == *final(args.0),
        later.1 == node,
        call_ensures(PathNodeFs::<P>::entry_attr, later, reply),
    ensures
        exists|at: PathNodeRef<'_, P::NodeState>, entry: PathEntry<P::NodeState>|
            at.path_view() == old(args.0).names().path(args.2@) && at.state_view() == old(
                args.1,
            )@.nodes[args.2@].payload.state() && #[trigger] call_ensures(
                P::symlink,
                (&old(args.0).filesystem(), at, args.3, args.4, args.5),
                Ok::<PathEntry<P::NodeState>, Errno>(entry),
            ) && reply == Ok::<NodeAttr, Errno>(entry.attr) && (old(args.0).names().names.contains_key(
                DentryView { parent: args.2@, name: args.3@ },
            ) || node.state() == entry.state),
{
    let fs = *old(args.0);
    let before = fs.tree(old(args.1)@);
    fs.lemma_names_agree();
    let (at, outcome) = choose|
        at: PathNodeRef<'_, P::NodeState>,
        outcome: Result<PathEntry<P::NodeState>, Errno>,
    |
        at.path_view() == fs.names().path(args.2@) && at.state_view() == old(
            args.1,
        )@.nodes[args.2@].payload.state() && #[trigger] call_ensures(
            P::symlink,
            (&old(args.0).filesystem(), at, args.3, args.4, args.5),
            outcome,
        ) && PathNodeFs::<P>::creation_concluded(
            before,
            args.2,
            args.3@,
            outcome,
            final(args.0).tree(final(args.1)@),
            final(args.0).pending(),
            Ok::<NodeId, Errno>(id),
        );
    let entry = outcome->Ok_0;
    crate::tree::law_named_nodes_are_live(
        before,
        args.2,
        args.3@,
        entry.state,
        0,
        DentryView { parent: 0, name: Seq::empty() },
    );
    let after = final(args.0).tree(final(args.1)@);
    assert(after.nodes.nodes.contains_key(id@));
    assert(after.names.holder(node.key()) == Some(id@));
    PathNode::lemma_of(before.names.next_key, entry.state);
    assert(reply == Ok::<NodeAttr, Errno>(entry.attr));
    assert(call_ensures(
        P::symlink,
        (&old(args.0).filesystem(), at, args.3, args.4, args.5),
        Ok::<PathEntry<P::NodeState>, Errno>(entry),
    ));
}

/// The entry reply for a node made by `create` says exactly the attributes that the filesystem
/// gave, in every field, when it was asked in the directory by the directory's own path and
/// state. A node for a name that was not known has the state that came with them.
pub proof fn law_create_reply_says_the_filesystems_attributes<P: PathFilesystem>(
    args: (
        &mut PathNodeFs<P>,
        &mut Cx<PathNode<P::NodeState>>,
        NodeId,
        &[u8],
        u32,
        u32,
        i32,
        &Caller,
    ),
    id: NodeId,
    opened: Opened<P::Handle>,
    node: &PathNode<P::NodeState>,
    later: (&mut PathNodeFs<P>, &PathNode<P::NodeState>, &Caller),
    reply: Result<NodeAttr, Errno>,
)
    requires
        old(args.0).wf(),
        old(args.1)@.inv(),
        old(args.0).tree(old(args.1)@).coherent(),
        old(args.0).tree(old(args.1)@).can_discover(args.2, args.3@),
        call_ensures(
            PathNodeFs::<P>::create,
            args,
            Ok::<(NodeId, Opened<P::Handle>), Errno>((id, opened)),
        ),
        call_ensures(Cx::<PathNode<P::NodeState>>::get, (&*final(args.1), id), Some(node)),
        *later.0 == *final(args.0),
        later.1 == node,
        call_ensures(PathNodeFs::<P>::entry_attr, later, reply),
    ensures
        exists|at: PathNodeRef<'_, P::NodeState>, entry: PathEntry<P::NodeState>|
            at.path_view() == old(args.0).names().path(args.2@) && at.state_view() == old(
                args.1,
            )@.nodes[args.2@].payload.state() && #[trigger] call_ensures(
                P::create,
                (&old(args.0).filesystem(), at, args.3, args.4, args.5, args.6, args.7),
                Ok::<(PathEntry<P::NodeState>, Opened<P::Handle>), Errno>((entry, opened)),
            ) && reply == Ok::<NodeAttr, Errno>(entry.attr) && (old(args.0).names().names.contains_key(
                DentryView { parent: args.2@, name: args.3@ },
            ) || node.state() == entry.state),
{
    let fs = *old(args.0);
    let before = fs.tree(old(args.1)@);
    fs.lemma_names_agree();
    let (at, outcome) = choose|
        at: PathNodeRef<'_, P::NodeState>,
        outcome: Result<(PathEntry<P::NodeState>, Opened<P::Handle>), Errno>,
    |
        at.path_view() == fs.names().path(args.2@) && at.state_view() == old(
            args.1,
        )@.nodes[args.2@].payload.state() && #[trigger] call_ensures(
            P::create,
            (&old(args.0).filesystem(), at, args.3, args.4, args.5, args.6, args.7),
            outcome,
        ) && PathNodeFs::<P>::creation_concluded(
            before,
            args.2,
            args.3@,
            match outcome { Ok((entry, _)) => Ok(entry), Err(e) => Err(e) },
            final(args.0).tree(final(args.1)@),
            final(args.0).pending(),
            Ok::<NodeId, Errno>(id),
        ) && outcome is Ok && outcome->Ok_0.1 == opened;
    let entry = outcome->Ok_0.0;
    crate::tree::law_named_nodes_are_live(
        before,
        args.2,
        args.3@,
        entry.state,
        0,
        DentryView { parent: 0, name: Seq::empty() },
    );
    let after = final(args.0).tree(final(args.1)@);
    assert(after.nodes.nodes.contains_key(id@));
    assert(after.names.holder(node.key()) == Some(id@));
    PathNode::lemma_of(before.names.next_key, entry.state);
    assert(reply == Ok::<NodeAttr, Errno>(entry.attr));
    assert(call_ensures(
        P::create,
        (&old(args.0).filesystem(), at, args.3, args.4, args.5, args.6, args.7),
        Ok::<(PathEntry<P::NodeState>, Opened<P::Handle>), Errno>((entry, opened)),
    ));
}

pub(crate) proof fn lemma_discovered<S>(
    before: Tree<S>,
    parent: NodeId,
    name: Seq<u8>,
    state: Arc<S>,
)
    requires
        before.names.inv(),
        before.nodes.inv(),
        before.coherent(),
        before.can_discover(parent, name),
    ensures
        ({
            let d = DentryView { parent: parent@, name };
            let after = before.discovered(parent, name, state);
            let id = before.discovered_id(parent, name);
            if before.names.names.contains_key(d) {
                after == before && id == before.names.names[d]
            } else {
                &&& !before.nodes.nodes.contains_key(id)
                &&& after.names.names == before.names.names.insert(d, id)
                &&& after.names.aliases == before.names.aliases.insert(id, set![d])
                &&& after.nodes.nodes.contains_key(id)
                &&& after.nodes.nodes.remove(id) == before.nodes.nodes
                &&& after.nodes.nodes[id].payload.state() == state
                &&& after.nodes.nodes[id].parent == parent
                &&& after.nodes.nodes[id].links == 1
                &&& after.nodes.nodes[id].lookups == 0
                &&& after.nodes.nodes[id].opens == 0
            }
        }),
{
    let d = DentryView { parent: parent@, name };
    let after = before.discovered(parent, name, state);
    let id = before.discovered_id(parent, name);
    if !before.names.names.contains_key(d) {
        PathNode::lemma_of(before.names.next_key, state);
        crate::cx::law_new_node_displaces_none(
            before.nodes,
            PathNode::of(before.names.next_key, state),
            parent,
        );
        assert(!before.names.aliases.contains_key(id));
        assert(Set::<DentryView>::empty().insert(d) =~= set![d]);
        assert(after.nodes.nodes.remove(id) =~= before.nodes.nodes);
    }
}

/// A known name that a `lookup` answers for keeps standing for its node, and nothing changes. A
/// new one gets a node that no other has, with one link, and a path: that of the directory,
/// one separator and the name.
pub proof fn law_lookup_names_the_node<P: PathFilesystem>(
    args: (
        &mut PathNodeFs<P>,
        &mut Cx<PathNode<P::NodeState>>,
        NodeId,
        &[u8],
        &Caller,
    ),
    id: NodeId,
)
    requires
        old(args.0).wf(),
        old(args.1)@.inv(),
        old(args.0).tree(old(args.1)@).coherent(),
        old(args.0).tree(old(args.1)@).can_discover(args.2, args.3@),
        call_ensures(PathNodeFs::<P>::lookup, args, Ok::<Option<NodeId>, Errno>(Some(id))),
    ensures
        ({
            let d = DentryView { parent: args.2@, name: args.3@ };
            let names = old(args.0).names();
            let nodes = old(args.1)@.nodes;
            if names.names.contains_key(d) {
                &&& id@ == names.names[d]
                &&& final(args.0).names() == names
                &&& final(args.1)@ == old(args.1)@
            } else {
                &&& !nodes.contains_key(id@)
                &&& final(args.0).names().names == names.names.insert(d, id@)
                &&& final(args.0).names().aliases == names.aliases.insert(id@, set![d])
                &&& final(args.1)@.nodes.contains_key(id@)
                &&& final(args.1)@.nodes.remove(id@) == nodes
                &&& final(args.1)@.nodes[id@].parent == args.2
                &&& final(args.1)@.nodes[id@].links == 1
                &&& final(args.1)@.nodes[id@].lookups == 0
                &&& final(args.1)@.nodes[id@].opens == 0
            }
        }),
        ({
            let path = old(args.0).names().path(args.2@)->0;
            !old(args.0).names().names.contains_key(DentryView { parent: args.2@, name: args.3@ })
                && old(args.1)@.nodes.contains_key(1) && old(args.0).names().resolves(args.2@)
                && args.3@.len() > 0 && !args.3@.contains(47u8) ==> final(args.0).names().path(id@)
                == Some(
                if path.last() == 47 {
                    path + args.3@
                } else {
                    path + seq![47u8] + args.3@
                },
            )
        }),
{
    let before = old(args.0).tree(old(args.1)@);
    old(args.0).lemma_names_agree();
    let (at, outcome) = choose|
        at: PathNodeRef<'_, P::NodeState>,
        outcome: Result<Option<PathEntry<P::NodeState>>, Errno>,
    |
        #[trigger] call_ensures(
            P::lookup,
            (&old(args.0).filesystem(), at, args.3, args.4),
            outcome,
        ) && PathNodeFs::<P>::lookup_concluded(
            before,
            args.2,
            args.3@,
            outcome,
            final(args.0).tree(final(args.1)@),
            final(args.0).pending(),
            Ok::<Option<NodeId>, Errno>(Some(id)),
        );
    let entry = outcome->Ok_0->0;
    lemma_discovered(before, args.2, args.3@, entry.state);
    let path = before.names.path(args.2@)->0;
    if !before.names.names.contains_key(DentryView { parent: args.2@, name: args.3@ })
        && before.nodes.nodes.contains_key(1) && before.names.resolves(args.2@) && args.3@.len() > 0
        && !args.3@.contains(47u8) {
        crate::tree::law_discovery_adds_one_path(before, args.2, args.3@, entry.state, args.2@);
        crate::namespace::law_paths_are_absolute(before.names, args.2@);
        assert(args.3@[0] != 47u8);
        assert(path.push(47) + args.3@ =~= path + seq![47u8] + args.3@);
    }
}

/// A known name that a `mknod` answers for keeps standing for its node, and nothing changes. A
/// new one gets a node that no other has, with one link, and a path: that of the directory,
/// one separator and the name.
pub proof fn law_mknod_names_the_node<P: PathFilesystem>(
    args: (
        &mut PathNodeFs<P>,
        &mut Cx<PathNode<P::NodeState>>,
        NodeId,
        &[u8],
        u32,
        u32,
        u32,
        &Caller,
    ),
    id: NodeId,
)
    requires
        old(args.0).wf(),
        old(args.1)@.inv(),
        old(args.0).tree(old(args.1)@).coherent(),
        old(args.0).tree(old(args.1)@).can_discover(args.2, args.3@),
        call_ensures(PathNodeFs::<P>::mknod, args, Ok::<NodeId, Errno>(id)),
    ensures
        ({
            let d = DentryView { parent: args.2@, name: args.3@ };
            let names = old(args.0).names();
            let nodes = old(args.1)@.nodes;
            if names.names.contains_key(d) {
                &&& id@ == names.names[d]
                &&& final(args.0).names() == names
                &&& final(args.1)@ == old(args.1)@
            } else {
                &&& !nodes.contains_key(id@)
                &&& final(args.0).names().names == names.names.insert(d, id@)
                &&& final(args.0).names().aliases == names.aliases.insert(id@, set![d])
                &&& final(args.1)@.nodes.contains_key(id@)
                &&& final(args.1)@.nodes.remove(id@) == nodes
                &&& final(args.1)@.nodes[id@].parent == args.2
                &&& final(args.1)@.nodes[id@].links == 1
                &&& final(args.1)@.nodes[id@].lookups == 0
                &&& final(args.1)@.nodes[id@].opens == 0
            }
        }),
        ({
            let path = old(args.0).names().path(args.2@)->0;
            !old(args.0).names().names.contains_key(DentryView { parent: args.2@, name: args.3@ })
                && old(args.1)@.nodes.contains_key(1) && old(args.0).names().resolves(args.2@)
                && args.3@.len() > 0 && !args.3@.contains(47u8) ==> final(args.0).names().path(id@)
                == Some(
                if path.last() == 47 {
                    path + args.3@
                } else {
                    path + seq![47u8] + args.3@
                },
            )
        }),
{
    let before = old(args.0).tree(old(args.1)@);
    old(args.0).lemma_names_agree();
    let (at, outcome) = choose|
        at: PathNodeRef<'_, P::NodeState>,
        outcome: Result<PathEntry<P::NodeState>, Errno>,
    |
        #[trigger] call_ensures(
            P::mknod,
            (&old(args.0).filesystem(), at, args.3, args.4, args.5, args.6, args.7),
            outcome,
        ) && PathNodeFs::<P>::creation_concluded(
            before,
            args.2,
            args.3@,
            outcome,
            final(args.0).tree(final(args.1)@),
            final(args.0).pending(),
            Ok::<NodeId, Errno>(id),
        );
    let entry = outcome->Ok_0;
    lemma_discovered(before, args.2, args.3@, entry.state);
    let path = before.names.path(args.2@)->0;
    if !before.names.names.contains_key(DentryView { parent: args.2@, name: args.3@ })
        && before.nodes.nodes.contains_key(1) && before.names.resolves(args.2@) && args.3@.len() > 0
        && !args.3@.contains(47u8) {
        crate::tree::law_discovery_adds_one_path(before, args.2, args.3@, entry.state, args.2@);
        crate::namespace::law_paths_are_absolute(before.names, args.2@);
        assert(args.3@[0] != 47u8);
        assert(path.push(47) + args.3@ =~= path + seq![47u8] + args.3@);
    }
}

/// A known name that a `mkdir` answers for keeps standing for its node, and nothing changes. A
/// new one gets a node that no other has, with one link, and a path: that of the directory,
/// one separator and the name.
pub proof fn law_mkdir_names_the_node<P: PathFilesystem>(
    args: (
        &mut PathNodeFs<P>,
        &mut Cx<PathNode<P::NodeState>>,
        NodeId,
        &[u8],
        u32,
        u32,
        &Caller,
    ),
    id: NodeId,
)
    requires
        old(args.0).wf(),
        old(args.1)@.inv(),
        old(args.0).tree(old(args.1)@).coherent(),
        old(args.0).tree(old(args.1)@).can_discover(args.2, args.3@),
        call_ensures(PathNodeFs::<P>::mkdir, args, Ok::<NodeId, Errno>(id)),
    ensures
        ({
            let d = DentryView { parent: args.2@, name: args.3@ };
            let names = old(args.0).names();
            let nodes = old(args.1)@.nodes;
            if names.names.contains_key(d) {
                &&& id@ == names.names[d]
                &&& final(args.0).names() == names
                &&& final(args.1)@ == old(args.1)@
            } else {
                &&& !nodes.contains_key(id@)
                &&& final(args.0).names().names == names.names.insert(d, id@)
                &&& final(args.0).names().aliases == names.aliases.insert(id@, set![d])
                &&& final(args.1)@.nodes.contains_key(id@)
                &&& final(args.1)@.nodes.remove(id@) == nodes
                &&& final(args.1)@.nodes[id@].parent == args.2
                &&& final(args.1)@.nodes[id@].links == 1
                &&& final(args.1)@.nodes[id@].lookups == 0
                &&& final(args.1)@.nodes[id@].opens == 0
            }
        }),
        ({
            let path = old(args.0).names().path(args.2@)->0;
            !old(args.0).names().names.contains_key(DentryView { parent: args.2@, name: args.3@ })
                && old(args.1)@.nodes.contains_key(1) && old(args.0).names().resolves(args.2@)
                && args.3@.len() > 0 && !args.3@.contains(47u8) ==> final(args.0).names().path(id@)
                == Some(
                if path.last() == 47 {
                    path + args.3@
                } else {
                    path + seq![47u8] + args.3@
                },
            )
        }),
{
    let before = old(args.0).tree(old(args.1)@);
    old(args.0).lemma_names_agree();
    let (at, outcome) = choose|
        at: PathNodeRef<'_, P::NodeState>,
        outcome: Result<PathEntry<P::NodeState>, Errno>,
    |
        #[trigger] call_ensures(
            P::mkdir,
            (&old(args.0).filesystem(), at, args.3, args.4, args.5, args.6),
            outcome,
        ) && PathNodeFs::<P>::creation_concluded(
            before,
            args.2,
            args.3@,
            outcome,
            final(args.0).tree(final(args.1)@),
            final(args.0).pending(),
            Ok::<NodeId, Errno>(id),
        );
    let entry = outcome->Ok_0;
    lemma_discovered(before, args.2, args.3@, entry.state);
    let path = before.names.path(args.2@)->0;
    if !before.names.names.contains_key(DentryView { parent: args.2@, name: args.3@ })
        && before.nodes.nodes.contains_key(1) && before.names.resolves(args.2@) && args.3@.len() > 0
        && !args.3@.contains(47u8) {
        crate::tree::law_discovery_adds_one_path(before, args.2, args.3@, entry.state, args.2@);
        crate::namespace::law_paths_are_absolute(before.names, args.2@);
        assert(args.3@[0] != 47u8);
        assert(path.push(47) + args.3@ =~= path + seq![47u8] + args.3@);
    }
}

/// A known name that a `symlink` answers for keeps standing for its node, and nothing changes. A
/// new one gets a node that no other has, with one link, and a path: that of the directory,
/// one separator and the name.
pub proof fn law_symlink_names_the_node<P: PathFilesystem>(
    args: (
        &mut PathNodeFs<P>,
        &mut Cx<PathNode<P::NodeState>>,
        NodeId,
        &[u8],
        &[u8],
        &Caller,
    ),
    id: NodeId,
)
    requires
        old(args.0).wf(),
        old(args.1)@.inv(),
        old(args.0).tree(old(args.1)@).coherent(),
        old(args.0).tree(old(args.1)@).can_discover(args.2, args.3@),
        call_ensures(PathNodeFs::<P>::symlink, args, Ok::<NodeId, Errno>(id)),
    ensures
        ({
            let d = DentryView { parent: args.2@, name: args.3@ };
            let names = old(args.0).names();
            let nodes = old(args.1)@.nodes;
            if names.names.contains_key(d) {
                &&& id@ == names.names[d]
                &&& final(args.0).names() == names
                &&& final(args.1)@ == old(args.1)@
            } else {
                &&& !nodes.contains_key(id@)
                &&& final(args.0).names().names == names.names.insert(d, id@)
                &&& final(args.0).names().aliases == names.aliases.insert(id@, set![d])
                &&& final(args.1)@.nodes.contains_key(id@)
                &&& final(args.1)@.nodes.remove(id@) == nodes
                &&& final(args.1)@.nodes[id@].parent == args.2
                &&& final(args.1)@.nodes[id@].links == 1
                &&& final(args.1)@.nodes[id@].lookups == 0
                &&& final(args.1)@.nodes[id@].opens == 0
            }
        }),
        ({
            let path = old(args.0).names().path(args.2@)->0;
            !old(args.0).names().names.contains_key(DentryView { parent: args.2@, name: args.3@ })
                && old(args.1)@.nodes.contains_key(1) && old(args.0).names().resolves(args.2@)
                && args.3@.len() > 0 && !args.3@.contains(47u8) ==> final(args.0).names().path(id@)
                == Some(
                if path.last() == 47 {
                    path + args.3@
                } else {
                    path + seq![47u8] + args.3@
                },
            )
        }),
{
    let before = old(args.0).tree(old(args.1)@);
    old(args.0).lemma_names_agree();
    let (at, outcome) = choose|
        at: PathNodeRef<'_, P::NodeState>,
        outcome: Result<PathEntry<P::NodeState>, Errno>,
    |
        #[trigger] call_ensures(
            P::symlink,
            (&old(args.0).filesystem(), at, args.3, args.4, args.5),
            outcome,
        ) && PathNodeFs::<P>::creation_concluded(
            before,
            args.2,
            args.3@,
            outcome,
            final(args.0).tree(final(args.1)@),
            final(args.0).pending(),
            Ok::<NodeId, Errno>(id),
        );
    let entry = outcome->Ok_0;
    lemma_discovered(before, args.2, args.3@, entry.state);
    let path = before.names.path(args.2@)->0;
    if !before.names.names.contains_key(DentryView { parent: args.2@, name: args.3@ })
        && before.nodes.nodes.contains_key(1) && before.names.resolves(args.2@) && args.3@.len() > 0
        && !args.3@.contains(47u8) {
        crate::tree::law_discovery_adds_one_path(before, args.2, args.3@, entry.state, args.2@);
        crate::namespace::law_paths_are_absolute(before.names, args.2@);
        assert(args.3@[0] != 47u8);
        assert(path.push(47) + args.3@ =~= path + seq![47u8] + args.3@);
    }
}

/// A known name that a `create` answers for keeps standing for its node, and nothing changes. A
/// new one gets a node that no other has, with one link, and a path: that of the directory,
/// one separator and the name.
pub proof fn law_create_names_the_node<P: PathFilesystem>(
    args: (
        &mut PathNodeFs<P>,
        &mut Cx<PathNode<P::NodeState>>,
        NodeId,
        &[u8],
        u32,
        u32,
        i32,
        &Caller,
    ),
    id: NodeId,
    opened: Opened<P::Handle>,
)
    requires
        old(args.0).wf(),
        old(args.1)@.inv(),
        old(args.0).tree(old(args.1)@).coherent(),
        old(args.0).tree(old(args.1)@).can_discover(args.2, args.3@),
        call_ensures(
            PathNodeFs::<P>::create,
            args,
            Ok::<(NodeId, Opened<P::Handle>), Errno>((id, opened)),
        ),
    ensures
        ({
            let d = DentryView { parent: args.2@, name: args.3@ };
            let names = old(args.0).names();
            let nodes = old(args.1)@.nodes;
            if names.names.contains_key(d) {
                &&& id@ == names.names[d]
                &&& final(args.0).names() == names
                &&& final(args.1)@ == old(args.1)@
            } else {
                &&& !nodes.contains_key(id@)
                &&& final(args.0).names().names == names.names.insert(d, id@)
                &&& final(args.0).names().aliases == names.aliases.insert(id@, set![d])
                &&& final(args.1)@.nodes.contains_key(id@)
                &&& final(args.1)@.nodes.remove(id@) == nodes
                &&& final(args.1)@.nodes[id@].parent == args.2
                &&& final(args.1)@.nodes[id@].links == 1
                &&& final(args.1)@.nodes[id@].lookups == 0
                &&& final(args.1)@.nodes[id@].opens == 0
            }
        }),
        ({
            let path = old(args.0).names().path(args.2@)->0;
            !old(args.0).names().names.contains_key(DentryView { parent: args.2@, name: args.3@ })
                && old(args.1)@.nodes.contains_key(1) && old(args.0).names().resolves(args.2@)
                && args.3@.len() > 0 && !args.3@.contains(47u8) ==> final(args.0).names().path(id@)
                == Some(
                if path.last() == 47 {
                    path + args.3@
                } else {
                    path + seq![47u8] + args.3@
                },
            )
        }),
{
    let before = old(args.0).tree(old(args.1)@);
    old(args.0).lemma_names_agree();
    let (at, outcome) = choose|
        at: PathNodeRef<'_, P::NodeState>,
        outcome: Result<(PathEntry<P::NodeState>, Opened<P::Handle>), Errno>,
    |
        #[trigger] call_ensures(
            P::create,
            (&old(args.0).filesystem(), at, args.3, args.4, args.5, args.6, args.7),
            outcome,
        ) && PathNodeFs::<P>::creation_concluded(
            before,
            args.2,
            args.3@,
            match outcome { Ok((entry, _)) => Ok(entry), Err(e) => Err(e) },
            final(args.0).tree(final(args.1)@),
            final(args.0).pending(),
            Ok::<NodeId, Errno>(id),
        ) && outcome is Ok;
    let entry = outcome->Ok_0.0;
    lemma_discovered(before, args.2, args.3@, entry.state);
    let path = before.names.path(args.2@)->0;
    if !before.names.names.contains_key(DentryView { parent: args.2@, name: args.3@ })
        && before.nodes.nodes.contains_key(1) && before.names.resolves(args.2@) && args.3@.len() > 0
        && !args.3@.contains(47u8) {
        crate::tree::law_discovery_adds_one_path(before, args.2, args.3@, entry.state, args.2@);
        crate::namespace::law_paths_are_absolute(before.names, args.2@);
        assert(args.3@[0] != 47u8);
        assert(path.push(47) + args.3@ =~= path + seq![47u8] + args.3@);
    }
}

/// A `lookup` in a directory that is gone or has no path fails with `ENOENT`; any other failure
/// is the filesystem's own. Either way no name and no node changes.
pub proof fn law_failed_lookup_changes_nothing<P: PathFilesystem>(
    args: (
        &mut PathNodeFs<P>,
        &mut Cx<PathNode<P::NodeState>>,
        NodeId,
        &[u8],
        &Caller,
    ),
    reply: Result<Option<NodeId>, Errno>,
)
    requires
        call_ensures(PathNodeFs::<P>::lookup, args, reply),
    ensures
        !old(args.1)@.nodes.contains_key(args.2@) || old(args.0).names().path(args.2@) is None
            ==> reply == Err::<Option<NodeId>, Errno>(Errno(2)),
        reply is Err ==> final(args.0).names() == old(args.0).names() && final(args.1)@ == old(
            args.1,
        )@ && final(args.0).filesystem() == old(args.0).filesystem(),
        reply matches Err(e) ==> old(args.1)@.nodes.contains_key(args.2@) && old(
            args.0,
        ).names().path(args.2@) is Some ==> exists|at: PathNodeRef<'_, P::NodeState>|
            #[trigger] call_ensures(
                P::lookup,
                (&old(args.0).filesystem(), at, args.3, args.4),
                Err::<Option<PathEntry<P::NodeState>>, Errno>(e),
            ),
        reply == Ok::<Option<NodeId>, Errno>(None) ==> (exists|at: PathNodeRef<'_, P::NodeState>|
            #[trigger] call_ensures(
                P::lookup,
                (&old(args.0).filesystem(), at, args.3, args.4),
                Ok::<Option<PathEntry<P::NodeState>>, Errno>(None),
            )) && final(args.0).names() == old(args.0).names() && final(args.1)@ == old(args.1)@,
{
    if old(args.1)@.nodes.contains_key(args.2@) && old(args.0).names().path(args.2@) is Some {
        let (at, outcome) = choose|
            at: PathNodeRef<'_, P::NodeState>,
            outcome: Result<Option<PathEntry<P::NodeState>>, Errno>,
        |
            #[trigger] call_ensures(
                P::lookup,
                (&old(args.0).filesystem(), at, args.3, args.4),
                outcome,
            ) && PathNodeFs::<P>::lookup_concluded(
                old(args.0).tree(old(args.1)@),
                args.2,
                args.3@,
                outcome,
                final(args.0).tree(final(args.1)@),
                final(args.0).pending(),
                reply,
            );
        assert(call_ensures(
            P::lookup,
            (&old(args.0).filesystem(), at, args.3, args.4),
            outcome,
        ));
        if reply is Err {
            assert(outcome == Err::<Option<PathEntry<P::NodeState>>, Errno>(reply->Err_0));
        }
    }
}

/// A `mknod` in a directory that is gone or has no path fails with `ENOENT`; any other failure
/// is the filesystem's own. Either way no name and no node changes.
pub proof fn law_failed_mknod_changes_nothing<P: PathFilesystem>(
    args: (
        &mut PathNodeFs<P>,
        &mut Cx<PathNode<P::NodeState>>,
        NodeId,
        &[u8],
        u32,
        u32,
        u32,
        &Caller,
    ),
    reply: Result<NodeId, Errno>,
)
    requires
        call_ensures(PathNodeFs::<P>::mknod, args, reply),
    ensures
        !old(args.1)@.nodes.contains_key(args.2@) || old(args.0).names().path(args.2@) is None
            ==> reply == Err::<NodeId, Errno>(Errno(2)),
        reply is Err ==> final(args.0).names() == old(args.0).names() && final(args.1)@ == old(
            args.1,
        )@ && final(args.0).filesystem() == old(args.0).filesystem(),
        reply matches Err(e) ==> old(args.1)@.nodes.contains_key(args.2@) && old(
            args.0,
        ).names().path(args.2@) is Some ==> exists|at: PathNodeRef<'_, P::NodeState>|
            #[trigger] call_ensures(
                P::mknod,
                (&old(args.0).filesystem(), at, args.3, args.4, args.5, args.6, args.7),
                Err::<PathEntry<P::NodeState>, Errno>(e),
            ),
{
    if old(args.1)@.nodes.contains_key(args.2@) && old(args.0).names().path(args.2@) is Some {
        let (at, outcome) = choose|
            at: PathNodeRef<'_, P::NodeState>,
            outcome: Result<PathEntry<P::NodeState>, Errno>,
        |
            #[trigger] call_ensures(
                P::mknod,
                (&old(args.0).filesystem(), at, args.3, args.4, args.5, args.6, args.7),
                outcome,
            ) && PathNodeFs::<P>::creation_concluded(
                old(args.0).tree(old(args.1)@),
                args.2,
                args.3@,
                outcome,
                final(args.0).tree(final(args.1)@),
                final(args.0).pending(),
                reply,
            );
        assert(call_ensures(
            P::mknod,
            (&old(args.0).filesystem(), at, args.3, args.4, args.5, args.6, args.7),
            outcome,
        ));
        if reply is Err {
            assert(outcome == Err::<PathEntry<P::NodeState>, Errno>(reply->Err_0));
        }
    }
}

/// A `mkdir` in a directory that is gone or has no path fails with `ENOENT`; any other failure
/// is the filesystem's own. Either way no name and no node changes.
pub proof fn law_failed_mkdir_changes_nothing<P: PathFilesystem>(
    args: (
        &mut PathNodeFs<P>,
        &mut Cx<PathNode<P::NodeState>>,
        NodeId,
        &[u8],
        u32,
        u32,
        &Caller,
    ),
    reply: Result<NodeId, Errno>,
)
    requires
        call_ensures(PathNodeFs::<P>::mkdir, args, reply),
    ensures
        !old(args.1)@.nodes.contains_key(args.2@) || old(args.0).names().path(args.2@) is None
            ==> reply == Err::<NodeId, Errno>(Errno(2)),
        reply is Err ==> final(args.0).names() == old(args.0).names() && final(args.1)@ == old(
            args.1,
        )@ && final(args.0).filesystem() == old(args.0).filesystem(),
        reply matches Err(e) ==> old(args.1)@.nodes.contains_key(args.2@) && old(
            args.0,
        ).names().path(args.2@) is Some ==> exists|at: PathNodeRef<'_, P::NodeState>|
            #[trigger] call_ensures(
                P::mkdir,
                (&old(args.0).filesystem(), at, args.3, args.4, args.5, args.6),
                Err::<PathEntry<P::NodeState>, Errno>(e),
            ),
{
    if old(args.1)@.nodes.contains_key(args.2@) && old(args.0).names().path(args.2@) is Some {
        let (at, outcome) = choose|
            at: PathNodeRef<'_, P::NodeState>,
            outcome: Result<PathEntry<P::NodeState>, Errno>,
        |
            #[trigger] call_ensures(
                P::mkdir,
                (&old(args.0).filesystem(), at, args.3, args.4, args.5, args.6),
                outcome,
            ) && PathNodeFs::<P>::creation_concluded(
                old(args.0).tree(old(args.1)@),
                args.2,
                args.3@,
                outcome,
                final(args.0).tree(final(args.1)@),
                final(args.0).pending(),
                reply,
            );
        assert(call_ensures(
            P::mkdir,
            (&old(args.0).filesystem(), at, args.3, args.4, args.5, args.6),
            outcome,
        ));
        if reply is Err {
            assert(outcome == Err::<PathEntry<P::NodeState>, Errno>(reply->Err_0));
        }
    }
}

/// A `symlink` in a directory that is gone or has no path fails with `ENOENT`; any other failure
/// is the filesystem's own. Either way no name and no node changes.
pub proof fn law_failed_symlink_changes_nothing<P: PathFilesystem>(
    args: (
        &mut PathNodeFs<P>,
        &mut Cx<PathNode<P::NodeState>>,
        NodeId,
        &[u8],
        &[u8],
        &Caller,
    ),
    reply: Result<NodeId, Errno>,
)
    requires
        call_ensures(PathNodeFs::<P>::symlink, args, reply),
    ensures
        !old(args.1)@.nodes.contains_key(args.2@) || old(args.0).names().path(args.2@) is None
            ==> reply == Err::<NodeId, Errno>(Errno(2)),
        reply is Err ==> final(args.0).names() == old(args.0).names() && final(args.1)@ == old(
            args.1,
        )@ && final(args.0).filesystem() == old(args.0).filesystem(),
        reply matches Err(e) ==> old(args.1)@.nodes.contains_key(args.2@) && old(
            args.0,
        ).names().path(args.2@) is Some ==> exists|at: PathNodeRef<'_, P::NodeState>|
            #[trigger] call_ensures(
                P::symlink,
                (&old(args.0).filesystem(), at, args.3, args.4, args.5),
                Err::<PathEntry<P::NodeState>, Errno>(e),
            ),
{
    if old(args.1)@.nodes.contains_key(args.2@) && old(args.0).names().path(args.2@) is Some {
        let (at, outcome) = choose|
            at: PathNodeRef<'_, P::NodeState>,
            outcome: Result<PathEntry<P::NodeState>, Errno>,
        |
            #[trigger] call_ensures(
                P::symlink,
                (&old(args.0).filesystem(), at, args.3, args.4, args.5),
                outcome,
            ) && PathNodeFs::<P>::creation_concluded(
                old(args.0).tree(old(args.1)@),
                args.2,
                args.3@,
                outcome,
                final(args.0).tree(final(args.1)@),
                final(args.0).pending(),
                reply,
            );
        assert(call_ensures(
            P::symlink,
            (&old(args.0).filesystem(), at, args.3, args.4, args.5),
            outcome,
        ));
        if reply is Err {
            assert(outcome == Err::<PathEntry<P::NodeState>, Errno>(reply->Err_0));
        }
    }
}

/// A `create` in a directory that is gone or has no path fails with `ENOENT`; any other failure
/// is the filesystem's own. Either way no name and no node changes.
pub proof fn law_failed_create_changes_nothing<P: PathFilesystem>(
    args: (
        &mut PathNodeFs<P>,
        &mut Cx<PathNode<P::NodeState>>,
        NodeId,
        &[u8],
        u32,
        u32,
        i32,
        &Caller,
    ),
    reply: Result<(NodeId, Opened<P::Handle>), Errno>,
)
    requires
        call_ensures(PathNodeFs::<P>::create, args, reply),
    ensures
        !old(args.1)@.nodes.contains_key(args.2@) || old(args.0).names().path(args.2@) is None
            ==> reply == Err::<(NodeId, Opened<P::Handle>), Errno>(Errno(2)),
        reply is Err ==> final(args.0).names() == old(args.0).names() && final(args.1)@ == old(
            args.1,
        )@ && final(args.0).filesystem() == old(args.0).filesystem(),
        reply matches Err(e) ==> old(args.1)@.nodes.contains_key(args.2@) && old(
            args.0,
        ).names().path(args.2@) is Some ==> exists|at: PathNodeRef<'_, P::NodeState>|
            #[trigger] call_ensures(
                P::create,
                (&old(args.0).filesystem(), at, args.3, args.4, args.5, args.6, args.7),
                Err::<(PathEntry<P::NodeState>, Opened<P::Handle>), Errno>(e),
            ),
{
    if old(args.1)@.nodes.contains_key(args.2@) && old(args.0).names().path(args.2@) is Some {
        let (at, outcome) = choose|
            at: PathNodeRef<'_, P::NodeState>,
            outcome: Result<(PathEntry<P::NodeState>, Opened<P::Handle>), Errno>,
        |
            #[trigger] call_ensures(
                P::create,
                (&old(args.0).filesystem(), at, args.3, args.4, args.5, args.6, args.7),
                outcome,
            ) && PathNodeFs::<P>::creation_concluded(
                old(args.0).tree(old(args.1)@),
                args.2,
                args.3@,
                match outcome { Ok((entry, _)) => Ok(entry), Err(e) => Err(e) },
                final(args.0).tree(final(args.1)@),
                final(args.0).pending(),
                match reply { Ok((id, _)) => Ok(id), Err(e) => Err(e) },
            );
        assert(call_ensures(
            P::create,
            (&old(args.0).filesystem(), at, args.3, args.4, args.5, args.6, args.7),
            outcome,
        ));
        if reply is Err {
            assert(outcome == Err::<(PathEntry<P::NodeState>, Opened<P::Handle>), Errno>(reply->Err_0));
        }
    }
}

} // verus!
