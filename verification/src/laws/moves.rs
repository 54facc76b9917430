//! Removing, renaming and linking: which names and nodes change, and which do not.

use vstd::prelude::*;

use crate::attr::NodeAttr;
use crate::cx::{Cx, NodeRecord};
use crate::dentry::DentryView;
use crate::errno::Errno;
use crate::node_fs::Caller;
use crate::node_id::NodeId;
use crate::path_fs::{PathFilesystem, PathNodeRef};
use crate::path_node_fs::PathNodeFs;
use crate::tree::{PathNode, Tree};

verus! {

/// The live nodes after one of them has lost a name: it has one link less, and is gone if
/// nothing else holds on to it.
pub open spec fn with_one_link_less<N>(
    nodes: Map<u64, NodeRecord<N>>,
    id: u64,
) -> Map<u64, NodeRecord<N>> {
    let node = nodes[id];
    if node.links > 1 || node.lookups > 0 || node.opens > 0 {
        nodes.insert(id, NodeRecord { links: (node.links - 1) as u64, ..node })
    } else {
        nodes.remove(id)
    }
}

/// The names of a node.
pub open spec fn names_of(aliases: Map<u64, Set<DentryView>>, id: u64) -> Set<DentryView> {
    if aliases.contains_key(id) {
        aliases[id]
    } else {
        Set::empty()
    }
}

proof fn lemma_name_removed<S>(before: Tree<S>, d: DentryView)
    requires
        before.names.inv(),
        before.coherent(),
        before.names.names.contains_key(d),
    ensures
        ({
            let id = before.names.names[d];
            let after = before.name_removed(d);
            &&& after.names.names == before.names.names.remove(d)
            &&& names_of(after.names.aliases, id) == names_of(before.names.aliases, id).remove(d)
            &&& forall|other: u64|
                other != id ==> #[trigger] names_of(after.names.aliases, other) == names_of(
                    before.names.aliases,
                    other,
                )
            &&& before.nodes.nodes.contains_key(id)
            &&& after.nodes.nodes == with_one_link_less(before.nodes.nodes, id)
        }),
{
    let id = before.names.names[d];
    assert(before.names.aliases.contains_key(id));
    assert(before.names.aliases[id].len() >= 1);
}

/// A name that `unlink` removes stands for nothing any more; its node has one name and one link
/// less, and every other name and node stays. The filesystem was asked in the directory by
/// the directory's own path, and agreed.
pub proof fn law_unlink_removes_one_name<P: PathFilesystem>(
    args: (&mut PathNodeFs<P>, &mut Cx<PathNode<P::NodeState>>, NodeId, &[u8], &Caller),
    id: u64,
    other: u64,
)
    requires
        old(args.0).wf(),
        old(args.0).tree(old(args.1)@).coherent(),
        call_ensures(PathNodeFs::<P>::unlink, args, Ok::<(), Errno>(())),
        other != id,
    ensures
        ({
            let d = DentryView { parent: args.2@, name: args.3@ };
            let names = old(args.0).names();
            let left = final(args.0).names();
            &&& names.names.contains_key(d) && names.names[d] == id ==> {
                &&& left.names == names.names.remove(d)
                &&& names_of(left.aliases, id) == names_of(names.aliases, id).remove(d)
                &&& names_of(left.aliases, other) == names_of(names.aliases, other)
                &&& final(args.1)@.nodes == with_one_link_less(old(args.1)@.nodes, id)
            }
            &&& !names.names.contains_key(d) ==> left == names && final(args.1)@ == old(args.1)@
        }),
        exists|at: PathNodeRef<'_, P::NodeState>|
            at.path_view() == old(args.0).names().path(args.2@) && at.state_view() == old(
                args.1,
            )@.nodes[args.2@].payload.state() && #[trigger] call_ensures(
                P::unlink,
                (&old(args.0).filesystem(), at, args.3, args.4),
                Ok::<(), Errno>(()),
            ),
{
    old(args.0).lemma_names_agree();
    let before = old(args.0).tree(old(args.1)@);
    let d = DentryView { parent: args.2@, name: args.3@ };
    if before.names.names.contains_key(d) {
        lemma_name_removed(before, d);
    }
}

/// A `unlink` in a directory that is gone or has no path fails with `ENOENT`; any other failure
/// is the filesystem's own. Either way no name and no node changes.
pub proof fn law_failed_unlink_changes_nothing<P: PathFilesystem>(
    args: (&mut PathNodeFs<P>, &mut Cx<PathNode<P::NodeState>>, NodeId, &[u8], &Caller),
    reply: Result<(), Errno>,
)
    requires
        call_ensures(PathNodeFs::<P>::unlink, args, reply),
    ensures
        !old(args.1)@.nodes.contains_key(args.2@) || old(args.0).names().path(args.2@) is None
            ==> reply == Err::<(), Errno>(Errno(2)),
        reply is Err ==> final(args.0).names() == old(args.0).names() && final(args.1)@ == old(
            args.1,
        )@ && final(args.0).filesystem() == old(args.0).filesystem(),
        old(args.1)@.nodes.contains_key(args.2@) && old(args.0).names().path(args.2@) is Some
            ==> exists|at: PathNodeRef<'_, P::NodeState>|
            #[trigger] call_ensures(
                P::unlink,
                (&old(args.0).filesystem(), at, args.3, args.4),
                reply,
            ),
{
}

/// A name that `rmdir` removes stands for nothing any more; its node has one name and one link
/// less, and every other name and node stays. The filesystem was asked in the directory by
/// the directory's own path, and agreed.
pub proof fn law_rmdir_removes_one_name<P: PathFilesystem>(
    args: (&mut PathNodeFs<P>, &mut Cx<PathNode<P::NodeState>>, NodeId, &[u8], &Caller),
    id: u64,
    other: u64,
)
    requires
        old(args.0).wf(),
        old(args.0).tree(old(args.1)@).coherent(),
        call_ensures(PathNodeFs::<P>::rmdir, args, Ok::<(), Errno>(())),
        other != id,
    ensures
        ({
            let d = DentryView { parent: args.2@, name: args.3@ };
            let names = old(args.0).names();
            let left = final(args.0).names();
            &&& names.names.contains_key(d) && names.names[d] == id ==> {
                &&& left.names == names.names.remove(d)
                &&& names_of(left.aliases, id) == names_of(names.aliases, id).remove(d)
                &&& names_of(left.aliases, other) == names_of(names.aliases, other)
                &&& final(args.1)@.nodes == with_one_link_less(old(args.1)@.nodes, id)
            }
            &&& !names.names.contains_key(d) ==> left == names && final(args.1)@ == old(args.1)@
        }),
        exists|at: PathNodeRef<'_, P::NodeState>|
            at.path_view() == old(args.0).names().path(args.2@) && at.state_view() == old(
                args.1,
            )@.nodes[args.2@].payload.state() && #[trigger] call_ensures(
                P::rmdir,
                (&old(args.0).filesystem(), at, args.3, args.4),
                Ok::<(), Errno>(()),
            ),
{
    old(args.0).lemma_names_agree();
    let before = old(args.0).tree(old(args.1)@);
    let d = DentryView { parent: args.2@, name: args.3@ };
    if before.names.names.contains_key(d) {
        lemma_name_removed(before, d);
    }
}

/// A `rmdir` in a directory that is gone or has no path fails with `ENOENT`; any other failure
/// is the filesystem's own. Either way no name and no node changes.
pub proof fn law_failed_rmdir_changes_nothing<P: PathFilesystem>(
    args: (&mut PathNodeFs<P>, &mut Cx<PathNode<P::NodeState>>, NodeId, &[u8], &Caller),
    reply: Result<(), Errno>,
)
    requires
        call_ensures(PathNodeFs::<P>::rmdir, args, reply),
    ensures
        !old(args.1)@.nodes.contains_key(args.2@) || old(args.0).names().path(args.2@) is None
            ==> reply == Err::<(), Errno>(Errno(2)),
        reply is Err ==> final(args.0).names() == old(args.0).names() && final(args.1)@ == old(
            args.1,
        )@ && final(args.0).filesystem() == old(args.0).filesystem(),
        old(args.1)@.nodes.contains_key(args.2@) && old(args.0).names().path(args.2@) is Some
            ==> exists|at: PathNodeRef<'_, P::NodeState>|
            #[trigger] call_ensures(
                P::rmdir,
                (&old(args.0).filesystem(), at, args.3, args.4),
                reply,
            ),
{
}

/// A rename makes the new name stand for the node that the old one stood for, and the old one
/// for nothing. That node keeps all but its directory; a node that the new name stood for
/// loses that name; every other name and node stays. Nothing changes if both names already
/// stand for one node. The filesystem was asked with both directories' own paths, and agreed.
pub proof fn law_rename_moves_one_name<P: PathFilesystem>(
    args: (
        &mut PathNodeFs<P>,
        &mut Cx<PathNode<P::NodeState>>,
        NodeId,
        &[u8],
        NodeId,
        &[u8],
        u32,
        &Caller,
    ),
    other: u64,
)
    requires
        old(args.0).wf(),
        old(args.0).tree(old(args.1)@).coherent(),
        call_ensures(PathNodeFs::<P>::rename, args, Ok::<(), Errno>(())),
    ensures
        ({
            let a = DentryView { parent: args.2@, name: args.3@ };
            let b = DentryView { parent: args.4@, name: args.5@ };
            let names = old(args.0).names();
            let left = final(args.0).names();
            let nodes = old(args.1)@.nodes;
            let kept = final(args.1)@.nodes;
            let source = names.names[a];
            let moved = names.names.contains_key(a) && !(names.names.contains_key(b)
                && names.names[b] == source);
            &&& !moved ==> left == names && final(args.1)@ == old(args.1)@
            &&& moved ==> {
                &&& left.names == names.names.remove(a).insert(b, source)
                &&& names_of(left.aliases, source) == names_of(names.aliases, source).remove(
                    a,
                ).insert(b)
                &&& kept.contains_key(source)
                &&& kept[source] == (NodeRecord { parent: args.4, ..nodes[source] })
            }
            &&& moved && names.names.contains_key(b) && other == names.names[b] ==> {
                &&& names_of(left.aliases, other) == names_of(names.aliases, other).remove(b)
                &&& kept.remove(source) == with_one_link_less(nodes, other).remove(source)
            }
            &&& moved && !names.names.contains_key(b) ==> kept.remove(source) == nodes.remove(source)
            &&& moved && other != source && !(names.names.contains_key(b) && other == names.names[b])
                ==> names_of(left.aliases, other) == names_of(names.aliases, other)
        }),
        args.6 == 0,
        exists|at: PathNodeRef<'_, P::NodeState>, to: PathNodeRef<'_, P::NodeState>|
            at.path_view() == old(args.0).names().path(args.2@) && at.state_view() == old(
                args.1,
            )@.nodes[args.2@].payload.state() && to.path_view() == old(args.0).names().path(args.4@)
                && to.state_view() == old(args.1)@.nodes[args.4@].payload.state()
                && #[trigger] call_ensures(
                P::rename,
                (&old(args.0).filesystem(), at, args.3, to, args.5, args.7),
                Ok::<(), Errno>(()),
            ),
{
    old(args.0).lemma_names_agree();
    let before = old(args.0).tree(old(args.1)@);
    let a = DentryView { parent: args.2@, name: args.3@ };
    let b = DentryView { parent: args.4@, name: args.5@ };
    let known = before.names.names;
    if known.contains_key(a) && !(known.contains_key(b) && known[b] == known[a]) {
        let source = known[a];
        let after = before.renamed(a, args.4, args.5@);
        let cleared = before.name_removed(b);
        crate::tree::law_rename_keeps_the_node(before, a, args.4, args.5@);
        if known.contains_key(b) {
            lemma_name_removed(before, b);
            assert(before.names.aliases.contains_key(known[b]));
        }
        assert(before.names.aliases.contains_key(source));
        assert(before.nodes.nodes[source].links >= 1);
        assert(after.nodes.nodes.remove(source) =~= cleared.nodes.nodes.remove(source));
        let bare = cleared.names.without(a);
        assert(names_of(bare.aliases, source) =~= names_of(cleared.names.aliases, source).remove(a));
        assert(other != source ==> names_of(bare.aliases, other) == names_of(
            cleared.names.aliases,
            other,
        ));
    }
}

/// Renaming with flags is refused with `EOPNOTSUPP`. A rename of which either directory is
/// gone or has no path fails with `ENOENT`; any other failure is the filesystem's own. No
/// name and no node changes by a failure.
pub proof fn law_failed_rename_changes_nothing<P: PathFilesystem>(
    args: (
        &mut PathNodeFs<P>,
        &mut Cx<PathNode<P::NodeState>>,
        NodeId,
        &[u8],
        NodeId,
        &[u8],
        u32,
        &Caller,
    ),
    reply: Result<(), Errno>,
)
    requires
        call_ensures(PathNodeFs::<P>::rename, args, reply),
    ensures
        args.6 != 0 ==> reply == Err::<(), Errno>(Errno(95)),
        ({
            let placed = |id: NodeId|
                old(args.1)@.nodes.contains_key(id@) && old(args.0).names().path(id@) is Some;
            &&& args.6 == 0 && !(placed(args.2) && placed(args.4)) ==> reply == Err::<(), Errno>(
                Errno(2),
            )
            &&& args.6 == 0 && placed(args.2) && placed(args.4) ==> exists|
                at: PathNodeRef<'_, P::NodeState>,
                to: PathNodeRef<'_, P::NodeState>,
            | #[trigger]
                call_ensures(
                    P::rename,
                    (&old(args.0).filesystem(), at, args.3, to, args.5, args.7),
                    reply,
                )
        }),
        reply is Err ==> final(args.0).names() == old(args.0).names() && final(args.1)@ == old(
            args.1,
        )@ && final(args.0).filesystem() == old(args.0).filesystem(),
{
}

/// A link gives a node one name and one link more, and is answered with that node; every
/// other name and node stays. The filesystem was asked with both nodes' own paths, and agreed.
pub proof fn law_link_adds_one_name<P: PathFilesystem>(
    args: (&mut PathNodeFs<P>, &mut Cx<PathNode<P::NodeState>>, NodeId, NodeId, &[u8], &Caller),
    id: NodeId,
    other: u64,
)
    requires
        old(args.1)@.nodes[args.2@].links < u64::MAX,
        call_ensures(PathNodeFs::<P>::link, args, Ok::<NodeId, Errno>(id)),
        other != args.2@,
    ensures
        id == args.2,
        ({
            let d = DentryView { parent: args.3@, name: args.4@ };
            let names = old(args.0).names();
            let left = final(args.0).names();
            let node = old(args.1)@.nodes[id@];
            &&& left.names == names.names.insert(d, id@)
            &&& names_of(left.aliases, id@) == names_of(names.aliases, id@).insert(d)
            &&& names_of(left.aliases, other) == names_of(names.aliases, other)
            &&& old(args.1)@.nodes.contains_key(id@)
            &&& final(args.1)@.nodes == old(args.1)@.nodes.insert(
                id@,
                NodeRecord { links: (node.links + 1) as u64, ..node },
            )
        }),
        exists|
            at: PathNodeRef<'_, P::NodeState>,
            to: PathNodeRef<'_, P::NodeState>,
            attr: NodeAttr,
        |
            at.path_view() == old(args.0).names().path(args.2@) && at.state_view() == old(
                args.1,
            )@.nodes[args.2@].payload.state() && to.path_view() == old(args.0).names().path(args.3@)
                && to.state_view() == old(args.1)@.nodes[args.3@].payload.state()
                && #[trigger] call_ensures(
                P::link,
                (&old(args.0).filesystem(), at, to, args.4, args.5),
                Ok::<NodeAttr, Errno>(attr),
            ),
{
    let (at, to, outcome) = choose|
        at: PathNodeRef<'_, P::NodeState>,
        to: PathNodeRef<'_, P::NodeState>,
        outcome: Result<NodeAttr, Errno>,
    |
        at.path_view() == old(args.0).names().path(args.2@) && at.state_view() == old(
            args.1,
        )@.nodes[args.2@].payload.state() && to.path_view() == old(args.0).names().path(args.3@)
            && to.state_view() == old(args.1)@.nodes[args.3@].payload.state()
            && #[trigger] call_ensures(
            P::link,
            (&old(args.0).filesystem(), at, to, args.4, args.5),
            outcome,
        ) && PathNodeFs::<P>::link_concluded(
            old(args.0).tree(old(args.1)@),
            args.2,
            args.3,
            args.4@,
            outcome,
            final(args.0).tree(final(args.1)@),
            Ok::<NodeId, Errno>(id),
        );
    assert(outcome == Ok::<NodeAttr, Errno>(outcome->Ok_0));
}

/// A link of which either node is gone or has no path fails with `ENOENT`; any other failure
/// is the filesystem's own. No name and no node changes by a failure.
pub proof fn law_failed_link_changes_nothing<P: PathFilesystem>(
    args: (&mut PathNodeFs<P>, &mut Cx<PathNode<P::NodeState>>, NodeId, NodeId, &[u8], &Caller),
    reply: Result<NodeId, Errno>,
)
    requires
        call_ensures(PathNodeFs::<P>::link, args, reply),
    ensures
        ({
            let placed = |id: NodeId|
                old(args.1)@.nodes.contains_key(id@) && old(args.0).names().path(id@) is Some;
            &&& !(placed(args.2) && placed(args.3)) ==> reply == Err::<NodeId, Errno>(Errno(2))
            &&& placed(args.2) && placed(args.3) && reply is Err ==> exists|
                at: PathNodeRef<'_, P::NodeState>,
                to: PathNodeRef<'_, P::NodeState>,
            | #[trigger]
                call_ensures(
                    P::link,
                    (&old(args.0).filesystem(), at, to, args.4, args.5),
                    Err::<NodeAttr, Errno>(reply->Err_0),
                )
        }),
        reply is Err ==> final(args.0).names() == old(args.0).names() && final(args.1)@ == old(
            args.1,
        )@ && final(args.0).filesystem() == old(args.0).filesystem(),
{
    let placed = |id: NodeId|
        old(args.1)@.nodes.contains_key(id@) && old(args.0).names().path(id@) is Some;
    if placed(args.2) && placed(args.3) && reply is Err {
        let (at, to, outcome) = choose|
            at: PathNodeRef<'_, P::NodeState>,
            to: PathNodeRef<'_, P::NodeState>,
            outcome: Result<NodeAttr, Errno>,
        |
            #[trigger] call_ensures(
                P::link,
                (&old(args.0).filesystem(), at, to, args.4, args.5),
                outcome,
            ) && PathNodeFs::<P>::link_concluded(
                old(args.0).tree(old(args.1)@),
                args.2,
                args.3,
                args.4@,
                outcome,
                final(args.0).tree(final(args.1)@),
                reply,
            );
        assert(outcome == Err::<NodeAttr, Errno>(reply->Err_0));
    }
}

} // verus!
