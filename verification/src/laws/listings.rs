//! Listings: each entry that a filesystem offers reaches the kernel's sink as it is, and a
//! listing that fails leaves no trace.

use vstd::prelude::*;

use crate::attr::{FileKind, NodeAttr};
use crate::cx::Cx;
use crate::dentry::DentryView;
use crate::discovery::ListingSink;
use crate::errno::Errno;
use crate::node_fs::{Caller, DirSink, PlusDirSink};
use crate::node_id::NodeId;
use crate::path_fs::{
    Offer,
    PathDirIdentity,
    PathDirSink,
    PathFilesystem,
    PathNodeRef,
    PathPlusDirSink,
    PlusOffer,
};
use crate::path_node_fs::PathNodeFs;
use crate::tree::PathNode;

verus! {

/// Offer `i` takes a listing from one state to the next, and one entry with the same name,
/// kind and resume cookie takes the sink behind it from one state to the next, with the same
/// answer. Nothing happens to the sink for a child that no node could be made for.
pub open spec fn reaches<S, O: DirSink>(
    this: NodeId,
    parent: NodeId,
    states: Seq<ListingSink<S, O>>,
    offers: Seq<Offer<S>>,
    ids: Seq<Option<NodeId>>,
    outputs: Seq<O>,
    i: int,
) -> bool {
    &&& PathDirSink::added(
        states[i],
        offers[i].name,
        offers[i].kind,
        offers[i].identity,
        offers[i].next_offset,
        states[i + 1],
        offers[i].accepted,
    )
    &&& ids[i] matches Some(id) ==> outputs[i].added(
        offers[i].name,
        id,
        offers[i].kind,
        offers[i].next_offset,
        outputs[i + 1],
        offers[i].accepted,
    )
    &&& ids[i] is Some && offers[i].identity is Current ==> ids[i]->0 == this
    &&& ids[i] is Some && offers[i].identity is Parent ==> ids[i]->0 == parent
    &&& ids[i] is None ==> offers[i].identity is Child && !offers[i].accepted && outputs[i + 1]
        == outputs[i]
}

/// A run of offers takes a listing from `start` to `end`, and the sink behind it from `sink`
/// to `filled`.
pub open spec fn runs<S, O: DirSink>(
    this: NodeId,
    parent: NodeId,
    start: ListingSink<S, O>,
    states: Seq<ListingSink<S, O>>,
    end: ListingSink<S, O>,
    offers: Seq<Offer<S>>,
    ids: Seq<Option<NodeId>>,
    sink: O,
    outputs: Seq<O>,
    filled: O,
) -> bool {
    &&& states.len() == offers.len() + 1
    &&& states.first() == start
    &&& states.last() == end
    &&& ids.len() == offers.len()
    &&& outputs.len() == offers.len() + 1
    &&& outputs.first() == sink
    &&& outputs.last() == filled
    &&& forall|i: int|
        0 <= i < offers.len() ==> #[trigger] reaches(
            this,
            parent,
            states,
            offers,
            ids,
            outputs,
            i,
        )
}

/// A readdir asks the filesystem at the directory's own path, from the same offset. Each entry
/// that the filesystem offers reaches the sink in order, with the same name, kind and
/// resume cookie, and with its own node: `.` with the directory, `..` with the one above, and
/// a child, once taken, with the node that its name stands for afterwards. The answer is the
/// filesystem's, but `EOVERFLOW` if only a child that no node could be made for is missing.
pub proof fn law_readdir_entries_reach_the_sink<P: PathFilesystem, O: DirSink>(
    args: (
        &mut PathNodeFs<P>,
        &mut Cx<PathNode<P::NodeState>>,
        &PathNode<P::NodeState>,
        NodeId,
        NodeId,
        &P::DirHandle,
        u64,
        O,
        &Caller,
    ),
    reply: (O, Result<(), Errno>),
)
    requires
        call_ensures(PathNodeFs::<P>::readdir::<O>, args, reply),
        old(args.0).path_of(*args.2) is Some,
    ensures
        exists|
            at: PathNodeRef<'_, P::NodeState>,
            start: ListingSink<P::NodeState, O>,
            outcome: (ListingSink<P::NodeState, O>, Result<(), Errno>),
            states: Seq<ListingSink<P::NodeState, O>>,
            offers: Seq<Offer<P::NodeState>>,
            ids: Seq<Option<NodeId>>,
            outputs: Seq<O>,
        |
            at.path_view() == old(args.0).path_of(*args.2) && at.state_view() == args.2.state()
                && (#[trigger] call_ensures(
                P::readdir::<ListingSink<P::NodeState, O>>,
                (&old(args.0).filesystem(), at, args.5, args.6, start, args.8),
                outcome,
            )) && (#[trigger] runs(
                args.3,
                args.4,
                start,
                states,
                outcome.0,
                offers,
                ids,
                args.7,
                outputs,
                reply.0,
            )) && (outcome.1 is Err ==> reply.1 == outcome.1) && (outcome.1 is Ok && ids.contains(
                None,
            ) ==> reply.1 == Err::<(), Errno>(Errno(75))) && (outcome.1 is Ok && !ids.contains(None)
                ==> reply.1 is Ok) && (reply.1 is Ok ==> forall|i: int|
                0 <= i < offers.len() && (#[trigger] offers[i]).accepted && offers[i].identity is Child
                    ==> {
                    let d = DentryView { parent: args.3@, name: offers[i].name };
                    final(args.0).names().names.contains_key(d) && ids[i] is Some
                        && final(args.0).names().names[d] == ids[i]->0@
                }),
{
    broadcast use crate::node_id::node_id_is_its_ino;

    let path = old(args.0).path_of(*args.2)->0;
    let before = old(args.0).tree(old(args.1)@);
    let after = final(args.0).tree(final(args.1)@);
    let (at, start, outcome) = choose|
        at: PathNodeRef<'_, P::NodeState>,
        start: ListingSink<P::NodeState, O>,
        outcome: (ListingSink<P::NodeState, O>, Result<(), Errno>),
    |
        at.is(Some(path), args.2.state()) && start.is_start(before, args.3, args.4, args.7)
            && (#[trigger] call_ensures(
            P::readdir::<ListingSink<P::NodeState, O>>,
            (&old(args.0).filesystem(), at, args.5, args.6, start, args.8),
            outcome,
        )) && PathNodeFs::<P>::listing_concluded(outcome, after, reply) && exists|
            states: Seq<ListingSink<P::NodeState, O>>,
            offers: Seq<Offer<P::NodeState>>,
            ids: Seq<Option<NodeId>>,
            outputs: Seq<O>,
        |
            #[trigger] crate::path_fs::listing(start, states, offers, outcome.0)
                && #[trigger] crate::discovery::passed_on(
                args.3,
                args.4,
                outcome.0.progress().tree.names.names,
                offers,
                ids,
                args.7,
                outputs,
                reply.0,
            ) && outcome.0.progress().error == (if ids.contains(None) {
                Some(Errno(75))
            } else {
                None
            });
    let (states, offers, ids, outputs) = choose|
        states: Seq<ListingSink<P::NodeState, O>>,
        offers: Seq<Offer<P::NodeState>>,
        ids: Seq<Option<NodeId>>,
        outputs: Seq<O>,
    |
        #[trigger] crate::path_fs::listing(start, states, offers, outcome.0)
            && #[trigger] crate::discovery::passed_on(
            args.3,
            args.4,
            outcome.0.progress().tree.names.names,
            offers,
            ids,
            args.7,
            outputs,
            reply.0,
        ) && outcome.0.progress().error == (if ids.contains(None) {
            Some(Errno(75))
        } else {
            None
        });
    assert forall|i: int| 0 <= i < offers.len() implies #[trigger] reaches(
        args.3,
        args.4,
        states,
        offers,
        ids,
        outputs,
        i,
    ) by {
        assert(crate::path_fs::offer_made(states, offers, i));
        assert(crate::discovery::goes_on(args.3, args.4, offers, ids, outputs, i));
    }
    assert(runs(
        args.3,
        args.4,
        start,
        states,
        outcome.0,
        offers,
        ids,
        args.7,
        outputs,
        reply.0,
    ));
}

/// A readdir that fails leaves every name and every live node as it was. One of a node without a
/// path fails with `ENOENT` and leaves the sink as it was too. No readdir takes a name or a node
/// away, and it names new nodes in the listed directory alone.
pub proof fn law_failed_readdir_leaves_no_trace<P: PathFilesystem, O: DirSink>(
    args: (
        &mut PathNodeFs<P>,
        &mut Cx<PathNode<P::NodeState>>,
        &PathNode<P::NodeState>,
        NodeId,
        NodeId,
        &P::DirHandle,
        u64,
        O,
        &Caller,
    ),
    reply: (O, Result<(), Errno>),
    d: DentryView,
    id: u64,
)
    requires
        old(args.0).tree(old(args.1)@).coherent(),
        call_ensures(PathNodeFs::<P>::readdir::<O>, args, reply),
    ensures
        final(args.0).filesystem() == old(args.0).filesystem(),
        old(args.0).path_of(*args.2) is None ==> reply.0 == args.7 && reply.1 == Err::<(), Errno>(
            Errno(2),
        ),
        reply.1 is Err ==> {
            &&& final(args.0).names().names == old(args.0).names().names
            &&& final(args.0).names().aliases == old(args.0).names().aliases
            &&& final(args.1)@.nodes == old(args.1)@.nodes
        },
        old(args.0).names().names.contains_key(d) ==> final(args.0).names().names.contains_key(d)
            && final(args.0).names().names[d] == old(args.0).names().names[d],
        old(args.1)@.nodes.contains_key(id) ==> final(args.1)@.nodes.contains_key(id)
            && final(args.1)@.nodes[id] == old(args.1)@.nodes[id],
        final(args.0).names().names.contains_key(d) && !old(args.0).names().names.contains_key(d)
            ==> d.parent == args.3@,
{
    let before = old(args.0).tree(old(args.1)@);
    assert(before.names.names.dom().contains(d) == before.names.names.contains_key(d));
    assert(before.nodes.nodes.dom().contains(id) == before.nodes.nodes.contains_key(id));
}

/// One offer to a listing: `.` and `..` go on with the directory and the one above it, a child
/// that is known with its node, and one that is not with a new node, which stays if the sink
/// takes the entry and is gone again if not. What goes on has the same name, kind and resume
/// cookie. If no node can be made, nothing goes on, and the listing has failed with
/// `EOVERFLOW`.
pub proof fn law_offers_go_on_as_they_are<S, O: DirSink>(
    args: (&mut ListingSink<S, O>, &[u8], FileKind, PathDirIdentity<S>, u64),
    accepted: bool,
)
    requires
        call_ensures(<ListingSink<S, O> as PathDirSink<S>>::add, args, accepted),
        old(args.0).progress().tree.names.inv(),
        old(args.0).progress().tree.nodes.inv(),
        old(args.0).progress().tree.coherent(),
    ensures
        ({
            let p = old(args.0).progress();
            let q = final(args.0).progress();
            let d = DentryView { parent: p.this@, name: args.1@ };
            let room = p.tree.names.next_key < u64::MAX && (p.tree.nodes.spare.len() > 0
                || p.tree.nodes.next_ino < u64::MAX);
            let goes_on = |id: NodeId|
                old(args.0).target().added(
                    args.1@,
                    id,
                    args.2,
                    args.4,
                    final(args.0).target(),
                    accepted,
                );
            &&& q.this == p.this && q.parent == p.parent
            &&& args.3 is Current ==> goes_on(p.this) && q == p
            &&& args.3 is Parent ==> goes_on(p.parent) && q == p
            &&& args.3 is Child && p.tree.names.names.contains_key(d) ==> q == p && exists|
                id: NodeId,
            | #[trigger] goes_on(id) && id@ == p.tree.names.names[d]
            &&& args.3 is Child && !p.tree.names.names.contains_key(d) && room ==> exists|id: NodeId|
                #[trigger] goes_on(id) && !p.tree.nodes.nodes.contains_key(id@) && (accepted ==> {
                    &&& q.tree.names.names == p.tree.names.names.insert(d, id@)
                    &&& q.tree.nodes.nodes.contains_key(id@)
                    &&& q.tree.nodes.nodes.remove(id@) == p.tree.nodes.nodes
                    &&& q.tree.nodes.nodes[id@].payload.state() == args.3->Child_0
                    &&& q.tree.nodes.nodes[id@].parent == p.this
                    &&& q.tree.nodes.nodes[id@].links == 1
                }) && (!accepted ==> q.tree.names.names == p.tree.names.names
                    && q.tree.names.aliases == p.tree.names.aliases && q.tree.nodes.nodes
                    == p.tree.nodes.nodes && q.inserted == p.inserted)
            &&& args.3 is Child && !p.tree.names.names.contains_key(d) && !room ==> !accepted
                && final(args.0).target() == old(args.0).target() && q.tree == p.tree && q.error
                == Some(Errno(75))
        }),
{
    broadcast use crate::node_id::node_id_is_its_ino;

    let p = old(args.0).progress();
    let d = DentryView { parent: p.this@, name: args.1@ };
    let goes_on = |id: NodeId|
        old(args.0).target().added(
            args.1@,
            id,
            args.2,
            args.4,
            final(args.0).target(),
            accepted,
        );
    if p.identity(args.1@, args.3) is Some {
        let id = choose|id: NodeId|
            id@ == p.identity(args.1@, args.3)->0 && #[trigger] old(args.0).target().added(
                args.1@,
                id,
                args.2,
                args.4,
                final(args.0).target(),
                accepted,
            );
        assert(goes_on(id));
        if args.3 is Child {
            crate::laws::adapter::lemma_discovered(p.tree, p.this, args.1@, args.3->Child_0);
            if !p.tree.names.names.contains_key(d) {
                crate::tree::law_discovery_can_be_taken_back(
                    p.tree,
                    p.this,
                    args.1@,
                    args.3->Child_0,
                );
            }
        }
    }
}

/// Offer `i` takes a listing from one state to the next, and one entry with the same name,
/// attributes and resume cookie takes the sink behind it from one state to the next, with the same
/// answer. Nothing happens to the sink for a child that no node could be made for.
pub open spec fn plus_reaches<S, O: PlusDirSink>(
    this: NodeId,
    parent: NodeId,
    states: Seq<ListingSink<S, O>>,
    offers: Seq<PlusOffer<S>>,
    ids: Seq<Option<NodeId>>,
    outputs: Seq<O>,
    i: int,
) -> bool {
    &&& PathPlusDirSink::added(
        states[i],
        offers[i].name,
        offers[i].attr,
        offers[i].identity,
        offers[i].next_offset,
        states[i + 1],
        offers[i].accepted,
    )
    &&& ids[i] matches Some(id) ==> outputs[i].added(
        offers[i].name,
        id,
        offers[i].attr,
        offers[i].next_offset,
        outputs[i + 1],
        offers[i].accepted,
    )
    &&& ids[i] is Some && offers[i].identity is Current ==> ids[i]->0 == this
    &&& ids[i] is Some && offers[i].identity is Parent ==> ids[i]->0 == parent
    &&& ids[i] is None ==> offers[i].identity is Child && !offers[i].accepted && outputs[i + 1]
        == outputs[i]
}

/// A run of offers takes a listing from `start` to `end`, and the sink behind it from `sink`
/// to `filled`.
pub open spec fn plus_runs<S, O: PlusDirSink>(
    this: NodeId,
    parent: NodeId,
    start: ListingSink<S, O>,
    states: Seq<ListingSink<S, O>>,
    end: ListingSink<S, O>,
    offers: Seq<PlusOffer<S>>,
    ids: Seq<Option<NodeId>>,
    sink: O,
    outputs: Seq<O>,
    filled: O,
) -> bool {
    &&& states.len() == offers.len() + 1
    &&& states.first() == start
    &&& states.last() == end
    &&& ids.len() == offers.len()
    &&& outputs.len() == offers.len() + 1
    &&& outputs.first() == sink
    &&& outputs.last() == filled
    &&& forall|i: int|
        0 <= i < offers.len() ==> #[trigger] plus_reaches(
            this,
            parent,
            states,
            offers,
            ids,
            outputs,
            i,
        )
}

/// A readdirplus asks the filesystem at the directory's own path, from the same offset. Each entry
/// that the filesystem offers reaches the sink in order, with the same name, attributes and
/// resume cookie, and with its own node: `.` with the directory, `..` with the one above, and
/// a child, once taken, with the node that its name stands for afterwards. The answer is the
/// filesystem's, but `EOVERFLOW` if only a child that no node could be made for is missing.
pub proof fn law_readdirplus_entries_reach_the_sink<P: PathFilesystem, O: PlusDirSink>(
    args: (
        &mut PathNodeFs<P>,
        &mut Cx<PathNode<P::NodeState>>,
        &PathNode<P::NodeState>,
        NodeId,
        NodeId,
        &P::DirHandle,
        u64,
        O,
        &Caller,
    ),
    reply: (O, Result<(), Errno>),
)
    requires
        call_ensures(PathNodeFs::<P>::readdirplus::<O>, args, reply),
        old(args.0).path_of(*args.2) is Some,
    ensures
        exists|
            at: PathNodeRef<'_, P::NodeState>,
            start: ListingSink<P::NodeState, O>,
            outcome: (ListingSink<P::NodeState, O>, Result<(), Errno>),
            states: Seq<ListingSink<P::NodeState, O>>,
            offers: Seq<PlusOffer<P::NodeState>>,
            ids: Seq<Option<NodeId>>,
            outputs: Seq<O>,
        |
            at.path_view() == old(args.0).path_of(*args.2) && at.state_view() == args.2.state()
                && (#[trigger] call_ensures(
                P::readdirplus::<ListingSink<P::NodeState, O>>,
                (&old(args.0).filesystem(), at, args.5, args.6, start, args.8),
                outcome,
            )) && (#[trigger] plus_runs(
                args.3,
                args.4,
                start,
                states,
                outcome.0,
                offers,
                ids,
                args.7,
                outputs,
                reply.0,
            )) && (outcome.1 is Err ==> reply.1 == outcome.1) && (outcome.1 is Ok && ids.contains(
                None,
            ) ==> reply.1 == Err::<(), Errno>(Errno(75))) && (outcome.1 is Ok && !ids.contains(None)
                ==> reply.1 is Ok) && (reply.1 is Ok ==> forall|i: int|
                0 <= i < offers.len() && (#[trigger] offers[i]).accepted && offers[i].identity is Child
                    ==> {
                    let d = DentryView { parent: args.3@, name: offers[i].name };
                    final(args.0).names().names.contains_key(d) && ids[i] is Some
                        && final(args.0).names().names[d] == ids[i]->0@
                }),
{
    broadcast use crate::node_id::node_id_is_its_ino;

    let path = old(args.0).path_of(*args.2)->0;
    let before = old(args.0).tree(old(args.1)@);
    let after = final(args.0).tree(final(args.1)@);
    let (at, start, outcome) = choose|
        at: PathNodeRef<'_, P::NodeState>,
        start: ListingSink<P::NodeState, O>,
        outcome: (ListingSink<P::NodeState, O>, Result<(), Errno>),
    |
        at.is(Some(path), args.2.state()) && start.is_start(before, args.3, args.4, args.7)
            && (#[trigger] call_ensures(
            P::readdirplus::<ListingSink<P::NodeState, O>>,
            (&old(args.0).filesystem(), at, args.5, args.6, start, args.8),
            outcome,
        )) && PathNodeFs::<P>::listing_concluded(outcome, after, reply) && exists|
            states: Seq<ListingSink<P::NodeState, O>>,
            offers: Seq<PlusOffer<P::NodeState>>,
            ids: Seq<Option<NodeId>>,
            outputs: Seq<O>,
        |
            #[trigger] crate::path_fs::plus_listing(start, states, offers, outcome.0)
                && #[trigger] crate::discovery::plus_passed_on(
                args.3,
                args.4,
                outcome.0.progress().tree.names.names,
                offers,
                ids,
                args.7,
                outputs,
                reply.0,
            ) && outcome.0.progress().error == (if ids.contains(None) {
                Some(Errno(75))
            } else {
                None
            });
    let (states, offers, ids, outputs) = choose|
        states: Seq<ListingSink<P::NodeState, O>>,
        offers: Seq<PlusOffer<P::NodeState>>,
        ids: Seq<Option<NodeId>>,
        outputs: Seq<O>,
    |
        #[trigger] crate::path_fs::plus_listing(start, states, offers, outcome.0)
            && #[trigger] crate::discovery::plus_passed_on(
            args.3,
            args.4,
            outcome.0.progress().tree.names.names,
            offers,
            ids,
            args.7,
            outputs,
            reply.0,
        ) && outcome.0.progress().error == (if ids.contains(None) {
            Some(Errno(75))
        } else {
            None
        });
    assert forall|i: int| 0 <= i < offers.len() implies #[trigger] plus_reaches(
        args.3,
        args.4,
        states,
        offers,
        ids,
        outputs,
        i,
    ) by {
        assert(crate::path_fs::plus_offer_made(states, offers, i));
        assert(crate::discovery::plus_goes_on(args.3, args.4, offers, ids, outputs, i));
    }
    assert(plus_runs(
        args.3,
        args.4,
        start,
        states,
        outcome.0,
        offers,
        ids,
        args.7,
        outputs,
        reply.0,
    ));
}

/// A readdirplus that fails leaves every name and every live node as it was. One of a node
/// without a
/// path fails with `ENOENT` and leaves the sink as it was too. No readdirplus takes a name or
/// a node
/// away, and it names new nodes in the listed directory alone.
pub proof fn law_failed_readdirplus_leaves_no_trace<P: PathFilesystem, O: PlusDirSink>(
    args: (
        &mut PathNodeFs<P>,
        &mut Cx<PathNode<P::NodeState>>,
        &PathNode<P::NodeState>,
        NodeId,
        NodeId,
        &P::DirHandle,
        u64,
        O,
        &Caller,
    ),
    reply: (O, Result<(), Errno>),
    d: DentryView,
    id: u64,
)
    requires
        old(args.0).tree(old(args.1)@).coherent(),
        call_ensures(PathNodeFs::<P>::readdirplus::<O>, args, reply),
    ensures
        final(args.0).filesystem() == old(args.0).filesystem(),
        old(args.0).path_of(*args.2) is None ==> reply.0 == args.7 && reply.1 == Err::<(), Errno>(
            Errno(2),
        ),
        reply.1 is Err ==> {
            &&& final(args.0).names().names == old(args.0).names().names
            &&& final(args.0).names().aliases == old(args.0).names().aliases
            &&& final(args.1)@.nodes == old(args.1)@.nodes
        },
        old(args.0).names().names.contains_key(d) ==> final(args.0).names().names.contains_key(d)
            && final(args.0).names().names[d] == old(args.0).names().names[d],
        old(args.1)@.nodes.contains_key(id) ==> final(args.1)@.nodes.contains_key(id)
            && final(args.1)@.nodes[id] == old(args.1)@.nodes[id],
        final(args.0).names().names.contains_key(d) && !old(args.0).names().names.contains_key(d)
            ==> d.parent == args.3@,
{
    let before = old(args.0).tree(old(args.1)@);
    assert(before.names.names.dom().contains(d) == before.names.names.contains_key(d));
    assert(before.nodes.nodes.dom().contains(id) == before.nodes.nodes.contains_key(id));
}

/// One offer to a listing: `.` and `..` go on with the directory and the one above it, a child
/// that is known with its node, and one that is not with a new node, which stays if the sink
/// takes the entry and is gone again if not. What goes on has the same name, attributes and resume
/// cookie. If no node can be made, nothing goes on, and the listing has failed with
/// `EOVERFLOW`.
pub proof fn law_plus_offers_go_on_as_they_are<S, O: PlusDirSink>(
    args: (&mut ListingSink<S, O>, &[u8], NodeAttr, PathDirIdentity<S>, u64),
    accepted: bool,
)
    requires
        call_ensures(<ListingSink<S, O> as PathPlusDirSink<S>>::add, args, accepted),
        old(args.0).progress().tree.names.inv(),
        old(args.0).progress().tree.nodes.inv(),
        old(args.0).progress().tree.coherent(),
    ensures
        ({
            let p = old(args.0).progress();
            let q = final(args.0).progress();
            let d = DentryView { parent: p.this@, name: args.1@ };
            let room = p.tree.names.next_key < u64::MAX && (p.tree.nodes.spare.len() > 0
                || p.tree.nodes.next_ino < u64::MAX);
            let goes_on = |id: NodeId|
                old(args.0).target().added(
                    args.1@,
                    id,
                    args.2,
                    args.4,
                    final(args.0).target(),
                    accepted,
                );
            &&& q.this == p.this && q.parent == p.parent
            &&& args.3 is Current ==> goes_on(p.this) && q == p
            &&& args.3 is Parent ==> goes_on(p.parent) && q == p
            &&& args.3 is Child && p.tree.names.names.contains_key(d) ==> q == p && exists|
                id: NodeId,
            | #[trigger] goes_on(id) && id@ == p.tree.names.names[d]
            &&& args.3 is Child && !p.tree.names.names.contains_key(d) && room ==> exists|id: NodeId|
                #[trigger] goes_on(id) && !p.tree.nodes.nodes.contains_key(id@) && (accepted ==> {
                    &&& q.tree.names.names == p.tree.names.names.insert(d, id@)
                    &&& q.tree.nodes.nodes.contains_key(id@)
                    &&& q.tree.nodes.nodes.remove(id@) == p.tree.nodes.nodes
                    &&& q.tree.nodes.nodes[id@].payload.state() == args.3->Child_0
                    &&& q.tree.nodes.nodes[id@].parent == p.this
                    &&& q.tree.nodes.nodes[id@].links == 1
                }) && (!accepted ==> q.tree.names.names == p.tree.names.names
                    && q.tree.names.aliases == p.tree.names.aliases && q.tree.nodes.nodes
                    == p.tree.nodes.nodes && q.inserted == p.inserted)
            &&& args.3 is Child && !p.tree.names.names.contains_key(d) && !room ==> !accepted
                && final(args.0).target() == old(args.0).target() && q.tree == p.tree && q.error
                == Some(Errno(75))
        }),
{
    broadcast use crate::node_id::node_id_is_its_ino;

    let p = old(args.0).progress();
    let d = DentryView { parent: p.this@, name: args.1@ };
    let goes_on = |id: NodeId|
        old(args.0).target().added(
            args.1@,
            id,
            args.2,
            args.4,
            final(args.0).target(),
            accepted,
        );
    if p.identity(args.1@, args.3) is Some {
        let id = choose|id: NodeId|
            id@ == p.identity(args.1@, args.3)->0 && #[trigger] old(args.0).target().added(
                args.1@,
                id,
                args.2,
                args.4,
                final(args.0).target(),
                accepted,
            );
        assert(goes_on(id));
        if args.3 is Child {
            crate::laws::adapter::lemma_discovered(p.tree, p.this, args.1@, args.3->Child_0);
            if !p.tree.names.names.contains_key(d) {
                crate::tree::law_discovery_can_be_taken_back(
                    p.tree,
                    p.this,
                    args.1@,
                    args.3->Child_0,
                );
            }
        }
    }
}

} // verus!
