//! The node table: who is there, and for how long.

use vstd::prelude::*;

use crate::cx::{Cx, NodeRecord};
use crate::node_id::NodeId;

verus! {

/// The root is node number one, and a node's number tells it from every other.
pub proof fn law_nodes_are_told_apart_by_number(
    root: NodeId,
    a: NodeId,
    b: NodeId,
    ino: (u64, u64, u64),
)
    requires
        call_ensures(NodeId::root, (), root),
        call_ensures(NodeId::ino, (root,), ino.0),
        call_ensures(NodeId::ino, (a,), ino.1),
        call_ensures(NodeId::ino, (b,), ino.2),
    ensures
        ino.0 == 1,
        ino.1 == ino.2 <==> a == b,
{
    if ino.1 == ino.2 {
        crate::node_id::node_id_is_its_ino(a, b);
    }
}

/// What the table is asked about a node is told of that node: its payload, its directory,
/// its generation and what retains it. Of a node that is gone nothing is told.
pub proof fn law_table_tells_of_the_node_asked<N>(
    cx: &Cx<N>,
    id: NodeId,
    payload: Option<&N>,
    live: bool,
    parent: Option<NodeId>,
    generation: Option<u64>,
    counts: Option<(u64, u64, u64)>,
)
    requires
        call_ensures(Cx::<N>::get, (cx, id), payload),
        call_ensures(Cx::<N>::contains, (cx, id), live),
        call_ensures(Cx::<N>::parent, (cx, id), parent),
        call_ensures(Cx::<N>::generation, (cx, id), generation),
        call_ensures(Cx::<N>::retention, (cx, id), counts),
    ensures
        live <==> cx@.nodes.contains_key(id@),
        live ==> payload == Some(&cx@.nodes[id@].payload),
        live ==> parent == Some(cx@.nodes[id@].parent),
        live ==> generation == Some(cx@.nodes[id@].generation),
        live ==> counts == Some(
            (cx@.nodes[id@].links, cx@.nodes[id@].lookups, cx@.nodes[id@].opens),
        ),
        !live ==> payload is None && parent is None && generation is None && counts is None,
{
}

/// A new table holds the root alone, which is its own directory and has one link.
pub proof fn law_new_table_holds_the_root<N>(root: N, cx: Cx<N>, id: NodeId, other: u64)
    requires
        call_ensures(Cx::<N>::new, (root,), cx),
        call_ensures(NodeId::root, (), id),
        other != 1,
    ensures
        cx@.nodes.contains_key(1),
        cx@.nodes[1] == (NodeRecord {
            payload: root,
            parent: id,
            generation: 0,
            links: 1,
            lookups: 0,
            opens: 0,
        }),
        !cx@.nodes.contains_key(other),
{
    crate::node_id::node_id_is_its_ino(cx@.nodes[1].parent, id);
    assert(!cx@.nodes.dom().contains(other));
}

/// A new node has a number that no live node has, its payload, its directory and one link,
/// and leaves every other node as it was.
pub proof fn law_new_nodes_take_no_ones_place<N>(args: (&mut Cx<N>, N, NodeId), id: NodeId)
    requires
        call_ensures(Cx::<N>::insert, args, id),
    ensures
        !old(args.0)@.nodes.contains_key(id@),
        final(args.0)@.nodes.contains_key(id@),
        final(args.0)@.nodes[id@].payload == args.1,
        final(args.0)@.nodes[id@].parent == args.2,
        final(args.0)@.nodes[id@].links == 1,
        final(args.0)@.nodes[id@].lookups == 0,
        final(args.0)@.nodes[id@].opens == 0,
        final(args.0)@.nodes.remove(id@) == old(args.0)@.nodes,
{
    assert(final(args.0)@.nodes.remove(id@) =~= old(args.0)@.nodes);
}

/// A further name is one link more, of that node alone.
pub proof fn law_links_count_names<N>(args: (&mut Cx<N>, NodeId))
    requires
        call_ensures(Cx::<N>::add_link, args, ()),
        old(args.0)@.nodes.contains_key(args.1@) ==> old(args.0)@.nodes[args.1@].links < u64::MAX,
    ensures
        final(args.0)@.nodes == (if old(args.0)@.nodes.contains_key(args.1@) {
            let node = old(args.0)@.nodes[args.1@];
            old(args.0)@.nodes.insert(args.1@, NodeRecord { links: (node.links + 1) as u64, ..node })
        } else {
            old(args.0)@.nodes
        }),
{
}

/// A further entry reply is one lookup more, of that node alone.
pub proof fn law_lookups_count_replies<N>(args: (&mut Cx<N>, NodeId))
    requires
        call_ensures(Cx::<N>::add_lookup, args, ()),
        old(args.0)@.nodes.contains_key(args.1@) ==> old(args.0)@.nodes[args.1@].lookups < u64::MAX,
    ensures
        final(args.0)@.nodes == (if old(args.0)@.nodes.contains_key(args.1@) {
            let node = old(args.0)@.nodes[args.1@];
            old(args.0)@.nodes.insert(args.1@, NodeRecord { lookups: (node.lookups + 1) as u64, ..node })
        } else {
            old(args.0)@.nodes
        }),
{
}

/// A further handle is one open more, of that node alone.
pub proof fn law_opens_count_handles<N>(args: (&mut Cx<N>, NodeId))
    requires
        call_ensures(Cx::<N>::add_open, args, ()),
        old(args.0)@.nodes.contains_key(args.1@) ==> old(args.0)@.nodes[args.1@].opens < u64::MAX,
    ensures
        final(args.0)@.nodes == (if old(args.0)@.nodes.contains_key(args.1@) {
            let node = old(args.0)@.nodes[args.1@];
            old(args.0)@.nodes.insert(args.1@, NodeRecord { opens: (node.opens + 1) as u64, ..node })
        } else {
            old(args.0)@.nodes
        }),
{
}

/// A name less is one link less, of that node alone; the node goes exactly if nothing else
/// retains it.
pub proof fn law_unlinking<N>(args: (&mut Cx<N>, NodeId))
    requires
        call_ensures(Cx::<N>::remove_link, args, ()),
        old(args.0)@.inv(),
        old(args.0)@.nodes.contains_key(args.1@),
    ensures
        ({
            let before = old(args.0)@.nodes;
            let after = final(args.0)@.nodes;
            let node = before[args.1@];
            &&& after.contains_key(args.1@) <==> node.lookups > 0 || node.opens > 0 || node.links > 1
            &&& after.contains_key(args.1@) && node.links >= 1 ==> after[args.1@] == (NodeRecord {
                links: (node.links - 1) as u64,
                ..node
            })
            &&& after.contains_key(args.1@) && node.links < 1 ==> after[args.1@] == (NodeRecord {
                links: 0,
                ..node
            })
            &&& after.remove(args.1@) == before.remove(args.1@)
        }),
{
    assert(final(args.0)@.nodes.remove(args.1@) =~= old(args.0)@.nodes.remove(args.1@));
}

/// A node that is gone stays gone, and nothing else changes.
pub proof fn law_unlinking_of_live_nodes_alone<N>(args: (&mut Cx<N>, NodeId))
    requires
        call_ensures(Cx::<N>::remove_link, args, ()),
        !old(args.0)@.nodes.contains_key(args.1@),
    ensures
        final(args.0)@.nodes == old(args.0)@.nodes,
{
}

/// The number of a node that goes so is the next to be given out, under the next generation.
pub proof fn law_unlinking_frees_the_number<N>(
    args: (&mut Cx<N>, NodeId),
    next: (&mut Cx<N>, N, NodeId),
    id: NodeId,
)
    requires
        call_ensures(Cx::<N>::remove_link, args, ()),
        old(args.0)@.inv(),
        old(args.0)@.nodes.contains_key(args.1@),
        old(args.0)@.nodes[args.1@].generation < u64::MAX,
        !final(args.0)@.nodes.contains_key(args.1@),
        *next.0 == *final(args.0),
        call_ensures(Cx::<N>::insert, next, id),
    ensures
        id@ == args.1@,
        final(next.0)@.nodes[id@].generation == old(args.0)@.nodes[args.1@].generation + 1,
{
}

/// References that the kernel gives up are that many lookups less, of that node alone; the
/// node goes exactly if nothing else retains it.
pub proof fn law_forgetting<N>(args: (&mut Cx<N>, NodeId, u64))
    requires
        call_ensures(Cx::<N>::forget, args, ()),
        old(args.0)@.inv(),
        old(args.0)@.nodes.contains_key(args.1@),
    ensures
        ({
            let before = old(args.0)@.nodes;
            let after = final(args.0)@.nodes;
            let node = before[args.1@];
            &&& after.contains_key(args.1@) <==> node.links > 0 || node.opens > 0 || node.lookups > args.2
            &&& after.contains_key(args.1@) && node.lookups >= args.2 ==> after[args.1@] == (NodeRecord {
                lookups: (node.lookups - args.2) as u64,
                ..node
            })
            &&& after.contains_key(args.1@) && node.lookups < args.2 ==> after[args.1@] == (NodeRecord {
                lookups: 0,
                ..node
            })
            &&& after.remove(args.1@) == before.remove(args.1@)
        }),
{
    assert(final(args.0)@.nodes.remove(args.1@) =~= old(args.0)@.nodes.remove(args.1@));
}

/// A node that is gone stays gone, and nothing else changes.
pub proof fn law_forgetting_of_live_nodes_alone<N>(args: (&mut Cx<N>, NodeId, u64))
    requires
        call_ensures(Cx::<N>::forget, args, ()),
        !old(args.0)@.nodes.contains_key(args.1@),
    ensures
        final(args.0)@.nodes == old(args.0)@.nodes,
{
}

/// The number of a node that goes so is the next to be given out, under the next generation.
pub proof fn law_forgetting_frees_the_number<N>(
    args: (&mut Cx<N>, NodeId, u64),
    next: (&mut Cx<N>, N, NodeId),
    id: NodeId,
)
    requires
        call_ensures(Cx::<N>::forget, args, ()),
        old(args.0)@.inv(),
        old(args.0)@.nodes.contains_key(args.1@),
        old(args.0)@.nodes[args.1@].generation < u64::MAX,
        !final(args.0)@.nodes.contains_key(args.1@),
        *next.0 == *final(args.0),
        call_ensures(Cx::<N>::insert, next, id),
    ensures
        id@ == args.1@,
        final(next.0)@.nodes[id@].generation == old(args.0)@.nodes[args.1@].generation + 1,
{
}

/// A handle less is one open less, of that node alone; the node goes exactly if nothing else
/// retains it.
pub proof fn law_closing<N>(args: (&mut Cx<N>, NodeId))
    requires
        call_ensures(Cx::<N>::remove_open, args, ()),
        old(args.0)@.inv(),
        old(args.0)@.nodes.contains_key(args.1@),
    ensures
        ({
            let before = old(args.0)@.nodes;
            let after = final(args.0)@.nodes;
            let node = before[args.1@];
            &&& after.contains_key(args.1@) <==> node.links > 0 || node.lookups > 0 || node.opens > 1
            &&& after.contains_key(args.1@) && node.opens >= 1 ==> after[args.1@] == (NodeRecord {
                opens: (node.opens - 1) as u64,
                ..node
            })
            &&& after.contains_key(args.1@) && node.opens < 1 ==> after[args.1@] == (NodeRecord {
                opens: 0,
                ..node
            })
            &&& after.remove(args.1@) == before.remove(args.1@)
        }),
{
    assert(final(args.0)@.nodes.remove(args.1@) =~= old(args.0)@.nodes.remove(args.1@));
}

/// A node that is gone stays gone, and nothing else changes.
pub proof fn law_closing_of_live_nodes_alone<N>(args: (&mut Cx<N>, NodeId))
    requires
        call_ensures(Cx::<N>::remove_open, args, ()),
        !old(args.0)@.nodes.contains_key(args.1@),
    ensures
        final(args.0)@.nodes == old(args.0)@.nodes,
{
}

/// The number of a node that goes so is the next to be given out, under the next generation.
pub proof fn law_closing_frees_the_number<N>(
    args: (&mut Cx<N>, NodeId),
    next: (&mut Cx<N>, N, NodeId),
    id: NodeId,
)
    requires
        call_ensures(Cx::<N>::remove_open, args, ()),
        old(args.0)@.inv(),
        old(args.0)@.nodes.contains_key(args.1@),
        old(args.0)@.nodes[args.1@].generation < u64::MAX,
        !final(args.0)@.nodes.contains_key(args.1@),
        *next.0 == *final(args.0),
        call_ensures(Cx::<N>::insert, next, id),
    ensures
        id@ == args.1@,
        final(next.0)@.nodes[id@].generation == old(args.0)@.nodes[args.1@].generation + 1,
{
}

/// A node that moves has another directory, and is otherwise as it was.
pub proof fn law_moving_changes_the_directory_alone<N>(args: (&mut Cx<N>, NodeId, NodeId))
    requires
        call_ensures(Cx::<N>::reparent, args, ()),
        old(args.0)@.inv(),
    ensures
        final(args.0)@.nodes == (if old(args.0)@.nodes.contains_key(args.1@) {
            old(args.0)@.nodes.insert(
                args.1@,
                NodeRecord { parent: args.2, ..old(args.0)@.nodes[args.1@] },
            )
        } else {
            old(args.0)@.nodes
        }),
{
}

/// The filesystem is told of forgotten references exactly if there were some and none is
/// left, and is told of the node itself.
pub proof fn law_the_last_reference_is_noticed<N>(
    cx: &Cx<N>,
    id: NodeId,
    count: u64,
    notice: Option<&N>,
)
    requires
        call_ensures(Cx::<N>::forget_notice, (cx, id, count), notice),
    ensures
        notice is Some <==> cx@.nodes.contains_key(id@) && cx@.nodes[id@].lookups > 0
            && cx@.nodes[id@].lookups <= count,
        notice is Some ==> *notice->0 == cx@.nodes[id@].payload,
{
}

/// There is room for a node as long as a number is spare or was never used.
pub proof fn law_new_tables_have_room<N>(root: N, cx: Cx<N>, room: bool)
    requires
        call_ensures(Cx::<N>::new, (root,), cx),
        call_ensures(Cx::<N>::has_room, (&cx,), room),
    ensures
        room,
{
}

/// The first node besides the root has number two, and no generation before it; the next one
/// has number three.
pub proof fn law_numbers_are_given_out_in_order<N>(
    root: N,
    cx: Cx<N>,
    first: (&mut Cx<N>, N, NodeId),
    second: (&mut Cx<N>, N, NodeId),
    ids: (NodeId, NodeId),
)
    requires
        call_ensures(Cx::<N>::new, (root,), cx),
        *first.0 == cx,
        call_ensures(Cx::<N>::insert, first, ids.0),
        *second.0 == *final(first.0),
        call_ensures(Cx::<N>::insert, second, ids.1),
    ensures
        ids.0@ == 2,
        ids.1@ == 3,
        final(second.0)@.nodes[2].generation == 0,
        final(second.0)@.nodes[3].generation == 0,
{
}

/// A number that has been freed is given out again before a new one is made, the one freed
/// last first, with the generation that is kept for it; the other freed ones stay.
pub proof fn law_freed_numbers_are_given_out_first<N>(args: (&mut Cx<N>, N, NodeId), id: NodeId)
    requires
        call_ensures(Cx::<N>::insert, args, id),
    ensures
        ({
            let (before, after) = (old(args.0)@, final(args.0)@);
            let n = before.spare.len() as int;
            &&& n > 0 ==> {
                &&& (id@, after.nodes[id@].generation) == before.spare[n - 1]
                &&& after.spare == before.spare.subrange(0, n - 1)
                &&& after.next_ino == before.next_ino
            }
            &&& n == 0 ==> {
                &&& id@ == before.next_ino
                &&& after.nodes[id@].generation == 0
                &&& after.spare == before.spare
            }
        }),
{
    let (before, after) = (old(args.0)@, final(args.0)@);
    let n = before.spare.len() as int;
    if n > 0 {
        assert(after.spare =~= before.spare.subrange(0, n - 1));
    }
}

/// A number whose generations are used up is not kept when its node goes.
pub proof fn law_used_up_numbers_are_retired<N>(
    unlinked: (&mut Cx<N>, NodeId),
    forgotten: (&mut Cx<N>, NodeId, u64),
    closed: (&mut Cx<N>, NodeId),
)
    requires
        call_ensures(Cx::<N>::remove_link, unlinked, ()),
        call_ensures(Cx::<N>::forget, forgotten, ()),
        call_ensures(Cx::<N>::remove_open, closed, ()),
    ensures
        old(unlinked.0)@.nodes[unlinked.1@].generation == u64::MAX ==> final(unlinked.0)@.spare
            == old(unlinked.0)@.spare,
        old(forgotten.0)@.nodes[forgotten.1@].generation == u64::MAX ==> final(forgotten.0)@.spare
            == old(forgotten.0)@.spare,
        old(closed.0)@.nodes[closed.1@].generation == u64::MAX ==> final(closed.0)@.spare == old(
            closed.0,
        )@.spare,
{
}

} // verus!
