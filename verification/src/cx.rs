//! The table of live nodes: identity, parents and lifetime.
//!
//! A node is kept while anything retains it: a name in the filesystem's namespace (a
//! link), a reference issued to the kernel (a lookup) or an open handle. Once nothing
//! does, its payload is dropped and its inode number may be given out again, under a
//! higher generation.

use vstd::prelude::*;

use std::collections::BTreeMap;

use crate::node_id::NodeId;

verus! {

/// One live node.
pub struct NodeRecord<N> {
    /// What the filesystem stored with the node.
    pub payload: N,
    /// The directory reported as the node's `..`.
    pub parent: NodeId,
    /// Tells this node from earlier ones with the same inode number.
    pub generation: u64,
    /// Names that keep the node present in the namespace.
    pub links: u64,
    /// References issued to the kernel in entry replies.
    pub lookups: u64,
    /// Live file or directory handles.
    pub opens: u64,
}

impl<N> NodeRecord<N> {
    /// Something still holds on to the node.
    pub open spec fn retained(self) -> bool {
        self.links > 0 || self.lookups > 0 || self.opens > 0
    }
}

/// The table as a value: the live nodes by inode number, the reclaimed inode numbers
/// with the generation they come back under, and the first number never used.
pub struct CxView<N> {
    pub nodes: Map<u64, NodeRecord<N>>,
    pub spare: Seq<(u64, u64)>,
    pub next_ino: u64,
}

impl<N> CxView<N> {
    /// The numbers in use and the spare ones are apart, all were given out before, and
    /// every live node is retained by something.
    pub open spec fn inv(self) -> bool {
        &&& 2 <= self.next_ino
        &&& forall|ino: u64| #[trigger]
            self.nodes.contains_key(ino) ==> 1 <= ino < self.next_ino
                && self.nodes[ino].retained()
        &&& forall|i: int|
            0 <= i < self.spare.len() ==> 1 <= (#[trigger] self.spare[i]).0 < self.next_ino
                && !self.nodes.contains_key(self.spare[i].0)
        &&& forall|i: int, j: int|
            0 <= i < j < self.spare.len() ==> (#[trigger] self.spare[i]).0 != (
            #[trigger] self.spare[j]).0
    }

    /// A further node can be given an inode number.
    pub open spec fn has_room(self) -> bool {
        self.spare.len() > 0 || self.next_ino < u64::MAX
    }

    /// The inode number that the next node gets.
    pub open spec fn fresh_ino(self) -> u64 {
        if self.spare.len() > 0 {
            self.spare.last().0
        } else {
            self.next_ino
        }
    }

    /// The generation that the next node gets.
    pub open spec fn fresh_generation(self) -> u64 {
        if self.spare.len() > 0 {
            self.spare.last().1
        } else {
            0
        }
    }

    /// The table with a further node, which has one link.
    pub open spec fn inserted(self, payload: N, parent: NodeId) -> CxView<N> {
        CxView {
            nodes: self.nodes.insert(
                self.fresh_ino(),
                NodeRecord {
                    payload,
                    parent,
                    generation: self.fresh_generation(),
                    links: 1,
                    lookups: 0,
                    opens: 0,
                },
            ),
            spare: if self.spare.len() > 0 {
                self.spare.drop_last()
            } else {
                self.spare
            },
            next_ino: if self.spare.len() > 0 {
                self.next_ino
            } else {
                (self.next_ino + 1) as u64
            },
        }
    }

    /// The table with the record of a live node replaced. A record that nothing
    /// retains is dropped and its number becomes spare, under the next generation (a
    /// number whose generations are used up is retired instead).
    pub open spec fn updated(self, ino: u64, record: NodeRecord<N>) -> CxView<N> {
        if record.retained() {
            CxView { nodes: self.nodes.insert(ino, record), ..self }
        } else {
            CxView {
                nodes: self.nodes.remove(ino),
                spare: if record.generation < u64::MAX {
                    self.spare.push((ino, (record.generation + 1) as u64))
                } else {
                    self.spare
                },
                ..self
            }
        }
    }

    /// The table after a node has got a further name.
    pub open spec fn link_added(self, ino: u64) -> CxView<N> {
        if self.nodes.contains_key(ino) {
            self.updated(
                ino,
                NodeRecord { links: (self.nodes[ino].links + 1) as u64, ..self.nodes[ino] },
            )
        } else {
            self
        }
    }

    /// The table after a node has lost a name.
    pub open spec fn link_removed(self, ino: u64) -> CxView<N> {
        if self.nodes.contains_key(ino) {
            self.updated(
                ino,
                NodeRecord { links: less(self.nodes[ino].links, 1), ..self.nodes[ino] },
            )
        } else {
            self
        }
    }

    /// The table after a node has moved to another directory.
    pub open spec fn reparented(self, ino: u64, parent: NodeId) -> CxView<N> {
        if self.nodes.contains_key(ino) {
            self.updated(ino, NodeRecord { parent, ..self.nodes[ino] })
        } else {
            self
        }
    }

    /// The table after the kernel was told of a node once more.
    pub open spec fn looked_up(self, ino: u64) -> CxView<N> {
        if self.nodes.contains_key(ino) {
            self.updated(
                ino,
                NodeRecord { lookups: (self.nodes[ino].lookups + 1) as u64, ..self.nodes[ino] },
            )
        } else {
            self
        }
    }

    /// The table after the kernel has given up `count` of its references to a node.
    pub open spec fn forgotten(self, ino: u64, count: u64) -> CxView<N> {
        if self.nodes.contains_key(ino) {
            self.updated(
                ino,
                NodeRecord { lookups: less(self.nodes[ino].lookups, count), ..self.nodes[ino] },
            )
        } else {
            self
        }
    }

    /// The table after a handle on a node was opened.
    pub open spec fn opened(self, ino: u64) -> CxView<N> {
        if self.nodes.contains_key(ino) {
            self.updated(
                ino,
                NodeRecord { opens: (self.nodes[ino].opens + 1) as u64, ..self.nodes[ino] },
            )
        } else {
            self
        }
    }

    /// The table after a handle on a node was closed.
    pub open spec fn closed(self, ino: u64) -> CxView<N> {
        if self.nodes.contains_key(ino) {
            self.updated(
                ino,
                NodeRecord { opens: less(self.nodes[ino].opens, 1), ..self.nodes[ino] },
            )
        } else {
            self
        }
    }
}

/// `count` less `by`, but not below zero.
pub open spec fn less(count: u64, by: u64) -> u64 {
    if by <= count {
        (count - by) as u64
    } else {
        0
    }
}

/// The runtime's node table, as the callbacks see it that may discover or change
/// nodes.
pub struct Cx<N> {
    nodes: BTreeMap<u64, NodeRecord<N>>,
    spare: Vec<(u64, u64)>,
    next_ino: u64,
}

impl<N> View for Cx<N> {
    type V = CxView<N>;

    closed spec fn view(&self) -> CxView<N> {
        CxView { nodes: self.nodes@, spare: self.spare@, next_ino: self.next_ino }
    }
}

impl<N> Cx<N> {
    /// A table that holds the root alone.
    pub fn new(root: N) -> (cx: Cx<N>)
        ensures
            cx@.inv(),
            cx@.next_ino == 2,
            cx@.spare.len() == 0,
            cx@.nodes.dom() == set![crate::node_id::ROOT_INO],
            cx@.nodes[crate::node_id::ROOT_INO].payload == root,
            cx@.nodes[crate::node_id::ROOT_INO].parent@ == crate::node_id::ROOT_INO,
            cx@.nodes[crate::node_id::ROOT_INO].generation == 0,
            cx@.nodes[crate::node_id::ROOT_INO].links == 1,
            cx@.nodes[crate::node_id::ROOT_INO].lookups == 0,
            cx@.nodes[crate::node_id::ROOT_INO].opens == 0,
    {
        let mut nodes: BTreeMap<u64, NodeRecord<N>> = BTreeMap::new();
        nodes.insert(
            crate::node_id::ROOT_INO,
            NodeRecord {
                payload: root,
                parent: NodeId::root(),
                generation: 0,
                links: 1,
                lookups: 0,
                opens: 0,
            },
        );
        let cx = Cx { nodes, spare: Vec::new(), next_ino: 2 };
        assert(cx@.nodes.dom() =~= set![crate::node_id::ROOT_INO]);
        cx
    }

    /// A table that holds nothing, to stand in where the real one is in use.
    pub(crate) fn vacant() -> (cx: Cx<N>)
        ensures
            cx@.inv(),
            cx@ == (CxView::<N> { nodes: Map::empty(), spare: Seq::empty(), next_ino: 2 }),
    {
        let cx: Cx<N> = Cx { nodes: BTreeMap::new(), spare: Vec::new(), next_ino: 2 };
        assert(cx@.nodes =~= Map::empty());
        assert(cx@.spare =~= Seq::empty());
        cx
    }

    /// Whether a further node can be given an inode number.
    pub fn has_room(&self) -> (room: bool)
        ensures
            room == self@.has_room(),
    {
        self.spare.len() > 0 || self.next_ino < u64::MAX
    }

    /// The payload of a node, or `None` if the node is gone.
    pub fn get(&self, id: NodeId) -> (payload: Option<&N>)
        ensures
            payload == (if self@.nodes.contains_key(id@) {
                Some(&self@.nodes[id@].payload)
            } else {
                None
            }),
    {
        match self.nodes.get(&id.ino()) {
            Some(record) => Some(&record.payload),
            None => None,
        }
    }

    /// Whether a node is live.
    pub fn contains(&self, id: NodeId) -> (live: bool)
        ensures
            live == self@.nodes.contains_key(id@),
    {
        self.nodes.contains_key(&id.ino())
    }

    /// The directory that a node reports as its `..`, or `None` if the node is gone.
    pub fn parent(&self, id: NodeId) -> (parent: Option<NodeId>)
        ensures
            parent == (if self@.nodes.contains_key(id@) {
                Some(self@.nodes[id@].parent)
            } else {
                None
            }),
    {
        match self.nodes.get(&id.ino()) {
            Some(record) => Some(record.parent),
            None => None,
        }
    }

    /// The generation of a node, or `None` if the node is gone.
    pub fn generation(&self, id: NodeId) -> (generation: Option<u64>)
        ensures
            generation == (if self@.nodes.contains_key(id@) {
                Some(self@.nodes[id@].generation)
            } else {
                None
            }),
    {
        match self.nodes.get(&id.ino()) {
            Some(record) => Some(record.generation),
            None => None,
        }
    }

    /// What retains a node: its links, lookups and open handles. `None` if the node is gone.
    pub fn retention(&self, id: NodeId) -> (counts: Option<(u64, u64, u64)>)
        ensures
            counts == (if self@.nodes.contains_key(id@) {
                Some(
                    (
                        self@.nodes[id@].links,
                        self@.nodes[id@].lookups,
                        self@.nodes[id@].opens,
                    ),
                )
            } else {
                None
            }),
    {
        match self.nodes.get(&id.ino()) {
            Some(record) => Some((record.links, record.lookups, record.opens)),
            None => None,
        }
    }

    /// Creates a node with a fresh identity and one link.
    pub fn insert(&mut self, payload: N, parent: NodeId) -> (id: NodeId)
        requires
            old(self)@.inv(),
            old(self)@.has_room(),
        ensures
            final(self)@.inv(),
            final(self)@ == old(self)@.inserted(payload, parent),
            id@ == old(self)@.fresh_ino(),
            !old(self)@.nodes.contains_key(id@),
    {
        let ghost before = self@;
        let mut ino: u64 = self.next_ino;
        let mut generation: u64 = 0;
        match self.spare.pop() {
            Some(number) => {
                assert(before.spare[before.spare.len() - 1] == number);
                ino = number.0;
                generation = number.1;
            },
            None => {
                self.next_ino = self.next_ino + 1;
            },
        }
        self.nodes.insert(
            ino,
            NodeRecord { payload, parent, generation, links: 1, lookups: 0, opens: 0 },
        );
        proof {
            let after = before.inserted(payload, parent);
            assert(self@.spare =~= after.spare);
            assert(self@ == after);
            assert(forall|i: int| 0 <= i < after.spare.len() ==> after.spare[i] == before.spare[i]);
        }
        NodeId::from_ino(ino)
    }

    /// Takes the record of a node out of the table.
    fn take(&mut self, ino: u64) -> (record: Option<NodeRecord<N>>)
        requires
            old(self)@.inv(),
        ensures
            final(self)@.inv(),
            final(self)@ == (CxView { nodes: old(self)@.nodes.remove(ino), ..old(self)@ }),
            record == (if old(self)@.nodes.contains_key(ino) {
                Some(old(self)@.nodes[ino])
            } else {
                None
            }),
    {
        let ghost before = self@;
        let record = self.nodes.remove(&ino);
        proof {
            let after = CxView { nodes: before.nodes.remove(ino), ..before };
            assert(self@ == after);
            assert forall|other: u64| #[trigger] after.nodes.contains_key(other) implies 1 <= other
                < after.next_ino && after.nodes[other].retained() by {
                assert(before.nodes.contains_key(other));
            }
            assert forall|i: int| 0 <= i < after.spare.len() implies 1 <= (
            #[trigger] after.spare[i]).0 < after.next_ino && !after.nodes.contains_key(
                after.spare[i].0,
            ) by {
                assert(!before.nodes.contains_key(before.spare[i].0));
            }
        }
        record
    }

    /// Puts the record of a node back, or drops the node if nothing retains it.
    fn put_back(&mut self, ino: u64, record: NodeRecord<N>)
        requires
            old(self)@.inv(),
            1 <= ino < old(self)@.next_ino,
            !old(self)@.nodes.contains_key(ino),
            forall|i: int|
                0 <= i < old(self)@.spare.len() ==> (#[trigger] old(self)@.spare[i]).0 != ino,
        ensures
            final(self)@.inv(),
            final(self)@ == old(self)@.updated(ino, record),
    {
        let ghost before = self@;
        if record.links > 0 || record.lookups > 0 || record.opens > 0 {
            self.nodes.insert(ino, record);
        } else {
            if record.generation < u64::MAX {
                self.spare.push((ino, record.generation + 1));
            }
            assert(before.nodes.remove(ino) =~= before.nodes);
        }
        assert(self@ == before.updated(ino, record));
    }

    /// Records a further name of a node. A node that is gone stays so.
    pub fn add_link(&mut self, id: NodeId)
        requires
            old(self)@.inv(),
            old(self)@.nodes.contains_key(id@) ==> old(self)@.nodes[id@].links < u64::MAX,
        ensures
            final(self)@.inv(),
            final(self)@ == old(self)@.link_added(id@),
    {
        let ghost before = self@;
        let ino: u64 = id.ino();
        match self.take(ino) {
            Some(record) => {
                self.put_back(ino, NodeRecord { links: record.links + 1, ..record });
                assert(self@.nodes =~= before.link_added(ino).nodes);
            },
            None => {
                assert(self@.nodes =~= before.nodes);
            },
        }
    }

    /// Records that a node has lost a name. The node is reclaimed once nothing else
    /// retains it. A node that is gone stays so.
    pub fn remove_link(&mut self, id: NodeId)
        requires
            old(self)@.inv(),
        ensures
            final(self)@.inv(),
            final(self)@ == old(self)@.link_removed(id@),
    {
        let ghost before = self@;
        let ino: u64 = id.ino();
        match self.take(ino) {
            Some(record) => {
                self.put_back(ino, NodeRecord { links: record.links.saturating_sub(1), ..record });
                assert(self@.nodes =~= before.link_removed(ino).nodes);
            },
            None => {
                assert(self@.nodes =~= before.nodes);
            },
        }
    }

    /// Updates the directory that a node reports as its `..`, after a move.
    pub fn reparent(&mut self, id: NodeId, parent: NodeId)
        requires
            old(self)@.inv(),
        ensures
            final(self)@.inv(),
            final(self)@ == old(self)@.reparented(id@, parent),
    {
        let ghost before = self@;
        let ino: u64 = id.ino();
        match self.take(ino) {
            Some(record) => {
                self.put_back(ino, NodeRecord { parent, ..record });
                assert(self@.nodes =~= before.reparented(ino, parent).nodes);
            },
            None => {
                assert(self@.nodes =~= before.nodes);
            },
        }
    }

    /// Records that an entry reply has told the kernel of a node.
    pub fn add_lookup(&mut self, id: NodeId)
        requires
            old(self)@.inv(),
            old(self)@.nodes.contains_key(id@) ==> old(self)@.nodes[id@].lookups < u64::MAX,
        ensures
            final(self)@.inv(),
            final(self)@ == old(self)@.looked_up(id@),
    {
        let ghost before = self@;
        let ino: u64 = id.ino();
        match self.take(ino) {
            Some(record) => {
                self.put_back(ino, NodeRecord { lookups: record.lookups + 1, ..record });
                assert(self@.nodes =~= before.looked_up(ino).nodes);
            },
            None => {
                assert(self@.nodes =~= before.nodes);
            },
        }
    }

    /// The payload of a node that `count` forgotten references will take from a positive
    /// lookup count to zero: only then is the filesystem told.
    pub fn forget_notice(&self, id: NodeId, count: u64) -> (payload: Option<&N>)
        ensures
            payload == (if self@.nodes.contains_key(id@) && 0 < self@.nodes[id@].lookups <= count {
                Some(&self@.nodes[id@].payload)
            } else {
                None
            }),
    {
        match self.nodes.get(&id.ino()) {
            Some(record) => {
                if 0 < record.lookups && record.lookups <= count {
                    Some(&record.payload)
                } else {
                    None
                }
            },
            None => None,
        }
    }

    /// Takes back `count` of the kernel's references to a node. The node is reclaimed once
    /// nothing else retains it. A node that is gone stays so.
    pub fn forget(&mut self, id: NodeId, count: u64)
        requires
            old(self)@.inv(),
        ensures
            final(self)@.inv(),
            final(self)@ == old(self)@.forgotten(id@, count),
    {
        let ghost before = self@;
        let ino: u64 = id.ino();
        match self.take(ino) {
            Some(record) => {
                self.put_back(
                    ino,
                    NodeRecord { lookups: record.lookups.saturating_sub(count), ..record },
                );
                assert(self@.nodes =~= before.forgotten(ino, count).nodes);
            },
            None => {
                assert(self@.nodes =~= before.nodes);
            },
        }
    }

    /// Records a handle opened on a node.
    pub fn add_open(&mut self, id: NodeId)
        requires
            old(self)@.inv(),
            old(self)@.nodes.contains_key(id@) ==> old(self)@.nodes[id@].opens < u64::MAX,
        ensures
            final(self)@.inv(),
            final(self)@ == old(self)@.opened(id@),
    {
        let ghost before = self@;
        let ino: u64 = id.ino();
        match self.take(ino) {
            Some(record) => {
                self.put_back(ino, NodeRecord { opens: record.opens + 1, ..record });
                assert(self@.nodes =~= before.opened(ino).nodes);
            },
            None => {
                assert(self@.nodes =~= before.nodes);
            },
        }
    }

    /// Records a handle on a node closed.
    pub fn remove_open(&mut self, id: NodeId)
        requires
            old(self)@.inv(),
        ensures
            final(self)@.inv(),
            final(self)@ == old(self)@.closed(id@),
    {
        let ghost before = self@;
        let ino: u64 = id.ino();
        match self.take(ino) {
            Some(record) => {
                self.put_back(ino, NodeRecord { opens: record.opens.saturating_sub(1), ..record });
                assert(self@.nodes =~= before.closed(ino).nodes);
            },
            None => {
                assert(self@.nodes =~= before.nodes);
            },
        }
    }
}

/// A node goes only when its last link, its last lookup and its last handle have gone,
/// and what happens to one node leaves the others alone.
pub proof fn law_node_lives_while_retained<N>(t: CxView<N>, ino: u64, count: u64)
    requires
        t.inv(),
        t.nodes.contains_key(ino),
    ensures
        ({
            let node = t.nodes[ino];
            let unlinked = t.link_removed(ino).nodes;
            let forgotten = t.forgotten(ino, count).nodes;
            let closed = t.closed(ino).nodes;
            &&& unlinked.contains_key(ino) == (node.links > 1 || node.lookups > 0 || node.opens > 0)
            &&& forgotten.contains_key(ino) == (node.links > 0 || node.lookups > count || node.opens
                > 0)
            &&& closed.contains_key(ino) == (node.links > 0 || node.lookups > 0 || node.opens > 1)
            &&& unlinked.contains_key(ino) ==> unlinked[ino].payload == node.payload
            &&& forgotten.contains_key(ino) ==> forgotten[ino].payload == node.payload
            &&& closed.contains_key(ino) ==> closed[ino].payload == node.payload
            &&& unlinked.remove(ino) == t.nodes.remove(ino)
            &&& forgotten.remove(ino) == t.nodes.remove(ino)
            &&& closed.remove(ino) == t.nodes.remove(ino)
        }),
{
    assert(t.link_removed(ino).nodes.remove(ino) =~= t.nodes.remove(ino));
    assert(t.forgotten(ino, count).nodes.remove(ino) =~= t.nodes.remove(ino));
    assert(t.closed(ino).nodes.remove(ino) =~= t.nodes.remove(ino));
}

/// An inode number that is given out again comes with a higher generation.
pub proof fn law_reused_number_has_higher_generation<N>(
    t: CxView<N>,
    ino: u64,
    payload: N,
    parent: NodeId,
)
    requires
        t.inv(),
        t.nodes.contains_key(ino),
        t.nodes[ino].generation < u64::MAX,
        !t.link_removed(ino).nodes.contains_key(ino),
    ensures
        ({
            let freed = t.link_removed(ino);
            let reused = freed.inserted(payload, parent);
            &&& freed.fresh_ino() == ino
            &&& reused.nodes.contains_key(ino)
            &&& reused.nodes[ino].payload == payload
            &&& reused.nodes[ino].generation > t.nodes[ino].generation
        }),
{
}

/// A spare number is never that of a live node, so a new node never takes the place of
/// another.
pub proof fn law_new_node_displaces_none<N>(t: CxView<N>, payload: N, parent: NodeId)
    requires
        t.inv(),
        t.has_room(),
    ensures
        !t.nodes.contains_key(t.fresh_ino()),
        t.inserted(payload, parent).nodes.remove(t.fresh_ino()) == t.nodes,
        t.inserted(payload, parent).inv(),
{
    if t.spare.len() > 0 {
        assert(t.spare[t.spare.len() - 1] == t.spare.last());
    }
    let after = t.inserted(payload, parent);
    assert(after.nodes.remove(t.fresh_ino()) =~= t.nodes);
    assert forall|i: int| 0 <= i < after.spare.len() implies 1 <= (#[trigger] after.spare[i]).0
        < after.next_ino && !after.nodes.contains_key(after.spare[i].0) by {
        assert(after.spare[i] == t.spare[i]);
    }
    assert forall|i: int, j: int| 0 <= i < j < after.spare.len() implies (
    #[trigger] after.spare[i]).0 != (#[trigger] after.spare[j]).0 by {
        assert(after.spare[i] == t.spare[i] && after.spare[j] == t.spare[j]);
    }
}

/// The filesystem is told of a node's last forgotten reference once: after the count has
/// come down to zero there is nothing to tell until the kernel looks the node up again.
pub proof fn law_forget_is_noticed_once<N>(t: CxView<N>, ino: u64, count: u64, again: u64)
    requires
        t.inv(),
        t.nodes.contains_key(ino),
        0 < t.nodes[ino].lookups <= count,
    ensures
        ({
            let after = t.forgotten(ino, count);
            !(after.nodes.contains_key(ino) && 0 < after.nodes[ino].lookups <= again)
        }),
{
}

} // verus!
