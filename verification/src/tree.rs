//! The namespace and the node table together, and what holds of them whatever a path
//! filesystem's callbacks do.

use vstd::prelude::*;

use std::sync::Arc;

use crate::cx::CxView;
use crate::dentry::DentryView;
use crate::namespace::NamespaceView;
use crate::node_id::NodeId;

verus! {

/// The payload of a path filesystem's node: the key under which the namespace finds the
/// node again, and the filesystem's own state for it.
pub struct PathNode<S> {
    key: u64,
    state: Arc<S>,
}

impl<S> PathNode<S> {
    /// The payload made of a key and a state.
    pub closed spec fn of(key: u64, state: Arc<S>) -> PathNode<S> {
        PathNode { key, state }
    }

    /// The key.
    pub closed spec fn key(self) -> u64 {
        self.key
    }

    /// The filesystem's state.
    pub closed spec fn state(self) -> Arc<S> {
        self.state
    }

    /// A payload is its key and its state.
    pub broadcast proof fn lemma_of(key: u64, state: Arc<S>)
        ensures
            (#[trigger] PathNode::of(key, state)).key() == key,
            PathNode::of(key, state).state() == state,
    {
    }

    pub(crate) fn new(key: u64, state: Arc<S>) -> (node: PathNode<S>)
        ensures
            node == PathNode::of(key, state),
    {
        PathNode { key, state }
    }

    pub(crate) fn key_number(&self) -> (key: u64)
        ensures
            key == self.key(),
    {
        self.key
    }

    pub(crate) fn state_ref(&self) -> (state: &Arc<S>)
        ensures
            *state == self.state(),
    {
        &self.state
    }
}

impl<S> Clone for PathNode<S> {
    /// Shares the state: the state itself is not copied.
    fn clone(&self) -> (node: PathNode<S>)
        ensures
            node == *self,
    {
        PathNode { key: self.key, state: Arc::clone(&self.state) }
    }
}

/// The namespace and the node table together: all that a path filesystem's callbacks
/// can discover or change.
pub struct Tree<S> {
    pub names: NamespaceView,
    pub nodes: CxView<PathNode<S>>,
}

impl<S> Tree<S> {
    /// A further node can be given a key and an inode number.
    pub open spec fn has_room(self) -> bool {
        self.names.next_key < u64::MAX && self.nodes.has_room()
    }

    /// A name in a directory is known, or there is room for its node.
    pub open spec fn can_discover(self, parent: NodeId, name: Seq<u8>) -> bool {
        self.names.names.contains_key(DentryView { parent: parent@, name }) || self.has_room()
    }

    /// The node that a name in a directory stands for, once it has been discovered.
    pub open spec fn discovered_id(self, parent: NodeId, name: Seq<u8>) -> u64 {
        let d = DentryView { parent: parent@, name };
        if self.names.names.contains_key(d) {
            self.names.names[d]
        } else {
            self.nodes.fresh_ino()
        }
    }

    /// Every node that has a name is live, and linked at least once for each name; and the
    /// payload of a live node leads back to the node.
    pub open spec fn coherent(self) -> bool {
        &&& forall|id: u64| #[trigger]
            self.names.aliases.contains_key(id) ==> self.nodes.nodes.contains_key(id)
                && self.nodes.nodes[id].links >= self.names.aliases[id].len()
        &&& forall|id: u64| #[trigger]
            self.nodes.nodes.contains_key(id) ==> self.names.holder(
                self.nodes.nodes[id].payload.key(),
            ) == Some(id)
    }

    /// A name in a directory is discovered: a known name keeps its node, and the node its
    /// state; a new one gets a node that holds the given state.
    pub open spec fn discovered(self, parent: NodeId, name: Seq<u8>, state: Arc<S>) -> Tree<S> {
        let d = DentryView { parent: parent@, name };
        if self.names.names.contains_key(d) {
            self
        } else {
            Tree {
                names: self.names.with_node(self.nodes.fresh_ino(), d),
                nodes: self.nodes.inserted(PathNode::of(self.names.next_key, state), parent),
            }
        }
    }

    /// A name is removed: the node that it stood for has one link less.
    pub open spec fn name_removed(self, d: DentryView) -> Tree<S> {
        if self.names.names.contains_key(d) {
            Tree {
                names: self.names.without(d),
                nodes: self.nodes.link_removed(self.names.names[d]),
            }
        } else {
            self
        }
    }

    /// A node gets a further name.
    pub open spec fn linked(self, id: u64, d: DentryView) -> Tree<S> {
        Tree { names: self.names.with_alias(id, d), nodes: self.nodes.link_added(id) }
    }

    /// The name `old_name` becomes `newname` in `newparent`. A node that the new name stood
    /// for loses that name. Nothing changes if the old name is not known or both names
    /// already stand for one node.
    pub open spec fn renamed(
        self,
        old_name: DentryView,
        newparent: NodeId,
        newname: Seq<u8>,
    ) -> Tree<S> {
        let new_name = DentryView { parent: newparent@, name: newname };
        let known = self.names.names;
        if !known.contains_key(old_name) || (known.contains_key(new_name) && known[new_name]
            == known[old_name]) {
            self
        } else {
            let source = known[old_name];
            let cleared = self.name_removed(new_name);
            Tree {
                names: cleared.names.without(old_name).with_alias(source, new_name),
                nodes: cleared.nodes.reparented(source, newparent),
            }
        }
    }
}

/// A new entry has the path of its directory and its name, and every path that there was
/// stays.
pub proof fn law_discovery_adds_one_path<S>(
    t: Tree<S>,
    parent: NodeId,
    name: Seq<u8>,
    state: Arc<S>,
    other: u64,
)
    requires
        t.names.inv(),
        t.nodes.inv(),
        t.coherent(),
        t.has_room(),
        !t.names.names.contains_key(DentryView { parent: parent@, name }),
        t.names.resolves(parent@),
        t.names.path(parent@) is Some,
        t.names.resolves(other),
        t.names.path(other) is Some,
        t.nodes.nodes.contains_key(crate::node_id::ROOT_INO),
    ensures
        ({
            let id = t.nodes.fresh_ino();
            let after = t.discovered(parent, name, state);
            &&& after.names.resolves(id)
            &&& after.names.path(id) == Some(
                crate::namespace::joined(t.names.path(parent@)->0, name),
            )
            &&& after.names.resolves(other)
            &&& after.names.path(other) == t.names.path(other)
        }),
{
    let d = DentryView { parent: parent@, name };
    let id = t.nodes.fresh_ino();
    let after = t.discovered(parent, name, state);
    crate::cx::law_new_node_displaces_none(
        t.nodes,
        PathNode::of(t.names.next_key, state),
        parent,
    );
    assert(!t.names.aliases.contains_key(id));
    assert(t.names.aliases.submap_of(after.names.aliases));
    crate::namespace::law_more_names_keep_paths(t.names, after.names, parent@);
    crate::namespace::law_more_names_keep_paths(t.names, after.names, other);
    assert(after.names.aliases[id] =~= set![d]);
    crate::namespace::law_first_name_gives_path(after.names, id, d);
}

/// A name that is discovered again stands for the node that it stood for, and that node
/// keeps the state that it was first given.
pub proof fn law_first_discovery_counts<S>(
    t: Tree<S>,
    parent: NodeId,
    name: Seq<u8>,
    first: Arc<S>,
    second: Arc<S>,
)
    ensures
        ({
            let once = t.discovered(parent, name, first);
            let twice = once.discovered(parent, name, second);
            let id = t.discovered_id(parent, name);
            &&& twice == once
            &&& once.discovered_id(parent, name) == id
            &&& !t.names.names.contains_key(DentryView { parent: parent@, name })
                ==> twice.nodes.nodes[id].payload.state() == first
        }),
{
}

/// Every name that is known stands for a live node, and every live node's payload leads
/// back to it: discovery, removal, linking and renaming all keep it so.
pub proof fn law_named_nodes_are_live<S>(
    t: Tree<S>,
    parent: NodeId,
    name: Seq<u8>,
    state: Arc<S>,
    id: u64,
    old_name: DentryView,
)
    requires
        t.names.inv(),
        t.nodes.inv(),
        t.coherent(),
    ensures
        t.can_discover(parent, name) ==> t.discovered(parent, name, state).coherent(),
        t.can_discover(parent, name) ==> t.discovered(parent, name, state).nodes.nodes.contains_key(
            t.discovered_id(parent, name),
        ),
        t.name_removed(old_name).coherent(),
        t.nodes.nodes.contains_key(id) && t.nodes.nodes[id].links < u64::MAX ==> t.linked(
            id,
            DentryView { parent: parent@, name },
        ).coherent(),
        t.renamed(old_name, parent, name).coherent(),
{
    let d = DentryView { parent: parent@, name };
    if t.can_discover(parent, name) {
        lemma_discovered_coherent(t, parent, name, state);
    }
    lemma_name_removed_coherent(t, old_name);
    if t.nodes.nodes.contains_key(id) && t.nodes.nodes[id].links < u64::MAX {
        lemma_with_alias_len(t.names, id, d);
        let after = t.linked(id, d);
        assert forall|other: u64| #[trigger] after.names.aliases.contains_key(other) implies
            after.nodes.nodes.contains_key(other) && after.nodes.nodes[other].links
            >= after.names.aliases[other].len() by {
            if other != id {
                assert(t.names.aliases.contains_key(other));
            }
        }
    }
    lemma_renamed_coherent(t, old_name, parent, name);
}

proof fn lemma_with_alias_len(ns: NamespaceView, id: u64, d: DentryView)
    requires
        ns.inv(),
    ensures
        ns.with_alias(id, d).aliases[id].len() <= ns.aliases_of(id).len() + 1,
        ns.aliases_of(id).contains(d) ==> ns.with_alias(id, d).aliases[id].len()
            == ns.aliases_of(id).len(),
{
    if ns.aliases_of(id).contains(d) {
        assert(ns.aliases_of(id).insert(d) =~= ns.aliases_of(id));
    }
}

proof fn lemma_discovered_coherent<S>(t: Tree<S>, parent: NodeId, name: Seq<u8>, state: Arc<S>)
    requires
        t.names.inv(),
        t.nodes.inv(),
        t.coherent(),
        t.can_discover(parent, name),
    ensures
        t.discovered(parent, name, state).coherent(),
        t.discovered(parent, name, state).nodes.nodes.contains_key(t.discovered_id(parent, name)),
{
    let d = DentryView { parent: parent@, name };
    if !t.names.names.contains_key(d) {
        let id = t.nodes.fresh_ino();
        if t.nodes.spare.len() > 0 {
            assert(t.nodes.spare[t.nodes.spare.len() - 1] == t.nodes.spare.last());
        }
        assert(!t.nodes.nodes.contains_key(id));
        assert(!t.names.aliases.contains_key(id));
        lemma_with_alias_len(t.names, id, d);
        let after = t.discovered(parent, name, state);
        assert forall|other: u64| #[trigger] after.names.aliases.contains_key(other) implies
            after.nodes.nodes.contains_key(other) && after.nodes.nodes[other].links
            >= after.names.aliases[other].len() by {
            if other != id {
                assert(t.names.aliases.contains_key(other));
            }
        }
    }
}

proof fn lemma_name_removed_coherent<S>(t: Tree<S>, d: DentryView)
    requires
        t.names.inv(),
        t.coherent(),
    ensures
        t.name_removed(d).coherent(),
{
    if t.names.names.contains_key(d) {
        let id = t.names.names[d];
        let after = t.name_removed(d);
        let rest = t.names.aliases_of(id).remove(d);
        assert(t.names.aliases.contains_key(id));
        assert forall|other: u64| #[trigger] after.names.aliases.contains_key(other) implies
            after.nodes.nodes.contains_key(other) && after.nodes.nodes[other].links
            >= after.names.aliases[other].len() by {
            assert(t.names.aliases.contains_key(other));
            if other == id {
                assert(after.names.aliases[id] == rest);
                assert(rest.len() == t.names.aliases[id].len() - 1);
                if rest.len() == 0 {
                    assert(rest =~= Set::<DentryView>::empty());
                }
            }
        }
    }
}

proof fn lemma_renamed_coherent<S>(
    t: Tree<S>,
    old_name: DentryView,
    newparent: NodeId,
    newname: Seq<u8>,
)
    requires
        t.names.inv(),
        t.coherent(),
    ensures
        t.renamed(old_name, newparent, newname).coherent(),
{
    let new_name = DentryView { parent: newparent@, name: newname };
    let known = t.names.names;
    if known.contains_key(old_name) && !(known.contains_key(new_name) && known[new_name]
        == known[old_name]) {
        let source = known[old_name];
        let cleared = t.name_removed(new_name);
        lemma_name_removed_coherent(t, new_name);
        crate::namespace::lemma_without_inv(t.names, new_name);
        let bare = cleared.names.without(old_name);
        crate::namespace::lemma_without_inv(cleared.names, old_name);
        assert(cleared.names.names.contains_key(old_name));
        assert(cleared.names.aliases.contains_key(source));
        lemma_with_alias_len(bare, source, new_name);
        let rest = cleared.names.aliases_of(source).remove(old_name);
        assert(bare.aliases_of(source) =~= rest);
        assert(rest.len() == cleared.names.aliases[source].len() - 1);
        let after = t.renamed(old_name, newparent, newname);
        assert forall|other: u64| #[trigger] after.names.aliases.contains_key(other) implies
            after.nodes.nodes.contains_key(other) && after.nodes.nodes[other].links
            >= after.names.aliases[other].len() by {
            assert(cleared.names.aliases.contains_key(other));
        }
    }
}

/// A fresh namespace over a node table that holds the root alone, with a payload of the
/// first key, is in order.
pub proof fn law_fresh_tree_is_coherent<S>(t: Tree<S>)
    requires
        t.names.aliases == Map::<u64, Set<DentryView>>::empty(),
        t.names.keys == map![1u64 => crate::node_id::ROOT_INO],
        t.nodes.nodes.dom() == set![crate::node_id::ROOT_INO],
        t.nodes.nodes[crate::node_id::ROOT_INO].payload.key() == 1,
    ensures
        t.coherent(),
{
    assert forall|id: u64| #[trigger] t.nodes.nodes.contains_key(id) implies t.names.holder(
        t.nodes.nodes[id].payload.key(),
    ) == Some(id) by {
        assert(t.nodes.nodes.dom().contains(id));
    }
}

/// What the kernel and open handles do to a node's lifetime leaves every name standing
/// for a live node.
pub proof fn law_kernel_leaves_named_nodes_live<S>(t: Tree<S>, id: u64, count: u64)
    requires
        t.names.inv(),
        t.coherent(),
    ensures
        (Tree { names: t.names, nodes: t.nodes.looked_up(id) }).coherent(),
        (Tree { names: t.names, nodes: t.nodes.forgotten(id, count) }).coherent(),
        (Tree { names: t.names, nodes: t.nodes.opened(id) }).coherent(),
        (Tree { names: t.names, nodes: t.nodes.closed(id) }).coherent(),
{
    assert forall|other: u64| #[trigger] t.names.aliases.contains_key(other) implies
        t.nodes.nodes[other].links > 0 by {}
}

/// A further name keeps a node reachable after another of its names is gone: the node
/// stays live with its payload, and with the further name alone its path is built from
/// that name.
pub proof fn law_alias_survives_unlink<S>(
    t: Tree<S>,
    id: u64,
    original: DentryView,
    alias: DentryView,
)
    requires
        t.names.inv(),
        t.coherent(),
        t.names.names.contains_key(original),
        t.names.names[original] == id,
        original != alias,
        t.nodes.nodes[id].links < u64::MAX,
    ensures
        ({
            let after = t.linked(id, alias).name_removed(original);
            &&& after.names.names.contains_key(alias)
            &&& after.names.names[alias] == id
            &&& !after.names.names.contains_key(original)
            &&& after.nodes.nodes.contains_key(id)
            &&& after.nodes.nodes[id] == t.nodes.nodes[id]
            &&& t.names.aliases[id] == set![original] ==> after.names.aliases[id] == set![alias]
            &&& t.names.aliases[id] == set![original] && id != crate::node_id::ROOT_INO
                && after.names.resolves(alias.parent) ==> after.names.path(id) == (
            match after.names.path(alias.parent) {
                Some(path) => Some(crate::namespace::joined(path, alias.name)),
                None => None,
            })
        }),
{
    let linked = t.linked(id, alias);
    let after = linked.name_removed(original);
    let rest = linked.names.aliases_of(id).remove(original);
    assert(t.names.aliases.contains_key(id));
    assert(t.nodes.nodes[id].links >= 1);
    assert(rest.contains(alias));
    assert(rest != Set::<DentryView>::empty());
    if t.names.aliases[id] == set![original] {
        assert(rest =~= set![alias]);
        if id != crate::node_id::ROOT_INO && after.names.resolves(alias.parent) {
            crate::namespace::law_first_name_gives_path(after.names, id, alias);
        }
    }
}

/// A node that is still open outlives its last name: it keeps its payload and has no
/// path.
pub proof fn law_open_node_outlives_its_names<S>(t: Tree<S>, d: DentryView)
    requires
        t.names.inv(),
        t.coherent(),
        t.names.names.contains_key(d),
        t.names.names[d] != crate::node_id::ROOT_INO,
        t.names.aliases[t.names.names[d]] == set![d],
        t.nodes.nodes[t.names.names[d]].opens > 0,
    ensures
        ({
            let id = t.names.names[d];
            let after = t.name_removed(d);
            &&& after.nodes.nodes.contains_key(id)
            &&& after.nodes.nodes[id].payload == t.nodes.nodes[id].payload
            &&& after.nodes.nodes[id].generation == t.nodes.nodes[id].generation
            &&& after.names.holder(t.nodes.nodes[id].payload.key()) == t.names.holder(
                t.nodes.nodes[id].payload.key(),
            )
            &&& after.names.resolves(id)
            &&& after.names.path(id) is None
        }),
{
    let id = t.names.names[d];
    let after = t.name_removed(d);
    assert(t.names.aliases.contains_key(id));
    assert(t.names.aliases_of(id).remove(d) =~= Set::<DentryView>::empty());
    crate::namespace::law_path_of_root_and_nameless(after.names, id);
}

/// A rename keeps the node: the new name stands for it, the old one no longer does, and
/// its payload and lifetime are untouched.
pub proof fn law_rename_keeps_the_node<S>(
    t: Tree<S>,
    old_name: DentryView,
    newparent: NodeId,
    newname: Seq<u8>,
)
    requires
        t.names.inv(),
        t.coherent(),
        t.names.names.contains_key(old_name),
        t.names.names.contains_key(DentryView { parent: newparent@, name: newname })
            ==> t.names.names[DentryView { parent: newparent@, name: newname }]
            != t.names.names[old_name],
    ensures
        ({
            let source = t.names.names[old_name];
            let new_name = DentryView { parent: newparent@, name: newname };
            let after = t.renamed(old_name, newparent, newname);
            &&& after.names.names == t.names.names.remove(old_name).insert(new_name, source)
            &&& after.names.aliases_of(source) == t.names.aliases_of(source).remove(old_name).insert(
                new_name,
            )
            &&& after.nodes.nodes.contains_key(source)
            &&& after.nodes.nodes[source].payload == t.nodes.nodes[source].payload
            &&& after.nodes.nodes[source].generation == t.nodes.nodes[source].generation
            &&& after.nodes.nodes[source].links == t.nodes.nodes[source].links
            &&& after.nodes.nodes[source].parent == newparent
        }),
{
    let source = t.names.names[old_name];
    let new_name = DentryView { parent: newparent@, name: newname };
    let cleared = t.name_removed(new_name);
    let after = t.renamed(old_name, newparent, newname);
    assert(t.names.aliases.contains_key(source));
    assert(cleared.names.aliases_of(source) == t.names.aliases_of(source));
    assert(after.names.names =~= t.names.names.remove(old_name).insert(new_name, source));
    let rest = cleared.names.aliases_of(source).remove(old_name);
    assert(cleared.names.without(old_name).aliases_of(source) =~= rest);
}

/// A directory that moves takes along what is below it: nothing below is touched, and
/// each path below is the directory's new path followed by the same names.
pub proof fn law_moving_a_directory_moves_what_is_below<S>(
    t: Tree<S>,
    old_name: DentryView,
    newparent: NodeId,
    newname: Seq<u8>,
    id: u64,
    names: Seq<Seq<u8>>,
)
    requires
        t.names.inv(),
        t.names.names.contains_key(old_name),
        crate::namespace::below(t.names, t.names.names[old_name], id, names),
        forall|m: nat|
            m < names.len() ==> #[trigger] t.names.climb(id, m) != t.names.names[old_name],
        ({
            let new_name = DentryView { parent: newparent@, name: newname };
            t.names.names.contains_key(new_name) ==> forall|m: nat|
                m < names.len() ==> #[trigger] t.names.climb(id, m) != t.names.names[new_name]
        }),
    ensures
        ({
            let source = t.names.names[old_name];
            let after = t.renamed(old_name, newparent, newname);
            &&& forall|m: nat|
                m < names.len() ==> after.names.aliases_of(#[trigger] t.names.climb(id, m))
                    == t.names.aliases_of(t.names.climb(id, m))
            &&& crate::namespace::below(after.names, source, id, names)
            &&& after.names.resolves(source) ==> after.names.resolves(id) && after.names.path(id)
                == (match after.names.path(source) {
                Some(path) => Some(crate::namespace::joined_all(path, names)),
                None => None,
            })
        }),
{
    let source = t.names.names[old_name];
    let new_name = DentryView { parent: newparent@, name: newname };
    let after = t.renamed(old_name, newparent, newname);
    assert forall|m: nat| m < names.len() implies after.names.aliases_of(
        #[trigger] t.names.climb(id, m),
    ) == t.names.aliases_of(t.names.climb(id, m)) && after.names.aliases.contains_key(
        t.names.climb(id, m),
    ) by {
        let other = t.names.climb(id, m);
        assert(!t.names.ends(other));
        assert(other != source);
    }
    assert forall|m: nat| m <= names.len() implies #[trigger] after.names.climb(id, m)
        == t.names.climb(id, m) by {
        lemma_same_climb(t.names, after.names, id, names.len(), m);
    }
    assert forall|m: nat| m < names.len() implies !after.names.ends(
        #[trigger] after.names.climb(id, m),
    ) && after.names.canonical(after.names.climb(id, m)).name == names[names.len() - 1 - m] by {
        assert(after.names.climb(id, m) == t.names.climb(id, m));
        assert(after.names.aliases_of(t.names.climb(id, m)) == t.names.aliases_of(
            t.names.climb(id, m),
        ));
    }
    assert(crate::namespace::below(after.names, source, id, names));
    if after.names.resolves(source) {
        crate::namespace::law_path_below(after.names, source, id, names);
    }
}

proof fn lemma_same_climb(a: NamespaceView, b: NamespaceView, id: u64, limit: nat, m: nat)
    requires
        m <= limit,
        forall|k: nat|
            k < limit ==> !a.ends(#[trigger] a.climb(id, k)) && b.aliases.contains_key(a.climb(id, k))
                && b.aliases_of(a.climb(id, k)) == a.aliases_of(a.climb(id, k)),
    ensures
        b.climb(id, m) == a.climb(id, m),
    decreases m,
{
    if m > 0 {
        let k = (m - 1) as nat;
        lemma_same_climb(a, b, id, limit, k);
        crate::namespace::lemma_climb_on(a, id, k);
        crate::namespace::lemma_climb_on(b, id, k);
        assert(!a.ends(a.climb(id, k)));
    }
}

/// A discovery that is taken back leaves every name and every live node as it was.
pub proof fn law_discovery_can_be_taken_back<S>(
    t: Tree<S>,
    parent: NodeId,
    name: Seq<u8>,
    state: Arc<S>,
)
    requires
        t.names.inv(),
        t.nodes.inv(),
        t.coherent(),
        t.has_room(),
        !t.names.names.contains_key(DentryView { parent: parent@, name }),
    ensures
        ({
            let after = t.discovered(parent, name, state).name_removed(
                DentryView { parent: parent@, name },
            );
            &&& after.names.names == t.names.names
            &&& after.names.aliases == t.names.aliases
            &&& after.nodes.nodes == t.nodes.nodes
        }),
{
    let d = DentryView { parent: parent@, name };
    let id = t.nodes.fresh_ino();
    if t.nodes.spare.len() > 0 {
        assert(t.nodes.spare[t.nodes.spare.len() - 1] == t.nodes.spare.last());
    }
    assert(!t.nodes.nodes.contains_key(id));
    assert(!t.names.aliases.contains_key(id));
    let after = t.discovered(parent, name, state).name_removed(d);
    assert(Set::<DentryView>::empty().insert(d).remove(d) =~= Set::<DentryView>::empty());
    assert(after.names.names =~= t.names.names);
    assert(after.names.aliases =~= t.names.aliases);
    assert(after.nodes.nodes =~= t.nodes.nodes);
}

} // verus!
