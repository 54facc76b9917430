//! Names, their order and the paths that they make.

use vstd::prelude::*;

use std::sync::Arc;

use crate::bytes::Placement;
use crate::cx::Cx;
use crate::dentry::{Dentry, DentryTable, DentryView};
use crate::namespace::Namespace;
use crate::node_id::NodeId;
use crate::path_fs::PathNodeRef;
use crate::tree::PathNode;

verus! {

/// The byte string `a` comes before `b`: it is a proper prefix of it, or has the smaller byte
/// where they first differ.
pub open spec fn comes_before(a: Seq<u8>, b: Seq<u8>) -> bool {
    exists|k: int|
        0 <= k <= a.len() && k < b.len() && #[trigger] a.take(k) == b.take(k) && (k == a.len()
            || a[k] < b[k])
}

proof fn lemma_comes_before(a: Seq<u8>, b: Seq<u8>)
    ensures
        crate::bytes::bytes_below(a, b) <==> comes_before(a, b),
{
    if crate::bytes::bytes_below(a, b) {
        let k = choose|k: int| crate::bytes::parts_below(a, b, k);
        assert(a.take(k) =~= b.take(k));
    }
    if comes_before(a, b) {
        let k = choose|k: int|
            0 <= k <= a.len() && k < b.len() && #[trigger] a.take(k) == b.take(k) && (k == a.len()
                || a[k] < b[k]);
        assert forall|j: int| 0 <= j < k implies a[j] == b[j] by {
            assert(a.take(k)[j] == b.take(k)[j]);
        }
        assert(crate::bytes::parts_below(a, b, k));
    }
}

/// Byte strings are placed by their first differing byte, a prefix before what it begins.
pub proof fn law_bytes_are_placed_by_the_first_difference(a: &[u8], b: &[u8], p: Placement)
    requires
        call_ensures(crate::bytes::place_bytes, (a, b), p),
    ensures
        p is Same <==> a@ == b@,
        p is Before <==> comes_before(a@, b@),
        p is After <==> comes_before(b@, a@),
{
    lemma_comes_before(a@, b@);
    lemma_comes_before(b@, a@);
    crate::bytes::lemma_bytes_below_irreflexive(a@);
    if crate::bytes::bytes_below(a@, b@) && crate::bytes::bytes_below(b@, a@) {
        crate::bytes::lemma_bytes_below_transitive(a@, b@, a@);
    }
}

/// Bytes are copied as they are, put behind others as they are, and searched for a NUL.
pub proof fn law_bytes_are_kept(
    bytes: &[u8],
    copy: Vec<u8>,
    args: (&mut Vec<u8>, &[u8]),
    found: bool,
)
    requires
        call_ensures(crate::bytes::copy_bytes, (bytes,), copy),
        call_ensures(crate::bytes::append_bytes, args, ()),
        call_ensures(crate::bytes::has_nul, (bytes,), found),
    ensures
        copy@ == bytes@,
        final(args.0)@ == old(args.0)@ + args.1@,
        found <==> exists|i: int| 0 <= i < bytes@.len() && #[trigger] bytes@[i] == 0,
{
}

/// A name in a directory is made of that directory and that name.
pub proof fn law_entries_hold_directory_and_name(
    parent: NodeId,
    name: &[u8],
    d: Dentry,
    copy: Dentry,
)
    requires
        call_ensures(Dentry::new, (parent, name), d),
        call_ensures(Dentry::copy, (&d,), copy),
    ensures
        d.parent == parent,
        d.name@ == name@,
        copy.parent == parent,
        copy.name@ == name@,
{
    crate::node_id::node_id_is_its_ino(d.parent, parent);
    crate::node_id::node_id_is_its_ino(copy.parent, parent);
}

/// The entry `d` stands before `e`: its directory has the smaller number, or the directory
/// is one and its name comes first.
pub open spec fn stands_before(d: DentryView, e: DentryView) -> bool {
    d.parent < e.parent || (d.parent == e.parent && comes_before(d.name, e.name))
}

/// The first entry of a table is one of its entries, and stands before every other.
pub proof fn law_the_first_entry_stands_before_all<V>(
    table: &DentryTable<V>,
    first: Option<&Dentry>,
    e: &Dentry,
    found: Option<&V>,
    value: Option<&V>,
)
    requires
        call_ensures(DentryTable::<V>::first, (table,), first),
        call_ensures(DentryTable::<V>::get, (table, e), found),
        first matches Some(d) ==> call_ensures(DentryTable::<V>::get, (table, d), value),
    ensures
        found is Some ==> first is Some,
        first is Some ==> value is Some,
        found is Some ==> first->0@ == e@ || stands_before(first->0@, e@),
{
    if let Some(d) = first {
        lemma_comes_before(d.name@, e.name@);
        assert(table@.dom().contains(d@));
        if found is Some {
            assert(table@.dom().contains(e@));
        }
    }
}

/// A table gives for an entry what was last put there, and forgets it when it is taken out;
/// other entries are not touched.
pub proof fn law_tables_keep_what_is_put<V>(
    put: (&mut DentryTable<V>, Dentry, V),
    out: (&mut DentryTable<V>, &Dentry),
    taken: Option<V>,
    e: &Dentry,
    found: (Option<&V>, Option<&V>, Option<&V>, Option<&V>),
)
    requires
        call_ensures(DentryTable::<V>::insert, put, ()),
        call_ensures(DentryTable::<V>::get, (&*put.0, e), found.0),
        call_ensures(DentryTable::<V>::get, (&*final(put.0), e), found.1),
        call_ensures(DentryTable::<V>::remove, out, taken),
        call_ensures(DentryTable::<V>::get, (&*out.0, e), found.2),
        call_ensures(DentryTable::<V>::get, (&*final(out.0), e), found.3),
    ensures
        e@ == put.1@ ==> found.1 == Some(&put.2),
        e@ != put.1@ ==> found.1 == found.0,
        e@ == out.1@ ==> found.3 is None && (taken is Some <==> found.2 is Some) && (taken is Some
            ==> taken->0 == *found.2->0),
        e@ != out.1@ ==> found.3 == found.2,
{
}

/// A new table is empty, and one that is empty has no first entry.
pub proof fn law_new_tables_are_empty<V>(
    table: DentryTable<V>,
    empty: bool,
    first: Option<&Dentry>,
    e: &Dentry,
    found: Option<&V>,
)
    requires
        call_ensures(DentryTable::<V>::new, (), table),
        call_ensures(DentryTable::<V>::is_empty, (&table,), empty),
        call_ensures(DentryTable::<V>::first, (&table,), first),
        call_ensures(DentryTable::<V>::get, (&table, e), found),
    ensures
        empty,
        first is None,
        found is None,
{
    if let Some(d) = first {
        assert(table@.dom().contains(d@));
    }
}

/// A name stands for the node that it was last given to, until it is taken away; the other
/// names stand for what they stood for.
pub proof fn law_names_stand_for_their_nodes(
    given: (&mut Namespace, NodeId, Dentry),
    taken: (&mut Namespace, &Dentry),
    lost: Option<NodeId>,
    e: &Dentry,
    found: (Option<NodeId>, Option<NodeId>, Option<NodeId>, Option<NodeId>),
)
    requires
        call_ensures(Namespace::add_alias, given, ()),
        call_ensures(Namespace::get, (&*given.0, e), found.0),
        call_ensures(Namespace::get, (&*final(given.0), e), found.1),
        call_ensures(Namespace::remove, taken, lost),
        call_ensures(Namespace::get, (&*taken.0, e), found.2),
        call_ensures(Namespace::get, (&*final(taken.0), e), found.3),
    ensures
        e@ == given.2@ ==> found.1 == Some(given.1),
        e@ != given.2@ ==> found.1 == found.0,
        e@ == taken.1@ ==> found.3 is None && lost == found.2,
        e@ != taken.1@ ==> found.3 == found.2,
{
    broadcast use crate::node_id::node_id_is_its_ino;

}

/// A name that is given to a node is one of the node's names from then on, and one that is
/// taken away no longer; no other node's names change, and no other of its own.
pub proof fn law_nodes_have_the_names_they_were_given(
    given: (&mut Namespace, NodeId, Dentry),
    taken: (&mut Namespace, &Dentry),
    lost: Option<NodeId>,
    id: u64,
    d: DentryView,
)
    requires
        call_ensures(Namespace::add_alias, given, ()),
        call_ensures(Namespace::remove, taken, lost),
    ensures
        final(given.0)@.aliases_of(id).contains(d) <==> old(given.0)@.aliases_of(id).contains(d) || (
        id == given.1@ && d == given.2@),
        lost matches Some(node) ==> (final(taken.0)@.aliases_of(id).contains(d) <==> old(
            taken.0,
        )@.aliases_of(id).contains(d) && !(id == node@ && d == taken.1@)),
        lost is None ==> final(taken.0)@.aliases_of(id) == old(taken.0)@.aliases_of(id),
        final(given.0)@.keys == old(given.0)@.keys,
        final(taken.0)@.keys == old(taken.0)@.keys,
{
    if let Some(node) = lost {
        let rest = old(taken.0)@.aliases_of(node@).remove(taken.1@);
        if rest == Set::<DentryView>::empty() {
            assert(!rest.contains(d));
        }
    }
}

/// A name that is discovered stands for one node from then on, and for the same node when it
/// is discovered again; only a name that is not known yet gets a node, and then a live one
/// with the state that came with it.
pub proof fn law_discovered_names_stand_for_one_node<S>(
    args: (&mut Namespace, &mut Cx<PathNode<S>>, NodeId, &[u8], Arc<S>),
    found: (NodeId, bool),
    d: &Dentry,
    known: (Option<NodeId>, Option<NodeId>),
    e: &Dentry,
    others: (Option<NodeId>, Option<NodeId>),
)
    requires
        call_ensures(Namespace::insert::<S>, args, found),
        d@ == (DentryView { parent: args.2@, name: args.3@ }),
        call_ensures(Namespace::get, (&*args.0, d), known.0),
        call_ensures(Namespace::get, (&*final(args.0), d), known.1),
        e@ != d@,
        call_ensures(Namespace::get, (&*args.0, e), others.0),
        call_ensures(Namespace::get, (&*final(args.0), e), others.1),
        old(args.1)@.inv(),
        known.0 is None ==> old(args.1)@.has_room(),
    ensures
        known.1 == Some(found.0),
        found.1 <==> known.0 is None,
        known.0 matches Some(id) ==> id == found.0,
        others.0 == others.1,
        known.0 is Some ==> final(args.1)@ == old(args.1)@,
        known.0 is None ==> {
            &&& !old(args.1)@.nodes.contains_key(found.0@)
            &&& final(args.1)@.nodes.contains_key(found.0@)
            &&& final(args.1)@.nodes[found.0@].payload.state() == args.4
            &&& final(args.1)@.nodes[found.0@].parent == args.2
            &&& final(args.1)@.nodes[found.0@].links == 1
            &&& final(args.1)@.nodes.remove(found.0@) == old(args.1)@.nodes
        },
{
    broadcast use crate::node_id::node_id_is_its_ino;

    if known.0 is None {
        PathNode::lemma_of(old(args.0)@.next_key, args.4);
        crate::cx::law_new_node_displaces_none(
            old(args.1)@,
            PathNode::of(old(args.0)@.next_key, args.4),
            args.2,
        );
    }
}

/// The root's path is the separator alone, and a node without a name has no path.
pub proof fn law_root_has_the_shortest_path(
    ns: &Namespace,
    root: NodeId,
    nameless: NodeId,
    paths: (Option<Vec<u8>>, Option<Vec<u8>>),
)
    requires
        call_ensures(NodeId::root, (), root),
        call_ensures(Namespace::path_for, (ns, root), paths.0),
        nameless@ != 1,
        !ns@.aliases.contains_key(nameless@),
        call_ensures(Namespace::path_for, (ns, nameless), paths.1),
    ensures
        paths.0 matches Some(path) && path@ == seq![47u8],
        paths.1 is None,
{
    crate::namespace::law_path_of_root_and_nameless(ns@, root@);
    crate::namespace::law_path_of_root_and_nameless(ns@, nameless@);
}

/// The path of any other node is the path of the directory that its first name is in, one
/// separator and that name. It has none if the directory has none.
pub proof fn law_path_is_directory_separator_name(
    ns: &Namespace,
    id: NodeId,
    d: DentryView,
    dir: NodeId,
    ends: bool,
    path: Option<Vec<u8>>,
    above: Option<Vec<u8>>,
)
    requires
        ns@.inv(),
        id@ != 1,
        ns@.aliases_of(id@).contains(d),
        forall|e: DentryView| #[trigger]
            ns@.aliases_of(id@).contains(e) && e != d ==> stands_before(d, e),
        dir@ == d.parent,
        !d.name.contains(47u8),
        d.name.len() > 0,
        call_ensures(Namespace::resolves, (ns, id), true),
        call_ensures(Namespace::path_for, (ns, id), path),
        call_ensures(Namespace::path_for, (ns, dir), above),
    ensures
        path is Some <==> above is Some,
        above matches Some(q) ==> {
            &&& q@.len() > 0 && q@[0] == 47
            &&& q@.last() == 47 ==> path->0@ == q@ + d.name
            &&& q@.last() != 47 ==> path->0@ == q@ + seq![47u8] + d.name
        },
{
    crate::namespace::law_path_is_directory_and_first_name(ns@, id@);
    let first = ns@.canonical(id@);
    lemma_comes_before(d.name, first.name);
    lemma_comes_before(first.name, d.name);
    if first != d {
        assert(ns@.aliases_of(id@).contains(first));
        crate::dentry::lemma_dentry_below_transitive(d, first, d);
        crate::dentry::lemma_dentry_below_irreflexive(d);
    }
    if let Some(q) = above {
        crate::namespace::law_paths_are_absolute(ns@, dir@);
        assert(d.name[0] != 47u8);
        assert(q@.push(47) + d.name =~= q@ + seq![47u8] + d.name);
    }
}

/// The parts of an absolute path between its separators.
pub open spec fn parts(path: Seq<u8>) -> Seq<Seq<u8>>
    decreases path.len(),
{
    if path.len() == 0 {
        Seq::empty()
    } else if path.last() == 47 {
        parts(path.drop_last()).push(Seq::empty())
    } else {
        let before = parts(path.drop_last());
        before.drop_last().push(before.last().push(path.last()))
    }
}

/// The names are ones that a directory can hold: not empty, and without a separator.
pub open spec fn are_names(names: Seq<Seq<u8>>) -> bool {
    forall|i: int|
        0 <= i < names.len() ==> (#[trigger] names[i]).len() > 0 && !names[i].contains(47u8)
}

/// Splitting a node's path at the separators gives back exactly the names on the way down to
/// it from the root.
pub proof fn law_paths_split_into_the_names_on_the_way(
    ns: &Namespace,
    id: NodeId,
    names: Seq<Seq<u8>>,
    path: Option<Vec<u8>>,
)
    requires
        call_ensures(Namespace::path_for, (ns, id), path),
        crate::namespace::below(ns@, 1, id@, names),
        are_names(names),
        names.len() > 0,
    ensures
        path is Some,
        path->0@[0] == 47,
        parts(path->0@) == names,
{
    crate::namespace::law_path_of_root_and_nameless(ns@, 1);
    crate::namespace::law_path_below(ns@, 1, id@, names);
    crate::namespace::law_paths_are_absolute(ns@, id@);
    lemma_parts_of_joined(names);
}

proof fn lemma_parts_of_joined(names: Seq<Seq<u8>>)
    requires
        are_names(names),
    ensures
        ({
            let path = crate::namespace::joined_all(seq![47u8], names);
            &&& path.len() > 0
            &&& names.len() > 0 ==> path.last() != 47 && parts(path) == names
            &&& names.len() == 0 ==> path == seq![47u8]
        }),
    decreases names.len(),
{
    if names.len() > 0 {
        let rest = names.drop_last();
        let name = names.last();
        assert(names[names.len() - 1] == name);
        assert forall|i: int| 0 <= i < rest.len() implies (#[trigger] rest[i]).len() > 0
            && !rest[i].contains(47u8) by {
            assert(names[i] == rest[i]);
        }
        lemma_parts_of_joined(rest);
        let above = crate::namespace::joined_all(seq![47u8], rest);
        assert(name[0] != 47u8);
        assert(name.last() == name[name.len() - 1]);
        reveal_with_fuel(parts, 2);
        if rest.len() == 0 {
            assert(seq![47u8].drop_last() =~= Seq::<u8>::empty());
            assert(parts(seq![47u8]) =~= seq![Seq::<u8>::empty()]);
            lemma_parts_grow(seq![47u8], name);
            assert(rest.push(name) =~= names);
            assert(parts(above + name) =~= names);
        } else {
            let led = above.push(47);
            assert(led.drop_last() =~= above);
            lemma_parts_grow(led, name);
            assert(parts(led).drop_last() =~= rest);
            assert(rest.push(name) =~= names);
        }
    }
}

proof fn lemma_parts_grow(path: Seq<u8>, name: Seq<u8>)
    requires
        path.len() > 0,
        path.last() == 47,
        !name.contains(47u8),
    ensures
        parts(path).len() > 0,
        parts(path).last() == Seq::<u8>::empty(),
        parts(path + name) == parts(path).drop_last().push(name),
    decreases name.len(),
{
    if name.len() == 0 {
        assert(path + name =~= path);
        assert(name =~= Seq::empty());
        assert(parts(path) =~= parts(path).drop_last().push(name));
    } else {
        let shorter = name.drop_last();
        assert forall|i: int| 0 <= i < shorter.len() implies shorter[i] != 47u8 by {
            assert(name[i] == shorter[i]);
        }
        lemma_parts_grow(path, shorter);
        assert((path + name).drop_last() =~= path + shorter);
        assert(name[name.len() - 1] == name.last());
        assert(shorter.push(name.last()) =~= name);
        assert(parts(path).drop_last().push(shorter).drop_last() =~= parts(path).drop_last());
    }
}

/// A reference says the path and the state that it was made of.
pub proof fn law_references_say_what_they_are_made_of<'a, S>(
    path: Option<&'a [u8]>,
    state: &'a Arc<S>,
    node: PathNodeRef<'a, S>,
    said: Option<&'a [u8]>,
    shared: &'a S,
    arc: Arc<S>,
)
    requires
        call_ensures(PathNodeRef::<'a, S>::new, (path, state), node),
        call_ensures(PathNodeRef::<'a, S>::path, (&node,), said),
        call_ensures(PathNodeRef::<'a, S>::state, (&node,), shared),
        call_ensures(PathNodeRef::<'a, S>::state_arc, (&node,), arc),
    ensures
        said is Some <==> path is Some,
        path is Some ==> said->0@ == path->0@,
        *shared == **state,
        arc == *state,
{
}

/// A new namespace knows no name, and has room.
pub proof fn law_new_namespaces_know_no_name(
    ns: Namespace,
    d: &Dentry,
    known: Option<NodeId>,
    id: NodeId,
    path: Option<Vec<u8>>,
    room: bool,
)
    requires
        call_ensures(Namespace::new, (), ns),
        call_ensures(Namespace::get, (&ns, d), known),
        id@ != 1,
        call_ensures(Namespace::path_for, (&ns, id), path),
        call_ensures(Namespace::has_room, (&ns,), room),
    ensures
        known is None,
        path is None,
        room,
{
    crate::namespace::law_path_of_root_and_nameless(ns@, id@);
}

/// The payload that a newly discovered node is given leads back to that node.
pub proof fn law_payloads_lead_back_to_their_nodes<S>(
    args: (&mut Namespace, &mut Cx<PathNode<S>>, NodeId, &[u8], Arc<S>),
    id: NodeId,
    node: &PathNode<S>,
    back: Option<NodeId>,
)
    requires
        call_ensures(Namespace::insert::<S>, args, (id, true)),
        call_ensures(Cx::<PathNode<S>>::get, (&*final(args.1), id), Some(node)),
        call_ensures(Namespace::id_for_node::<S>, (&*final(args.0), node), back),
    ensures
        back == Some(id),
        node.state() == args.4,
{
    broadcast use crate::node_id::node_id_is_its_ino;

    PathNode::lemma_of(old(args.0)@.next_key, args.4);
}

/// The way up ends at the root and at a node without a name; from any other node it ends
/// exactly if it does from the directory that the node's first name is in.
pub proof fn law_ways_up_lead_through_directories(
    ns: &Namespace,
    id: NodeId,
    d: DentryView,
    dir: NodeId,
    ends: (bool, bool),
)
    requires
        ns@.inv(),
        call_ensures(Namespace::resolves, (ns, id), ends.0),
        call_ensures(Namespace::resolves, (ns, dir), ends.1),
        dir@ == d.parent,
    ensures
        id@ == 1 || !ns@.aliases.contains_key(id@) ==> ends.0,
        id@ != 1 && ns@.aliases_of(id@).contains(d) && (forall|e: DentryView| #[trigger]
            ns@.aliases_of(id@).contains(e) && e != d ==> stands_before(d, e)) ==> ends.0 == ends.1,
{
    if id@ == 1 || !ns@.aliases.contains_key(id@) {
        crate::namespace::law_path_of_root_and_nameless(ns@, id@);
    } else if ns@.aliases_of(id@).contains(d) && (forall|e: DentryView| #[trigger]
        ns@.aliases_of(id@).contains(e) && e != d ==> stands_before(d, e)) {
        let first = ns@.canonical(id@);
        crate::dentry::lemma_first_exists(ns@.aliases[id@]);
        lemma_comes_before(d.name, first.name);
        lemma_comes_before(first.name, d.name);
        if first != d {
            assert(ns@.aliases_of(id@).contains(first));
            crate::dentry::lemma_dentry_below_transitive(d, first, d);
            crate::dentry::lemma_dentry_below_irreflexive(d);
        }
        if ns@.resolves(dir@) {
            crate::namespace::lemma_path_steps(ns@, id@);
        }
        if ns@.resolves(id@) {
            crate::namespace::law_path_is_directory_and_first_name(ns@, id@);
        }
    }
}

} // verus!
