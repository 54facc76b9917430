//! The names that a path filesystem's nodes are known by, and the paths that follow
//! from them.
//!
//! A node may have several names, in one or more directories. Its path is built from
//! the first of them, in the order of directory entries, and from the path of the
//! directory that this name is in. So a directory that moves takes everything below it
//! along, and nothing below it has to be touched.

use vstd::prelude::*;

use std::collections::BTreeMap;
use std::sync::Arc;

use crate::bytes::append_bytes;
use crate::cx::Cx;
use crate::dentry::{Dentry, DentryTable, DentryView};
use crate::node_id::NodeId;
use crate::tree::{PathNode, Tree};

verus! {

/// The byte that separates the names in a path.
pub const SLASH: u8 = 47;

/// The path of `name` relative to `path`: a name that is itself absolute replaces the
/// path, any other is put behind it, after a separator unless the path ends in one.
pub open spec fn joined(path: Seq<u8>, name: Seq<u8>) -> Seq<u8> {
    if name.len() > 0 && name[0] == SLASH {
        name
    } else if path.len() > 0 && path.last() != SLASH {
        path.push(SLASH) + name
    } else {
        path + name
    }
}

/// The path of a list of names, each relative to the one before.
pub open spec fn joined_all(path: Seq<u8>, names: Seq<Seq<u8>>) -> Seq<u8>
    decreases names.len(),
{
    if names.len() == 0 {
        path
    } else {
        joined(joined_all(path, names.drop_last()), names.last())
    }
}

/// Puts a name behind a path.
fn join(path: &mut Vec<u8>, name: &[u8])
    ensures
        final(path)@ == joined(old(path)@, name@),
{
    if name.len() > 0 && name[0] == SLASH {
        path.clear();
    } else if path.len() > 0 && path[path.len() - 1] != SLASH {
        path.push(SLASH);
    }
    append_bytes(path, name);
    assert(name@ =~= Seq::<u8>::empty() + name@);
}

/// A name goes behind a path with one separator between them, byte 47, unless the path ends
/// in one; an absolute name takes the path's place.
proof fn law_one_separator_before_a_name(args: (&mut Vec<u8>, &[u8]))
    requires
        call_ensures(join, args, ()),
        old(args.0)@.len() > 0,
    ensures
        args.1@.len() > 0 && args.1@[0] == 47 ==> final(args.0)@ == args.1@,
        !(args.1@.len() > 0 && args.1@[0] == 47) && old(args.0)@.last() != 47 ==> final(args.0)@
            == old(args.0)@ + seq![47u8] + args.1@,
        !(args.1@.len() > 0 && args.1@[0] == 47) && old(args.0)@.last() == 47 ==> final(args.0)@
            == old(args.0)@ + args.1@,
{
    assert(old(args.0)@.push(47) =~= old(args.0)@ + seq![47u8]);
}

/// The namespace as a value: which node a name stands for, the names of each node, and
/// which node holds each payload key.
#[verifier::ext_equal]
pub struct NamespaceView {
    pub names: Map<DentryView, u64>,
    pub aliases: Map<u64, Set<DentryView>>,
    pub keys: Map<u64, u64>,
    pub next_key: u64,
}

impl NamespaceView {
    /// The root has the first key, keys are given out in order, every name in use is
    /// among the names of its node, and a node without names has no list of them.
    pub open spec fn inv(self) -> bool {
        &&& 2 <= self.next_key
        &&& self.keys.contains_key(1) && self.keys[1] == crate::node_id::ROOT_INO
        &&& forall|key: u64| #[trigger] self.keys.contains_key(key) ==> key < self.next_key
        &&& forall|d: DentryView| #[trigger]
            self.names.contains_key(d) ==> self.aliases.contains_key(self.names[d])
                && self.aliases[self.names[d]].contains(d)
        &&& forall|id: u64| #[trigger]
            self.aliases.contains_key(id) ==> self.aliases[id].finite() && self.aliases[id].len()
                > 0
    }

    /// The names of a node.
    pub open spec fn aliases_of(self, id: u64) -> Set<DentryView> {
        if self.aliases.contains_key(id) {
            self.aliases[id]
        } else {
            Set::empty()
        }
    }

    /// The name that a node's path is built from: the first one.
    pub open spec fn canonical(self, id: u64) -> DentryView {
        choose|d: DentryView| crate::dentry::is_first(self.aliases[id], d)
    }

    /// The way up from a node ends with it: it is the root, or it has no name.
    pub open spec fn ends(self, id: u64) -> bool {
        id == crate::node_id::ROOT_INO || !self.aliases.contains_key(id)
    }

    /// The directory that a node's path goes through.
    pub open spec fn up(self, id: u64) -> u64 {
        if self.ends(id) {
            id
        } else {
            self.canonical(id).parent
        }
    }

    /// The node `n` directories up.
    pub open spec fn climb(self, id: u64, n: nat) -> u64
        decreases n,
    {
        if n == 0 {
            id
        } else {
            self.climb(self.up(id), (n - 1) as nat)
        }
    }

    /// The way up from a node comes to an end. It does unless a directory has been put
    /// below itself.
    pub open spec fn resolves(self, id: u64) -> bool {
        exists|n: nat| self.ends(#[trigger] self.climb(id, n))
    }

    /// The path of a node, found within `n` directories.
    pub open spec fn path_within(self, id: u64, n: nat) -> Option<Seq<u8>>
        decreases n,
    {
        if id == crate::node_id::ROOT_INO {
            Some(seq![SLASH])
        } else if !self.aliases.contains_key(id) || n == 0 {
            None
        } else {
            match self.path_within(self.canonical(id).parent, (n - 1) as nat) {
                Some(path) => Some(joined(path, self.canonical(id).name)),
                None => None,
            }
        }
    }

    /// The path of a node: `/` for the root, none for a node without a name or one whose
    /// directory has no path, and else the first name behind the directory's path.
    pub open spec fn path(self, id: u64) -> Option<Seq<u8>> {
        self.path_within(id, choose|n: nat| self.ends(#[trigger] self.climb(id, n)))
    }

    /// The node that a payload key belongs to.
    pub open spec fn holder(self, key: u64) -> Option<u64> {
        if self.keys.contains_key(key) {
            Some(self.keys[key])
        } else {
            None
        }
    }

    /// The namespace with a further name for a node.
    pub open spec fn with_alias(self, id: u64, d: DentryView) -> NamespaceView {
        NamespaceView {
            names: self.names.insert(d, id),
            aliases: self.aliases.insert(id, self.aliases_of(id).insert(d)),
            ..self
        }
    }

    /// The namespace with a new node that has one name.
    pub open spec fn with_node(self, id: u64, d: DentryView) -> NamespaceView {
        NamespaceView {
            keys: self.keys.insert(self.next_key, id),
            next_key: (self.next_key + 1) as u64,
            ..self.with_alias(id, d)
        }
    }

    /// The namespace without a name.
    pub open spec fn without(self, d: DentryView) -> NamespaceView {
        if !self.names.contains_key(d) {
            self
        } else {
            let id = self.names[d];
            let rest = self.aliases_of(id).remove(d);
            NamespaceView {
                names: self.names.remove(d),
                aliases: if rest == Set::<DentryView>::empty() {
                    self.aliases.remove(id)
                } else {
                    self.aliases.insert(id, rest)
                },
                ..self
            }
        }
    }
}

pub(crate) proof fn lemma_climb_on(ns: NamespaceView, id: u64, n: nat)
    ensures
        ns.climb(id, n + 1) == ns.up(ns.climb(id, n)),
    decreases n,
{
    reveal_with_fuel(NamespaceView::climb, 2);
    if n > 0 {
        lemma_climb_on(ns, ns.up(id), (n - 1) as nat);
    }
}

proof fn lemma_climb_splits(ns: NamespaceView, id: u64, m: nat, n: nat)
    ensures
        ns.climb(id, m + n) == ns.climb(ns.climb(id, m), n),
    decreases m,
{
    if m > 0 {
        assert((m + n - 1) as nat == (m - 1) as nat + n);
        lemma_climb_splits(ns, ns.up(id), (m - 1) as nat, n);
    }
}

/// A path does not depend on how far one is ready to climb for it, if it is far enough.
proof fn lemma_path_within_settles(ns: NamespaceView, id: u64, m: nat, n: nat)
    requires
        ns.ends(ns.climb(id, m)),
        ns.ends(ns.climb(id, n)),
    ensures
        ns.path_within(id, m) == ns.path_within(id, n),
    decreases m,
{
    if !ns.ends(id) {
        assert(m > 0 && n > 0);
        lemma_path_within_settles(ns, ns.up(id), (m - 1) as nat, (n - 1) as nat);
    }
}

/// The path of a node whose way up ends within `n` directories.
proof fn lemma_path_is(ns: NamespaceView, id: u64, n: nat)
    requires
        ns.ends(ns.climb(id, n)),
    ensures
        ns.resolves(id),
        ns.path(id) == ns.path_within(id, n),
{
    let m = choose|m: nat| ns.ends(#[trigger] ns.climb(id, m));
    lemma_path_within_settles(ns, id, m, n);
}

pub(crate) proof fn lemma_path_steps(ns: NamespaceView, id: u64)
    requires
        !ns.ends(id),
        ns.resolves(ns.up(id)),
    ensures
        ns.resolves(id),
        ns.path(id) == (match ns.path(ns.canonical(id).parent) {
            Some(path) => Some(joined(path, ns.canonical(id).name)),
            None => None,
        }),
{
    let n = choose|n: nat| ns.ends(#[trigger] ns.climb(ns.up(id), n));
    assert(ns.climb(id, n + 1) == ns.climb(ns.up(id), n));
    lemma_path_is(ns, id, n + 1);
    lemma_path_is(ns, ns.up(id), n);
}

/// The root's path is `/`, and a node without a name has none.
pub proof fn law_path_of_root_and_nameless(ns: NamespaceView, id: u64)
    requires
        ns.ends(id),
    ensures
        ns.resolves(id),
        ns.path(id) == (if id == crate::node_id::ROOT_INO {
            Some(seq![SLASH])
        } else {
            None
        }),
{
    assert(ns.ends(ns.climb(id, 0)));
    lemma_path_is(ns, id, 0);
}

/// The path of any other node is the path of a directory and the node's name in it: its
/// first name in the order of directory entries.
pub proof fn law_path_is_directory_and_first_name(ns: NamespaceView, id: u64)
    requires
        ns.inv(),
        ns.resolves(id),
        !ns.ends(id),
    ensures
        crate::dentry::is_first(ns.aliases[id], ns.canonical(id)),
        ns.resolves(ns.canonical(id).parent),
        ns.path(id) == (match ns.path(ns.canonical(id).parent) {
            Some(path) => Some(joined(path, ns.canonical(id).name)),
            None => None,
        }),
{
    crate::dentry::lemma_first_exists(ns.aliases[id]);
    let n = choose|n: nat| ns.ends(#[trigger] ns.climb(id, n));
    assert(n > 0);
    assert(ns.ends(ns.climb(ns.up(id), (n - 1) as nat)));
    lemma_path_steps(ns, id);
}

/// Every path is absolute: it begins with the separator.
pub proof fn law_paths_are_absolute(ns: NamespaceView, id: u64)
    requires
        ns.resolves(id),
        ns.path(id) is Some,
    ensures
        ns.path(id)->0.len() > 0,
        ns.path(id)->0[0] == SLASH,
{
    let n = choose|n: nat| ns.ends(#[trigger] ns.climb(id, n));
    lemma_path_is(ns, id, n);
    lemma_path_within_absolute(ns, id, n);
}

proof fn lemma_path_within_absolute(ns: NamespaceView, id: u64, n: nat)
    requires
        ns.path_within(id, n) is Some,
    ensures
        ns.path_within(id, n)->0.len() > 0,
        ns.path_within(id, n)->0[0] == SLASH,
    decreases n,
{
    if id != crate::node_id::ROOT_INO {
        lemma_path_within_absolute(ns, ns.canonical(id).parent, (n - 1) as nat);
    }
}

/// A way up that meets one node twice never ends.
proof fn lemma_circle(ns: NamespaceView, id: u64, a: nat, b: nat, n: nat)
    requires
        a < b,
        ns.climb(id, a) == ns.climb(id, b),
        forall|m: nat| m <= b ==> !ns.ends(#[trigger] ns.climb(id, m)),
    ensures
        !ns.ends(ns.climb(id, n)),
    decreases n,
{
    if n > b {
        lemma_climb_splits(ns, id, b, (n - b) as nat);
        lemma_climb_splits(ns, id, a, (n - b) as nat);
        assert(b + (n - b) as nat == n);
        lemma_circle(ns, id, a, b, a + (n - b) as nat);
    }
}

/// A way up that is longer than there are nodes with names never ends.
proof fn lemma_too_far(ns: NamespaceView, id: u64)
    requires
        ns.aliases.dom().finite(),
        forall|m: nat| m <= ns.aliases.dom().len() ==> !ns.ends(#[trigger] ns.climb(id, m)),
    ensures
        !ns.resolves(id),
{
    let count = ns.aliases.dom().len();
    let visited = Seq::new(count + 1, |i: int| ns.climb(id, i as nat));
    assert forall|x: u64| visited.to_set().contains(x) implies ns.aliases.dom().contains(x) by {
        let i = choose|i: int| 0 <= i < visited.len() && visited[i] == x;
        assert(!ns.ends(ns.climb(id, i as nat)));
    }
    vstd::set_lib::lemma_len_subset(visited.to_set(), ns.aliases.dom());
    if visited.no_duplicates() {
        visited.unique_seq_to_set();
        assert(false);
    }
    let (i, j) = choose|i: int, j: int|
        0 <= i < j < visited.len() && #[trigger] visited[i] == #[trigger] visited[j];
    assert(0 <= i < j < visited.len() && visited[i] == visited[j]);
    assert(ns.climb(id, i as nat) == ns.climb(id, j as nat));
    assert forall|n: nat| !ns.ends(#[trigger] ns.climb(id, n)) by {
        lemma_circle(ns, id, i as nat, j as nat, n);
    }
}

/// The names that a path filesystem's nodes are known by.
pub struct Namespace {
    by_name: DentryTable<NodeId>,
    aliases: BTreeMap<u64, DentryTable<()>>,
    keys: BTreeMap<u64, NodeId>,
    next_key: u64,
}

impl View for Namespace {
    type V = NamespaceView;

    closed spec fn view(&self) -> NamespaceView {
        NamespaceView {
            names: self.by_name@.map_values(|id: NodeId| id@),
            aliases: self.aliases@.map_values(|names: DentryTable<()>| names@.dom()),
            keys: self.keys@.map_values(|id: NodeId| id@),
            next_key: self.next_key,
        }
    }
}

impl Namespace {
    /// The tables are in order, and the names agree with each other.
    pub closed spec fn wf(&self) -> bool {
        &&& self.by_name.wf()
        &&& forall|id: u64| #[trigger] self.aliases@.contains_key(id) ==> self.aliases@[id].wf()
        &&& self@.inv()
    }

    /// The names of a namespace in order agree with each other.
    pub proof fn lemma_inv(&self)
        requires
            self.wf(),
        ensures
            self@.inv(),
    {
    }

    /// A namespace that knows the root alone.
    pub fn new() -> (ns: Namespace)
        ensures
            ns.wf(),
            ns@.names == Map::<DentryView, u64>::empty(),
            ns@.aliases == Map::<u64, Set<DentryView>>::empty(),
            ns@.keys == map![1u64 => crate::node_id::ROOT_INO],
            ns@.next_key == 2,
    {
        let mut keys: BTreeMap<u64, NodeId> = BTreeMap::new();
        keys.insert(1, NodeId::root());
        let ns = Namespace { by_name: DentryTable::new(), aliases: BTreeMap::new(), keys, next_key: 2 };
        assert(ns@.names =~= Map::<DentryView, u64>::empty());
        assert(ns@.aliases =~= Map::<u64, Set<DentryView>>::empty());
        assert(ns@.keys =~= map![1u64 => crate::node_id::ROOT_INO]);
        ns
    }

    /// Whether a further node can be given a key.
    pub fn has_room(&self) -> (room: bool)
        ensures
            room == (self@.next_key < u64::MAX),
    {
        self.next_key < u64::MAX
    }

    /// The node that holds a payload.
    pub fn id_for_node<S>(&self, node: &PathNode<S>) -> (id: Option<NodeId>)
        ensures
            match id {
                Some(id) => self@.holder(node.key()) == Some(id@),
                None => self@.holder(node.key()) is None,
            },
    {
        match self.keys.get(&node.key_number()) {
            Some(id) => Some(*id),
            None => None,
        }
    }

    /// The node that a name stands for.
    pub fn get(&self, d: &Dentry) -> (id: Option<NodeId>)
        requires
            self.wf(),
        ensures
            match id {
                Some(id) => self@.names.contains_key(d@) && self@.names[d@] == id@,
                None => !self@.names.contains_key(d@),
            },
    {
        match self.by_name.get(d) {
            Some(id) => Some(*id),
            None => None,
        }
    }

    /// The first name of a node that has one.
    fn first_alias(&self, ino: u64) -> (d: Option<&Dentry>)
        requires
            self.wf(),
        ensures
            match d {
                Some(d) => self@.aliases.contains_key(ino) && self@.canonical(ino) == d@,
                None => !self@.aliases.contains_key(ino),
            },
    {
        match self.aliases.get(&ino) {
            Some(names) => {
                assert(self@.aliases[ino] == names@.dom());
                let d = names.first();
                proof {
                    match d {
                        Some(d) => {
                            crate::dentry::lemma_first_is_unique(
                                self@.aliases[ino],
                                d@,
                                self@.canonical(ino),
                            );
                        },
                        None => {
                            assert(names@.dom() =~= Set::<DentryView>::empty());
                        },
                    }
                }
                d
            },
            None => None,
        }
    }

    /// Whether the way up from a node comes to an end.
    pub fn resolves(&self, id: NodeId) -> (ends: bool)
        requires
            self.wf(),
        ensures
            ends == self@.resolves(id@),
    {
        let limit: usize = self.aliases.len();
        let mut steps: usize = 0;
        let mut ino: u64 = id.ino();
        assert(self@.aliases.dom() =~= self.aliases@.dom());
        loop
            invariant
                self.wf(),
                limit == self@.aliases.dom().len(),
                self@.aliases.dom().finite(),
                steps <= limit,
                ino == self@.climb(id@, steps as nat),
                forall|m: nat| m < steps ==> !self@.ends(#[trigger] self@.climb(id@, m)),
            decreases limit - steps,
        {
            if ino == crate::node_id::ROOT_INO {
                assert(self@.ends(self@.climb(id@, steps as nat)));
                return true;
            }
            match self.first_alias(ino) {
                Some(d) => {
                    proof {
                        lemma_climb_on(self@, id@, steps as nat);
                    }
                    if steps == limit {
                        proof {
                            lemma_too_far(self@, id@);
                        }
                        return false;
                    }
                    ino = d.parent.ino();
                    steps += 1;
                },
                None => {
                    assert(self@.ends(self@.climb(id@, steps as nat)));
                    return true;
                },
            }
        }
    }

    /// The path of a node, found within `n` directories.
    fn path_up(&self, ino: u64, Ghost(n): Ghost<nat>) -> (path: Option<Vec<u8>>)
        requires
            self.wf(),
            self@.ends(self@.climb(ino, n)),
        ensures
            match path {
                Some(path) => self@.path_within(ino, n) == Some(path@),
                None => self@.path_within(ino, n) is None,
            },
        decreases n,
    {
        if ino == crate::node_id::ROOT_INO {
            let mut path: Vec<u8> = Vec::new();
            path.push(SLASH);
            assert(path@ =~= seq![SLASH]);
            return Some(path);
        }
        match self.first_alias(ino) {
            Some(d) => {
                assert(n > 0);
                match self.path_up(d.parent.ino(), Ghost((n - 1) as nat)) {
                    Some(path) => {
                        let mut path: Vec<u8> = path;
                        join(&mut path, d.name.as_slice());
                        Some(path)
                    },
                    None => None,
                }
            },
            None => None,
        }
    }

    /// The path of a node, or `None` if the node or a directory above it has no name.
    pub fn path_for(&self, id: NodeId) -> (path: Option<Vec<u8>>)
        requires
            self.wf(),
            self@.resolves(id@),
        ensures
            match path {
                Some(path) => self@.path(id@) == Some(path@),
                None => self@.path(id@) is None,
            },
    {
        let ghost n = choose|n: nat| self@.ends(#[trigger] self@.climb(id@, n));
        self.path_up(id.ino(), Ghost(n))
    }

    /// Records a further name of a node.
    pub fn add_alias(&mut self, id: NodeId, dentry: Dentry)
        requires
            old(self).wf(),
        ensures
            final(self).wf(),
            final(self)@ == old(self)@.with_alias(id@, dentry@),
    {
        let ghost before = *self;
        let ino: u64 = id.ino();
        self.by_name.insert(dentry.copy(), id);
        assert(self@.names =~= before@.names.insert(dentry@, ino));
        let mut names: DentryTable<()> = match self.aliases.remove(&ino) {
            Some(names) => names,
            None => DentryTable::new(),
        };
        assert(names@.dom() =~= before@.aliases_of(ino));
        let ghost d = dentry@;
        names.insert(dentry, ());
        assert(names@.dom() =~= before@.aliases_of(ino).insert(d));
        let ghost all = names@.dom();
        proof {
            names.lemma_finite();
        }
        self.aliases.insert(ino, names);
        proof {
            assert(self@.aliases =~= before@.aliases.insert(ino, all));
            assert(self@ == before@.with_alias(ino, d));
            lemma_with_alias_inv(before@, ino, d);
            assert forall|other: u64| #[trigger] self.aliases@.contains_key(other) implies
                self.aliases@[other].wf() by {
                if other != ino {
                    assert(before.aliases@.contains_key(other));
                }
            }
        }
    }

    /// Forgets a name, and hands out the node that it stood for.
    pub fn remove(&mut self, dentry: &Dentry) -> (id: Option<NodeId>)
        requires
            old(self).wf(),
        ensures
            final(self).wf(),
            final(self)@ == old(self)@.without(dentry@),
            match id {
                Some(id) => old(self)@.names.contains_key(dentry@) && old(self)@.names[dentry@]
                    == id@,
                None => !old(self)@.names.contains_key(dentry@),
            },
    {
        let ghost before = *self;
        let ghost d = dentry@;
        match self.by_name.remove(dentry) {
            Some(id) => {
                assert(self@.names =~= before@.names.remove(d));
                let ino: u64 = id.ino();
                assert(before@.names.contains_key(d) && before@.names[d] == ino);
                assert(before.aliases@.contains_key(ino));
                match self.aliases.remove(&ino) {
                    Some(names) => {
                        let mut names: DentryTable<()> = names;
                        let ghost all = names@.dom();
                        assert(all == before@.aliases_of(ino));
                        names.remove(dentry);
                        let ghost rest = names@.dom();
                        assert(rest =~= all.remove(d));
                        if !names.is_empty() {
                            proof {
                                if rest == Set::<DentryView>::empty() {
                                    assert(names@ =~= Map::<DentryView, ()>::empty());
                                }
                            }
                            self.aliases.insert(ino, names);
                            assert(self@.aliases =~= before@.aliases.insert(ino, rest));
                        } else {
                            assert(rest =~= Set::<DentryView>::empty());
                            assert(self@.aliases =~= before@.aliases.remove(ino));
                        }
                    },
                    None => {},
                }
                proof {
                    assert(self@ == before@.without(d));
                    lemma_without_inv(before@, d);
                    assert forall|other: u64| #[trigger] self.aliases@.contains_key(other) implies
                        self.aliases@[other].wf() by {
                        if other != ino {
                            assert(before.aliases@.contains_key(other));
                        }
                    }
                }
                Some(id)
            },
            None => {
                assert(self.by_name@ =~= before.by_name@);
                assert(self@ == before@);
                None
            },
        }
    }

    /// Discovers a name in a directory. A known name keeps its node and that node's
    /// state; a new one gets a node with the given state. Says which node the name stands
    /// for and whether it is new.
    pub fn insert<S>(
        &mut self,
        cx: &mut Cx<PathNode<S>>,
        parent: NodeId,
        name: &[u8],
        state: Arc<S>,
    ) -> (found: (NodeId, bool))
        requires
            old(self).wf(),
            old(cx)@.inv(),
            (Tree { names: old(self)@, nodes: old(cx)@ }).can_discover(parent, name@),
        ensures
            final(self).wf(),
            final(cx)@.inv(),
            ({
                let before = Tree { names: old(self)@, nodes: old(cx)@ };
                let after = Tree { names: final(self)@, nodes: final(cx)@ };
                &&& after == before.discovered(parent, name@, state)
                &&& found.0@ == before.discovered_id(parent, name@)
                &&& found.1 == !before.names.names.contains_key(
                    DentryView { parent: parent@, name: name@ },
                )
            }),
    {
        let dentry: Dentry = Dentry::new(parent, name);
        if let Some(id) = self.get(&dentry) {
            return (id, false);
        }
        let key: u64 = self.next_key;
        let id: NodeId = cx.insert(PathNode::new(key, state), parent);
        self.add_alias(id, dentry);
        self.take_key(key, id);
        (id, true)
    }

    /// Gives out the next key.
    fn take_key(&mut self, key: u64, id: NodeId)
        requires
            old(self).wf(),
            key == old(self)@.next_key,
            key < u64::MAX,
        ensures
            final(self).wf(),
            final(self)@ == (NamespaceView {
                keys: old(self)@.keys.insert(key, id@),
                next_key: (key + 1) as u64,
                ..old(self)@
            }),
    {
        let ghost before = *self;
        self.keys.insert(key, id);
        self.next_key = key + 1;
        proof {
            assert(self@.keys =~= before@.keys.insert(key, id@));
            assert(self@ == (NamespaceView {
                keys: before@.keys.insert(key, id@),
                next_key: (key + 1) as u64,
                ..before@
            }));
            assert forall|d: DentryView| #[trigger] self@.names.contains_key(d) implies
                self@.aliases.contains_key(self@.names[d]) && self@.aliases[self@.names[d]].contains(
                d,
            ) by {
                assert(before@.names.contains_key(d));
            }
            assert forall|other: u64| #[trigger] self@.aliases.contains_key(other) implies
                self@.aliases[other].finite() && self@.aliases[other].len() > 0 by {
                assert(before@.aliases.contains_key(other));
            }
        }
    }
}

proof fn lemma_with_alias_inv(ns: NamespaceView, id: u64, d: DentryView)
    requires
        ns.inv(),
    ensures
        ns.with_alias(id, d).inv(),
{
    let after = ns.with_alias(id, d);
    assert forall|e: DentryView| #[trigger] after.names.contains_key(e) implies
        after.aliases.contains_key(after.names[e]) && after.aliases[after.names[e]].contains(e) by {
        if e != d {
            assert(ns.names.contains_key(e));
        }
    }
    assert forall|other: u64| #[trigger] after.aliases.contains_key(other) implies
        after.aliases[other].finite() && after.aliases[other].len() > 0 by {
        if other != id {
            assert(ns.aliases.contains_key(other));
        } else {
            assert(after.aliases[id].contains(d));
        }
    }
    assert forall|key: u64| #[trigger] after.keys.contains_key(key) implies key < after.next_key by {
        assert(ns.keys.contains_key(key));
    }
}

pub(crate) proof fn lemma_without_inv(ns: NamespaceView, d: DentryView)
    requires
        ns.inv(),
    ensures
        ns.without(d).inv(),
{
    let after = ns.without(d);
    if ns.names.contains_key(d) {
        let id = ns.names[d];
        let rest = ns.aliases_of(id).remove(d);
        assert forall|e: DentryView| #[trigger] after.names.contains_key(e) implies
            after.aliases.contains_key(after.names[e]) && after.aliases[after.names[e]].contains(e) by {
            assert(ns.names.contains_key(e));
            if ns.names[e] == id {
                assert(rest.contains(e));
            }
        }
        assert forall|other: u64| #[trigger] after.aliases.contains_key(other) implies
            after.aliases[other].finite() && after.aliases[other].len() > 0 by {
            assert(ns.aliases.contains_key(other));
            if other == id {
                if rest.len() == 0 {
                    assert(rest =~= Set::<DentryView>::empty());
                }
            }
        }
        assert forall|key: u64| #[trigger] after.keys.contains_key(key) implies key
            < after.next_key by {
            assert(ns.keys.contains_key(key));
        }
    }
}

/// The names on the way up from `id` to `top`, the lowest last.
pub open spec fn below(ns: NamespaceView, top: u64, id: u64, names: Seq<Seq<u8>>) -> bool {
    &&& ns.climb(id, names.len()) == top
    &&& forall|m: nat|
        m < names.len() ==> !ns.ends(#[trigger] ns.climb(id, m)) && ns.canonical(
            ns.climb(id, m),
        ).name == names[names.len() - 1 - m]
}

/// A path is the path of any directory above, followed by the names on the way down from
/// there.
pub proof fn law_path_below(ns: NamespaceView, top: u64, id: u64, names: Seq<Seq<u8>>)
    requires
        below(ns, top, id, names),
        ns.resolves(top),
    ensures
        ns.resolves(id),
        ns.path(id) == (match ns.path(top) {
            Some(path) => Some(joined_all(path, names)),
            None => None,
        }),
    decreases names.len(),
{
    assert(ns.climb(id, 0) == id);
    if names.len() > 0 {
        let next = ns.up(id);
        let rest = names.drop_last();
        assert(!ns.ends(id));
        assert forall|m: nat| m < rest.len() implies !ns.ends(#[trigger] ns.climb(next, m))
            && ns.canonical(ns.climb(next, m)).name == rest[rest.len() - 1 - m] by {
            assert(ns.climb(id, m + 1) == ns.climb(next, m));
        }
        assert(ns.climb(id, names.len()) == ns.climb(next, rest.len()));
        law_path_below(ns, top, next, rest);
        lemma_path_steps(ns, id);
    }
}

/// A path depends on the names on the way up and on nothing else: where each node on the
/// way has the same names in two namespaces, the path is the same.
pub proof fn law_path_depends_on_the_way_up(a: NamespaceView, b: NamespaceView, id: u64)
    requires
        a.resolves(id),
        forall|m: nat|
            b.aliases.contains_key(#[trigger] a.climb(id, m)) == a.aliases.contains_key(
                a.climb(id, m),
            ) && b.aliases_of(a.climb(id, m)) == a.aliases_of(a.climb(id, m)),
    ensures
        b.resolves(id),
        b.path(id) == a.path(id),
{
    let n = choose|n: nat| a.ends(#[trigger] a.climb(id, n));
    lemma_same_way_same_path(a, b, id, n);
    lemma_path_is(a, id, n);
    lemma_path_is(b, id, n);
}

proof fn lemma_same_way_same_path(a: NamespaceView, b: NamespaceView, id: u64, n: nat)
    requires
        a.ends(a.climb(id, n)),
        forall|m: nat|
            b.aliases.contains_key(#[trigger] a.climb(id, m)) == a.aliases.contains_key(
                a.climb(id, m),
            ) && b.aliases_of(a.climb(id, m)) == a.aliases_of(a.climb(id, m)),
    ensures
        b.ends(b.climb(id, n)),
        b.path_within(id, n) == a.path_within(id, n),
    decreases n,
{
    assert(a.climb(id, 0) == id);
    assert(a.ends(id) == b.ends(id));
    if n > 0 {
        let next = a.up(id);
        assert(b.up(id) == next);
        assert forall|m: nat|
            b.aliases.contains_key(#[trigger] a.climb(next, m)) == a.aliases.contains_key(
                a.climb(next, m),
            ) && b.aliases_of(a.climb(next, m)) == a.aliases_of(a.climb(next, m)) by {
            assert(a.climb(id, m + 1) == a.climb(next, m));
        }
        lemma_same_way_same_path(a, b, next, (n - 1) as nat);
    }
}

/// Where all names stay and only nodes without a name get one, every path stays.
pub proof fn law_more_names_keep_paths(a: NamespaceView, b: NamespaceView, id: u64)
    requires
        a.aliases.submap_of(b.aliases),
        a.resolves(id),
        a.path(id) is Some,
    ensures
        b.resolves(id),
        b.path(id) == a.path(id),
{
    let n = choose|n: nat| a.ends(#[trigger] a.climb(id, n));
    lemma_path_is(a, id, n);
    lemma_more_names_keep_path(a, b, id, n);
    lemma_path_is(b, id, n);
}

proof fn lemma_more_names_keep_path(a: NamespaceView, b: NamespaceView, id: u64, n: nat)
    requires
        a.aliases.submap_of(b.aliases),
        a.path_within(id, n) is Some,
    ensures
        b.climb(id, n) == crate::node_id::ROOT_INO,
        b.path_within(id, n) == a.path_within(id, n),
    decreases n,
{
    if id == crate::node_id::ROOT_INO {
        lemma_climb_stays(b, id, n);
    } else {
        assert(a.aliases.dom().contains(id));
        lemma_more_names_keep_path(a, b, a.canonical(id).parent, (n - 1) as nat);
    }
}

/// Once the way up has ended it stays where it is.
proof fn lemma_climb_stays(ns: NamespaceView, id: u64, n: nat)
    requires
        ns.ends(id),
    ensures
        ns.climb(id, n) == id,
    decreases n,
{
    if n > 0 {
        lemma_climb_stays(ns, id, (n - 1) as nat);
    }
}

/// Where a node has several names, its path is built from the first of them.
pub proof fn law_first_name_gives_path(ns: NamespaceView, id: u64, d: DentryView)
    requires
        id != crate::node_id::ROOT_INO,
        ns.aliases.contains_key(id),
        crate::dentry::is_first(ns.aliases[id], d),
        ns.resolves(d.parent),
    ensures
        ns.resolves(id),
        ns.path(id) == (match ns.path(d.parent) {
            Some(path) => Some(joined(path, d.name)),
            None => None,
        }),
{
    crate::dentry::lemma_first_is_unique(ns.aliases[id], d, ns.canonical(id));
    lemma_path_steps(ns, id);
}

} // verus!
