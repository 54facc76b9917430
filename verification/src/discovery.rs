//! Listings: the sinks that turn a path filesystem's directory entries into entries with
//! node identities.
//!
//! A listing may discover nodes. While it runs, the namespace and the node table belong
//! to the sink. An entry that the kernel's buffer refuses is not discovered after all, and
//! when the listing fails, nothing that it discovered stays.

use vstd::prelude::*;

use std::sync::Arc;

use crate::attr::{FileKind, NodeAttr};
use crate::cx::{Cx, CxView};
use crate::dentry::{Dentry, DentryView};
use crate::errno::Errno;
use crate::namespace::Namespace;
use crate::node_fs::{DirSink, PlusDirSink};
use crate::node_id::NodeId;
use crate::path_fs::{Offer, PathDirIdentity, PathDirSink, PathPlusDirSink, PlusOffer};
use crate::tree::{PathNode, Tree};

verus! {

/// The namespace and the node table, in use by one listing.
pub struct Discovery<S> {
    namespace: Namespace,
    cx: Cx<PathNode<S>>,
}

impl<S> View for Discovery<S> {
    type V = Tree<S>;

    closed spec fn view(&self) -> Tree<S> {
        Tree { names: self.namespace@, nodes: self.cx@ }
    }
}

impl<S> Discovery<S> {
    #[verifier::type_invariant]
    spec fn in_order(self) -> bool {
        self.namespace.wf() && self.cx@.inv()
    }

    /// Takes the namespace and the node table into use.
    pub(crate) fn begin(namespace: Namespace, cx: Cx<PathNode<S>>) -> (d: Discovery<S>)
        requires
            namespace.wf(),
            cx@.inv(),
        ensures
            d@ == (Tree { names: namespace@, nodes: cx@ }),
    {
        Discovery { namespace, cx }
    }

    /// Gives the namespace and the node table back.
    pub(crate) fn end(self) -> (parts: (Namespace, Cx<PathNode<S>>))
        ensures
            parts.0.wf(),
            parts.1@.inv(),
            self@ == (Tree { names: parts.0@, nodes: parts.1@ }),
    {
        proof {
            use_type_invariant(&self);
        }
        (self.namespace, self.cx)
    }

    /// A namespace without names and a node table without nodes, to stand in where the real
    /// ones are in use.
    fn vacant() -> (d: Discovery<S>)
        ensures
            d@.names.names == Map::<DentryView, u64>::empty(),
            d@.names.aliases == Map::<u64, Set<DentryView>>::empty(),
            d@.names.keys == map![1u64 => crate::node_id::ROOT_INO],
            d@.names.next_key == 2,
            d@.nodes == (CxView::<PathNode<S>> {
                nodes: Map::empty(),
                spare: Seq::empty(),
                next_ino: 2,
            }),
    {
        Discovery { namespace: Namespace::new(), cx: Cx::vacant() }
    }

    /// Discovers a name in a directory, unless keys or inode numbers have run out.
    fn discover(self, parent: NodeId, name: &[u8], state: Arc<S>) -> (found: (
        Discovery<S>,
        Option<(NodeId, bool)>,
    ))
        ensures
            found.0@.names.inv(),
            found.0@.nodes.inv(),
            self@.names.inv(),
            self@.nodes.inv(),
            match found.1 {
                Some((id, fresh)) => {
                    &&& self@.can_discover(parent, name@)
                    &&& found.0@ == self@.discovered(parent, name@, state)
                    &&& id@ == self@.discovered_id(parent, name@)
                    &&& fresh == !self@.names.names.contains_key(
                        DentryView { parent: parent@, name: name@ },
                    )
                },
                None => !self@.can_discover(parent, name@) && found.0@ == self@,
            },
    {
        proof {
            use_type_invariant(&self);
            self.namespace.lemma_inv();
        }
        let mut namespace: Namespace = self.namespace;
        let mut cx: Cx<PathNode<S>> = self.cx;
        if namespace.get(&Dentry::new(parent, name)).is_none() && !(namespace.has_room()
            && cx.has_room()) {
            return (Discovery { namespace, cx }, None);
        }
        let (id, fresh) = namespace.insert(&mut cx, parent, name, state);
        proof {
            namespace.lemma_inv();
        }
        (Discovery { namespace, cx }, Some((id, fresh)))
    }

    /// Takes a discovery back.
    pub(crate) fn retract(self, dentry: &Dentry) -> (d: Discovery<S>)
        ensures
            d@ == self@.name_removed(dentry@),
            d@.names.inv(),
            d@.nodes.inv(),
    {
        proof {
            use_type_invariant(&self);
        }
        let mut namespace: Namespace = self.namespace;
        let mut cx: Cx<PathNode<S>> = self.cx;
        if let Some(id) = namespace.remove(dentry) {
            cx.remove_link(id);
        }
        proof {
            namespace.lemma_inv();
        }
        Discovery { namespace, cx }
    }
}

/// The tree after the discoveries in `inserted` have been taken back, the last one first.
pub open spec fn rolled_back<S>(t: Tree<S>, inserted: Seq<DentryView>) -> Tree<S>
    decreases inserted.len(),
{
    if inserted.len() == 0 {
        t
    } else {
        rolled_back(t.name_removed(inserted.last()), inserted.drop_last())
    }
}

/// Both trees have the same names and the same live nodes. They may differ in the keys
/// and numbers that have been used.
pub open spec fn same_content<S>(a: Tree<S>, b: Tree<S>) -> bool {
    &&& a.names.names == b.names.names
    &&& a.names.aliases == b.names.aliases
    &&& a.nodes.nodes == b.nodes.nodes
}

proof fn lemma_name_removed_same<S>(a: Tree<S>, b: Tree<S>, d: DentryView)
    requires
        same_content(a, b),
    ensures
        same_content(a.name_removed(d), b.name_removed(d)),
{
}

/// Taking discoveries back leaves the keys as they are.
pub(crate) proof fn lemma_rolled_back_keys<S>(t: Tree<S>, inserted: Seq<DentryView>)
    ensures
        rolled_back(t, inserted).names.keys == t.names.keys,
    decreases inserted.len(),
{
    if inserted.len() > 0 {
        lemma_rolled_back_keys(t.name_removed(inserted.last()), inserted.drop_last());
    }
}

proof fn lemma_rolled_back_same<S>(a: Tree<S>, b: Tree<S>, inserted: Seq<DentryView>)
    requires
        same_content(a, b),
    ensures
        same_content(rolled_back(a, inserted), rolled_back(b, inserted)),
    decreases inserted.len(),
{
    if inserted.len() > 0 {
        lemma_name_removed_same(a, b, inserted.last());
        lemma_rolled_back_same(
            a.name_removed(inserted.last()),
            b.name_removed(inserted.last()),
            inserted.drop_last(),
        );
    }
}

/// What a sink holds while a listing of the directory `this` runs: the tree, the names
/// that the listing has discovered so far, and an error once discovery has failed.
pub struct Progress<S> {
    pub tree: Tree<S>,
    pub this: NodeId,
    pub parent: NodeId,
    pub inserted: Seq<DentryView>,
    pub error: Option<Errno>,
}

impl<S> Progress<S> {
    /// The name of an entry in the listed directory.
    pub open spec fn entry(self, name: Seq<u8>) -> DentryView {
        DentryView { parent: self.this@, name }
    }

    /// The node that an entry is reported with; none where a node would have to be made
    /// and cannot be.
    pub open spec fn identity(self, name: Seq<u8>, identity: PathDirIdentity<S>) -> Option<u64> {
        match identity {
            PathDirIdentity::Current => Some(self.this@),
            PathDirIdentity::Parent => Some(self.parent@),
            PathDirIdentity::Child(_) => if self.tree.can_discover(self.this, name) {
                Some(self.tree.discovered_id(self.this, name))
            } else {
                None
            },
        }
    }

    /// What is held after an entry was offered to the kernel's buffer: a child that was
    /// not known stays discovered if the entry was taken.
    pub open spec fn offered(
        self,
        name: Seq<u8>,
        identity: PathDirIdentity<S>,
        accepted: bool,
    ) -> Progress<S> {
        match identity {
            PathDirIdentity::Child(state) => {
                let d = self.entry(name);
                let grown = self.tree.discovered(self.this, name, state);
                if self.tree.names.names.contains_key(d) {
                    self
                } else if accepted {
                    Progress { tree: grown, inserted: self.inserted.push(d), ..self }
                } else {
                    Progress { tree: grown.name_removed(d), ..self }
                }
            },
            _ => self,
        }
    }

    /// The listing has started from the tree `t`: what it has discovered are names in the
    /// listed directory, and taking them back would restore the names and nodes of `t`.
    pub open spec fn restores(self, t: Tree<S>) -> bool {
        &&& self.tree.names.inv()
        &&& self.tree.nodes.inv()
        &&& self.tree.coherent()
        &&& same_content(rolled_back(self.tree, self.inserted), t)
        &&& t.names.names.submap_of(self.tree.names.names)
        &&& t.names.aliases.submap_of(self.tree.names.aliases)
        &&& t.nodes.nodes.submap_of(self.tree.nodes.nodes)
        &&& t.names.keys.submap_of(self.tree.names.keys)
        &&& forall|d: DentryView| #[trigger]
            self.tree.names.names.contains_key(d) && !t.names.names.contains_key(d) ==> d.parent
                == self.this@
    }
}

proof fn lemma_submap_through<K, V>(a: Map<K, V>, b: Map<K, V>, c: Map<K, V>)
    requires
        a.submap_of(b),
        b.submap_of(c),
    ensures
        a.submap_of(c),
{
    assert forall|k: K| #[trigger] a.dom().contains(k) implies c.dom().contains(k) && a[k] == c[k] by {
        assert(b.dom().contains(k));
    }
}

/// One offer keeps it so that what was discovered can be taken back.
proof fn lemma_offer_restores<S>(
    p: Progress<S>,
    t: Tree<S>,
    name: Seq<u8>,
    identity: PathDirIdentity<S>,
    accepted: bool,
)
    requires
        p.restores(t),
        p.identity(name, identity) is Some,
        p.offered(name, identity, accepted).tree.names.inv(),
        p.offered(name, identity, accepted).tree.nodes.inv(),
    ensures
        p.offered(name, identity, accepted).restores(t),
{
    let after = p.offered(name, identity, accepted);
    let d = p.entry(name);
    match identity {
        PathDirIdentity::Child(state) => {
            if !p.tree.names.names.contains_key(d) {
                let grown = p.tree.discovered(p.this, name, state);
                crate::tree::law_named_nodes_are_live(p.tree, p.this, name, state, 0, d);
                crate::tree::law_discovery_can_be_taken_back(p.tree, p.this, name, state);
                let back = grown.name_removed(d);
                assert(same_content(back, p.tree));
                lemma_rolled_back_same(back, p.tree, p.inserted);
                if accepted {
                    let id = p.tree.nodes.fresh_ino();
                    crate::cx::law_new_node_displaces_none(
                        p.tree.nodes,
                        PathNode::of(p.tree.names.next_key, state),
                        p.this,
                    );
                    assert(!p.tree.names.aliases.contains_key(id));
                    assert(after.inserted.drop_last() =~= p.inserted);
                    lemma_submap_through(t.names.names, p.tree.names.names, after.tree.names.names);
                    lemma_submap_through(
                        t.names.aliases,
                        p.tree.names.aliases,
                        after.tree.names.aliases,
                    );
                    lemma_submap_through(t.nodes.nodes, p.tree.nodes.nodes, after.tree.nodes.nodes);
                    lemma_submap_through(t.names.keys, p.tree.names.keys, after.tree.names.keys);
                } else {
                    lemma_submap_through(t.names.keys, p.tree.names.keys, after.tree.names.keys);
                    assert forall|id: u64| #[trigger] back.names.aliases.contains_key(id) implies
                        back.nodes.nodes.contains_key(id) && back.nodes.nodes[id].links
                        >= back.names.aliases[id].len() by {
                        assert(p.tree.names.aliases.contains_key(id));
                    }
                    assert forall|id: u64| #[trigger] back.nodes.nodes.contains_key(id) implies
                        back.names.holder(back.nodes.nodes[id].payload.key()) == Some(id) by {
                        assert(p.tree.nodes.nodes.contains_key(id));
                        assert(p.tree.names.keys.contains_key(
                            p.tree.nodes.nodes[id].payload.key(),
                        ));
                    }
                }
            }
        },
        _ => {},
    }
}

/// A sink that a path filesystem lists a directory into.
pub struct ListingSink<S, O> {
    discovery: Discovery<S>,
    this: NodeId,
    parent: NodeId,
    output: O,
    inserted: Vec<Dentry>,
    error: Option<Errno>,
}

impl<S, O> ListingSink<S, O> {
    /// How far the listing has got.
    pub closed spec fn progress(self) -> Progress<S> {
        Progress {
            tree: self.discovery@,
            this: self.this,
            parent: self.parent,
            inserted: self.inserted@.map_values(|d: Dentry| d@),
            error: self.error,
        }
    }

    /// The sink that the entries go to.
    pub closed spec fn target(self) -> O {
        self.output
    }

    /// The sink at the start of a listing.
    pub open spec fn is_start(
        self,
        tree: Tree<S>,
        this: NodeId,
        parent: NodeId,
        output: O,
    ) -> bool {
        &&& self.progress() == (Progress { tree, this, parent, inserted: Seq::empty(), error: None })
        &&& self.target() == output
    }

    pub(crate) fn start(
        discovery: Discovery<S>,
        this: NodeId,
        parent: NodeId,
        output: O,
    ) -> (sink: Self)
        ensures
            sink.is_start(discovery@, this, parent, output),
    {
        let sink = ListingSink { discovery, this, parent, output, inserted: Vec::new(), error: None };
        assert(sink.progress().inserted =~= Seq::empty());
        sink
    }

    /// Finds the node that an entry is reported with, and whether that was discovered now.
    fn identify(&mut self, name: &[u8], identity: PathDirIdentity<S>) -> (found: Option<
        (NodeId, Option<Dentry>),
    >)
        ensures
            final(self).target() == old(self).target(),
            ({
                let p = old(self).progress();
                match found {
                    Some((id, fresh)) => {
                        &&& p.identity(name@, identity) == Some(id@)
                        &&& fresh is Some == (identity is Child && !p.tree.names.names.contains_key(
                            p.entry(name@),
                        ))
                        &&& fresh is Some ==> fresh->0@ == p.entry(name@)
                        &&& final(self).progress() == (Progress {
                            tree: match identity {
                                PathDirIdentity::Child(state) => p.tree.discovered(
                                    p.this,
                                    name@,
                                    state,
                                ),
                                _ => p.tree,
                            },
                            ..p
                        })
                    },
                    None => {
                        &&& p.identity(name@, identity) is None
                        &&& final(self).progress() == (Progress {
                            error: Some(Errno(crate::errno::EOVERFLOW)),
                            ..p
                        })
                    },
                }
            }),
            identity is Child ==> final(self).progress().tree.names.inv()
                && final(self).progress().tree.nodes.inv(),
    {
        match identity {
            PathDirIdentity::Current => Some((self.this, None)),
            PathDirIdentity::Parent => Some((self.parent, None)),
            PathDirIdentity::Child(state) => {
                let mut discovery: Discovery<S> = Discovery::vacant();
                std::mem::swap(&mut discovery, &mut self.discovery);
                let (discovery, found) = discovery.discover(self.this, name, state);
                self.discovery = discovery;
                match found {
                    Some((id, fresh)) => {
                        if fresh {
                            Some((id, Some(Dentry::new(self.this, name))))
                        } else {
                            Some((id, None))
                        }
                    },
                    None => {
                        self.error = Some(Errno::eoverflow());
                        None
                    },
                }
            },
        }
    }

    /// Keeps a discovery if its entry was taken, and takes it back otherwise.
    fn settle(&mut self, fresh: Option<Dentry>, accepted: bool)
        ensures
            final(self).target() == old(self).target(),
            match fresh {
                Some(d) => final(self).progress() == (if accepted {
                    Progress {
                        inserted: old(self).progress().inserted.push(d@),
                        ..old(self).progress()
                    }
                } else {
                    Progress {
                        tree: old(self).progress().tree.name_removed(d@),
                        ..old(self).progress()
                    }
                }),
                None => final(self).progress() == old(self).progress(),
            },
            fresh is Some && !accepted ==> final(self).progress().tree.names.inv()
                && final(self).progress().tree.nodes.inv(),
    {
        if let Some(dentry) = fresh {
            if accepted {
                self.inserted.push(dentry);
                assert(self.progress().inserted =~= old(self).progress().inserted.push(dentry@));
            } else {
                let mut discovery: Discovery<S> = Discovery::vacant();
                std::mem::swap(&mut discovery, &mut self.discovery);
                self.discovery = discovery.retract(&dentry);
            }
        }
    }

    /// Takes back all that the listing has discovered, the last discovery first.
    fn rollback(&mut self)
        ensures
            final(self).target() == old(self).target(),
            final(self).progress().tree == rolled_back(
                old(self).progress().tree,
                old(self).progress().inserted,
            ),
            final(self).progress().error == old(self).progress().error,
    {
        let ghost start = self.progress();
        while self.inserted.len() > 0
            invariant
                self.target() == old(self).target(),
                self.progress().error == start.error,
                rolled_back(self.progress().tree, self.progress().inserted) == rolled_back(
                    start.tree,
                    start.inserted,
                ),
            decreases self.inserted.len(),
        {
            let ghost before = self.progress();
            if let Some(dentry) = self.inserted.pop() {
                assert(self.progress().inserted =~= before.inserted.drop_last());
                assert(before.inserted.last() == dentry@);
                let mut discovery: Discovery<S> = Discovery::vacant();
                std::mem::swap(&mut discovery, &mut self.discovery);
                self.discovery = discovery.retract(&dentry);
            }
        }
        assert(self.progress().inserted.len() == 0);
    }

    /// Ends a listing whose filesystem callback returned `result`: a listing that failed
    /// leaves nothing discovered.
    pub(crate) fn finish(self, result: Result<(), Errno>) -> (end: (
        Discovery<S>,
        O,
        Result<(), Errno>,
    ))
        ensures
            end.1 == self.target(),
            end.2 == listing_reply(self.progress().error, result),
            end.0@ == (if end.2 is Err {
                rolled_back(self.progress().tree, self.progress().inserted)
            } else {
                self.progress().tree
            }),
    {
        let mut sink: ListingSink<S, O> = self;
        let reply: Result<(), Errno> = match result {
            Err(e) => Err(e),
            Ok(()) => match sink.error {
                Some(e) => Err(e),
                None => Ok(()),
            },
        };
        if reply.is_err() {
            sink.rollback();
        }
        (sink.discovery, sink.output, reply)
    }
}

/// The reply to a listing: the filesystem's error, or else that of discovery.
pub open spec fn listing_reply(error: Option<Errno>, result: Result<(), Errno>) -> Result<(), Errno> {
    match result {
        Err(e) => Err(e),
        Ok(_) => match error {
            Some(e) => Err(e),
            None => Ok(()),
        },
    }
}

impl<S, O: DirSink> PathDirSink<S> for ListingSink<S, O> {
    open spec fn added(
        self,
        name: Seq<u8>,
        kind: FileKind,
        identity: PathDirIdentity<S>,
        next_offset: u64,
        after: Self,
        accepted: bool,
    ) -> bool {
        let p = self.progress();
        match p.identity(name, identity) {
            Some(ino) => {
                &&& exists|id: NodeId|
                    id@ == ino && #[trigger] self.target().added(
                        name,
                        id,
                        kind,
                        next_offset,
                        after.target(),
                        accepted,
                    )
                &&& after.progress() == p.offered(name, identity, accepted)
                &&& p.tree.names.inv() && p.tree.nodes.inv() ==> after.progress().tree.names.inv()
                    && after.progress().tree.nodes.inv()
            },
            None => {
                &&& !accepted
                &&& after.target() == self.target()
                &&& after.progress() == (Progress {
                    error: Some(Errno(crate::errno::EOVERFLOW)),
                    ..p
                })
            },
        }
    }

    fn add(
        &mut self,
        name: &[u8],
        kind: FileKind,
        identity: PathDirIdentity<S>,
        next_offset: u64,
    ) -> (accepted: bool) {
        let (id, fresh) = match self.identify(name, identity) {
            Some(found) => found,
            None => {
                return false;
            },
        };
        let accepted: bool = self.output.add(name, id, kind, next_offset);
        self.settle(fresh, accepted);
        accepted
    }
}

impl<S, O: PlusDirSink> PathPlusDirSink<S> for ListingSink<S, O> {
    open spec fn added(
        self,
        name: Seq<u8>,
        attr: NodeAttr,
        identity: PathDirIdentity<S>,
        next_offset: u64,
        after: Self,
        accepted: bool,
    ) -> bool {
        let p = self.progress();
        match p.identity(name, identity) {
            Some(ino) => {
                &&& exists|id: NodeId|
                    id@ == ino && #[trigger] self.target().added(
                        name,
                        id,
                        attr,
                        next_offset,
                        after.target(),
                        accepted,
                    )
                &&& after.progress() == p.offered(name, identity, accepted)
                &&& p.tree.names.inv() && p.tree.nodes.inv() ==> after.progress().tree.names.inv()
                    && after.progress().tree.nodes.inv()
            },
            None => {
                &&& !accepted
                &&& after.target() == self.target()
                &&& after.progress() == (Progress {
                    error: Some(Errno(crate::errno::EOVERFLOW)),
                    ..p
                })
            },
        }
    }

    fn add(
        &mut self,
        name: &[u8],
        attr: NodeAttr,
        identity: PathDirIdentity<S>,
        next_offset: u64,
    ) -> (accepted: bool) {
        let (id, fresh) = match self.identify(name, identity) {
            Some(found) => found,
            None => {
                return false;
            },
        };
        let accepted: bool = self.output.add(name, id, attr, next_offset);
        self.settle(fresh, accepted);
        accepted
    }
}

/// Whatever a filesystem lists, what the listing has discovered can be taken back: its
/// names are new names in the listed directory, and without them the names and live nodes
/// are those from before.
pub proof fn law_listing_can_be_taken_back<S, O: DirSink>(
    before: ListingSink<S, O>,
    states: Seq<ListingSink<S, O>>,
    offers: Seq<Offer<S>>,
    after: ListingSink<S, O>,
)
    requires
        crate::path_fs::listing(before, states, offers, after),
        before.progress().tree.names.inv(),
        before.progress().tree.nodes.inv(),
        before.progress().tree.coherent(),
        before.progress().inserted.len() == 0,
    ensures
        after.progress().restores(before.progress().tree),
        after.progress().this == before.progress().this,
        after.progress().parent == before.progress().parent,
    decreases offers.len(),
{
    let t = before.progress().tree;
    if offers.len() == 0 {
        assert(after.progress() == before.progress());
    } else {
        let n = offers.len() - 1;
        let middle = states[n];
        let earlier = states.drop_last();
        let made = offers.drop_last();
        assert forall|i: int| 0 <= i < made.len() implies #[trigger] crate::path_fs::offer_made(
            earlier,
            made,
            i,
        ) by {
            assert(crate::path_fs::offer_made(states, offers, i));
        }
        law_listing_can_be_taken_back(before, earlier, made, middle);
        assert(crate::path_fs::offer_made(states, offers, n));
        let p = middle.progress();
        if p.identity(offers[n].name, offers[n].identity) is Some {
            lemma_offer_restores(p, t, offers[n].name, offers[n].identity, offers[n].accepted);
        }
    }
}

/// Whatever a filesystem lists with attributes, what the listing has discovered can be
/// taken back.
pub proof fn law_plus_listing_can_be_taken_back<S, O: PlusDirSink>(
    before: ListingSink<S, O>,
    states: Seq<ListingSink<S, O>>,
    offers: Seq<PlusOffer<S>>,
    after: ListingSink<S, O>,
)
    requires
        crate::path_fs::plus_listing(before, states, offers, after),
        before.progress().tree.names.inv(),
        before.progress().tree.nodes.inv(),
        before.progress().tree.coherent(),
        before.progress().inserted.len() == 0,
    ensures
        after.progress().restores(before.progress().tree),
        after.progress().this == before.progress().this,
        after.progress().parent == before.progress().parent,
    decreases offers.len(),
{
    let t = before.progress().tree;
    if offers.len() == 0 {
        assert(after.progress() == before.progress());
    } else {
        let n = offers.len() - 1;
        let middle = states[n];
        let earlier = states.drop_last();
        let made = offers.drop_last();
        assert forall|i: int| 0 <= i < made.len() implies #[trigger] crate::path_fs::plus_offer_made(
            earlier,
            made,
            i,
        ) by {
            assert(crate::path_fs::plus_offer_made(states, offers, i));
        }
        law_plus_listing_can_be_taken_back(before, earlier, made, middle);
        assert(crate::path_fs::plus_offer_made(states, offers, n));
        let p = middle.progress();
        if p.identity(offers[n].name, offers[n].identity) is Some {
            lemma_offer_restores(p, t, offers[n].name, offers[n].identity, offers[n].accepted);
        }
    }
}

/// An offer adds at most the name that was offered, and takes none away.
proof fn lemma_offer_keeps_names<S>(
    p: Progress<S>,
    name: Seq<u8>,
    identity: PathDirIdentity<S>,
    accepted: bool,
)
    ensures
        p.tree.names.names.submap_of(p.offered(name, identity, accepted).tree.names.names),
{
    let d = p.entry(name);
    if identity is Child && !p.tree.names.names.contains_key(d) {
        assert(!p.tree.names.names.dom().contains(d));
    }
}

/// Offer `i` to a listing of the directory `this` goes on to the sink `outputs`: with the same
/// name, kind and resume cookie, and with the answer that came back. `.` stands for the
/// directory and `..` for its own. The one offer that does not go on is a child that no node
/// could be made for; it is refused.
pub open spec fn goes_on<S, O: DirSink>(
    this: NodeId,
    parent: NodeId,
    offers: Seq<Offer<S>>,
    ids: Seq<Option<NodeId>>,
    outputs: Seq<O>,
    i: int,
) -> bool {
    match ids[i] {
        Some(id) => {
            &&& outputs[i].added(
                offers[i].name,
                id,
                offers[i].kind,
                offers[i].next_offset,
                outputs[i + 1],
                offers[i].accepted,
            )
            &&& offers[i].identity is Current ==> id@ == this@
            &&& offers[i].identity is Parent ==> id@ == parent@
        },
        None => {
            &&& offers[i].identity is Child
            &&& !offers[i].accepted
            &&& outputs[i + 1] == outputs[i]
        },
    }
}

/// A run of offers to a listing of the directory `this` goes on to the sink `before`, which it
/// takes to `after`. A child that was taken is known by the name that it was offered with.
pub open spec fn passed_on<S, O: DirSink>(
    this: NodeId,
    parent: NodeId,
    known: Map<DentryView, u64>,
    offers: Seq<Offer<S>>,
    ids: Seq<Option<NodeId>>,
    before: O,
    outputs: Seq<O>,
    after: O,
) -> bool {
    &&& ids.len() == offers.len()
    &&& outputs.len() == offers.len() + 1
    &&& outputs.first() == before
    &&& outputs.last() == after
    &&& forall|i: int|
        0 <= i < offers.len() ==> #[trigger] goes_on(this, parent, offers, ids, outputs, i)
    &&& forall|i: int|
        0 <= i < offers.len() && (#[trigger] offers[i]).accepted && offers[i].identity is Child
            ==> {
            let d = DentryView { parent: this@, name: offers[i].name };
            known.contains_key(d) && ids[i] is Some && known[d] == ids[i]->0@
        }
}

/// What the listing holds changes from one offer to the next by what it discovers: the
/// directory stays, names are only added, and an error stays.
proof fn lemma_offers_keep<S, O: DirSink>(
    before: ListingSink<S, O>,
    states: Seq<ListingSink<S, O>>,
    offers: Seq<Offer<S>>,
    after: ListingSink<S, O>,
    i: int,
)
    requires
        crate::path_fs::listing(before, states, offers, after),
        0 <= i <= offers.len(),
    ensures
        states[i].progress().this == before.progress().this,
        states[i].progress().parent == before.progress().parent,
        states[i].progress().tree.names.names.submap_of(after.progress().tree.names.names),
        states[i].progress().error is Some ==> after.progress().error is Some,
{
    lemma_offers_keep_place(before, states, offers, after, i);
    lemma_offers_keep_names(before, states, offers, after, i);
}

proof fn lemma_offers_keep_place<S, O: DirSink>(
    before: ListingSink<S, O>,
    states: Seq<ListingSink<S, O>>,
    offers: Seq<Offer<S>>,
    after: ListingSink<S, O>,
    i: int,
)
    requires
        crate::path_fs::listing(before, states, offers, after),
        0 <= i <= offers.len(),
    ensures
        states[i].progress().this == before.progress().this,
        states[i].progress().parent == before.progress().parent,
        states[i].progress().error is Some ==> before.progress().error is Some || exists|j: int|
            0 <= j < i && (#[trigger] states[j]).progress().identity(
                offers[j].name,
                offers[j].identity,
            ) is None,
        states[i].progress().error is Some ==> states[i].progress().error
            == before.progress().error || states[i].progress().error == Some(
            Errno(crate::errno::EOVERFLOW),
        ),
    decreases i,
{
    if i > 0 {
        lemma_offers_keep_place(before, states, offers, after, i - 1);
        assert(crate::path_fs::offer_made(states, offers, i - 1));
        assert(states[i - 1 + 1] == states[i]);
        if states[i].progress().error is Some && before.progress().error is None {
            if states[i - 1].progress().error is Some {
                let j = choose|j: int|
                    0 <= j < i - 1 && (#[trigger] states[j]).progress().identity(
                        offers[j].name,
                        offers[j].identity,
                    ) is None;
                assert(0 <= j < i && states[j].progress().identity(
                    offers[j].name,
                    offers[j].identity,
                ) is None);
            } else {
                assert(states[i - 1].progress().identity(
                    offers[i - 1].name,
                    offers[i - 1].identity,
                ) is None);
            }
        }
    }
}

proof fn lemma_offers_keep_names<S, O: DirSink>(
    before: ListingSink<S, O>,
    states: Seq<ListingSink<S, O>>,
    offers: Seq<Offer<S>>,
    after: ListingSink<S, O>,
    i: int,
)
    requires
        crate::path_fs::listing(before, states, offers, after),
        0 <= i <= offers.len(),
    ensures
        states[i].progress().tree.names.names.submap_of(after.progress().tree.names.names),
        states[i].progress().error is Some ==> after.progress().error is Some,
    decreases offers.len() - i,
{
    if i < offers.len() {
        lemma_offers_keep_names(before, states, offers, after, i + 1);
        assert(crate::path_fs::offer_made(states, offers, i));
        let p = states[i].progress();
        let q = states[i + 1].progress();
        lemma_offer_keeps_names(p, offers[i].name, offers[i].identity, offers[i].accepted);
        lemma_submap_through(
            p.tree.names.names,
            q.tree.names.names,
            after.progress().tree.names.names,
        );
    }
}

/// Whatever a filesystem offers to a listing goes on to the sink that the listing fills, in
/// the same order. The listing has an error exactly if an offer did not go on.
pub proof fn law_offers_are_passed_on<S, O: DirSink>(
    before: ListingSink<S, O>,
    states: Seq<ListingSink<S, O>>,
    offers: Seq<Offer<S>>,
    after: ListingSink<S, O>,
)
    requires
        crate::path_fs::listing(before, states, offers, after),
        before.progress().error is None,
    ensures
        exists|ids: Seq<Option<NodeId>>, outputs: Seq<O>|
            (#[trigger] passed_on(
                before.progress().this,
                before.progress().parent,
                after.progress().tree.names.names,
                offers,
                ids,
                before.target(),
                outputs,
                after.target(),
            )) && after.progress().error == (if ids.contains(None) {
                Some(Errno(crate::errno::EOVERFLOW))
            } else {
                None
            }),
{
    let this = before.progress().this;
    let parent = before.progress().parent;
    let known = after.progress().tree.names.names;
    let outputs = Seq::new(states.len(), |i: int| states[i].target());
    let ids = Seq::new(
        offers.len(),
        |i: int|
            match states[i].progress().identity(offers[i].name, offers[i].identity) {
                Some(ino) => Some(
                    choose|id: NodeId|
                        id@ == ino && #[trigger] outputs[i].added(
                            offers[i].name,
                            id,
                            offers[i].kind,
                            offers[i].next_offset,
                            outputs[i + 1],
                            offers[i].accepted,
                        ),
                ),
                None => None,
            },
    );
    assert forall|i: int| 0 <= i < offers.len() implies #[trigger] goes_on(
        this,
        parent,
        offers,
        ids,
        outputs,
        i,
    ) by {
        assert(crate::path_fs::offer_made(states, offers, i));
        lemma_offers_keep_place(before, states, offers, after, i);
        assert(outputs[i] == states[i].target() && outputs[i + 1] == states[i + 1].target());
    }
    assert forall|i: int|
        0 <= i < offers.len() && (#[trigger] offers[i]).accepted && offers[i].identity is Child implies ({
        let d = DentryView { parent: this@, name: offers[i].name };
        known.contains_key(d) && ids[i] is Some && known[d] == ids[i]->0@
    }) by {
        assert(goes_on(this, parent, offers, ids, outputs, i));
        assert(crate::path_fs::offer_made(states, offers, i));
        assert(outputs[i] == states[i].target() && outputs[i + 1] == states[i + 1].target());
        lemma_offers_keep(before, states, offers, after, i);
        lemma_offers_keep(before, states, offers, after, i + 1);
        let d = DentryView { parent: this@, name: offers[i].name };
        assert(states[i + 1].progress().tree.names.names.dom().contains(d));
    }
    assert(outputs.first() == before.target());
    assert(outputs.last() == after.target());
    lemma_offers_keep_place(before, states, offers, after, offers.len() as int);
    if ids.contains(None) {
        let i = choose|i: int| 0 <= i < ids.len() && ids[i] is None;
        assert(crate::path_fs::offer_made(states, offers, i));
        lemma_offers_keep(before, states, offers, after, i + 1);
    } else if after.progress().error is Some {
        let j = choose|j: int|
            0 <= j < offers.len() && (#[trigger] states[j]).progress().identity(
                offers[j].name,
                offers[j].identity,
            ) is None;
        assert(ids[j] is None);
    }
    assert(passed_on(
        this,
        parent,
        known,
        offers,
        ids,
        before.target(),
        outputs,
        after.target(),
    ));
}

/// Offer `i` to a listing of the directory `this` goes on to the sink `outputs`: with the same
/// name, attributes and resume cookie, and with the answer that came back. `.` stands for the
/// directory and `..` for its own. The one offer that does not go on is a child that no node
/// could be made for; it is refused.
pub open spec fn plus_goes_on<S, O: PlusDirSink>(
    this: NodeId,
    parent: NodeId,
    offers: Seq<PlusOffer<S>>,
    ids: Seq<Option<NodeId>>,
    outputs: Seq<O>,
    i: int,
) -> bool {
    match ids[i] {
        Some(id) => {
            &&& outputs[i].added(
                offers[i].name,
                id,
                offers[i].attr,
                offers[i].next_offset,
                outputs[i + 1],
                offers[i].accepted,
            )
            &&& offers[i].identity is Current ==> id@ == this@
            &&& offers[i].identity is Parent ==> id@ == parent@
        },
        None => {
            &&& offers[i].identity is Child
            &&& !offers[i].accepted
            &&& outputs[i + 1] == outputs[i]
        },
    }
}

/// A run of offers to a listing of the directory `this` goes on to the sink `before`, which it
/// takes to `after`. A child that was taken is known by the name that it was offered with.
pub open spec fn plus_passed_on<S, O: PlusDirSink>(
    this: NodeId,
    parent: NodeId,
    known: Map<DentryView, u64>,
    offers: Seq<PlusOffer<S>>,
    ids: Seq<Option<NodeId>>,
    before: O,
    outputs: Seq<O>,
    after: O,
) -> bool {
    &&& ids.len() == offers.len()
    &&& outputs.len() == offers.len() + 1
    &&& outputs.first() == before
    &&& outputs.last() == after
    &&& forall|i: int|
        0 <= i < offers.len() ==> #[trigger] plus_goes_on(this, parent, offers, ids, outputs, i)
    &&& forall|i: int|
        0 <= i < offers.len() && (#[trigger] offers[i]).accepted && offers[i].identity is Child
            ==> {
            let d = DentryView { parent: this@, name: offers[i].name };
            known.contains_key(d) && ids[i] is Some && known[d] == ids[i]->0@
        }
}

/// What the listing holds changes from one offer to the next by what it discovers: the
/// directory stays, names are only added, and an error stays.
proof fn lemma_plus_offers_keep<S, O: PlusDirSink>(
    before: ListingSink<S, O>,
    states: Seq<ListingSink<S, O>>,
    offers: Seq<PlusOffer<S>>,
    after: ListingSink<S, O>,
    i: int,
)
    requires
        crate::path_fs::plus_listing(before, states, offers, after),
        0 <= i <= offers.len(),
    ensures
        states[i].progress().this == before.progress().this,
        states[i].progress().parent == before.progress().parent,
        states[i].progress().tree.names.names.submap_of(after.progress().tree.names.names),
        states[i].progress().error is Some ==> after.progress().error is Some,
{
    lemma_plus_offers_keep_place(before, states, offers, after, i);
    lemma_plus_offers_keep_names(before, states, offers, after, i);
}

proof fn lemma_plus_offers_keep_place<S, O: PlusDirSink>(
    before: ListingSink<S, O>,
    states: Seq<ListingSink<S, O>>,
    offers: Seq<PlusOffer<S>>,
    after: ListingSink<S, O>,
    i: int,
)
    requires
        crate::path_fs::plus_listing(before, states, offers, after),
        0 <= i <= offers.len(),
    ensures
        states[i].progress().this == before.progress().this,
        states[i].progress().parent == before.progress().parent,
        states[i].progress().error is Some ==> before.progress().error is Some || exists|j: int|
            0 <= j < i && (#[trigger] states[j]).progress().identity(
                offers[j].name,
                offers[j].identity,
            ) is None,
        states[i].progress().error is Some ==> states[i].progress().error
            == before.progress().error || states[i].progress().error == Some(
            Errno(crate::errno::EOVERFLOW),
        ),
    decreases i,
{
    if i > 0 {
        lemma_plus_offers_keep_place(before, states, offers, after, i - 1);
        assert(crate::path_fs::plus_offer_made(states, offers, i - 1));
        assert(states[i - 1 + 1] == states[i]);
        if states[i].progress().error is Some && before.progress().error is None {
            if states[i - 1].progress().error is Some {
                let j = choose|j: int|
                    0 <= j < i - 1 && (#[trigger] states[j]).progress().identity(
                        offers[j].name,
                        offers[j].identity,
                    ) is None;
                assert(0 <= j < i && states[j].progress().identity(
                    offers[j].name,
                    offers[j].identity,
                ) is None);
            } else {
                assert(states[i - 1].progress().identity(
                    offers[i - 1].name,
                    offers[i - 1].identity,
                ) is None);
            }
        }
    }
}

proof fn lemma_plus_offers_keep_names<S, O: PlusDirSink>(
    before: ListingSink<S, O>,
    states: Seq<ListingSink<S, O>>,
    offers: Seq<PlusOffer<S>>,
    after: ListingSink<S, O>,
    i: int,
)
    requires
        crate::path_fs::plus_listing(before, states, offers, after),
        0 <= i <= offers.len(),
    ensures
        states[i].progress().tree.names.names.submap_of(after.progress().tree.names.names),
        states[i].progress().error is Some ==> after.progress().error is Some,
    decreases offers.len() - i,
{
    if i < offers.len() {
        lemma_plus_offers_keep_names(before, states, offers, after, i + 1);
        assert(crate::path_fs::plus_offer_made(states, offers, i));
        let p = states[i].progress();
        let q = states[i + 1].progress();
        lemma_offer_keeps_names(p, offers[i].name, offers[i].identity, offers[i].accepted);
        lemma_submap_through(
            p.tree.names.names,
            q.tree.names.names,
            after.progress().tree.names.names,
        );
    }
}

/// Whatever a filesystem offers to a listing goes on to the sink that the listing fills, in
/// the same order. The listing has an error exactly if an offer did not go on.
pub proof fn law_plus_offers_are_passed_on<S, O: PlusDirSink>(
    before: ListingSink<S, O>,
    states: Seq<ListingSink<S, O>>,
    offers: Seq<PlusOffer<S>>,
    after: ListingSink<S, O>,
)
    requires
        crate::path_fs::plus_listing(before, states, offers, after),
        before.progress().error is None,
    ensures
        exists|ids: Seq<Option<NodeId>>, outputs: Seq<O>|
            (#[trigger] plus_passed_on(
                before.progress().this,
                before.progress().parent,
                after.progress().tree.names.names,
                offers,
                ids,
                before.target(),
                outputs,
                after.target(),
            )) && after.progress().error == (if ids.contains(None) {
                Some(Errno(crate::errno::EOVERFLOW))
            } else {
                None
            }),
{
    let this = before.progress().this;
    let parent = before.progress().parent;
    let known = after.progress().tree.names.names;
    let outputs = Seq::new(states.len(), |i: int| states[i].target());
    let ids = Seq::new(
        offers.len(),
        |i: int|
            match states[i].progress().identity(offers[i].name, offers[i].identity) {
                Some(ino) => Some(
                    choose|id: NodeId|
                        id@ == ino && #[trigger] outputs[i].added(
                            offers[i].name,
                            id,
                            offers[i].attr,
                            offers[i].next_offset,
                            outputs[i + 1],
                            offers[i].accepted,
                        ),
                ),
                None => None,
            },
    );
    assert forall|i: int| 0 <= i < offers.len() implies #[trigger] plus_goes_on(
        this,
        parent,
        offers,
        ids,
        outputs,
        i,
    ) by {
        assert(crate::path_fs::plus_offer_made(states, offers, i));
        lemma_plus_offers_keep_place(before, states, offers, after, i);
        assert(outputs[i] == states[i].target() && outputs[i + 1] == states[i + 1].target());
    }
    assert forall|i: int|
        0 <= i < offers.len() && (#[trigger] offers[i]).accepted && offers[i].identity is Child implies ({
        let d = DentryView { parent: this@, name: offers[i].name };
        known.contains_key(d) && ids[i] is Some && known[d] == ids[i]->0@
    }) by {
        assert(plus_goes_on(this, parent, offers, ids, outputs, i));
        assert(crate::path_fs::plus_offer_made(states, offers, i));
        assert(outputs[i] == states[i].target() && outputs[i + 1] == states[i + 1].target());
        lemma_plus_offers_keep(before, states, offers, after, i);
        lemma_plus_offers_keep(before, states, offers, after, i + 1);
        let d = DentryView { parent: this@, name: offers[i].name };
        assert(states[i + 1].progress().tree.names.names.dom().contains(d));
    }
    assert(outputs.first() == before.target());
    assert(outputs.last() == after.target());
    lemma_plus_offers_keep_place(before, states, offers, after, offers.len() as int);
    if ids.contains(None) {
        let i = choose|i: int| 0 <= i < ids.len() && ids[i] is None;
        assert(crate::path_fs::plus_offer_made(states, offers, i));
        lemma_plus_offers_keep(before, states, offers, after, i + 1);
    } else if after.progress().error is Some {
        let j = choose|j: int|
            0 <= j < offers.len() && (#[trigger] states[j]).progress().identity(
                offers[j].name,
                offers[j].identity,
            ) is None;
        assert(ids[j] is None);
    }
    assert(plus_passed_on(
        this,
        parent,
        known,
        offers,
        ids,
        before.target(),
        outputs,
        after.target(),
    ));
}

} // verus!
