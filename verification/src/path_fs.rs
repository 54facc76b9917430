//! A synchronous path-based filesystem interface.

use vstd::prelude::*;

use std::borrow::Cow;
use std::sync::Arc;

use crate::attr::{FileKind, NodeAttr, SetAttr, StatFs};
use crate::bytes::copy_bytes;
use crate::errno::Errno;
use crate::node_fs::{Caller, ConnInfo, FileLock, Opened, XattrReply};
use crate::replay::{replay_into, Emitter};

verus! {

/// The identity represented by a path-directory entry.
#[derive(Debug)]
pub enum PathDirIdentity<S> {
    Current,
    Parent,
    Child(Arc<S>),
}

impl<S> Clone for PathDirIdentity<S> {
    /// Shares the state of a child: the state itself is not copied.
    fn clone(&self) -> (identity: PathDirIdentity<S>)
        ensures
            identity == *self,
    {
        match self {
            PathDirIdentity::Current => PathDirIdentity::Current,
            PathDirIdentity::Parent => PathDirIdentity::Parent,
            PathDirIdentity::Child(state) => PathDirIdentity::Child(Arc::clone(state)),
        }
    }
}

/// A directory-entry sink used by [`PathFilesystem::readdir`].
pub trait PathDirSink<S>: Sized {
    /// What adding an entry does to the sink, and whether the entry is taken. Unless an
    /// implementation says more, anything may happen.
    open spec fn added(
        self,
        name: Seq<u8>,
        kind: FileKind,
        identity: PathDirIdentity<S>,
        next_offset: u64,
        after: Self,
        accepted: bool,
    ) -> bool {
        true
    }

    /// Adds one entry. `next_offset` is the resume cookie the kernel will hand back to
    /// continue after this entry. Returns `false` once the buffer is full, at which point
    /// the caller must stop iterating.
    fn add(
        &mut self,
        name: &[u8],
        kind: FileKind,
        identity: PathDirIdentity<S>,
        next_offset: u64,
    ) -> (accepted: bool)
        ensures
            old(self).added(name@, kind, identity, next_offset, *final(self), accepted),
    ;
}

/// A directory-entry sink used by [`PathFilesystem::readdirplus`].
pub trait PathPlusDirSink<S>: Sized {
    /// What adding an entry does to the sink, and whether the entry is taken. Unless an
    /// implementation says more, anything may happen.
    open spec fn added(
        self,
        name: Seq<u8>,
        attr: NodeAttr,
        identity: PathDirIdentity<S>,
        next_offset: u64,
        after: Self,
        accepted: bool,
    ) -> bool {
        true
    }

    /// Adds one entry with its attributes. `next_offset` is the resume cookie the kernel
    /// will hand back to continue after this entry. Returns `false` once the buffer is
    /// full, at which point the caller must stop iterating.
    fn add(
        &mut self,
        name: &[u8],
        attr: NodeAttr,
        identity: PathDirIdentity<S>,
        next_offset: u64,
    ) -> (accepted: bool)
        ensures
            old(self).added(name@, attr, identity, next_offset, *final(self), accepted),
    ;
}

/// One entry offered to a sink, and whether the sink took it.
pub struct Offer<S> {
    pub name: Seq<u8>,
    pub kind: FileKind,
    pub identity: PathDirIdentity<S>,
    pub next_offset: u64,
    pub accepted: bool,
}

/// One entry with attributes offered to a sink, and whether the sink took it.
pub struct PlusOffer<S> {
    pub name: Seq<u8>,
    pub attr: NodeAttr,
    pub identity: PathDirIdentity<S>,
    pub next_offset: u64,
    pub accepted: bool,
}

/// The sink takes offer `i` from one state to the next.
pub open spec fn offer_made<S, K: PathDirSink<S>>(
    states: Seq<K>,
    offers: Seq<Offer<S>>,
    i: int,
) -> bool {
    states[i].added(
        offers[i].name,
        offers[i].kind,
        offers[i].identity,
        offers[i].next_offset,
        states[i + 1],
        offers[i].accepted,
    )
}

/// The sink takes offer `i` from one state to the next.
pub open spec fn plus_offer_made<S, K: PathPlusDirSink<S>>(
    states: Seq<K>,
    offers: Seq<PlusOffer<S>>,
    i: int,
) -> bool {
    states[i].added(
        offers[i].name,
        offers[i].attr,
        offers[i].identity,
        offers[i].next_offset,
        states[i + 1],
        offers[i].accepted,
    )
}

/// A run of offers takes a sink from `before` to `after`.
pub open spec fn listing<S, K: PathDirSink<S>>(
    before: K,
    states: Seq<K>,
    offers: Seq<Offer<S>>,
    after: K,
) -> bool {
    &&& states.len() == offers.len() + 1
    &&& states.first() == before
    &&& states.last() == after
    &&& forall|i: int| 0 <= i < offers.len() ==> #[trigger] offer_made(states, offers, i)
}

/// A run of offers takes a sink from `before` to `after`.
pub open spec fn plus_listing<S, K: PathPlusDirSink<S>>(
    before: K,
    states: Seq<K>,
    offers: Seq<PlusOffer<S>>,
    after: K,
) -> bool {
    &&& states.len() == offers.len() + 1
    &&& states.first() == before
    &&& states.last() == after
    &&& forall|i: int| 0 <= i < offers.len() ==> #[trigger] plus_offer_made(states, offers, i)
}

/// The sink `after` is what some run of offers made of `before`.
pub open spec fn offered<S, K: PathDirSink<S>>(before: K, after: K) -> bool {
    exists|states: Seq<K>, offers: Seq<Offer<S>>| #[trigger]
        listing(before, states, offers, after)
}

/// The sink `after` is what some run of offers made of `before`.
pub open spec fn plus_offered<S, K: PathPlusDirSink<S>>(before: K, after: K) -> bool {
    exists|states: Seq<K>, offers: Seq<PlusOffer<S>>| #[trigger]
        plus_listing(before, states, offers, after)
}

pub(crate) proof fn lemma_no_offers<S, K: PathDirSink<S>>(sink: K)
    ensures
        offered::<S, K>(sink, sink),
{
    let states: Seq<K> = seq![sink];
    let offers: Seq<Offer<S>> = Seq::empty();
    assert(listing(sink, states, offers, sink));
}

pub(crate) proof fn lemma_no_plus_offers<S, K: PathPlusDirSink<S>>(sink: K)
    ensures
        plus_offered::<S, K>(sink, sink),
{
    let states: Seq<K> = seq![sink];
    let offers: Seq<PlusOffer<S>> = Seq::empty();
    assert(plus_listing(sink, states, offers, sink));
}

/// One entry captured by [`DirBuffer`].
#[derive(Debug)]
pub struct DirEntry<S> {
    pub name: Vec<u8>,
    pub kind: FileKind,
    pub attr: NodeAttr,
    pub identity: PathDirIdentity<S>,
}

/// A captured entry as a value.
pub struct DirEntryView<S> {
    pub name: Seq<u8>,
    pub kind: FileKind,
    pub attr: NodeAttr,
    pub identity: PathDirIdentity<S>,
}

impl<S> View for DirEntry<S> {
    type V = DirEntryView<S>;

    open spec fn view(&self) -> DirEntryView<S> {
        DirEntryView {
            name: self.name@,
            kind: self.kind,
            attr: self.attr,
            identity: self.identity,
        }
    }
}

impl<S> Clone for DirEntry<S> {
    fn clone(&self) -> (entry: DirEntry<S>)
        ensures
            entry@ == self@,
    {
        DirEntry {
            name: copy_bytes(self.name.as_slice()),
            kind: self.kind,
            attr: self.attr,
            identity: self.identity.clone(),
        }
    }
}

/// An immutable snapshot of a directory's contents, suitable for use as a
/// [`PathFilesystem::DirHandle`].
///
/// Filesystems typically build one in `opendir` (so all readers of that handle see a
/// consistent view even if the directory mutates afterward) and replay it into the
/// kernel's sink from `readdir`/`readdirplus` via [`DirBuffer::fill`] and
/// [`DirBuffer::fill_plus`], which own the resume-offset bookkeeping
/// (`next_offset = index + 1`) that the FUSE protocol requires filesystems to get right
/// themselves.
#[derive(Debug)]
pub struct DirBuffer<S> {
    entries: Vec<DirEntry<S>>,
}

impl<S> View for DirBuffer<S> {
    type V = Seq<DirEntryView<S>>;

    closed spec fn view(&self) -> Seq<DirEntryView<S>> {
        self.entries@.map_values(|entry: DirEntry<S>| entry@)
    }
}

/// The run of offers that a snapshot makes from `offset` on: the entries in order, each
/// with its position's successor as the cookie, up to the first one that is refused.
pub open spec fn replayed<S>(
    entries: Seq<DirEntryView<S>>,
    offset: u64,
    offers: Seq<Offer<S>>,
) -> bool {
    let start = crate::replay::start_of(offset, entries.len());
    &&& start + offers.len() <= entries.len()
    &&& forall|i: int|
        0 <= i < offers.len() ==> (#[trigger] offers[i]).name == entries[start + i].name
            && offers[i].kind == entries[start + i].kind && offers[i].identity == entries[start
            + i].identity && offers[i].next_offset == start + i + 1
    &&& forall|i: int| 0 <= i < offers.len() - 1 ==> (#[trigger] offers[i]).accepted
    &&& start + offers.len() == entries.len() || (offers.len() > 0 && !offers.last().accepted)
}

/// The run of offers with attributes that a snapshot makes from `offset` on.
pub open spec fn replayed_plus<S>(
    entries: Seq<DirEntryView<S>>,
    offset: u64,
    offers: Seq<PlusOffer<S>>,
) -> bool {
    let start = crate::replay::start_of(offset, entries.len());
    &&& start + offers.len() <= entries.len()
    &&& forall|i: int|
        0 <= i < offers.len() ==> (#[trigger] offers[i]).name == entries[start + i].name
            && offers[i].attr == entries[start + i].attr && offers[i].identity == entries[start
            + i].identity && offers[i].next_offset == start + i + 1
    &&& forall|i: int| 0 <= i < offers.len() - 1 ==> (#[trigger] offers[i]).accepted
    &&& start + offers.len() == entries.len() || (offers.len() > 0 && !offers.last().accepted)
}

/// Emits the entries of a snapshot.
struct Entries<'a, S> {
    buffer: &'a DirBuffer<S>,
}

impl<'a, S, K: PathDirSink<S>> Emitter<K> for Entries<'a, S> {
    closed spec fn ready(&self, target: K, index: int) -> bool {
        0 <= index < self.buffer@.len()
    }

    closed spec fn emitted(&self, before: K, index: int, after: K, more: bool) -> bool {
        let entry = self.buffer@[index];
        before.added(entry.name, entry.kind, entry.identity, (index + 1) as u64, after, more)
    }

    fn emit(&self, target: &mut K, index: usize, next_offset: u64) -> (more: bool) {
        let entry = &self.buffer.entries[index];
        assert(self.buffer@[index as int] == entry@);
        target.add(entry.name.as_slice(), entry.kind, entry.identity.clone(), next_offset)
    }
}

/// Emits the entries of a snapshot with their attributes.
struct EntriesWithAttributes<'a, S> {
    buffer: &'a DirBuffer<S>,
}

impl<'a, S, K: PathPlusDirSink<S>> Emitter<K> for EntriesWithAttributes<'a, S> {
    closed spec fn ready(&self, target: K, index: int) -> bool {
        0 <= index < self.buffer@.len()
    }

    closed spec fn emitted(&self, before: K, index: int, after: K, more: bool) -> bool {
        let entry = self.buffer@[index];
        before.added(entry.name, entry.attr, entry.identity, (index + 1) as u64, after, more)
    }

    fn emit(&self, target: &mut K, index: usize, next_offset: u64) -> (more: bool) {
        let entry = &self.buffer.entries[index];
        assert(self.buffer@[index as int] == entry@);
        target.add(entry.name.as_slice(), entry.attr, entry.identity.clone(), next_offset)
    }
}

impl<S> DirBuffer<S> {
    pub fn new() -> (buffer: DirBuffer<S>)
        ensures
            buffer@ == Seq::<DirEntryView<S>>::empty(),
    {
        let buffer = DirBuffer { entries: Vec::new() };
        assert(buffer@ =~= Seq::<DirEntryView<S>>::empty());
        buffer
    }

    fn append(&mut self, entry: DirEntry<S>)
        ensures
            final(self)@ == old(self)@.push(entry@),
    {
        self.entries.push(entry);
        assert(self@ =~= old(self)@.push(entry@));
    }

    /// Appends one entry.
    pub fn push(&mut self, name: Vec<u8>, kind: FileKind, attr: NodeAttr, state: Arc<S>)
        ensures
            final(self)@ == old(self)@.push(
                DirEntryView { name: name@, kind, attr, identity: PathDirIdentity::Child(state) },
            ),
    {
        self.append(DirEntry { name, kind, attr, identity: PathDirIdentity::Child(state) });
    }

    /// Appends the conventional `.` and `..` entries with the given attributes (self and
    /// parent respectively). `read_dir`-style directory listings omit these, so callers
    /// building a buffer from one typically call this first.
    pub fn push_dots(&mut self, self_attr: NodeAttr, parent_attr: NodeAttr)
        ensures
            final(self)@ == old(self)@.push(
                DirEntryView {
                    name: seq![46u8],
                    kind: FileKind::Directory,
                    attr: self_attr,
                    identity: PathDirIdentity::Current,
                },
            ).push(
                DirEntryView {
                    name: seq![46u8, 46u8],
                    kind: FileKind::Directory,
                    attr: parent_attr,
                    identity: PathDirIdentity::Parent,
                },
            ),
    {
        let dot: Vec<u8> = vec![46u8];
        let dots: Vec<u8> = vec![46u8, 46u8];
        assert(dot@ =~= seq![46u8]);
        assert(dots@ =~= seq![46u8, 46u8]);
        self.append(
            DirEntry {
                name: dot,
                kind: FileKind::Directory,
                attr: self_attr,
                identity: PathDirIdentity::Current,
            },
        );
        self.append(
            DirEntry {
                name: dots,
                kind: FileKind::Directory,
                attr: parent_attr,
                identity: PathDirIdentity::Parent,
            },
        );
    }

    pub fn len(&self) -> (len: usize)
        ensures
            len == self@.len(),
    {
        self.entries.len()
    }

    pub fn is_empty(&self) -> (empty: bool)
        ensures
            empty == (self@.len() == 0),
    {
        self.entries.len() == 0
    }

    /// The captured entries, in order.
    pub fn iter(&self) -> (entries: std::slice::Iter<'_, DirEntry<S>>)
        ensures
            vstd::std_specs::iter::IteratorSpec::remaining(&entries).map_values(
                |entry: &DirEntry<S>| entry@,
            ) == self@,
    {
        let entries = self.entries.as_slice().iter();
        assert(vstd::std_specs::iter::IteratorSpec::remaining(&entries).map_values(
            |entry: &DirEntry<S>| entry@,
        ) =~= self@);
        entries
    }

    /// Replays entries from `offset` onward into `sink`, per [`PathFilesystem::readdir`]
    /// semantics.
    pub fn fill<K: PathDirSink<S>>(&self, offset: u64, sink: &mut K)
        ensures
            exists|states: Seq<K>, offers: Seq<Offer<S>>| #[trigger]
                listing(*old(sink), states, offers, *final(sink)) && replayed(self@, offset, offers),
    {
        let emitter = Entries { buffer: self };
        replay_into(offset, self.entries.len(), &emitter, sink);
        proof {
            let len = self@.len();
            let start = crate::replay::start_of(offset, len);
            let (states, answers) = choose|states: Seq<K>, answers: Seq<bool>|
                crate::replay::run_of(offset, len, answers)
                    && #[trigger] crate::replay::emission_run(
                    emitter,
                    start,
                    *old(sink),
                    states,
                    answers,
                    *sink,
                );
            let offers: Seq<Offer<S>> = Seq::new(
                answers.len(),
                |i: int|
                    Offer {
                        name: self@[start + i].name,
                        kind: self@[start + i].kind,
                        identity: self@[start + i].identity,
                        next_offset: (start + i + 1) as u64,
                        accepted: answers[i],
                    },
            );
            assert forall|i: int| 0 <= i < offers.len() implies #[trigger] offer_made(
                states,
                offers,
                i,
            ) by {
                assert(crate::replay::emission_made(emitter, start, states, answers, i));
            }
            assert(listing(*old(sink), states, offers, *sink));
            assert(replayed(self@, offset, offers));
        }
    }

    /// Replays entries from `offset` onward into `sink`, per
    /// [`PathFilesystem::readdirplus`] semantics.
    pub fn fill_plus<K: PathPlusDirSink<S>>(&self, offset: u64, sink: &mut K)
        ensures
            exists|states: Seq<K>, offers: Seq<PlusOffer<S>>| #[trigger]
                plus_listing(*old(sink), states, offers, *final(sink)) && replayed_plus(
                    self@,
                    offset,
                    offers,
                ),
    {
        let emitter = EntriesWithAttributes { buffer: self };
        replay_into(offset, self.entries.len(), &emitter, sink);
        proof {
            let len = self@.len();
            let start = crate::replay::start_of(offset, len);
            let (states, answers) = choose|states: Seq<K>, answers: Seq<bool>|
                crate::replay::run_of(offset, len, answers)
                    && #[trigger] crate::replay::emission_run(
                    emitter,
                    start,
                    *old(sink),
                    states,
                    answers,
                    *sink,
                );
            let offers: Seq<PlusOffer<S>> = Seq::new(
                answers.len(),
                |i: int|
                    PlusOffer {
                        name: self@[start + i].name,
                        attr: self@[start + i].attr,
                        identity: self@[start + i].identity,
                        next_offset: (start + i + 1) as u64,
                        accepted: answers[i],
                    },
            );
            assert forall|i: int| 0 <= i < offers.len() implies #[trigger] plus_offer_made(
                states,
                offers,
                i,
            ) by {
                assert(crate::replay::emission_made(emitter, start, states, answers, i));
            }
            assert(plus_listing(*old(sink), states, offers, *sink));
            assert(replayed_plus(self@, offset, offers));
        }
    }
}

impl<S> Clone for DirBuffer<S> {
    fn clone(&self) -> (buffer: DirBuffer<S>)
        ensures
            buffer@ == self@,
    {
        let mut buffer = DirBuffer::new();
        let mut index: usize = 0;
        while index < self.entries.len()
            invariant
                index <= self.entries.len(),
                buffer@ == self@.take(index as int),
            decreases self.entries.len() - index,
        {
            let entry = self.entries[index].clone();
            assert(self@[index as int] == entry@);
            buffer.append(entry);
            assert(self@.take(index as int).push(self@[index as int]) =~= self@.take(index + 1));
            index += 1;
        }
        assert(self@.take(index as int) =~= self@);
        buffer
    }
}

impl<S> Default for DirBuffer<S> {
    fn default() -> (buffer: DirBuffer<S>)
        ensures
            buffer@ == Seq::<DirEntryView<S>>::empty(),
    {
        DirBuffer::new()
    }
}

/// How many offers of a listing were accepted: all, or all but the last.
pub open spec fn accepted_count<S>(offers: Seq<Offer<S>>) -> int {
    if offers.len() > 0 && !offers.last().accepted {
        offers.len() - 1
    } else {
        offers.len() as int
    }
}

/// The offset to take a listing up with: the cookie of the last entry that was accepted, or
/// the offset it was started with if none was.
pub open spec fn resume_offset<S>(offset: u64, offers: Seq<Offer<S>>) -> u64 {
    if accepted_count(offers) == 0 {
        offset
    } else {
        offers[accepted_count(offers) - 1].next_offset
    }
}

/// A listing that is taken up at the cookie of the last accepted entry goes on with the
/// entry after it. What was accepted the first time and what is offered the second time
/// are, one after the other, the entries from the first offset on: nothing is repeated and
/// nothing is left out, and if the second listing is never refused, nothing is left.
pub proof fn law_listing_resumes_where_it_stopped<S>(
    entries: Seq<DirEntryView<S>>,
    offset: u64,
    first: Seq<Offer<S>>,
    second: Seq<Offer<S>>,
)
    requires
        replayed(entries, offset, first),
        replayed(entries, resume_offset(offset, first), second),
    ensures
        ({
            let start = crate::replay::start_of(offset, entries.len());
            let joined = first.take(accepted_count(first)) + second;
            &&& start + joined.len() <= entries.len()
            &&& forall|i: int|
                0 <= i < joined.len() ==> (#[trigger] joined[i]).name == entries[start + i].name
                    && joined[i].kind == entries[start + i].kind && joined[i].identity
                    == entries[start + i].identity && joined[i].next_offset == start + i + 1
            &&& accepted_count(second) == second.len() ==> start + joined.len()
                == entries.len()
        }),
{
    let start = crate::replay::start_of(offset, entries.len());
    let count = accepted_count(first);
    let joined = first.take(count) + second;
    assert(crate::replay::start_of(resume_offset(offset, first), entries.len()) == start
        + count);
    assert forall|i: int| 0 <= i < joined.len() implies (#[trigger] joined[i]).name
        == entries[start + i].name && joined[i].kind == entries[start + i].kind
        && joined[i].identity == entries[start + i].identity && joined[i].next_offset == start + i
        + 1 by {
        if i < count {
            assert(joined[i] == first[i]);
        } else {
            assert(joined[i] == second[i - count]);
        }
    }
}

/// How many offers of a listing with attributes were accepted: all, or all but the last.
pub open spec fn plus_accepted_count<S>(offers: Seq<PlusOffer<S>>) -> int {
    if offers.len() > 0 && !offers.last().accepted {
        offers.len() - 1
    } else {
        offers.len() as int
    }
}

/// The offset to take a listing with attributes up with: the cookie of the last entry that
/// was accepted, or the offset it was started with if none was.
pub open spec fn plus_resume_offset<S>(offset: u64, offers: Seq<PlusOffer<S>>) -> u64 {
    if plus_accepted_count(offers) == 0 {
        offset
    } else {
        offers[plus_accepted_count(offers) - 1].next_offset
    }
}

/// A listing with attributes that is taken up at the cookie of the last accepted entry goes
/// on with the entry after it. What was accepted the first time and what is offered the second time
/// are, one after the other, the entries from the first offset on: nothing is repeated and
/// nothing is left out, and if the second listing is never refused, nothing is left.
pub proof fn law_plus_listing_resumes_where_it_stopped<S>(
    entries: Seq<DirEntryView<S>>,
    offset: u64,
    first: Seq<PlusOffer<S>>,
    second: Seq<PlusOffer<S>>,
)
    requires
        replayed_plus(entries, offset, first),
        replayed_plus(entries, plus_resume_offset(offset, first), second),
    ensures
        ({
            let start = crate::replay::start_of(offset, entries.len());
            let joined = first.take(plus_accepted_count(first)) + second;
            &&& start + joined.len() <= entries.len()
            &&& forall|i: int|
                0 <= i < joined.len() ==> (#[trigger] joined[i]).name == entries[start + i].name
                    && joined[i].attr == entries[start + i].attr && joined[i].identity
                    == entries[start + i].identity && joined[i].next_offset == start + i + 1
            &&& plus_accepted_count(second) == second.len() ==> start + joined.len()
                == entries.len()
        }),
{
    let start = crate::replay::start_of(offset, entries.len());
    let count = plus_accepted_count(first);
    let joined = first.take(count) + second;
    assert(crate::replay::start_of(plus_resume_offset(offset, first), entries.len()) == start
        + count);
    assert forall|i: int| 0 <= i < joined.len() implies (#[trigger] joined[i]).name
        == entries[start + i].name && joined[i].attr == entries[start + i].attr
        && joined[i].identity == entries[start + i].identity && joined[i].next_offset == start + i
        + 1 by {
        if i < count {
            assert(joined[i] == first[i]);
        } else {
            assert(joined[i] == second[i - count]);
        }
    }
}

/// Typed state and the adapter's current path for an existing node.
pub struct PathNodeRef<'a, S> {
    path: Option<&'a [u8]>,
    state: &'a Arc<S>,
}

impl<'a, S> PathNodeRef<'a, S> {
    /// The path as a value.
    pub closed spec fn path_view(self) -> Option<Seq<u8>> {
        match self.path {
            Some(path) => Some(path@),
            None => None,
        }
    }

    /// The state as a value.
    pub closed spec fn state_view(self) -> Arc<S> {
        *self.state
    }

    /// The reference is to a node with this path and this state.
    pub open spec fn is(self, path: Option<Seq<u8>>, state: Arc<S>) -> bool {
        self.path_view() == path && self.state_view() == state
    }

    pub fn new(path: Option<&'a [u8]>, state: &'a Arc<S>) -> (node: PathNodeRef<'a, S>)
        ensures
            node.is(
                match path {
                    Some(path) => Some(path@),
                    None => None,
                },
                *state,
            ),
    {
        PathNodeRef { path, state }
    }

    pub fn path(&self) -> (path: Option<&'a [u8]>)
        ensures
            match path {
                Some(path) => self.path_view() == Some(path@),
                None => self.path_view() is None,
            },
    {
        self.path
    }

    pub fn state(&self) -> (state: &'a S)
        ensures
            *state == *self.state_view(),
    {
        &**self.state
    }

    pub fn state_arc(&self) -> (state: Arc<S>)
        ensures
            state == self.state_view(),
    {
        Arc::clone(self.state)
    }
}

/// Attributes and typed state discovered or created for a path node.
pub struct PathEntry<S> {
    pub attr: NodeAttr,
    pub state: Arc<S>,
}

impl<S> PathEntry<S> {
    pub fn new(attr: NodeAttr, state: Arc<S>) -> (entry: PathEntry<S>)
        ensures
            entry == (PathEntry { attr, state }),
    {
        PathEntry { attr, state }
    }
}

/// A synchronous path-based filesystem interface.
///
/// Paths are absolute virtual paths rooted at `/`. An optional path is absent after the
/// last known name of an open file has been unlinked; the typed handle remains available
/// so backing filesystems can continue operating on the open object.
pub trait PathFilesystem: Send + Sync + Sized {
    /// Per-runtime-node data. Use `()` for stateless nodes.
    type NodeState: Send + Sync + 'static;

    /// Per-open-file data. Use `()` if the filesystem is stateless per open.
    type Handle: Send + Sync;

    /// Per-open-directory data. Use `()` if not needed.
    type DirHandle: Send + Sync;

    /// Builds state for the root node. This is infallible because runtime construction
    /// itself cannot report an error.
    fn root_state(&mut self) -> Arc<Self::NodeState>;

    /// Set to `true` to enable [`PathFilesystem::getlk`]/[`PathFilesystem::setlk`]. Left
    /// disabled by default since most filesystems delegate POSIX locking to the kernel.
    const SUPPORTS_POSIX_LOCKS: bool = false;

    /// Set to `true` to enable [`PathFilesystem::flock`]. Left disabled by default since
    /// most filesystems delegate BSD locking to the kernel.
    const SUPPORTS_FLOCK: bool = false;

    /// Set to `true` to enable [`PathFilesystem::readdirplus`], letting the kernel
    /// populate its attribute cache from directory listings instead of a follow-up
    /// `lookup` per entry.
    const SUPPORTS_READDIRPLUS: bool = false;

    /// Called once when libfuse establishes communication with the kernel.
    fn init(&self, conn: &mut ConnInfo)
        default_ensures
            *final(conn) == *old(conn),
    {
    }

    /// Called on filesystem exit.
    fn destroy(&self) {
    }

    /// Called when the kernel's lookup count for a node reaches zero.
    ///
    /// The node's path is the adapter's current canonical path for it, or `None` if its
    /// last known name has already been removed. This is a notification only: it may be
    /// delivered while the node still has links or open handles, and it cannot report an
    /// error.
    fn forget(&self, node: PathNodeRef<'_, Self::NodeState>) {
    }

    /// Returns the attributes of `node`, including its current link count. `handle` is
    /// the open handle if the call arrived through one; the path is `None` if the open
    /// file's last known name has been unlinked.
    fn getattr(
        &self,
        node: PathNodeRef<'_, Self::NodeState>,
        handle: Option<&Self::Handle>,
        caller: &Caller,
    ) -> Result<NodeAttr, Errno>;

    /// Looks up `name` in directory `parent`. Return `Ok(Some(entry))` for a hit, `Ok(None)`
    /// to populate the kernel's negative-lookup cache, or `Err` for a hard failure.
    fn lookup(
        &self,
        parent: PathNodeRef<'_, Self::NodeState>,
        name: &[u8],
        caller: &Caller,
    ) -> (reply: Result<Option<PathEntry<Self::NodeState>>, Errno>)
        default_ensures
            reply == Err::<Option<PathEntry<Self::NodeState>>, Errno>(Errno(crate::errno::ENOSYS)),
    {
        Err(Errno::enosys())
    }

    /// Applies the `Some` fields of `set` to `node`, returning the resulting attributes.
    fn setattr(
        &self,
        node: PathNodeRef<'_, Self::NodeState>,
        handle: Option<&Self::Handle>,
        set: &SetAttr,
        caller: &Caller,
    ) -> (reply: Result<NodeAttr, Errno>)
        default_ensures
            reply == Err::<NodeAttr, Errno>(Errno(crate::errno::ENOSYS)),
    {
        Err(Errno::enosys())
    }

    /// Reads the target of the symbolic link at `node`.
    fn readlink(
        &self,
        node: PathNodeRef<'_, Self::NodeState>,
        caller: &Caller,
    ) -> (reply: Result<Vec<u8>, Errno>)
        default_ensures
            reply == Err::<Vec<u8>, Errno>(Errno(crate::errno::ENOSYS)),
    {
        Err(Errno::enosys())
    }

    /// Creates a non-directory, non-symlink node named `name` in `parent`.
    fn mknod(
        &self,
        parent: PathNodeRef<'_, Self::NodeState>,
        name: &[u8],
        mode: u32,
        rdev: u32,
        umask: u32,
        caller: &Caller,
    ) -> (reply: Result<PathEntry<Self::NodeState>, Errno>)
        default_ensures
            reply == Err::<PathEntry<Self::NodeState>, Errno>(Errno(crate::errno::ENOSYS)),
    {
        Err(Errno::enosys())
    }

    /// Creates a directory named `name` in `parent`.
    fn mkdir(
        &self,
        parent: PathNodeRef<'_, Self::NodeState>,
        name: &[u8],
        mode: u32,
        umask: u32,
        caller: &Caller,
    ) -> (reply: Result<PathEntry<Self::NodeState>, Errno>)
        default_ensures
            reply == Err::<PathEntry<Self::NodeState>, Errno>(Errno(crate::errno::ENOSYS)),
    {
        Err(Errno::enosys())
    }

    /// Creates a symbolic link named `name` in `parent` pointing at `target`.
    fn symlink(
        &self,
        parent: PathNodeRef<'_, Self::NodeState>,
        name: &[u8],
        target: &[u8],
        caller: &Caller,
    ) -> (reply: Result<PathEntry<Self::NodeState>, Errno>)
        default_ensures
            reply == Err::<PathEntry<Self::NodeState>, Errno>(Errno(crate::errno::ENOSYS)),
    {
        Err(Errno::enosys())
    }

    /// Removes the non-directory entry `name` from `parent`.
    fn unlink(
        &self,
        parent: PathNodeRef<'_, Self::NodeState>,
        name: &[u8],
        caller: &Caller,
    ) -> (reply: Result<(), Errno>)
        default_ensures
            reply == Err::<(), Errno>(Errno(crate::errno::ENOSYS)),
    {
        Err(Errno::enosys())
    }

    /// Removes the empty directory `name` from `parent`.
    fn rmdir(
        &self,
        parent: PathNodeRef<'_, Self::NodeState>,
        name: &[u8],
        caller: &Caller,
    ) -> (reply: Result<(), Errno>)
        default_ensures
            reply == Err::<(), Errno>(Errno(crate::errno::ENOSYS)),
    {
        Err(Errno::enosys())
    }

    /// Renames `name` in `parent` to `newname` in `newparent`.
    fn rename(
        &self,
        parent: PathNodeRef<'_, Self::NodeState>,
        name: &[u8],
        newparent: PathNodeRef<'_, Self::NodeState>,
        newname: &[u8],
        caller: &Caller,
    ) -> (reply: Result<(), Errno>)
        default_ensures
            reply == Err::<(), Errno>(Errno(crate::errno::ENOSYS)),
    {
        Err(Errno::enosys())
    }

    /// Creates a hard link to `node` named `newname` in `newparent`.
    fn link(
        &self,
        node: PathNodeRef<'_, Self::NodeState>,
        newparent: PathNodeRef<'_, Self::NodeState>,
        newname: &[u8],
        caller: &Caller,
    ) -> (reply: Result<NodeAttr, Errno>)
        default_ensures
            reply == Err::<NodeAttr, Errno>(Errno(crate::errno::ENOSYS)),
    {
        Err(Errno::enosys())
    }

    /// Opens `node`, returning the filesystem's handle object.
    fn open(
        &self,
        node: PathNodeRef<'_, Self::NodeState>,
        flags: i32,
        caller: &Caller,
    ) -> (reply: Result<Opened<Self::Handle>, Errno>)
        default_ensures
            reply == Err::<Opened<Self::Handle>, Errno>(Errno(crate::errno::ENOSYS)),
    {
        Err(Errno::enosys())
    }

    /// Reads up to `size` bytes from `handle` at `offset`. The returned data may borrow from
    /// `self`/`handle` for a zero-copy reply. The path is `None` if the open file's last known
    /// name has been unlinked.
    fn read<'a>(
        &'a self,
        node: PathNodeRef<'_, Self::NodeState>,
        handle: &'a Self::Handle,
        offset: u64,
        size: usize,
        caller: &Caller,
    ) -> (reply: Result<Cow<'a, [u8]>, Errno>)
        default_ensures
            reply == Err::<Cow<'a, [u8]>, Errno>(Errno(crate::errno::ENOSYS)),
    {
        Err(Errno::enosys())
    }

    /// Writes `data` to `handle` at `offset`, returning the count written.
    fn write(
        &self,
        node: PathNodeRef<'_, Self::NodeState>,
        handle: &Self::Handle,
        data: &[u8],
        offset: u64,
        caller: &Caller,
    ) -> (reply: Result<usize, Errno>)
        default_ensures
            reply == Err::<usize, Errno>(Errno(crate::errno::ENOSYS)),
    {
        Err(Errno::enosys())
    }

    /// Called on each `close()` of an open file.
    fn flush(
        &self,
        node: PathNodeRef<'_, Self::NodeState>,
        handle: &Self::Handle,
        caller: &Caller,
    ) -> (reply: Result<(), Errno>)
        default_ensures
            reply == Ok::<(), Errno>(()),
    {
        Ok(())
    }

    /// Called when the last reference to an open file is dropped; consumes the handle.
    fn release(
        &self,
        node: PathNodeRef<'_, Self::NodeState>,
        handle: Self::Handle,
        caller: &Caller,
    ) -> (reply: Result<(), Errno>)
        default_ensures
            reply == Ok::<(), Errno>(()),
    {
        Ok(())
    }

    /// Flushes file contents (and metadata unless `datasync`).
    fn fsync(
        &self,
        node: PathNodeRef<'_, Self::NodeState>,
        handle: &Self::Handle,
        datasync: bool,
        caller: &Caller,
    ) -> (reply: Result<(), Errno>)
        default_ensures
            reply == Ok::<(), Errno>(()),
    {
        Ok(())
    }

    /// Opens the directory at `node`.
    fn opendir(
        &self,
        node: PathNodeRef<'_, Self::NodeState>,
        flags: i32,
        caller: &Caller,
    ) -> (reply: Result<Opened<Self::DirHandle>, Errno>)
        default_ensures
            reply == Err::<Opened<Self::DirHandle>, Errno>(Errno(crate::errno::ENOSYS)),
    {
        Err(Errno::enosys())
    }

    /// Emits the entries of directory `node` into `sink`, starting at `offset`, and hands the
    /// sink back. Push each entry with a strictly increasing `next_offset` cookie and stop as
    /// soon as [`PathDirSink::add`] returns `false`. The sink changes through its `add` alone.
    fn readdir<K: PathDirSink<Self::NodeState>>(
        &self,
        node: PathNodeRef<'_, Self::NodeState>,
        handle: &Self::DirHandle,
        offset: u64,
        sink: K,
        caller: &Caller,
    ) -> (reply: (K, Result<(), Errno>))
        ensures
            offered::<Self::NodeState, K>(sink, reply.0),
        default_ensures
            reply.0 == sink,
            reply.1 == Err::<(), Errno>(Errno(crate::errno::ENOSYS)),
    {
        proof {
            lemma_no_offers::<Self::NodeState, K>(sink);
        }
        (sink, Err(Errno::enosys()))
    }

    /// Like [`PathFilesystem::readdir`], but emits attributes alongside each entry via
    /// [`PathPlusDirSink`]. Only called when [`PathFilesystem::SUPPORTS_READDIRPLUS`] is
    /// `true`.
    fn readdirplus<K: PathPlusDirSink<Self::NodeState>>(
        &self,
        node: PathNodeRef<'_, Self::NodeState>,
        handle: &Self::DirHandle,
        offset: u64,
        sink: K,
        caller: &Caller,
    ) -> (reply: (K, Result<(), Errno>))
        ensures
            plus_offered::<Self::NodeState, K>(sink, reply.0),
        default_ensures
            reply.0 == sink,
            reply.1 == Err::<(), Errno>(Errno(crate::errno::ENOSYS)),
    {
        proof {
            lemma_no_plus_offers::<Self::NodeState, K>(sink);
        }
        (sink, Err(Errno::enosys()))
    }

    /// Releases a directory handle; consumes it.
    fn releasedir(
        &self,
        node: PathNodeRef<'_, Self::NodeState>,
        handle: Self::DirHandle,
        caller: &Caller,
    ) -> (reply: Result<(), Errno>)
        default_ensures
            reply == Ok::<(), Errno>(()),
    {
        Ok(())
    }

    /// Flushes directory contents.
    fn fsyncdir(
        &self,
        node: PathNodeRef<'_, Self::NodeState>,
        handle: &Self::DirHandle,
        datasync: bool,
        caller: &Caller,
    ) -> (reply: Result<(), Errno>)
        default_ensures
            reply == Ok::<(), Errno>(()),
    {
        Ok(())
    }

    /// Returns filesystem-wide statistics. Defaults to a minimal-but-valid value (as libfuse
    /// does when the callback is unset).
    fn statfs(&self, path: &[u8], caller: &Caller) -> (reply: Result<StatFs, Errno>)
        default_ensures
            reply matches Ok(stat) && stat.is_minimal(),
    {
        Ok(StatFs::minimal())
    }

    /// Sets extended attribute `name` on `node`.
    fn setxattr(
        &self,
        node: PathNodeRef<'_, Self::NodeState>,
        name: &[u8],
        value: &[u8],
        flags: i32,
        caller: &Caller,
    ) -> (reply: Result<(), Errno>)
        default_ensures
            reply == Err::<(), Errno>(Errno(crate::errno::ENOSYS)),
    {
        Err(Errno::enosys())
    }

    /// Returns extended attribute `name` on `node`. A `size` of zero is a length query (return
    /// [`XattrReply::Size`]).
    fn getxattr(
        &self,
        node: PathNodeRef<'_, Self::NodeState>,
        name: &[u8],
        size: usize,
        caller: &Caller,
    ) -> (reply: Result<XattrReply, Errno>)
        default_ensures
            reply == Err::<XattrReply, Errno>(Errno(crate::errno::ENOSYS)),
    {
        Err(Errno::enosys())
    }

    /// Returns the NUL-separated extended attribute names on `node`. Same size-query protocol
    /// as [`PathFilesystem::getxattr`].
    fn listxattr(
        &self,
        node: PathNodeRef<'_, Self::NodeState>,
        size: usize,
        caller: &Caller,
    ) -> (reply: Result<XattrReply, Errno>)
        default_ensures
            reply == Err::<XattrReply, Errno>(Errno(crate::errno::ENOSYS)),
    {
        Err(Errno::enosys())
    }

    /// Removes extended attribute `name` from `node`.
    fn removexattr(
        &self,
        node: PathNodeRef<'_, Self::NodeState>,
        name: &[u8],
        caller: &Caller,
    ) -> (reply: Result<(), Errno>)
        default_ensures
            reply == Err::<(), Errno>(Errno(crate::errno::ENOSYS)),
    {
        Err(Errno::enosys())
    }

    /// Checks access to `node` per the `access(2)` `mask`.
    fn access(
        &self,
        node: PathNodeRef<'_, Self::NodeState>,
        mask: i32,
        caller: &Caller,
    ) -> (reply: Result<(), Errno>)
        default_ensures
            reply == Ok::<(), Errno>(()),
    {
        Ok(())
    }

    /// Atomically creates and opens a regular file named `name` in `parent`.
    fn create(
        &self,
        parent: PathNodeRef<'_, Self::NodeState>,
        name: &[u8],
        mode: u32,
        umask: u32,
        flags: i32,
        caller: &Caller,
    ) -> (reply: Result<(PathEntry<Self::NodeState>, Opened<Self::Handle>), Errno>)
        default_ensures
            reply == Err::<(PathEntry<Self::NodeState>, Opened<Self::Handle>), Errno>(
                Errno(crate::errno::ENOSYS),
            ),
    {
        Err(Errno::enosys())
    }

    /// Pre-allocates/punches `length` bytes at `offset` in `handle`.
    fn fallocate(
        &self,
        node: PathNodeRef<'_, Self::NodeState>,
        handle: &Self::Handle,
        mode: i32,
        offset: u64,
        length: u64,
        caller: &Caller,
    ) -> (reply: Result<(), Errno>)
        default_ensures
            reply == Err::<(), Errno>(Errno(crate::errno::ENOSYS)),
    {
        Err(Errno::enosys())
    }

    /// Finds the next data region or hole at or after `offset`.
    fn lseek(
        &self,
        node: PathNodeRef<'_, Self::NodeState>,
        handle: &Self::Handle,
        offset: u64,
        whence: i32,
        caller: &Caller,
    ) -> (reply: Result<u64, Errno>)
        default_ensures
            reply == Err::<u64, Errno>(Errno(crate::errno::ENOSYS)),
    {
        Err(Errno::enosys())
    }

    /// Tests whether `lock` could be acquired on `handle` by `owner`, returning the conflicting
    /// lock (or `lock` itself with [`crate::node_fs::LockKind::Unlock`] if it would succeed).
    /// Only called when [`PathFilesystem::SUPPORTS_POSIX_LOCKS`] is `true`.
    fn getlk(
        &self,
        node: PathNodeRef<'_, Self::NodeState>,
        handle: &Self::Handle,
        owner: u64,
        lock: FileLock,
        caller: &Caller,
    ) -> (reply: Result<FileLock, Errno>)
        default_ensures
            reply == Err::<FileLock, Errno>(Errno(crate::errno::ENOSYS)),
    {
        Err(Errno::enosys())
    }

    /// Acquires or releases `lock` on `handle` for `owner`. If `sleep` is `true`, block until
    /// the lock is available rather than failing immediately. Only called when
    /// [`PathFilesystem::SUPPORTS_POSIX_LOCKS`] is `true`.
    fn setlk(
        &self,
        node: PathNodeRef<'_, Self::NodeState>,
        handle: &Self::Handle,
        owner: u64,
        lock: FileLock,
        sleep: bool,
        caller: &Caller,
    ) -> (reply: Result<(), Errno>)
        default_ensures
            reply == Err::<(), Errno>(Errno(crate::errno::ENOSYS)),
    {
        Err(Errno::enosys())
    }

    /// Acquires, modifies, or releases a BSD lock on `handle`. `operation` is the platform's
    /// `LOCK_SH`, `LOCK_EX`, or `LOCK_UN`, optionally combined with `LOCK_NB`. Only called when
    /// [`PathFilesystem::SUPPORTS_FLOCK`] is `true`.
    fn flock(
        &self,
        node: PathNodeRef<'_, Self::NodeState>,
        handle: &Self::Handle,
        operation: i32,
        caller: &Caller,
    ) -> (reply: Result<(), Errno>)
        default_ensures
            reply == Err::<(), Errno>(Errno(crate::errno::ENOSYS)),
    {
        Err(Errno::enosys())
    }
}

} // verus!
