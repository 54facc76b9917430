//! Snapshots of directories: what is captured is what is listed, in order, each entry with
//! the cookie that resumes after it.

use vstd::prelude::*;

use std::sync::Arc;

use crate::attr::{FileKind, NodeAttr};
use crate::path_fs::{
    DirBuffer,
    DirEntry,
    Offer,
    PathDirIdentity,
    PathDirSink,
    PathPlusDirSink,
    PlusOffer,
};
use crate::replay::{replay, replay_into, Emitter};

verus! {

/// Two entries are the same in every field.
pub open spec fn same_entry<S>(a: DirEntry<S>, b: DirEntry<S>) -> bool {
    &&& a.name@ == b.name@
    &&& a.kind == b.kind
    &&& a.attr == b.attr
    &&& a.identity == b.identity
}

/// Two entries in a row are the same in every field, from end to end.
pub open spec fn same_entries<S>(a: Seq<&DirEntry<S>>, b: Seq<&DirEntry<S>>) -> bool {
    &&& a.len() == b.len()
    &&& forall|i: int| 0 <= i < a.len() ==> same_entry(*#[trigger] a[i], *b[i])
}

proof fn lemma_shown<S>(buffer: &DirBuffer<S>, shown: Seq<&DirEntry<S>>)
    requires
        shown.map_values(|entry: &DirEntry<S>| entry@) == buffer@,
    ensures
        shown.len() == buffer@.len(),
        forall|i: int|
            0 <= i < shown.len() ==> (#[trigger] shown[i]).name@ == buffer@[i].name && shown[i].kind
                == buffer@[i].kind && shown[i].attr == buffer@[i].attr && shown[i].identity
                == buffer@[i].identity,
{
    assert(shown.map_values(|entry: &DirEntry<S>| entry@).len() == shown.len());
    assert forall|i: int| 0 <= i < shown.len() implies (#[trigger] shown[i]).name@ == buffer@[i].name
        && shown[i].kind == buffer@[i].kind && shown[i].attr == buffer@[i].attr && shown[i].identity
        == buffer@[i].identity by {
        assert(shown.map_values(|entry: &DirEntry<S>| entry@)[i] == shown[i]@);
    }
}

/// A new snapshot shows nothing, and the length of a snapshot is the number of entries that
/// it shows.
pub proof fn law_snapshots_count_their_entries<S>(
    new: DirBuffer<S>,
    default: DirBuffer<S>,
    buffer: &DirBuffer<S>,
    shown: (
        std::slice::Iter<'_, DirEntry<S>>,
        std::slice::Iter<'_, DirEntry<S>>,
        std::slice::Iter<'_, DirEntry<S>>,
    ),
    len: usize,
    empty: bool,
)
    requires
        call_ensures(DirBuffer::<S>::new, (), new),
        call_ensures(<DirBuffer<S> as Default>::default, (), default),
        call_ensures(DirBuffer::<S>::iter, (&new,), shown.0),
        call_ensures(DirBuffer::<S>::iter, (&default,), shown.1),
        call_ensures(DirBuffer::<S>::iter, (buffer,), shown.2),
        call_ensures(DirBuffer::<S>::len, (buffer,), len),
        call_ensures(DirBuffer::<S>::is_empty, (buffer,), empty),
    ensures
        vstd::std_specs::iter::IteratorSpec::remaining(&shown.0).len() == 0,
        vstd::std_specs::iter::IteratorSpec::remaining(&shown.1).len() == 0,
        vstd::std_specs::iter::IteratorSpec::remaining(&shown.2).len() == len,
        empty <==> len == 0,
{
    lemma_shown(&new, vstd::std_specs::iter::IteratorSpec::remaining(&shown.0));
    lemma_shown(&default, vstd::std_specs::iter::IteratorSpec::remaining(&shown.1));
    lemma_shown(buffer, vstd::std_specs::iter::IteratorSpec::remaining(&shown.2));
}

/// An entry that is captured is shown last, with the name, kind, attributes and state that it
/// was captured with; what was shown before it stays.
pub proof fn law_captured_entries_are_shown<S>(
    args: (&mut DirBuffer<S>, Vec<u8>, FileKind, NodeAttr, Arc<S>),
    before: std::slice::Iter<'_, DirEntry<S>>,
    after: std::slice::Iter<'_, DirEntry<S>>,
)
    requires
        call_ensures(DirBuffer::<S>::push, args, ()),
        call_ensures(DirBuffer::<S>::iter, (&*old(args.0),), before),
        call_ensures(DirBuffer::<S>::iter, (&*final(args.0),), after),
    ensures
        vstd::std_specs::iter::IteratorSpec::remaining(&after).len()
            == vstd::std_specs::iter::IteratorSpec::remaining(&before).len() + 1,
        same_entries(
            vstd::std_specs::iter::IteratorSpec::remaining(&after).drop_last(),
            vstd::std_specs::iter::IteratorSpec::remaining(&before),
        ),
        vstd::std_specs::iter::IteratorSpec::remaining(&after).last().name@ == args.1@,
        vstd::std_specs::iter::IteratorSpec::remaining(&after).last().kind == args.2,
        vstd::std_specs::iter::IteratorSpec::remaining(&after).last().attr == args.3,
        vstd::std_specs::iter::IteratorSpec::remaining(&after).last().identity
            == PathDirIdentity::Child(args.4),
{
    lemma_shown(&*old(args.0), vstd::std_specs::iter::IteratorSpec::remaining(&before));
    lemma_shown(&*final(args.0), vstd::std_specs::iter::IteratorSpec::remaining(&after));
}

/// The conventional entries are shown last: the directory itself as `.` and the one above it
/// as `..`, each a directory with its own attributes; what was shown before stays.
pub proof fn law_dots_are_shown<S>(
    args: (&mut DirBuffer<S>, NodeAttr, NodeAttr),
    before: std::slice::Iter<'_, DirEntry<S>>,
    after: std::slice::Iter<'_, DirEntry<S>>,
)
    requires
        call_ensures(DirBuffer::<S>::push_dots, args, ()),
        call_ensures(DirBuffer::<S>::iter, (&*old(args.0),), before),
        call_ensures(DirBuffer::<S>::iter, (&*final(args.0),), after),
    ensures
        ({
            let n = vstd::std_specs::iter::IteratorSpec::remaining(&before).len() as int;
            let shown = vstd::std_specs::iter::IteratorSpec::remaining(&after);
            &&& shown.len() == n + 2
            &&& same_entries(shown.take(n), vstd::std_specs::iter::IteratorSpec::remaining(&before))
            &&& shown[n].name@ == seq![46u8]
            &&& shown[n].kind is Directory
            &&& shown[n].attr == args.1
            &&& shown[n].identity is Current
            &&& shown[n + 1].name@ == seq![46u8, 46u8]
            &&& shown[n + 1].kind is Directory
            &&& shown[n + 1].attr == args.2
            &&& shown[n + 1].identity is Parent
        }),
{
    lemma_shown(&*old(args.0), vstd::std_specs::iter::IteratorSpec::remaining(&before));
    lemma_shown(&*final(args.0), vstd::std_specs::iter::IteratorSpec::remaining(&after));
}

/// A copy of a snapshot, of an entry or of an identity is the same in every field.
pub proof fn law_copies_show_the_same<S>(
    buffer: &DirBuffer<S>,
    copy: DirBuffer<S>,
    shown: (std::slice::Iter<'_, DirEntry<S>>, std::slice::Iter<'_, DirEntry<S>>),
    entry: &DirEntry<S>,
    entry_copy: DirEntry<S>,
    identity: &PathDirIdentity<S>,
    identity_copy: PathDirIdentity<S>,
)
    requires
        call_ensures(<DirBuffer<S> as Clone>::clone, (buffer,), copy),
        call_ensures(DirBuffer::<S>::iter, (buffer,), shown.0),
        call_ensures(DirBuffer::<S>::iter, (&copy,), shown.1),
        call_ensures(<DirEntry<S> as Clone>::clone, (entry,), entry_copy),
        call_ensures(<PathDirIdentity<S> as Clone>::clone, (identity,), identity_copy),
    ensures
        same_entries(
            vstd::std_specs::iter::IteratorSpec::remaining(&shown.0),
            vstd::std_specs::iter::IteratorSpec::remaining(&shown.1),
        ),
        same_entry(entry_copy, *entry),
        identity_copy == *identity,
{
    lemma_shown(buffer, vstd::std_specs::iter::IteratorSpec::remaining(&shown.0));
    lemma_shown(&copy, vstd::std_specs::iter::IteratorSpec::remaining(&shown.1));
    assert(entry_copy@.name == entry@.name);
}

/// Where a listing of `len` entries starts: at the offset, but not behind the end.
pub open spec fn first_of(offset: u64, len: nat) -> int {
    if offset <= len {
        offset as int
    } else {
        len as int
    }
}

/// A snapshot offers, from the offset on, exactly the entries that it shows, in order: each
/// with its name, kind and identity, and with the number of entries up to and including it
/// as the cookie. It stops behind the first one that is refused, or at the end.
pub proof fn law_fill_offers_what_is_shown<S, K: PathDirSink<S>>(
    args: (&DirBuffer<S>, u64, &mut K),
    shown: std::slice::Iter<'_, DirEntry<S>>,
)
    requires
        call_ensures(DirBuffer::<S>::fill::<K>, args, ()),
        call_ensures(DirBuffer::<S>::iter, (args.0,), shown),
    ensures
        exists|states: Seq<K>, offers: Seq<Offer<S>>| #[trigger]
            fill_runs(
                vstd::std_specs::iter::IteratorSpec::remaining(&shown),
                args.1,
                *old(args.2),
                states,
                offers,
                *final(args.2),
            ),
{
    lemma_shown(args.0, vstd::std_specs::iter::IteratorSpec::remaining(&shown));
    let entries = vstd::std_specs::iter::IteratorSpec::remaining(&shown);
    let (states, offers) = choose|states: Seq<K>, offers: Seq<Offer<S>>| #[trigger]
        crate::path_fs::listing(*old(args.2), states, offers, *final(args.2))
            && crate::path_fs::replayed(args.0@, args.1, offers);
    let start = first_of(args.1, entries.len());
    assert forall|i: int| 0 <= i < offers.len() implies PathDirSink::added(
        #[trigger] states[i],
        entries[start + i].name@,
        entries[start + i].kind,
        entries[start + i].identity,
        (start + i + 1) as u64,
        states[i + 1],
        offers[i].accepted,
    ) by {
        assert(crate::path_fs::offer_made(states, offers, i));
        assert(entries[start + i].name@ == args.0@[start + i].name);
    }
    assert(fill_runs(entries, args.1, *old(args.2), states, offers, *final(args.2)));
}

/// A run of offers of the entries from `offset` on takes a sink from `before` to `after`.
pub open spec fn fill_runs<S, K: PathDirSink<S>>(
    entries: Seq<&DirEntry<S>>,
    offset: u64,
    before: K,
    states: Seq<K>,
    offers: Seq<Offer<S>>,
    after: K,
) -> bool {
    let start = first_of(offset, entries.len());
    &&& states.len() == offers.len() + 1
    &&& states.first() == before
    &&& states.last() == after
    &&& start + offers.len() <= entries.len()
    &&& forall|i: int|
        0 <= i < offers.len() ==> PathDirSink::added(
            #[trigger] states[i],
            entries[start + i].name@,
            entries[start + i].kind,
            entries[start + i].identity,
            (start + i + 1) as u64,
            states[i + 1],
            offers[i].accepted,
        )
    &&& forall|i: int| 0 <= i < offers.len() - 1 ==> (#[trigger] offers[i]).accepted
    &&& start + offers.len() < entries.len() ==> offers.len() > 0 && !offers.last().accepted
}

/// A snapshot offers, from the offset on, exactly the entries that it shows, in order: each
/// with its name, attributes and identity, and with the number of entries up to and including it
/// as the cookie. It stops behind the first one that is refused, or at the end.
pub proof fn law_fill_plus_offers_what_is_shown<S, K: PathPlusDirSink<S>>(
    args: (&DirBuffer<S>, u64, &mut K),
    shown: std::slice::Iter<'_, DirEntry<S>>,
)
    requires
        call_ensures(DirBuffer::<S>::fill_plus::<K>, args, ()),
        call_ensures(DirBuffer::<S>::iter, (args.0,), shown),
    ensures
        exists|states: Seq<K>, offers: Seq<PlusOffer<S>>| #[trigger]
            fill_plus_runs(
                vstd::std_specs::iter::IteratorSpec::remaining(&shown),
                args.1,
                *old(args.2),
                states,
                offers,
                *final(args.2),
            ),
{
    lemma_shown(args.0, vstd::std_specs::iter::IteratorSpec::remaining(&shown));
    let entries = vstd::std_specs::iter::IteratorSpec::remaining(&shown);
    let (states, offers) = choose|states: Seq<K>, offers: Seq<PlusOffer<S>>| #[trigger]
        crate::path_fs::plus_listing(*old(args.2), states, offers, *final(args.2))
            && crate::path_fs::replayed_plus(args.0@, args.1, offers);
    let start = first_of(args.1, entries.len());
    assert forall|i: int| 0 <= i < offers.len() implies PathPlusDirSink::added(
        #[trigger] states[i],
        entries[start + i].name@,
        entries[start + i].attr,
        entries[start + i].identity,
        (start + i + 1) as u64,
        states[i + 1],
        offers[i].accepted,
    ) by {
        assert(crate::path_fs::plus_offer_made(states, offers, i));
        assert(entries[start + i].name@ == args.0@[start + i].name);
    }
    assert(fill_plus_runs(entries, args.1, *old(args.2), states, offers, *final(args.2)));
}

/// A run of offers of the entries from `offset` on takes a sink from `before` to `after`.
pub open spec fn fill_plus_runs<S, K: PathPlusDirSink<S>>(
    entries: Seq<&DirEntry<S>>,
    offset: u64,
    before: K,
    states: Seq<K>,
    offers: Seq<PlusOffer<S>>,
    after: K,
) -> bool {
    let start = first_of(offset, entries.len());
    &&& states.len() == offers.len() + 1
    &&& states.first() == before
    &&& states.last() == after
    &&& start + offers.len() <= entries.len()
    &&& forall|i: int|
        0 <= i < offers.len() ==> PathPlusDirSink::added(
            #[trigger] states[i],
            entries[start + i].name@,
            entries[start + i].attr,
            entries[start + i].identity,
            (start + i + 1) as u64,
            states[i + 1],
            offers[i].accepted,
        )
    &&& forall|i: int| 0 <= i < offers.len() - 1 ==> (#[trigger] offers[i]).accepted
    &&& start + offers.len() < entries.len() ==> offers.len() > 0 && !offers.last().accepted
}

/// The answers of a listing of `len` entries from `offset` on: as long as they are yes, and
/// there are entries.
pub open spec fn ends_in_time(offset: u64, len: nat, answers: Seq<bool>) -> bool {
    let start = first_of(offset, len);
    &&& start + answers.len() <= len
    &&& forall|i: int| 0 <= i < answers.len() - 1 ==> #[trigger] answers[i]
    &&& start + answers.len() < len ==> answers.len() > 0 && !answers.last()
}

/// A replay calls `emit` for the entries from the offset on, in order, each with the number of
/// entries up to and including it as the cookie, up to the first call that says no.
pub proof fn law_replay_calls_in_order<F: FnMut(usize, u64) -> bool>(
    offset: u64,
    len: usize,
    emit: F,
)
    requires
        call_ensures(replay::<F>, (offset, len, emit), ()),
    ensures
        exists|answers: Seq<bool>| #[trigger]
            ends_in_time(offset, len as nat, answers) && forall|i: int|
                0 <= i < answers.len() ==> call_ensures(
                    emit,
                    (
                        (first_of(offset, len as nat) + i) as usize,
                        (first_of(offset, len as nat) + i + 1) as u64,
                    ),
                    #[trigger] answers[i],
                ),
{
    let answers = choose|answers: Seq<bool>| #[trigger]
        crate::replay::replayed_by(emit, offset, len as nat, answers);
    assert(ends_in_time(offset, len as nat, answers));
}

/// A replay into a target emits the entries from the offset on, in order, each into what the
/// one before it left, up to the first that says no.
pub proof fn law_replay_emits_in_order<T, E: Emitter<T>>(args: (u64, usize, &E, &mut T))
    requires
        call_ensures(replay_into::<T, E>, args, ()),
    ensures
        exists|states: Seq<T>, answers: Seq<bool>|
            #![trigger ends_in_time(args.0, args.1 as nat, answers), states.first()]
            ends_in_time(args.0, args.1 as nat, answers) && states.len() == answers.len() + 1
                && states.first() == *old(args.3) && states.last() == *final(args.3) && forall|i: int|
                0 <= i < answers.len() ==> args.2.emitted(
                    #[trigger] states[i],
                    first_of(args.0, args.1 as nat) + i,
                    states[i + 1],
                    answers[i],
                ),
{
    let start = first_of(args.0, args.1 as nat);
    let (states, answers) = choose|states: Seq<T>, answers: Seq<bool>|
        crate::replay::run_of(args.0, args.1 as nat, answers)
            && #[trigger] crate::replay::emission_run(
            *args.2,
            start,
            *old(args.3),
            states,
            answers,
            *final(args.3),
        );
    assert forall|i: int| 0 <= i < answers.len() implies args.2.emitted(
        #[trigger] states[i],
        start + i,
        states[i + 1],
        answers[i],
    ) by {
        assert(crate::replay::emission_made(*args.2, start, states, answers, i));
    }
    assert(ends_in_time(args.0, args.1 as nat, answers));
    assert(states.first() == *old(args.3));
}

} // verus!
