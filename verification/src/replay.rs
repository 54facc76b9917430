//! The resume cookies of directory listings.
//!
//! A snapshot-style listing names its entries by position. The entry at position `i` goes
//! out with the cookie `i + 1`, and a listing that is given a cookie starts at that
//! position.

use vstd::prelude::*;

verus! {

/// Where a listing starts: at the offset, but not behind the end.
pub open spec fn start_of(offset: u64, len: nat) -> int {
    if offset < len {
        offset as int
    } else {
        len as int
    }
}

/// The answers that a listing of `len` entries gets from `offset` on, one for each entry
/// that it emits: it goes on while the answer is `true`, and ends with the entries or with
/// the first `false`.
pub open spec fn run_of(offset: u64, len: nat, answers: Seq<bool>) -> bool {
    let start = start_of(offset, len);
    &&& start + answers.len() <= len
    &&& forall|i: int| 0 <= i < answers.len() - 1 ==> #[trigger] answers[i]
    &&& start + answers.len() == len || (answers.len() > 0 && !answers.last())
}

/// The positions that were emitted, each with its cookie, in order.
pub open spec fn emissions(offset: u64, len: nat, answers: Seq<bool>) -> Seq<(int, int)> {
    positions(start_of(offset, len), answers.len())
}

/// The positions from `start` on, each with its cookie.
pub open spec fn positions(start: int, count: nat) -> Seq<(int, int)> {
    Seq::new(count, |i: int| (start + i, start + i + 1))
}

/// How many answers of a run were `true`: all, or all but the last.
pub open spec fn taken(answers: Seq<bool>) -> nat {
    if answers.len() > 0 && !answers.last() {
        (answers.len() - 1) as nat
    } else {
        answers.len()
    }
}

/// The cookie to resume a listing with: that of the last entry that was taken, or the
/// offset it was started with if none was.
pub open spec fn resume_cookie(offset: u64, len: nat, answers: Seq<bool>) -> u64 {
    if taken(answers) == 0 {
        offset
    } else {
        emissions(offset, len, answers)[taken(answers) - 1].1 as u64
    }
}

/// What emits the entries of a listing into a target of type `T`.
pub trait Emitter<T>: Sized {
    /// The entry at `index` may be emitted into the target as it is. Unless an
    /// implementation says more, any may.
    open spec fn ready(&self, target: T, index: int) -> bool {
        true
    }

    /// What emitting the entry at `index` does to the target, and whether the listing is to
    /// go on. Unless an implementation says more, anything may happen.
    open spec fn emitted(&self, before: T, index: int, after: T, more: bool) -> bool {
        true
    }

    /// Emits the entry at `index` with the cookie that resumes after it. Returns `false`
    /// once the target is full.
    fn emit(&self, target: &mut T, index: usize, next_offset: u64) -> (more: bool)
        requires
            self.ready(*old(target), index as int),
            next_offset == index + 1,
        ensures
            self.emitted(*old(target), index as int, *final(target), more),
    ;
}

/// Emission `i` of a run that starts at `start` takes the target from one state to the
/// next.
pub open spec fn emission_made<T, E: Emitter<T>>(
    emitter: E,
    start: int,
    states: Seq<T>,
    answers: Seq<bool>,
    i: int,
) -> bool {
    emitter.emitted(states[i], start + i, states[i + 1], answers[i])
}

/// Emissions from position `start` on take the target from `before` to `after`, one for
/// each answer.
pub open spec fn emission_run<T, E: Emitter<T>>(
    emitter: E,
    start: int,
    before: T,
    states: Seq<T>,
    answers: Seq<bool>,
    after: T,
) -> bool {
    &&& states.len() == answers.len() + 1
    &&& states.first() == before
    &&& states.last() == after
    &&& forall|i: int|
        0 <= i < answers.len() ==> #[trigger] emission_made(emitter, start, states, answers, i)
}

/// The target is `after` when the entries from position `start` up to `index` have been
/// emitted into `before`, each of them answered with `true`.
pub open spec fn reached<T, E: Emitter<T>>(
    emitter: E,
    start: int,
    before: T,
    index: int,
    after: T,
) -> bool {
    exists|states: Seq<T>, answers: Seq<bool>| #[trigger]
        emission_run(emitter, start, before, states, answers, after) && answers.len() == index
            - start && all_true(answers)
}

/// Every answer was `true`.
pub open spec fn all_true(answers: Seq<bool>) -> bool {
    forall|i: int| 0 <= i < answers.len() ==> #[trigger] answers[i]
}

/// Emits the entries from `offset` on, in order, each with its position's successor as the
/// cookie, and stops behind the first one that is answered with `false`. An offset behind
/// the end emits nothing.
///
/// An entry has to be ready to be emitted only when all that come before it, from the
/// offset on, have been emitted and answered with `true`.
pub fn replay_into<T, E: Emitter<T>>(offset: u64, len: usize, emitter: &E, target: &mut T)
    requires
        forall|i: int, after: T|
            start_of(offset, len as nat) <= i < len && reached(
                *emitter,
                start_of(offset, len as nat),
                *old(target),
                i,
                after,
            ) ==> #[trigger] emitter.ready(after, i),
    ensures
        exists|states: Seq<T>, answers: Seq<bool>|
            run_of(offset, len as nat, answers) && #[trigger] emission_run(
                *emitter,
                start_of(offset, len as nat),
                *old(target),
                states,
                answers,
                *final(target),
            ),
{
    let start: usize = if offset < len as u64 {
        offset as usize
    } else {
        len
    };
    let mut index: usize = start;
    let ghost mut states: Seq<T> = seq![*target];
    let ghost mut answers: Seq<bool> = Seq::empty();
    while index < len
        invariant
            start == start_of(offset, len as nat),
            start <= index <= len,
            answers.len() == index - start,
            all_true(answers),
            emission_run(*emitter, start as int, *old(target), states, answers, *target),
            forall|i: int, after: T|
                start <= i < len && reached(*emitter, start as int, *old(target), i, after)
                    ==> #[trigger] emitter.ready(after, i),
        decreases len - index,
    {
        assert(reached(*emitter, start as int, *old(target), index as int, *target));
        let more: bool = emitter.emit(target, index, index as u64 + 1);
        proof {
            let before = states;
            let given = answers;
            states = before.push(*target);
            answers = given.push(more);
            assert forall|i: int| 0 <= i < answers.len() implies #[trigger] emission_made(
                *emitter,
                start as int,
                states,
                answers,
                i,
            ) by {
                if i < given.len() {
                    assert(emission_made(*emitter, start as int, before, given, i));
                }
            }
        }
        assert(emission_run(*emitter, start as int, *old(target), states, answers, *target));
        if !more {
            assert(run_of(offset, len as nat, answers));
            return ;
        }
        index += 1;
    }
    assert(run_of(offset, len as nat, answers));
}

/// Emits each entry by calling the target.
struct Calling;

impl<F: FnMut(usize, u64) -> bool> Emitter<F> for Calling {
    open spec fn ready(&self, target: F, index: int) -> bool {
        forall|i: usize, next: u64|
            i == index && next == i + 1 ==> #[trigger] call_requires(target, (i, next))
    }

    open spec fn emitted(&self, before: F, index: int, after: F, more: bool) -> bool {
        after == before && answered(before, index, more)
    }

    fn emit(&self, target: &mut F, index: usize, next_offset: u64) -> (more: bool) {
        let more: bool = target(index, next_offset);
        more
    }
}

/// A call for the entry at `index`, with the cookie that resumes after it, was answered
/// with `more`.
pub open spec fn answered<F: FnMut(usize, u64) -> bool>(emit: F, index: int, more: bool) -> bool {
    call_ensures(emit, (index as usize, (index + 1) as u64), more)
}

/// The answers are those of calls for the entries from `offset` on.
pub open spec fn replayed_by<F: FnMut(usize, u64) -> bool>(
    emit: F,
    offset: u64,
    len: nat,
    answers: Seq<bool>,
) -> bool {
    &&& run_of(offset, len, answers)
    &&& forall|i: int|
        0 <= i < answers.len() ==> answered(
            emit,
            start_of(offset, len) + i,
            #[trigger] answers[i],
        )
}

/// Shared readdir resume-offset bookkeeping: `offset` is the cookie the kernel handed
/// back (0 = from the start), each entry at index `i` is emitted with
/// `next_offset = i + 1`, and emission stops as soon as the sink reports its buffer full
/// (`emit` returns `false`). An offset beyond `len` simply emits nothing. Use it for any
/// new `readdir` implementation backed by a materialized entry list.
///
/// `emit` need be callable on an entry only where every entry before it, from the offset
/// on, was answered with `true`: none before the offset is emitted, none out of order, and
/// none after a refusal. Nor is any emitted twice. The run itself, with what each emission
/// leaves behind, is that of [`replay_into`], the single place the FUSE readdir cookie
/// protocol is encoded for snapshot-style listings.
pub fn replay<F: FnMut(usize, u64) -> bool>(offset: u64, len: usize, emit: F)
    requires
        forall|i: usize, next: u64|
            start_of(offset, len as nat) <= i < len && next == i + 1 && (forall|j: int|
                start_of(offset, len as nat) <= j < i ==> #[trigger] answered(emit, j, true))
                ==> #[trigger] call_requires(emit, (i, next)),
    ensures
        exists|answers: Seq<bool>| #[trigger] replayed_by(emit, offset, len as nat, answers),
{
    let mut call: F = emit;
    proof {
        let start = start_of(offset, len as nat);
        assert forall|i: int, after: F|
            start <= i < len && reached(Calling, start, emit, i, after) implies #[trigger] Emitter::<
            F,
        >::ready(&Calling, after, i) by {
            lemma_reached_by_calls(start, emit, i, after);
        }
    }
    replay_into(offset, len, &Calling, &mut call);
    proof {
        let start = start_of(offset, len as nat);
        let (states, answers) = choose|states: Seq<F>, answers: Seq<bool>|
            run_of(offset, len as nat, answers) && #[trigger] emission_run(
                Calling,
                start,
                emit,
                states,
                answers,
                call,
            );
        assert forall|i: int| 0 <= i < answers.len() implies answered(
            emit,
            start + i,
            #[trigger] answers[i],
        ) by {
            lemma_calls_leave_the_target(start, emit, states, answers, call, i);
            assert(emission_made(Calling, start, states, answers, i));
        }
        assert(replayed_by(emit, offset, len as nat, answers));
    }
}

proof fn lemma_calls_leave_the_target<F: FnMut(usize, u64) -> bool>(
    start: int,
    before: F,
    states: Seq<F>,
    answers: Seq<bool>,
    after: F,
    i: int,
)
    requires
        emission_run(Calling, start, before, states, answers, after),
        0 <= i < states.len(),
    ensures
        states[i] == before,
    decreases i,
{
    if i > 0 {
        lemma_calls_leave_the_target(start, before, states, answers, after, i - 1);
        assert(emission_made(Calling, start, states, answers, i - 1));
    }
}

proof fn lemma_reached_by_calls<F: FnMut(usize, u64) -> bool>(
    start: int,
    before: F,
    index: int,
    after: F,
)
    requires
        reached(Calling, start, before, index, after),
    ensures
        after == before,
        forall|j: int| start <= j < index ==> #[trigger] answered(before, j, true),
{
    let (states, answers) = choose|states: Seq<F>, answers: Seq<bool>| #[trigger]
        emission_run(Calling, start, before, states, answers, after) && answers.len() == index
            - start && all_true(answers);
    lemma_calls_leave_the_target(start, before, states, answers, after, answers.len() as int);
    assert forall|j: int| start <= j < index implies #[trigger] answered(before, j, true) by {
        let i = j - start;
        lemma_calls_leave_the_target(start, before, states, answers, after, i);
        assert(emission_made(Calling, start, states, answers, i));
        assert(answers[i]);
    }
}

/// A listing that is taken up with the cookie of the last entry that was taken goes on with
/// the entry after it. What was taken the first time and what is emitted the second time
/// are, one after the other, the entries from the first offset on: nothing is repeated and
/// nothing is left out, and if the second listing is never refused, nothing is left.
pub proof fn law_replay_resumes_where_it_stopped(
    offset: u64,
    len: usize,
    first: Seq<bool>,
    second: Seq<bool>,
)
    requires
        run_of(offset, len as nat, first),
        run_of(resume_cookie(offset, len as nat, first), len as nat, second),
    ensures
        ({
            let start = start_of(offset, len as nat);
            let cookie = resume_cookie(offset, len as nat, first);
            let joined = emissions(offset, len as nat, first).take(taken(first) as int)
                + emissions(cookie, len as nat, second);
            &&& start_of(cookie, len as nat) == start + taken(first)
            &&& joined == positions(start, taken(first) + second.len())
            &&& taken(second) == second.len() ==> joined == positions(start, (len - start) as nat)
        }),
{
    let start = start_of(offset, len as nat);
    let cookie = resume_cookie(offset, len as nat, first);
    if taken(first) > 0 {
        assert(emissions(offset, len as nat, first)[taken(first) - 1].1 == start + taken(first));
    }
    let joined = emissions(offset, len as nat, first).take(taken(first) as int) + emissions(
        cookie,
        len as nat,
        second,
    );
    assert(joined =~= positions(start, taken(first) + second.len()));
}

} // verus!
