//! Directory entries and the ordered table that holds them.

use vstd::prelude::*;

use crate::bytes::{copy_bytes, place_bytes, Placement};
use crate::node_id::NodeId;

verus! {

/// A name in a directory: the directory's inode number and the name's bytes.
pub struct DentryView {
    pub parent: u64,
    pub name: Seq<u8>,
}

/// The order of directory entries: by directory, then by name.
pub open spec fn dentry_below(a: DentryView, b: DentryView) -> bool {
    a.parent < b.parent || (a.parent == b.parent && crate::bytes::bytes_below(a.name, b.name))
}

/// The first of a set of directory entries.
pub open spec fn is_first(set: Set<DentryView>, d: DentryView) -> bool {
    set.contains(d) && forall|e: DentryView| set.contains(e) && e != d ==> dentry_below(d, e)
}

pub(crate) proof fn lemma_dentry_below_irreflexive(a: DentryView)
    ensures
        !dentry_below(a, a),
{
    crate::bytes::lemma_bytes_below_irreflexive(a.name);
}

pub(crate) proof fn lemma_dentry_below_transitive(a: DentryView, b: DentryView, c: DentryView)
    requires
        dentry_below(a, b),
        dentry_below(b, c),
    ensures
        dentry_below(a, c),
{
    if a.parent == b.parent && b.parent == c.parent {
        crate::bytes::lemma_bytes_below_transitive(a.name, b.name, c.name);
    }
}

proof fn lemma_dentry_below_total(a: DentryView, b: DentryView)
    requires
        a != b,
    ensures
        dentry_below(a, b) || dentry_below(b, a),
{
    if a.parent == b.parent {
        assert(a.name != b.name);
        crate::bytes::lemma_bytes_below_total(a.name, b.name);
    }
}

/// A set has one first entry at most.
pub proof fn lemma_first_is_unique(set: Set<DentryView>, a: DentryView, b: DentryView)
    requires
        is_first(set, a),
        is_first(set, b),
    ensures
        a == b,
{
    if a != b {
        lemma_dentry_below_transitive(a, b, a);
        lemma_dentry_below_irreflexive(a);
    }
}

/// A finite set that is not empty has a first entry.
pub proof fn lemma_first_exists(set: Set<DentryView>)
    requires
        set.finite(),
        set.len() > 0,
    ensures
        exists|d: DentryView| is_first(set, d),
    decreases set.len(),
{
    let a = set.choose();
    let rest = set.remove(a);
    if rest.len() == 0 {
        assert(forall|e: DentryView| set.contains(e) && e != a ==> rest.contains(e));
        assert(is_first(set, a));
    } else {
        lemma_first_exists(rest);
        let b = choose|d: DentryView| is_first(rest, d);
        lemma_dentry_below_total(a, b);
        if dentry_below(a, b) {
            assert forall|e: DentryView| set.contains(e) && e != a implies dentry_below(a, e) by {
                assert(rest.contains(e));
                if e != b {
                    lemma_dentry_below_transitive(a, b, e);
                }
            }
            assert(is_first(set, a));
        } else {
            assert forall|e: DentryView| set.contains(e) && e != b implies dentry_below(b, e) by {
                if e != a {
                    assert(rest.contains(e));
                }
            }
            assert(is_first(set, b));
        }
    }
}

/// A name in a directory.
#[derive(Debug)]
pub struct Dentry {
    pub parent: NodeId,
    pub name: Vec<u8>,
}

impl View for Dentry {
    type V = DentryView;

    open spec fn view(&self) -> DentryView {
        DentryView { parent: self.parent@, name: self.name@ }
    }
}

impl Dentry {
    pub fn new(parent: NodeId, name: &[u8]) -> (d: Dentry)
        ensures
            d@ == (DentryView { parent: parent@, name: name@ }),
    {
        Dentry { parent, name: copy_bytes(name) }
    }

    /// Copies the entry.
    pub fn copy(&self) -> (d: Dentry)
        ensures
            d@ == self@,
    {
        Dentry::new(self.parent, self.name.as_slice())
    }

    /// Finds out how `self` stands to `other`.
    fn place(&self, other: &Dentry) -> (p: Placement)
        ensures
            match p {
                Placement::Before => dentry_below(self@, other@),
                Placement::Same => self@ == other@,
                Placement::After => dentry_below(other@, self@),
            },
    {
        if self.parent.ino() < other.parent.ino() {
            Placement::Before
        } else if other.parent.ino() < self.parent.ino() {
            Placement::After
        } else {
            place_bytes(self.name.as_slice(), other.name.as_slice())
        }
    }
}

/// A map from directory entries, kept in their order without repetition.
pub struct DentryTable<V> {
    rows: Vec<(Dentry, V)>,
}

/// The rows stand in strictly rising order.
spec fn rising<V>(rows: Seq<(Dentry, V)>) -> bool {
    forall|i: int, j: int|
        0 <= i < j < rows.len() ==> dentry_below(#[trigger] rows[i].0@, #[trigger] rows[j].0@)
}

/// Row `i` holds the entry `d`.
spec fn holds_at<V>(rows: Seq<(Dentry, V)>, i: int, d: DentryView) -> bool {
    0 <= i < rows.len() && rows[i].0@ == d
}

spec fn row_of<V>(rows: Seq<(Dentry, V)>, d: DentryView) -> int {
    choose|i: int| holds_at(rows, i, d)
}

spec fn rows_map<V>(rows: Seq<(Dentry, V)>) -> Map<DentryView, V> {
    Map::new(
        |d: DentryView| exists|i: int| holds_at(rows, i, d),
        |d: DentryView| rows[row_of(rows, d)].1,
    )
}

proof fn lemma_row_of<V>(rows: Seq<(Dentry, V)>, i: int)
    requires
        rising(rows),
        0 <= i < rows.len(),
    ensures
        row_of(rows, rows[i].0@) == i,
        rows_map(rows).contains_key(rows[i].0@),
        rows_map(rows)[rows[i].0@] == rows[i].1,
{
    let d = rows[i].0@;
    assert(holds_at(rows, i, d));
    let j = row_of(rows, d);
    assert(holds_at(rows, j, d));
    lemma_dentry_below_irreflexive(d);
    if i < j {
        assert(dentry_below(rows[i].0@, rows[j].0@));
    } else if j < i {
        assert(dentry_below(rows[j].0@, rows[i].0@));
    }
}

/// `at` is where `d` stands, or would have to be put.
spec fn splits<V>(rows: Seq<(Dentry, V)>, d: DentryView, at: int) -> bool {
    &&& 0 <= at <= rows.len()
    &&& forall|i: int| 0 <= i < at ==> dentry_below(#[trigger] rows[i].0@, d)
    &&& forall|i: int| at <= i < rows.len() ==> rows[i].0@ == d || dentry_below(d, #[trigger] rows[i].0@)
}

proof fn lemma_absent<V>(rows: Seq<(Dentry, V)>, d: DentryView, at: int)
    requires
        rising(rows),
        splits(rows, d, at),
        at == rows.len() || rows[at].0@ != d,
    ensures
        !rows_map(rows).contains_key(d),
{
    if rows_map(rows).contains_key(d) {
        let i = choose|i: int| holds_at(rows, i, d);
        lemma_dentry_below_irreflexive(d);
        if i > at {
            assert(dentry_below(rows[at].0@, rows[i].0@));
            assert(dentry_below(d, rows[at].0@));
            lemma_dentry_below_transitive(d, rows[at].0@, d);
        }
    }
}

impl<V> View for DentryTable<V> {
    type V = Map<DentryView, V>;

    closed spec fn view(&self) -> Map<DentryView, V> {
        rows_map(self.rows@)
    }
}

impl<V> DentryTable<V> {
    /// The rows are in order.
    pub closed spec fn wf(&self) -> bool {
        rising(self.rows@)
    }

    /// A table holds finitely many entries.
    pub proof fn lemma_finite(&self)
        ensures
            self@.dom().finite(),
    {
        let keys = self.rows@.map_values(|row: (Dentry, V)| row.0@);
        assert forall|d: DentryView| self@.dom().contains(d) implies keys.to_set().contains(d) by {
            let i = choose|i: int| holds_at(self.rows@, i, d);
            assert(keys[i] == d);
        }
        vstd::seq_lib::seq_to_set_is_finite(keys);
        vstd::set_lib::lemma_set_subset_finite(keys.to_set(), self@.dom());
    }

    pub fn new() -> (t: DentryTable<V>)
        ensures
            t.wf(),
            t@ == Map::<DentryView, V>::empty(),
    {
        let t = DentryTable { rows: Vec::new() };
        assert(t@ =~= Map::<DentryView, V>::empty());
        t
    }

    /// Where `d` stands in the table, or would have to be put.
    fn position(&self, d: &Dentry) -> (at: usize)
        requires
            self.wf(),
        ensures
            splits(self.rows@, d@, at as int),
    {
        let mut low: usize = 0;
        let mut high: usize = self.rows.len();
        while low < high
            invariant
                self.wf(),
                low <= high <= self.rows.len(),
                forall|i: int| 0 <= i < low ==> dentry_below(#[trigger] self.rows@[i].0@, d@),
                forall|i: int|
                    high <= i < self.rows.len() ==> self.rows@[i].0@ == d@ || dentry_below(
                        d@,
                        #[trigger] self.rows@[i].0@,
                    ),
            decreases high - low,
        {
            let middle: usize = low + (high - low) / 2;
            let ghost rows = self.rows@;
            match self.rows[middle].0.place(d) {
                Placement::Before => {
                    assert forall|i: int| 0 <= i < middle + 1 implies dentry_below(
                        #[trigger] rows[i].0@,
                        d@,
                    ) by {
                        if i < middle {
                            lemma_dentry_below_transitive(rows[i].0@, rows[middle as int].0@, d@);
                        }
                    }
                    low = middle + 1;
                },
                Placement::Same => {
                    low = middle;
                    high = middle;
                },
                Placement::After => {
                    assert forall|i: int| middle <= i < rows.len() implies rows[i].0@ == d@
                        || dentry_below(d@, #[trigger] rows[i].0@) by {
                        if i > middle {
                            lemma_dentry_below_transitive(d@, rows[middle as int].0@, rows[i].0@);
                        }
                    }
                    high = middle;
                },
            }
        }
        low
    }

    /// The value of an entry.
    pub fn get(&self, d: &Dentry) -> (value: Option<&V>)
        requires
            self.wf(),
        ensures
            value == (if self@.contains_key(d@) {
                Some(&self@[d@])
            } else {
                None
            }),
    {
        let at: usize = self.position(d);
        if at < self.rows.len() {
            if let Placement::Same = self.rows[at].0.place(d) {
                proof {
                    lemma_row_of(self.rows@, at as int);
                }
                return Some(&self.rows[at].1);
            }
            proof {
                lemma_dentry_below_irreflexive(d@);
            }
        }
        proof {
            lemma_absent(self.rows@, d@, at as int);
        }
        None
    }

    /// Sets the value of an entry.
    pub fn insert(&mut self, d: Dentry, value: V)
        requires
            old(self).wf(),
        ensures
            final(self).wf(),
            final(self)@ == old(self)@.insert(d@, value),
    {
        let at: usize = self.position(&d);
        let ghost rows = self.rows@;
        let ghost key = d@;
        let mut present: bool = false;
        if at < self.rows.len() {
            if let Placement::Same = self.rows[at].0.place(&d) {
                present = true;
            } else {
                proof {
                    lemma_dentry_below_irreflexive(d@);
                }
            }
        }
        if present {
            self.rows.remove(at);
            self.rows.insert(at, (d, value));
            let ghost now = self.rows@;
            assert(now =~= rows.update(at as int, (d, value)));
            proof {
                assert forall|i: int, j: int| 0 <= i < j < now.len() implies dentry_below(
                    #[trigger] now[i].0@,
                    #[trigger] now[j].0@,
                ) by {
                    assert(dentry_below(rows[i].0@, rows[j].0@));
                }
                assert forall|e: DentryView| rows_map(now).contains_key(e) == rows_map(
                    rows,
                ).insert(key, value).contains_key(e) by {
                    if rows_map(now).contains_key(e) {
                        let i = choose|i: int| holds_at(now, i, e);
                        assert(holds_at(rows, i, e));
                    }
                    if rows_map(rows).contains_key(e) {
                        let i = choose|i: int| holds_at(rows, i, e);
                        assert(holds_at(now, i, e));
                    }
                    assert(holds_at(now, at as int, key));
                }
                assert forall|e: DentryView| rows_map(now).contains_key(e) implies rows_map(now)[e]
                    == rows_map(rows).insert(key, value)[e] by {
                    let i = choose|i: int| holds_at(now, i, e);
                    lemma_row_of(now, i);
                    lemma_row_of(rows, i);
                    if e == key {
                        lemma_row_of(now, at as int);
                    }
                }
                assert(rows_map(now) =~= rows_map(rows).insert(key, value));
            }
        } else {
            proof {
                lemma_absent(rows, key, at as int);
            }
            self.rows.insert(at, (d, value));
            let ghost now = self.rows@;
            assert(now =~= rows.insert(at as int, (d, value)));
            proof {
                assert forall|i: int, j: int| 0 <= i < j < now.len() implies dentry_below(
                    #[trigger] now[i].0@,
                    #[trigger] now[j].0@,
                ) by {
                    let a = if i < at { i } else { i - 1 };
                    let b = if j < at { j } else { j - 1 };
                    if i != at && j != at {
                        assert(dentry_below(rows[a].0@, rows[b].0@));
                    } else if i == at {
                        assert(now[j] == rows[b]);
                        assert(rows[b].0@ == key || dentry_below(key, rows[b].0@));
                        if rows[b].0@ == key {
                            assert(holds_at(rows, b, key));
                        }
                    } else {
                        assert(now[i] == rows[a]);
                    }
                }
                assert forall|e: DentryView| rows_map(now).contains_key(e) == rows_map(
                    rows,
                ).insert(key, value).contains_key(e) by {
                    if rows_map(now).contains_key(e) {
                        let i = choose|i: int| holds_at(now, i, e);
                        if i != at {
                            assert(holds_at(rows, if i < at { i } else { i - 1 }, e));
                        }
                    }
                    if rows_map(rows).contains_key(e) {
                        let i = choose|i: int| holds_at(rows, i, e);
                        assert(holds_at(now, if i < at { i } else { i + 1 }, e));
                    }
                    assert(holds_at(now, at as int, key));
                }
                assert forall|e: DentryView| rows_map(now).contains_key(e) implies rows_map(now)[e]
                    == rows_map(rows).insert(key, value)[e] by {
                    let i = choose|i: int| holds_at(now, i, e);
                    lemma_row_of(now, i);
                    if i != at {
                        lemma_row_of(rows, if i < at { i } else { i - 1 });
                        lemma_row_of(now, at as int);
                    }
                }
                assert(rows_map(now) =~= rows_map(rows).insert(key, value));
            }
        }
    }

    /// Removes an entry and hands out its value.
    pub fn remove(&mut self, d: &Dentry) -> (value: Option<V>)
        requires
            old(self).wf(),
        ensures
            final(self).wf(),
            final(self)@ == old(self)@.remove(d@),
            value == (if old(self)@.contains_key(d@) {
                Some(old(self)@[d@])
            } else {
                None
            }),
    {
        let at: usize = self.position(d);
        let ghost rows = self.rows@;
        if at < self.rows.len() {
            if let Placement::Same = self.rows[at].0.place(d) {
                let row = self.rows.remove(at);
                let ghost now = self.rows@;
                assert(now =~= rows.remove(at as int));
                proof {
                    lemma_row_of(rows, at as int);
                    assert forall|i: int, j: int| 0 <= i < j < now.len() implies dentry_below(
                        #[trigger] now[i].0@,
                        #[trigger] now[j].0@,
                    ) by {
                        let a = if i < at { i } else { i + 1 };
                        let b = if j < at { j } else { j + 1 };
                        assert(dentry_below(rows[a].0@, rows[b].0@));
                    }
                    assert forall|e: DentryView| rows_map(now).contains_key(e) == rows_map(
                        rows,
                    ).remove(d@).contains_key(e) by {
                        if rows_map(now).contains_key(e) {
                            let i = choose|i: int| holds_at(now, i, e);
                            let a = if i < at { i } else { i + 1 };
                            assert(holds_at(rows, a, e));
                            lemma_row_of(rows, a);
                        }
                        if rows_map(rows).contains_key(e) && e != d@ {
                            let i = choose|i: int| holds_at(rows, i, e);
                            assert(holds_at(now, if i < at { i } else { i - 1 }, e));
                        }
                    }
                    assert forall|e: DentryView| rows_map(now).contains_key(e) implies rows_map(
                        now,
                    )[e] == rows_map(rows).remove(d@)[e] by {
                        let i = choose|i: int| holds_at(now, i, e);
                        lemma_row_of(now, i);
                        lemma_row_of(rows, if i < at { i } else { i + 1 });
                    }
                    assert(rows_map(now) =~= rows_map(rows).remove(d@));
                }
                return Some(row.1);
            }
            proof {
                lemma_dentry_below_irreflexive(d@);
            }
        }
        proof {
            lemma_absent(rows, d@, at as int);
            assert(rows_map(rows) =~= rows_map(rows).remove(d@));
        }
        None
    }

    /// The first entry in the table's order.
    pub fn first(&self) -> (d: Option<&Dentry>)
        requires
            self.wf(),
        ensures
            match d {
                Some(d) => is_first(self@.dom(), d@),
                None => self@ == Map::<DentryView, V>::empty(),
            },
    {
        if self.rows.len() == 0 {
            assert(self@ =~= Map::<DentryView, V>::empty());
            None
        } else {
            proof {
                lemma_row_of(self.rows@, 0);
                assert forall|e: DentryView|
                    self@.dom().contains(e) && e != self.rows@[0].0@ implies dentry_below(
                    self.rows@[0].0@,
                    e,
                ) by {
                    let i = choose|i: int| holds_at(self.rows@, i, e);
                    assert(dentry_below(self.rows@[0].0@, self.rows@[i].0@));
                }
            }
            Some(&self.rows[0].0)
        }
    }

    pub fn is_empty(&self) -> (empty: bool)
        requires
            self.wf(),
        ensures
            empty == (self@ == Map::<DentryView, V>::empty()),
    {
        proof {
            if self.rows.len() > 0 {
                lemma_row_of(self.rows@, 0);
            } else {
                assert(self@ =~= Map::<DentryView, V>::empty());
            }
        }
        self.rows.len() == 0
    }
}

} // verus!
