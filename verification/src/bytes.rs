//! Byte strings: names and paths are bytes, not text.

use vstd::prelude::*;

verus! {

/// How one key stands to another.
#[derive(Clone, Copy, PartialEq, Eq, Structural, Debug)]
pub enum Placement {
    Before,
    Same,
    After,
}

/// `a` and `b` agree on their first `k` bytes, and then either `a` ends or it has the
/// smaller byte there, so that `a` comes first.
pub open spec fn parts_below(a: Seq<u8>, b: Seq<u8>, k: int) -> bool {
    &&& 0 <= k <= a.len()
    &&& k < b.len()
    &&& forall|j: int| 0 <= j < k ==> a[j] == b[j]
    &&& k == a.len() || a[k] < b[k]
}

/// Lexicographic order on byte strings: a proper prefix comes before its extensions,
/// and otherwise the first differing byte decides.
pub open spec fn bytes_below(a: Seq<u8>, b: Seq<u8>) -> bool {
    exists|k: int| parts_below(a, b, k)
}

pub(crate) proof fn lemma_bytes_below_irreflexive(a: Seq<u8>)
    ensures
        !bytes_below(a, a),
{
}

pub(crate) proof fn lemma_bytes_below_transitive(a: Seq<u8>, b: Seq<u8>, c: Seq<u8>)
    requires
        bytes_below(a, b),
        bytes_below(b, c),
    ensures
        bytes_below(a, c),
{
    let i = choose|k: int| parts_below(a, b, k);
    let j = choose|k: int| parts_below(b, c, k);
    let k = if i < j {
        i
    } else {
        j
    };
    assert(forall|m: int| 0 <= m < k ==> a[m] == b[m] && b[m] == c[m]);
    assert(parts_below(a, c, k));
}

pub(crate) proof fn lemma_bytes_below_total(a: Seq<u8>, b: Seq<u8>)
    requires
        a != b,
    ensures
        bytes_below(a, b) || bytes_below(b, a),
    decreases a.len(),
{
    if a.len() == 0 {
        if b.len() == 0 {
            assert(a =~= b);
        }
        assert(parts_below(a, b, 0));
    } else if b.len() == 0 {
        assert(parts_below(b, a, 0));
    } else if a[0] < b[0] {
        assert(parts_below(a, b, 0));
    } else if b[0] < a[0] {
        assert(parts_below(b, a, 0));
    } else {
        let p = a.drop_first();
        let q = b.drop_first();
        if p == q {
            assert(a =~= seq![a[0]] + p);
            assert(b =~= seq![b[0]] + q);
        }
        lemma_bytes_below_total(p, q);
        if bytes_below(p, q) {
            let k = choose|k: int| parts_below(p, q, k);
            assert forall|j: int| 0 <= j < k + 1 implies a[j] == b[j] by {
                if j > 0 {
                    assert(p[j - 1] == q[j - 1]);
                }
            }
            assert(parts_below(a, b, k + 1));
        } else {
            let k = choose|k: int| parts_below(q, p, k);
            assert forall|j: int| 0 <= j < k + 1 implies b[j] == a[j] by {
                if j > 0 {
                    assert(q[j - 1] == p[j - 1]);
                }
            }
            assert(parts_below(b, a, k + 1));
        }
    }
}

/// Finds out how `a` stands to `b` in lexicographic order.
pub fn place_bytes(a: &[u8], b: &[u8]) -> (p: Placement)
    ensures
        match p {
            Placement::Before => bytes_below(a@, b@),
            Placement::Same => a@ == b@,
            Placement::After => bytes_below(b@, a@),
        },
{
    let mut k: usize = 0;
    while k < a.len() && k < b.len()
        invariant
            k <= a.len(),
            k <= b.len(),
            forall|j: int| 0 <= j < k ==> a@[j] == b@[j],
        decreases a.len() - k,
    {
        if a[k] < b[k] {
            assert(parts_below(a@, b@, k as int));
            return Placement::Before;
        }
        if b[k] < a[k] {
            assert(parts_below(b@, a@, k as int));
            return Placement::After;
        }
        k += 1;
    }
    if k < b.len() {
        assert(parts_below(a@, b@, k as int));
        Placement::Before
    } else if k < a.len() {
        assert(parts_below(b@, a@, k as int));
        Placement::After
    } else {
        assert(a@ =~= b@);
        Placement::Same
    }
}

/// Copies a byte string.
pub fn copy_bytes(bytes: &[u8]) -> (copy: Vec<u8>)
    ensures
        copy@ == bytes@,
{
    let mut copy: Vec<u8> = Vec::with_capacity(bytes.len());
    append_bytes(&mut copy, bytes);
    assert(copy@ =~= bytes@);
    copy
}

/// Appends a byte string.
pub fn append_bytes(target: &mut Vec<u8>, bytes: &[u8])
    ensures
        final(target)@ == old(target)@ + bytes@,
{
    let mut i: usize = 0;
    while i < bytes.len()
        invariant
            i <= bytes.len(),
            target@ == old(target)@ + bytes@.take(i as int),
        decreases bytes.len() - i,
    {
        target.push(bytes[i]);
        assert(bytes@.take(i + 1) =~= bytes@.take(i as int).push(bytes@[i as int]));
        i += 1;
    }
    assert(bytes@.take(i as int) =~= bytes@);
}

/// Whether a byte string holds a NUL byte.
pub fn has_nul(bytes: &[u8]) -> (found: bool)
    ensures
        found == bytes@.contains(0u8),
{
    let mut i: usize = 0;
    while i < bytes.len()
        invariant
            i <= bytes.len(),
            forall|j: int| 0 <= j < i ==> bytes@[j] != 0u8,
        decreases bytes.len() - i,
    {
        if bytes[i] == 0 {
            assert(bytes@[i as int] == 0u8);
            return true;
        }
        i += 1;
    }
    false
}

} // verus!
