//! Byte-sequence equality and lexicographic order.
//!
//! Entry names compare byte-wise, so the whole library states ordering over
//! `Seq<u8>`.  `lex_le` is the reflexive lexicographic order; the lemmas show
//! it is a total order, which later justifies that a sorted listing of
//! distinct names is unique.

use vstd::prelude::*;

verus! {

/// Lexicographic `<=` on the suffixes of `a` and `b` that start at `i`.
pub open spec fn lex_le_from(a: Seq<u8>, b: Seq<u8>, i: int) -> bool
    decreases a.len() - i,
{
    if i >= a.len() {
        true
    } else if i >= b.len() {
        false
    } else if a[i] < b[i] {
        true
    } else if a[i] > b[i] {
        false
    } else {
        lex_le_from(a, b, i + 1)
    }
}

/// Byte-wise lexicographic `<=` on whole sequences.
pub open spec fn lex_le(a: Seq<u8>, b: Seq<u8>) -> bool {
    lex_le_from(a, b, 0)
}

/// `lex_le` is reflexive.
pub proof fn lemma_lex_le_refl_from(a: Seq<u8>, i: int)
    ensures
        lex_le_from(a, a, i),
    decreases a.len() - i,
{
    if i < a.len() {
        lemma_lex_le_refl_from(a, i + 1);
    }
}

/// `lex_le` is total: one of the two directions always holds.
pub proof fn lemma_lex_le_total_from(a: Seq<u8>, b: Seq<u8>, i: int)
    ensures
        lex_le_from(a, b, i) || lex_le_from(b, a, i),
    decreases a.len() - i,
{
    if i < a.len() && i < b.len() && a[i] == b[i] {
        lemma_lex_le_total_from(a, b, i + 1);
    }
}

/// `lex_le` is antisymmetric: mutual `<=` pins the suffixes down.
pub proof fn lemma_lex_le_antisym_from(a: Seq<u8>, b: Seq<u8>, i: int)
    requires
        0 <= i <= a.len(),
        i <= b.len(),
        lex_le_from(a, b, i),
        lex_le_from(b, a, i),
    ensures
        a.len() == b.len(),
        forall|j: int| i <= j < a.len() ==> a[j] == b[j],
    decreases a.len() - i,
{
    if i < a.len() || i < b.len() {
        lemma_lex_le_antisym_from(a, b, i + 1);
    }
}

/// `lex_le` is antisymmetric on whole sequences.
pub proof fn lemma_lex_le_antisym(a: Seq<u8>, b: Seq<u8>)
    requires
        lex_le(a, b),
        lex_le(b, a),
    ensures
        a == b,
{
    lemma_lex_le_antisym_from(a, b, 0);
    assert(a =~= b);
}

/// `lex_le` is transitive.
pub proof fn lemma_lex_le_trans_from(a: Seq<u8>, b: Seq<u8>, c: Seq<u8>, i: int)
    requires
        lex_le_from(a, b, i),
        lex_le_from(b, c, i),
    ensures
        lex_le_from(a, c, i),
    decreases a.len() - i,
{
    if i < a.len() && i < c.len() && a[i] == c[i] {
        lemma_lex_le_trans_from(a, b, c, i + 1);
    }
}

/// Byte-wise equality of two slices.
pub fn bytes_eq(a: &[u8], b: &[u8]) -> (r: bool)
    ensures
        r == (a@ == b@),
{
    if a.len() != b.len() {
        return false;
    }
    let mut i: usize = 0;
    while i < a.len()
        invariant
            a@.len() == b@.len(),
            i <= a@.len(),
            forall|j: int| 0 <= j < i ==> a@[j] == b@[j],
        decreases a@.len() - i,
    {
        if a[i] != b[i] {
            return false;
        }
        i += 1;
    }
    proof {
        assert(a@ =~= b@);
    }
    true
}

/// Byte-wise lexicographic comparison of two slices.
pub fn bytes_le(a: &[u8], b: &[u8]) -> (r: bool)
    ensures
        r == lex_le(a@, b@),
{
    let mut i: usize = 0;
    while i < a.len() && i < b.len()
        invariant
            i <= a@.len(),
            i <= b@.len(),
            lex_le(a@, b@) == lex_le_from(a@, b@, i as int),
        decreases a@.len() - i,
    {
        if a[i] < b[i] {
            return true;
        }
        if a[i] > b[i] {
            return false;
        }
        i += 1;
    }
    a.len() <= b.len()
}

/// A fresh vector holding the same bytes as `v`.
pub fn clone_bytes(v: &[u8]) -> (r: Vec<u8>)
    ensures
        r@ == v@,
{
    let mut r: Vec<u8> = Vec::new();
    let mut i: usize = 0;
    while i < v.len()
        invariant
            i <= v@.len(),
            r@ == v@.take(i as int),
        decreases v@.len() - i,
    {
        r.push(v[i]);
        proof {
            assert(r@ =~= v@.take(i as int + 1));
        }
        i += 1;
    }
    proof {
        assert(v@.take(v@.len() as int) =~= v@);
    }
    r
}

} // verus!
