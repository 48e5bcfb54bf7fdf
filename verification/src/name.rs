//! Validated path segments and slash-free paths.

use vstd::prelude::*;
use crate::bytes::{bytes_eq, bytes_le, clone_bytes, lex_le, lemma_lex_le_total_from,
    lemma_lex_le_trans_from};

verus! {

/// Whether `s` is acceptable as the byte content of an entry name: non-empty,
/// at most 255 bytes, free of `/` and NUL, and neither of the two reserved
/// names `.` and `..`.
pub open spec fn valid_name(s: Seq<u8>) -> bool {
    &&& 1 <= s.len() <= 255
    &&& (forall|i: int| 0 <= i < s.len() ==> s[i] != 47u8 && s[i] != 0u8)
    &&& s != seq![46u8]
    &&& s != seq![46u8, 46u8]
}

/// One path segment.  Names compare byte-wise; the stored bytes always
/// satisfy [`valid_name`].
#[derive(Debug)]
pub struct EntryName {
    bytes: Vec<u8>,
}

impl View for EntryName {
    type V = Seq<u8>;

    closed spec fn view(&self) -> Seq<u8> {
        self.bytes@
    }
}

impl Clone for EntryName {
    /// The clone carries the same bytes.
    fn clone(&self) -> (r: Self)
        ensures
            r@ == self@,
    {
        EntryName { bytes: clone_bytes(self.bytes.as_slice()) }
    }
}

impl EntryName {
    /// The name's invariant, phrased over its byte content.
    pub open spec fn wf(&self) -> bool {
        valid_name(self@)
    }

    /// Accepts `bytes` as an entry name exactly when it satisfies
    /// [`valid_name`].
    pub fn try_new(bytes: Vec<u8>) -> (r: Option<EntryName>)
        ensures
            match r {
                Some(n) => n@ == bytes@ && n.wf(),
                None => !valid_name(bytes@),
            },
    {
        if bytes.len() < 1 || bytes.len() > 255 {
            return None;
        }
        let mut i: usize = 0;
        while i < bytes.len()
            invariant
                i <= bytes@.len(),
                forall|j: int| 0 <= j < i ==> bytes@[j] != 47u8 && bytes@[j] != 0u8,
            decreases bytes@.len() - i,
        {
            let b = bytes[i];
            if b == 47u8 || b == 0u8 {
                return None;
            }
            i += 1;
        }
        if bytes.len() == 1 && bytes[0] == 46u8 {
            proof {
                assert(bytes@ =~= seq![46u8]);
            }
            return None;
        }
        if bytes.len() == 2 && bytes[0] == 46u8 && bytes[1] == 46u8 {
            proof {
                assert(bytes@ =~= seq![46u8, 46u8]);
            }
            return None;
        }
        proof {
            assert(bytes@.len() == 1 ==> bytes@ != seq![46u8] || bytes@[0] == 46u8);
            assert(bytes@ != seq![46u8]) by {
                if bytes@.len() == 1 {
                    assert(bytes@[0] != 46u8);
                }
            }
            assert(bytes@ != seq![46u8, 46u8]) by {
                if bytes@.len() == 2 {
                    assert(bytes@[0] != 46u8 || bytes@[1] != 46u8);
                }
            }
        }
        Some(EntryName { bytes })
    }

    /// The name's bytes.
    pub fn as_bytes(&self) -> (r: &[u8])
        ensures
            r@ == self@,
    {
        self.bytes.as_slice()
    }

    /// Byte-wise equality.
    pub fn is_same(&self, other: &EntryName) -> (r: bool)
        ensures
            r == (self@ == other@),
    {
        bytes_eq(self.bytes.as_slice(), other.bytes.as_slice())
    }
}

/// A path from the workspace root: an ordered run of entry names.  The empty
/// run denotes the root itself.
#[derive(Debug)]
pub struct FsPath {
    pub parts: Vec<EntryName>,
}

impl FsPath {
    /// Every segment satisfies the name invariant.
    pub open spec fn wf(&self) -> bool {
        forall|i: int| 0 <= i < self.parts@.len() ==> (#[trigger] self.parts@[i]).wf()
    }

    /// The path of the workspace root.
    pub fn root() -> (r: FsPath)
        ensures
            r.parts@.len() == 0,
            r.wf(),
    {
        FsPath { parts: Vec::new() }
    }

    /// Builds a path from its segments.
    pub fn from_parts(parts: Vec<EntryName>) -> (r: FsPath)
        ensures
            r.parts@ == parts@,
    {
        FsPath { parts }
    }

    /// Whether this is the root path.
    pub fn is_root(&self) -> (r: bool)
        ensures
            r == (self.parts@.len() == 0),
    {
        self.parts.len() == 0
    }
}

/// The byte contents of a run of names.
pub open spec fn names_view(s: Seq<EntryName>) -> Seq<Seq<u8>> {
    s.map_values(|n: EntryName| n@)
}

/// Byte-wise lexicographic `<=`, as a relation value.
pub open spec fn lex_leq_fn() -> spec_fn(Seq<u8>, Seq<u8>) -> bool {
    |x: Seq<u8>, y: Seq<u8>| lex_le(x, y)
}

/// `names_view` commutes with inserting one element.
proof fn lemma_names_view_insert(s: Seq<EntryName>, j: int, x: EntryName)
    requires
        0 <= j <= s.len(),
    ensures
        names_view(s.insert(j, x)) =~= names_view(s).insert(j, x@),
{
    s.insert_ensures(j, x);
    names_view(s).insert_ensures(j, x@);
}

/// The first position in sorted `out` at which `x` could be inserted while
/// keeping the order.
fn insertion_point(out: &Vec<EntryName>, x: &EntryName) -> (j: usize)
    ensures
        j <= out@.len(),
        forall|p: int| 0 <= p < j ==> !lex_le(x@, (#[trigger] names_view(out@)[p])),
        j < out@.len() ==> lex_le(x@, names_view(out@)[j as int]),
{
    let mut j: usize = 0;
    while j < out.len()
        invariant
            j <= out@.len(),
            forall|p: int| 0 <= p < j ==> !lex_le(x@, (#[trigger] names_view(out@)[p])),
        decreases out@.len() - j,
    {
        if bytes_le(x.as_bytes(), out[j].as_bytes()) {
            return j;
        }
        j += 1;
    }
    j
}

/// Sorts names byte-wise.  The result is a sorted rearrangement: same length,
/// same set of byte contents, and duplicate-free for duplicate-free input.
pub fn sort_names(v: &Vec<EntryName>) -> (r: Vec<EntryName>)
    requires
        names_view(v@).no_duplicates(),
    ensures
        vstd::relations::sorted_by(names_view(r@), lex_leq_fn()),
        r@.len() == v@.len(),
        forall|x: Seq<u8>| names_view(r@).contains(x) <==> names_view(v@).contains(x),
        names_view(r@).no_duplicates(),
{
    let mut out: Vec<EntryName> = Vec::new();
    let mut k: usize = 0;
    while k < v.len()
        invariant
            k <= v@.len(),
            names_view(v@).no_duplicates(),
            vstd::relations::sorted_by(names_view(out@), lex_leq_fn()),
            out@.len() == k,
            forall|x: Seq<u8>|
                names_view(out@).contains(x) <==> names_view(v@.take(k as int)).contains(x),
            names_view(out@).no_duplicates(),
        decreases v@.len() - k,
    {
        let x = v[k].clone();
        let j = insertion_point(&out, &x);
        let ghost out_before = out@;
        let ghost ov = names_view(out@);
        let ghost nv = ov.insert(j as int, x@);
        proof {
            ov.insert_ensures(j as int, x@);
            // predecessors of the insertion point sit at or below `x`
            assert forall|p: int| 0 <= p < j implies lex_le(ov[p], x@) by {
                lemma_lex_le_total_from(x@, ov[p], 0);
            }
            // `x` sits at or below the insertion point and everything after it
            assert forall|q: int| j <= q < ov.len() implies lex_le(x@, ov[q]) by {
                if j < q {
                    assert((lex_leq_fn())(ov[j as int], ov[q]));
                    lemma_lex_le_trans_from(x@, ov[j as int], ov[q], 0);
                }
            }
            assert forall|a: int, b: int| 0 <= a < b < nv.len() implies (lex_leq_fn())(
                nv[a],
                nv[b],
            ) by {
                if a < j && b < j {
                    assert((lex_leq_fn())(ov[a], ov[b]));
                } else if b > j && a > j {
                    assert((lex_leq_fn())(ov[a - 1], ov[b - 1]));
                } else if a < j && b > j {
                    assert((lex_leq_fn())(ov[a], ov[b - 1])) by {
                        lemma_lex_le_trans_from(ov[a], x@, ov[b - 1], 0);
                    }
                }
            }
            // membership: inserting `x` adds exactly its bytes
            assert forall|y: Seq<u8>| nv.contains(y) implies ov.contains(y) || y == x@ by {
                let i = choose|i: int| 0 <= i < nv.len() && nv[i] == y;
                if i < j {
                    assert(ov[i] == y);
                } else if i > j {
                    assert(ov[i - 1] == y);
                }
            }
            assert forall|y: Seq<u8>| ov.contains(y) || y == x@ implies nv.contains(y) by {
                if ov.contains(y) {
                    let i = choose|i: int| 0 <= i < ov.len() && ov[i] == y;
                    if i < j {
                        assert(nv[i] == y);
                    } else {
                        assert(nv[i + 1] == y);
                    }
                } else {
                    assert(nv[j as int] == y);
                }
            }
            // `x` is new: it comes from the untaken part of a duplicate-free input
            assert(names_view(v@)[k as int] == x@);
            assert(!ov.contains(x@)) by {
                if names_view(v@.take(k as int)).contains(x@) {
                    let i = choose|i: int|
                        0 <= i < names_view(v@.take(k as int)).len() && names_view(
                            v@.take(k as int),
                        )[i] == x@;
                    assert(names_view(v@)[i] == x@);
                }
            }
            assert(nv.no_duplicates()) by {
                assert forall|a: int, b: int|
                    0 <= a < nv.len() && 0 <= b < nv.len() && a != b implies nv[a] != nv[b] by {
                    if a == j || b == j {
                        let o: int = if a == j { b } else { a };
                        let oo: int = if o < j { o } else { o - 1 };
                        assert(nv[o] == ov[oo]);
                        assert(ov.contains(ov[oo]));
                    } else {
                        let aa: int = if a < j { a } else { a - 1 };
                        let bb: int = if b < j { b } else { b - 1 };
                        assert(nv[a] == ov[aa] && nv[b] == ov[bb]);
                    }
                }
            }
        }
        out.insert(j, x);
        proof {
            lemma_names_view_insert(out_before, j as int, x);
            assert(names_view(out@) =~= nv);
        }
        k += 1;
        proof {
            let prev = names_view(v@.take(k as int - 1));
            let cur = names_view(v@.take(k as int));
            assert forall|y: Seq<u8>| cur.contains(y) implies prev.contains(y) || y == x@ by {
                let i = choose|i: int| 0 <= i < cur.len() && cur[i] == y;
                if i < k - 1 {
                    assert(prev[i] == y);
                }
            }
            assert forall|y: Seq<u8>| prev.contains(y) || y == x@ implies cur.contains(y) by {
                if prev.contains(y) {
                    let i = choose|i: int| 0 <= i < prev.len() && prev[i] == y;
                    assert(cur[i] == y);
                } else {
                    assert(cur[k as int - 1] == y);
                }
            }
        }
    }
    proof {
        assert(v@.take(v@.len() as int) =~= v@);
    }
    out
}

} // verus!
