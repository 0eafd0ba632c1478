//! Comparison of strings: equality, membership in a list, and the
//! lexicographic order of their UTF-8 bytes.

use vstd::prelude::*;
use vstd::string::StringSliceAdditionalSpecFns;
use vstd::utf8::{decode_utf8, encode_utf8, encode_utf8_decode_utf8};

verus! {

/// The UTF-8 bytes of a text: what strings are ordered by.
pub open spec fn utf8(text: Seq<char>) -> Seq<u8> {
    encode_utf8(text)
}

/// `a` and `b` hold the same bytes at every position below `k`.
pub open spec fn agree_below(a: Seq<u8>, b: Seq<u8>, k: int) -> bool {
    &&& 0 <= k <= a.len()
    &&& k <= b.len()
    &&& forall|i: int| 0 <= i < k ==> a[i] == b[i]
}

/// `a` comes before `b`, and position `k` shows it: up to there the two
/// agree, and there `a` either ends while `b` goes on, or holds the smaller
/// byte.
pub open spec fn precedes_at(a: Seq<u8>, b: Seq<u8>, k: int) -> bool {
    &&& agree_below(a, b, k)
    &&& (k == a.len() && k < b.len()) || (k < a.len() && k < b.len() && a[k] < b[k])
}

/// Strict lexicographic order on byte sequences.
pub open spec fn precedes(a: Seq<u8>, b: Seq<u8>) -> bool {
    exists|k: int| precedes_at(a, b, k)
}

/// Of two sequences exactly one holds: the first comes first, the two are
/// equal, or the second comes first.
pub proof fn lemma_precedes_trichotomy(a: Seq<u8>, b: Seq<u8>)
    ensures
        precedes(a, b) || a == b || precedes(b, a),
        !(precedes(a, b) && a == b),
        !(precedes(a, b) && precedes(b, a)),
{
    lemma_first_difference(a, b, 0);
    if precedes(a, b) && precedes(b, a) {
        let k = choose|k: int| precedes_at(a, b, k);
        let m = choose|m: int| precedes_at(b, a, m);
        if k < m {
            assert(a[k] == b[k]);
        } else if m < k {
            assert(a[m] == b[m]);
        }
    }
}

/// From a position below which `a` and `b` agree, either the two are equal
/// or one of them comes first.
proof fn lemma_first_difference(a: Seq<u8>, b: Seq<u8>, k: int)
    requires
        agree_below(a, b, k),
    ensures
        precedes(a, b) || a == b || precedes(b, a),
    decreases a.len() - k,
{
    if k == a.len() || k == b.len() {
        if a.len() == b.len() {
            assert(a =~= b);
        } else if k == a.len() {
            assert(precedes_at(a, b, k));
        } else {
            assert(agree_below(b, a, k));
            assert(precedes_at(b, a, k));
        }
    } else if a[k] < b[k] {
        assert(precedes_at(a, b, k));
    } else if b[k] < a[k] {
        assert(agree_below(b, a, k));
        assert(precedes_at(b, a, k));
    } else {
        assert(agree_below(a, b, k + 1));
        lemma_first_difference(a, b, k + 1);
    }
}

/// The order is transitive.
pub proof fn lemma_precedes_transitive(a: Seq<u8>, b: Seq<u8>, c: Seq<u8>)
    requires
        precedes(a, b),
        precedes(b, c),
    ensures
        precedes(a, c),
{
    let k = choose|k: int| precedes_at(a, b, k);
    let m = choose|m: int| precedes_at(b, c, m);
    let n = if k <= m { k } else { m };
    assert(agree_below(a, c, n)) by {
        assert forall|i: int| 0 <= i < n implies a[i] == c[i] by {
            assert(a[i] == b[i]);
            assert(b[i] == c[i]);
        }
    }
    if k < m {
        assert(b[k] == c[k]);
    }
    assert(precedes_at(a, c, n));
}

/// Different texts have different UTF-8 bytes.
pub proof fn lemma_utf8_injective(a: Seq<char>, b: Seq<char>)
    requires
        utf8(a) == utf8(b),
    ensures
        a == b,
{
    encode_utf8_decode_utf8(a);
    encode_utf8_decode_utf8(b);
}

/// Whether two byte slices hold the same bytes.
pub fn same_bytes(a: &[u8], b: &[u8]) -> (same: bool)
    ensures
        same == (a@ == b@),
{
    if a.len() != b.len() {
        return false;
    }
    let mut i: usize = 0;
    while i < a.len()
        invariant
            a@.len() == b@.len(),
            0 <= i <= a@.len(),
            forall|j: int| 0 <= j < i ==> a@[j] == b@[j],
        decreases a@.len() - i,
    {
        if a[i] != b[i] {
            return false;
        }
        i += 1;
    }
    assert(a@ =~= b@);
    true
}

/// Whether two strings hold the same text.
pub fn same_text(a: &str, b: &str) -> (same: bool)
    ensures
        same == (a@ == b@),
{
    let same = same_bytes(a.as_bytes(), b.as_bytes());
    proof {
        if same {
            lemma_utf8_injective(a@, b@);
        }
    }
    same
}

/// Whether `list` holds `wanted`, by exact comparison of the texts.
pub fn list_holds(list: &Vec<String>, wanted: &str) -> (found: bool)
    ensures
        found == texts(list@).contains(wanted@),
{
    let mut i: usize = 0;
    while i < list.len()
        invariant
            0 <= i <= list@.len(),
            forall|j: int| 0 <= j < i ==> list@[j]@ != wanted@,
        decreases list@.len() - i,
    {
        if same_text(list[i].as_str(), wanted) {
            assert(texts(list@)[i as int] == wanted@);
            return true;
        }
        i += 1;
    }
    false
}

/// The texts of a list of strings, in order.
pub open spec fn texts(list: Seq<String>) -> Seq<Seq<char>> {
    list.map_values(|s: String| s@)
}

/// Whether the bytes of `a` come before those of `b` in lexicographic order.
pub fn bytes_precede(a: &[u8], b: &[u8]) -> (before: bool)
    ensures
        before == precedes(a@, b@),
{
    let mut i: usize = 0;
    while i < a.len() && i < b.len()
        invariant
            agree_below(a@, b@, i as int),
        decreases a@.len() - i,
    {
        if a[i] != b[i] {
            let before = a[i] < b[i];
            proof {
                if before {
                    assert(precedes_at(a@, b@, i as int));
                } else {
                    assert forall|k: int| !precedes_at(a@, b@, k) by {
                        if k > i {
                            assert(a@[i as int] != b@[i as int]);
                        }
                    }
                }
            }
            return before;
        }
        i += 1;
    }
    let before = a.len() < b.len();
    proof {
        if before {
            assert(precedes_at(a@, b@, i as int));
        }
    }
    before
}

/// Whether the text of `a` comes before that of `b`, in the order of their
/// UTF-8 bytes.
pub fn text_precedes(a: &str, b: &str) -> (before: bool)
    ensures
        before == precedes(utf8(a@), utf8(b@)),
{
    bytes_precede(a.as_bytes(), b.as_bytes())
}

} // verus!
