//! The total order on keys: byte-wise lexicographic, with a key sorting
//! before every proper extension of itself.

use std::cmp::Ordering;
use vstd::prelude::*;

verus! {

/// The order of `a` relative to `b`: decided by the first position at which
/// the two differ, and by length when one is a prefix of the other.
pub open spec fn lex_order(a: Seq<u8>, b: Seq<u8>) -> Ordering
    decreases a.len(),
{
    if a.len() == 0 {
        if b.len() == 0 {
            Ordering::Equal
        } else {
            Ordering::Less
        }
    } else if b.len() == 0 {
        Ordering::Greater
    } else if a[0] < b[0] {
        Ordering::Less
    } else if a[0] > b[0] {
        Ordering::Greater
    } else {
        lex_order(a.skip(1), b.skip(1))
    }
}

/// The order seen from the other side.
pub open spec fn flipped(ord: Ordering) -> Ordering {
    match ord {
        Ordering::Less => Ordering::Greater,
        Ordering::Equal => Ordering::Equal,
        Ordering::Greater => Ordering::Less,
    }
}

/// `a` and `b` hold the same bytes at every position below `k`.
pub open spec fn agree_below(a: Seq<u8>, b: Seq<u8>, k: int) -> bool {
    &&& 0 <= k <= a.len()
    &&& k <= b.len()
    &&& forall|j: int| 0 <= j < k ==> a[j] == b[j]
}

/// A shared prefix has no say in the order: it can be dropped from both sides.
pub proof fn lemma_shared_prefix(a: Seq<u8>, b: Seq<u8>, k: int)
    requires
        agree_below(a, b, k),
    ensures
        lex_order(a, b) == lex_order(a.skip(k), b.skip(k)),
    decreases k,
{
    if k == 0 {
        assert(a.skip(0) =~= a);
        assert(b.skip(0) =~= b);
    } else {
        let a1 = a.skip(1);
        let b1 = b.skip(1);
        lemma_shared_prefix(a1, b1, k - 1);
        assert(a1.skip(k - 1) =~= a.skip(k));
        assert(b1.skip(k - 1) =~= b.skip(k));
    }
}

/// The first position at which two keys differ decides their order.
pub proof fn lemma_first_difference_decides(a: Seq<u8>, b: Seq<u8>, k: int)
    requires
        agree_below(a, b, k),
        k < a.len(),
        k < b.len(),
        a[k] != b[k],
    ensures
        lex_order(a, b) == (if a[k] < b[k] {
            Ordering::Less
        } else {
            Ordering::Greater
        }),
{
    lemma_shared_prefix(a, b, k);
}

/// Where one key is a prefix of the other, the lengths decide their order.
pub proof fn lemma_length_decides_between_prefixes(a: Seq<u8>, b: Seq<u8>, k: int)
    requires
        agree_below(a, b, k),
        k == a.len() || k == b.len(),
    ensures
        lex_order(a, b) == (if a.len() < b.len() {
            Ordering::Less
        } else if a.len() > b.len() {
            Ordering::Greater
        } else {
            Ordering::Equal
        }),
{
    lemma_shared_prefix(a, b, k);
}

/// Compares two keys byte by byte; the first differing byte decides, and
/// where one key is a prefix of the other the shorter one sorts first.
pub fn compare(a: &[u8], b: &[u8]) -> (ord: Ordering)
    ensures
        ord == lex_order(a@, b@),
{
    let mut i: usize = 0;
    let ghost mut k: int = 0;
    while i < a.len() && i < b.len()
        invariant
            k == i,
            agree_below(a@, b@, k),
        decreases a@.len() - k,
    {
        if a[i] < b[i] {
            proof {
                lemma_first_difference_decides(a@, b@, k);
            }
            return Ordering::Less;
        }
        if a[i] > b[i] {
            proof {
                lemma_first_difference_decides(a@, b@, k);
            }
            return Ordering::Greater;
        }
        i += 1;
        proof {
            k = k + 1;
        }
    }
    proof {
        lemma_length_decides_between_prefixes(a@, b@, k);
    }
    if a.len() < b.len() {
        Ordering::Less
    } else if a.len() > b.len() {
        Ordering::Greater
    } else {
        Ordering::Equal
    }
}

/// Antisymmetry: swapping the operands flips the order, and two keys compare
/// equal exactly when they are the same byte string.
pub proof fn lemma_compare_antisymmetric(a: Seq<u8>, b: Seq<u8>)
    ensures
        lex_order(b, a) == flipped(lex_order(a, b)),
        lex_order(a, b) == Ordering::Equal <==> a == b,
    decreases a.len(),
{
    if a.len() == 0 || b.len() == 0 {
        if a.len() == 0 && b.len() == 0 {
            assert(a =~= b);
        }
    } else if a[0] == b[0] {
        lemma_compare_antisymmetric(a.skip(1), b.skip(1));
        if a.skip(1) == b.skip(1) {
            assert(a =~= seq![a[0]] + a.skip(1));
            assert(b =~= seq![b[0]] + b.skip(1));
        }
    }
}

/// Transitivity: if `a` does not sort after `b` and `b` does not sort after
/// `c`, then `a` does not sort after `c`; and it sorts strictly before `c`
/// as soon as one of the two steps is strict.
pub proof fn lemma_compare_transitive(a: Seq<u8>, b: Seq<u8>, c: Seq<u8>)
    requires
        lex_order(a, b) != Ordering::Greater,
        lex_order(b, c) != Ordering::Greater,
    ensures
        lex_order(a, c) != Ordering::Greater,
        lex_order(a, b) == Ordering::Less || lex_order(b, c) == Ordering::Less ==> lex_order(a, c)
            == Ordering::Less,
    decreases a.len(),
{
    if a.len() > 0 && b.len() > 0 && c.len() > 0 && a[0] == b[0] && b[0] == c[0] {
        lemma_compare_transitive(a.skip(1), b.skip(1), c.skip(1));
    }
}

/// A key sorts before every key that extends it by at least one byte.
pub proof fn lemma_prefix_sorts_first(a: Seq<u8>, rest: Seq<u8>)
    requires
        rest.len() > 0,
    ensures
        lex_order(a, a + rest) == Ordering::Less,
    decreases a.len(),
{
    if a.len() > 0 {
        lemma_prefix_sorts_first(a.skip(1), rest);
        assert((a + rest).skip(1) =~= a.skip(1) + rest);
    }
}

} // verus!
