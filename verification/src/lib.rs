//! An incremental, order-independent multiset hash.
//!
//! A `RistrettoHash` digests a collection of byte-string elements, each with
//! an integer multiplicity. The digest depends only on the multiset of
//! (element, multiplicity) pairs: it is invariant under the order in which
//! elements are added and under splitting one element's bytes across several
//! feed calls. Each element is hashed with a wide (64-byte) digest, mapped
//! deterministically to a point of the prime-order Ristretto group, scaled by
//! its multiplicity, and summed into a running accumulator point; the final
//! digest is the canonical 32-byte compressed encoding of that point.

use vstd::prelude::*;

pub mod accumulator;
pub mod group;
pub mod laws;
pub mod wide;

verus! {

use vstd::multiset::Multiset;

/// A multiset holding `n` copies of the value `v`.
pub open spec fn repeat_elem<V>(v: V, n: nat) -> Multiset<V>
    decreases n,
{
    if n == 0 {
        Multiset::<V>::empty()
    } else {
        repeat_elem(v, (n - 1) as nat).insert(v)
    }
}

/// `repeat_elem(v, n)` holds `v` with count `n` and nothing else.
pub proof fn lemma_repeat_elem_count<V>(v: V, n: nat, x: V)
    ensures
        repeat_elem(v, n).count(x) == if x == v {
            n
        } else {
            0
        },
    decreases n,
{
    broadcast use vstd::multiset::group_multiset_axioms;

    if n > 0 {
        lemma_repeat_elem_count(v, (n - 1) as nat, x);
    }
}

/// Copies of one value split over two counts: `n + m` copies of `v` are `n`
/// copies and `m` copies combined.
pub proof fn lemma_repeat_elem_add<V>(v: V, n: nat, m: nat)
    ensures
        repeat_elem(v, n + m) == repeat_elem(v, n).add(repeat_elem(v, m)),
{
    broadcast use vstd::multiset::group_multiset_axioms;

    assert forall|x: V|
        repeat_elem(v, n + m).count(x) == repeat_elem(v, n).add(repeat_elem(v, m)).count(x) by {
        lemma_repeat_elem_count(v, n + m, x);
        lemma_repeat_elem_count(v, n, x);
        lemma_repeat_elem_count(v, m, x);
    }
    assert(repeat_elem(v, n + m) =~= repeat_elem(v, n).add(repeat_elem(v, m)));
}

} // verus!
