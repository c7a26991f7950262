//! The accumulator's algebraic laws, stated over the same spec-level model
//! that the method contracts use and proved once for every input.

use vstd::prelude::*;

verus! {

use vstd::multiset::Multiset;
use vstd::seq_lib::commutative_foldl;
use vstd::seq_lib::lemma_fold_left_permutation;
use crate::accumulator::RistrettoHash;
use crate::group::ristretto_sum_compressed;
use crate::lemma_repeat_elem_add;
use crate::repeat_elem;
use crate::wide::WideHash;

/// What one successful `add(data, multiplicity)` folds into the committed
/// multiset: the element's wide digest, counted once per unit of
/// multiplicity.
pub open spec fn add_contribution<H: WideHash>(data: Seq<u8>, multiplicity: nat) -> Multiset<
    Seq<u8>,
> {
    repeat_elem(H::wide_of(data), multiplicity)
}

/// One step of a batch of `add` calls, exactly as the `add` contract states
/// it: the call's contribution joins the committed multiset.
pub open spec fn apply_add<H: WideHash>(m: Multiset<Seq<u8>>, call: (Seq<u8>, nat)) -> Multiset<
    Seq<u8>,
> {
    m.add(add_contribution::<H>(call.0, call.1))
}

/// `apply_add` as a function value, for folding over a batch of calls.
pub open spec fn apply_add_fn<H: WideHash>() -> spec_fn(Multiset<Seq<u8>>, (Seq<u8>, nat)) -> Multiset<
    Seq<u8>,
> {
    |m: Multiset<Seq<u8>>, call: (Seq<u8>, nat)| apply_add::<H>(m, call)
}

/// The committed multiset after a batch of successful `add` calls, one
/// (element bytes, multiplicity) pair per call, applied left to right.
pub open spec fn committed_after_adds<H: WideHash>(
    start: Multiset<Seq<u8>>,
    calls: Seq<(Seq<u8>, nat)>,
) -> Multiset<Seq<u8>> {
    calls.fold_left(start, apply_add_fn::<H>())
}

/// Order independence: two batches of `add` calls that are permutations of
/// one another commit the same multiset, and hence the same final digest.
pub proof fn lemma_order_independence<H: WideHash>(
    start: Multiset<Seq<u8>>,
    calls1: Seq<(Seq<u8>, nat)>,
    calls2: Seq<(Seq<u8>, nat)>,
)
    requires
        calls1.to_multiset() == calls2.to_multiset(),
    ensures
        committed_after_adds::<H>(start, calls1) == committed_after_adds::<H>(start, calls2),
        ristretto_sum_compressed(committed_after_adds::<H>(start, calls1))
            == ristretto_sum_compressed(committed_after_adds::<H>(start, calls2)),
{
    broadcast use vstd::multiset::group_multiset_axioms;

    let f = apply_add_fn::<H>();
    assert forall|x: (Seq<u8>, nat), y: (Seq<u8>, nat), v: Multiset<Seq<u8>>| #[trigger] f(
        f(v, x),
        y,
    ) == f(f(v, y), x) by {
        assert(f(f(v, x), y) =~= f(f(v, y), x));
    }
    assert(commutative_foldl(f));
    lemma_fold_left_permutation(calls1, calls2, f, start);
}

/// Multiplicity additivity: one `add` of an element with multiplicity
/// `a + b` commits the same multiset --- and hence the same digest --- as an
/// `add` of the element with multiplicity `a` followed by one with
/// multiplicity `b`, on an empty accumulator.
pub proof fn lemma_multiplicity_additivity<H: WideHash>(data: Seq<u8>, a: nat, b: nat)
    ensures
        committed_after_adds::<H>(Multiset::empty(), seq![(data, a + b)])
            == committed_after_adds::<H>(Multiset::empty(), seq![(data, a), (data, b)]),
        ristretto_sum_compressed(
            committed_after_adds::<H>(Multiset::empty(), seq![(data, a + b)]),
        ) == ristretto_sum_compressed(
            committed_after_adds::<H>(Multiset::empty(), seq![(data, a), (data, b)]),
        ),
{
    broadcast use vstd::multiset::group_multiset_axioms;

    reveal_with_fuel(Seq::fold_left, 4);
    let s1 = seq![(data, a + b)];
    let s2 = seq![(data, a), (data, b)];
    assert(s1.drop_last() =~= Seq::<(Seq<u8>, nat)>::empty());
    assert(s2.drop_last() =~= seq![(data, a)]);
    assert(seq![(data, a)].drop_last() =~= Seq::<(Seq<u8>, nat)>::empty());
    lemma_repeat_elem_add(H::wide_of(data), a, b);
    assert(committed_after_adds::<H>(Multiset::empty(), s1) =~= committed_after_adds::<H>(
        Multiset::empty(),
        s2,
    ));
}

/// Split invariance: feeding `p`, then `q`, then committing with some
/// multiplicity --- which commits the pending bytes `(empty + p) + q` ---
/// contributes exactly what one `add` of the concatenation `p + q` does.
pub proof fn lemma_split_invariance<H: WideHash>(
    start: Multiset<Seq<u8>>,
    p: Seq<u8>,
    q: Seq<u8>,
    multiplicity: nat,
)
    ensures
        start.add(repeat_elem(H::wide_of(Seq::<u8>::empty() + p + q), multiplicity)) == start.add(
            add_contribution::<H>(p + q, multiplicity),
        ),
{
    assert(Seq::<u8>::empty() + p + q =~= p + q);
}

/// A batch of `add` calls from any starting multiset commits the starting
/// multiset joined with what the batch commits from the empty multiset.
proof fn lemma_adds_from_base<H: WideHash>(base: Multiset<Seq<u8>>, calls: Seq<(Seq<u8>, nat)>)
    ensures
        committed_after_adds::<H>(base, calls) == base.add(
            committed_after_adds::<H>(Multiset::empty(), calls),
        ),
    decreases calls.len(),
{
    broadcast use vstd::multiset::group_multiset_axioms;

    if calls.len() == 0 {
        assert(base.add(Multiset::<Seq<u8>>::empty()) =~= base);
    } else {
        lemma_adds_from_base::<H>(base, calls.drop_last());
        assert(committed_after_adds::<H>(base, calls) =~= base.add(
            committed_after_adds::<H>(Multiset::empty(), calls),
        ));
    }
}

/// Merge homomorphism: the multiset committed by two batches of `add` calls
/// run one after the other on one accumulator is the union --- counts summed
/// --- of the multisets the two batches commit on separate empty
/// accumulators. Together with the contract of `merge_digests`, the digest
/// of the combined multiset is computable from the two separate digests
/// alone.
pub proof fn lemma_merge_homomorphism<H: WideHash>(
    calls1: Seq<(Seq<u8>, nat)>,
    calls2: Seq<(Seq<u8>, nat)>,
)
    ensures
        committed_after_adds::<H>(Multiset::empty(), calls1 + calls2) == committed_after_adds::<H>(
            Multiset::empty(),
            calls1,
        ).add(committed_after_adds::<H>(Multiset::empty(), calls2)),
{
    let f = apply_add_fn::<H>();
    let s = calls1 + calls2;
    s.lemma_fold_left_split(Multiset::empty(), f, calls1.len() as int);
    assert(s.subrange(0, calls1.len() as int) =~= calls1);
    assert(s.subrange(calls1.len() as int, s.len() as int) =~= calls2);
    lemma_adds_from_base::<H>(committed_after_adds::<H>(Multiset::empty(), calls1), calls2);
}

/// Reset correctness: an accumulator just emptied by `finalize_and_reset`
/// (or `reset`) and a freshly constructed one hold the same committed
/// multiset, so every later history digests identically on the two.
pub proof fn lemma_reset_correctness<H: WideHash>(
    reused: RistrettoHash<H>,
    started: RistrettoHash<H>,
)
    requires
        reused.committed() == Multiset::<Seq<u8>>::empty(),
        !reused.is_updating(),
        started.committed() == Multiset::<Seq<u8>>::empty(),
        !started.is_updating(),
    ensures
        reused.committed() == started.committed(),
        ristretto_sum_compressed(reused.committed()) == ristretto_sum_compressed(
            started.committed(),
        ),
{
}

} // verus!
