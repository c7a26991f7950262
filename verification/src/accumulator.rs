//! The multiset accumulator itself: a running group sum plus the transient
//! wide-hash state of the element currently being fed, guarded by a small
//! state machine that turns every misuse of the streaming interface into an
//! error value instead of a corrupted digest.

use vstd::prelude::*;

verus! {

use vstd::multiset::Multiset;
use crate::group::PointAccumulator;
use crate::group::decompress_add_compress;
use crate::group::ristretto_sum_compressed;
use crate::repeat_elem;
use crate::wide::WideHash;

/// The one failure class: protocol misuse of the incremental interface.
/// Both kinds are detected synchronously and leave the committed state
/// untouched; the caller recovers by committing or resetting first.
#[derive(Clone, Copy, Debug, PartialEq, Eq)]
pub enum MisuseError {
    /// `add` was called while an element fed with `update` was still open.
    /// Accepting the call would silently bind the open element's bytes and
    /// the new element's bytes together as one element.
    AddDuringUpdate,
    /// `finalize` or `finalize_and_reset` was called while an element fed
    /// with `update` was still open; finalizing now would silently drop it.
    FinalizeDuringUpdate,
}

/// An incremental, order-independent multiset hash over a wide-digest
/// strategy `H`.
///
/// Each committed element contributes `multiplicity * map_to_group(wide)` to
/// a running Ristretto point, where `wide` is the 64-byte digest of the
/// element's bytes; the final digest is the canonical 32-byte compressed
/// encoding of that point. The digest therefore depends only on the multiset
/// `committed()` of wide digests, each counted once per unit of multiplicity
/// --- never on the order of the calls, nor on how one element's bytes were
/// chunked.
pub struct RistrettoHash<H: WideHash> {
    hash: H,
    updating: bool,
    acc: PointAccumulator,
}

impl<H: WideHash> RistrettoHash<H> {
    /// The wide digests of the committed elements, each counted once per
    /// unit of multiplicity.
    pub closed spec fn committed(self) -> Multiset<Seq<u8>> {
        self.acc.contents()
    }

    /// The bytes fed so far for the element currently being built.
    pub closed spec fn pending(self) -> Seq<u8> {
        self.hash.fed()
    }

    /// True iff one or more `update` calls happened since the last commit:
    /// an element is open and must be committed before finalizing.
    pub closed spec fn is_updating(self) -> bool {
        self.updating
    }

    /// Validity: when no element is open, the transient hash state is empty.
    /// Every constructor establishes this and every method preserves it.
    pub closed spec fn well_formed(self) -> bool {
        !self.updating ==> self.hash.fed() == Seq::<u8>::empty()
    }

    /// An empty accumulator: nothing committed, nothing pending.
    pub fn new() -> (r: Self)
        ensures
            r.well_formed(),
            !r.is_updating(),
            r.committed() == Multiset::<Seq<u8>>::empty(),
            r.pending() == Seq::<u8>::empty(),
    {
        RistrettoHash { hash: H::fresh(), updating: false, acc: PointAccumulator::new() }
    }

    /// Append `data` to the element currently being built, opening one if
    /// none is. The committed state is untouched.
    pub fn update(&mut self, data: &[u8])
        requires
            old(self).well_formed(),
        ensures
            final(self).well_formed(),
            final(self).is_updating(),
            final(self).committed() == old(self).committed(),
            final(self).pending() == old(self).pending() + data@,
    {
        self.hash.feed(data);
        self.updating = true;
    }

    /// Close the element currently being built: hash everything fed since
    /// the last commit (the empty byte string if nothing was fed), scale the
    /// group point it maps to by `multiplicity`, and fold the result into
    /// the committed state. Valid in either state; from the idle state it
    /// commits the empty-string element.
    pub fn end_update(&mut self, multiplicity: u64)
        requires
            old(self).well_formed(),
        ensures
            final(self).well_formed(),
            !final(self).is_updating(),
            final(self).pending() == Seq::<u8>::empty(),
            final(self).committed() == old(self).committed().add(
                repeat_elem(H::wide_of(old(self).pending()), multiplicity as nat),
            ),
    {
        self.updating = false;
        let wide = self.hash.take_wide();
        self.acc.add_scaled(&wide, multiplicity);
    }

    /// Add the complete element `data` with the given multiplicity: exactly
    /// `update(data)` followed by `end_update(multiplicity)`, except that it
    /// fails --- leaving the whole state unchanged --- when an element fed
    /// with `update` is still open, since silently concatenating the two
    /// would corrupt the digest.
    pub fn add(&mut self, data: &[u8], multiplicity: u64) -> (r: Result<(), MisuseError>)
        requires
            old(self).well_formed(),
        ensures
            final(self).well_formed(),
            old(self).is_updating() ==> {
                &&& r == Err::<(), MisuseError>(MisuseError::AddDuringUpdate)
                &&& *final(self) == *old(self)
            },
            !old(self).is_updating() ==> {
                &&& r == Ok::<(), MisuseError>(())
                &&& !final(self).is_updating()
                &&& final(self).pending() == Seq::<u8>::empty()
                &&& final(self).committed() == old(self).committed().add(
                    repeat_elem(H::wide_of(data@), multiplicity as nat),
                )
            },
    {
        if self.updating {
            return Err(MisuseError::AddDuringUpdate);
        }
        assert(old(self).pending() + data@ =~= data@);
        self.update(data);
        self.end_update(multiplicity);
        Ok(())
    }

    /// The digest of the committed multiset: the canonical 32-byte
    /// compressed encoding of the accumulated group point. Fails, mutating
    /// nothing, while an element fed with `update` is still open. Repeated
    /// calls without intervening mutation return identical bytes.
    pub fn finalize(&self) -> (r: Result<Vec<u8>, MisuseError>)
        ensures
            self.is_updating() ==> r == Err::<Vec<u8>, MisuseError>(
                MisuseError::FinalizeDuringUpdate,
            ),
            !self.is_updating() ==> {
                &&& r is Ok
                &&& r->Ok_0@ == ristretto_sum_compressed(self.committed())
                &&& r->Ok_0@.len() == 32
            },
    {
        if self.updating {
            return Err(MisuseError::FinalizeDuringUpdate);
        }
        Ok(self.acc.compressed())
    }

    /// Like `finalize`, but on success additionally restores the fresh empty
    /// state, so the instance can be reused for a new, independent multiset.
    pub fn finalize_and_reset(&mut self) -> (r: Result<Vec<u8>, MisuseError>)
        requires
            old(self).well_formed(),
        ensures
            final(self).well_formed(),
            old(self).is_updating() ==> {
                &&& r == Err::<Vec<u8>, MisuseError>(MisuseError::FinalizeDuringUpdate)
                &&& *final(self) == *old(self)
            },
            !old(self).is_updating() ==> {
                &&& r is Ok
                &&& r->Ok_0@ == ristretto_sum_compressed(old(self).committed())
                &&& r->Ok_0@.len() == 32
                &&& !final(self).is_updating()
                &&& final(self).committed() == Multiset::<Seq<u8>>::empty()
                &&& final(self).pending() == Seq::<u8>::empty()
            },
    {
        if self.updating {
            return Err(MisuseError::FinalizeDuringUpdate);
        }
        let out = self.acc.compressed();
        self.reset();
        Ok(out)
    }

    /// Unconditionally restore the fresh empty state: nothing committed,
    /// nothing pending. Always succeeds, whatever the current state.
    pub fn reset(&mut self)
        ensures
            final(self).well_formed(),
            !final(self).is_updating(),
            final(self).committed() == Multiset::<Seq<u8>>::empty(),
            final(self).pending() == Seq::<u8>::empty(),
    {
        self.hash.clear();
        self.updating = false;
        self.acc.clear();
    }
}

impl<H: WideHash> Default for RistrettoHash<H> {
    /// An empty accumulator, equal in state to `new()`.
    fn default() -> (r: Self)
        ensures
            r.well_formed(),
            !r.is_updating(),
            r.committed() == Multiset::<Seq<u8>>::empty(),
            r.pending() == Seq::<u8>::empty(),
    {
        Self::new()
    }
}

/// Merge two finalized digests: the digest of the union of the two multisets
/// they stand for, with multiplicities summed. Built accumulators can thus be
/// combined pairwise --- sharded or parallel hashing with a final reduce ---
/// without replaying any element. Returns nothing when either input is not
/// the canonical encoding of a group point.
pub fn merge_digests(d1: &Vec<u8>, d2: &Vec<u8>) -> (r: Option<Vec<u8>>)
    requires
        d1@.len() == 32,
        d2@.len() == 32,
    ensures
        forall|m1: Multiset<Seq<u8>>, m2: Multiset<Seq<u8>>|
            d1@ == #[trigger] ristretto_sum_compressed(m1) && d2@
                == #[trigger] ristretto_sum_compressed(m2) ==> (r is Some && r->Some_0@
                == ristretto_sum_compressed(m1.add(m2))),
        r is Some ==> r->Some_0@.len() == 32,
{
    decompress_add_compress(d1, d2)
}

} // verus!
