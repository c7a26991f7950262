//! The group side of the hash: a running sum of Ristretto points, one
//! contribution per committed element, modelled by the multiset of the
//! 64-byte wide digests that were mapped into the group (each counted once
//! per unit of multiplicity).

use vstd::prelude::*;

verus! {

use vstd::multiset::Multiset;
use curve25519_dalek::ristretto::CompressedRistretto;
use curve25519_dalek::ristretto::RistrettoPoint;
use curve25519_dalek::scalar::Scalar;
use crate::repeat_elem;

#[verifier::external_type_specification]
#[verifier::external_body]
pub struct ExRistrettoPoint(RistrettoPoint);

/// The canonical 32-byte compressed encoding of the Ristretto point
/// `sum over each wide digest w of contributions.count(w) * map_to_group(w)`,
/// where `map_to_group` is curve25519_dalek's deterministic map from 64
/// uniform bytes to a group point (`RistrettoPoint::from_uniform_bytes`).
///
/// Because the group is commutative and associative and every point has
/// exactly one compressed form, this encoding is a pure function of the
/// multiset of contributions alone; it is named here rather than written out,
/// and the trusted items below say which calls produce it.
pub uninterp spec fn ristretto_sum_compressed(contributions: Multiset<Seq<u8>>) -> Seq<u8>;

/// Relies on RistrettoPoint::default: the group identity, the sum of no
/// contributions.
#[verifier::external_body]
fn identity_point() -> RistrettoPoint {
    RistrettoPoint::default()
}

/// A Ristretto point accumulating one scaled contribution per committed
/// element.
///
/// The ghost field `contributions` holds the multiset of 64-byte wide digests
/// folded into `point`, each counted once per unit of multiplicity: `point`
/// is always the weighted sum over `contributions` of the group points those
/// digests map to. `new` and `clear` establish the correspondence by pairing
/// the identity with the empty multiset; `add_scaled` and `compressed` keep
/// and consume it.
pub struct PointAccumulator {
    point: RistrettoPoint,
    contributions: Ghost<Multiset<Seq<u8>>>,
}

impl PointAccumulator {
    /// The multiset of wide digests folded in so far, each counted once per
    /// unit of multiplicity.
    pub closed spec fn contents(self) -> Multiset<Seq<u8>> {
        self.contributions@
    }

    /// An accumulator holding the sum of no contributions.
    pub fn new() -> (r: PointAccumulator)
        ensures
            r.contents() == Multiset::<Seq<u8>>::empty(),
    {
        PointAccumulator { point: identity_point(), contributions: Ghost(Multiset::empty()) }
    }

    /// Relies on RistrettoPoint::from_uniform_bytes, Scalar::from(u64),
    /// scalar multiplication and point addition: adds
    /// `multiplicity * map_to_group(wide)` into the running sum, i.e. folds
    /// in `multiplicity` further copies of the contribution `wide`. A `u64`
    /// multiplicity is below the group order, so the scalar it maps to is
    /// exactly `multiplicity`.
    #[verifier::external_body]
    pub fn add_scaled(&mut self, wide: &Vec<u8>, multiplicity: u64)
        requires
            wide@.len() == 64,
        ensures
            final(self).contents() == old(self).contents().add(
                repeat_elem(wide@, multiplicity as nat),
            ),
    {
        let mut bytes = [0u8; 64];
        bytes.copy_from_slice(wide.as_slice());
        self.point += Scalar::from(multiplicity) * RistrettoPoint::from_uniform_bytes(&bytes);
    }

    /// Relies on RistrettoPoint::compress and CompressedRistretto::to_bytes:
    /// the canonical 32-byte encoding of the running sum, which is the
    /// encoding of the weighted sum over the contributions folded in so far.
    #[verifier::external_body]
    pub fn compressed(&self) -> (r: Vec<u8>)
        ensures
            r@ == ristretto_sum_compressed(self.contents()),
            r@.len() == 32,
    {
        self.point.compress().to_bytes().to_vec()
    }

    /// Restore the empty accumulator.
    pub fn clear(&mut self)
        ensures
            final(self).contents() == Multiset::<Seq<u8>>::empty(),
    {
        self.point = identity_point();
        self.contributions = Ghost(Multiset::empty());
    }
}

/// Relies on CompressedRistretto::{from_slice, decompress}, point addition
/// and RistrettoPoint::compress: compression is a bijection between group
/// points and their canonical encodings, so decompressing two compressed
/// weighted sums, adding them and recompressing yields the compressed
/// weighted sum over the combined contributions. On 32-byte inputs that are
/// not canonical encodings of a point, decompress returns nothing.
#[verifier::external_body]
pub(crate) fn decompress_add_compress(d1: &Vec<u8>, d2: &Vec<u8>) -> (r: Option<Vec<u8>>)
    requires
        d1@.len() == 32,
        d2@.len() == 32,
    ensures
        forall|m1: Multiset<Seq<u8>>, m2: Multiset<Seq<u8>>|
            d1@ == #[trigger] ristretto_sum_compressed(m1) && d2@
                == #[trigger] ristretto_sum_compressed(m2) ==> (r is Some && r->Some_0@
                == ristretto_sum_compressed(m1.add(m2))),
        r is Some ==> r->Some_0@.len() == 32,
{
    let point1 = CompressedRistretto::from_slice(d1.as_slice()).decompress();
    let point2 = CompressedRistretto::from_slice(d2.as_slice()).decompress();
    match (point1, point2) {
        (Some(a), Some(b)) => Some((a + b).compress().to_bytes().to_vec()),
        _ => None,
    }
}

} // verus!
