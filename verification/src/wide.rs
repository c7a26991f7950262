//! The wide-digest strategy: a streaming hash whose fixed 64-byte output is
//! wide enough to map uniformly into the Ristretto group, together with the
//! SHA-512 implementation of it.

use vstd::prelude::*;

verus! {

use sha2::Digest;

/// The 64-byte SHA-512 digest of a byte string, named as a pure function of
/// the input bytes; `sha2::Sha512` computes it.
pub uninterp spec fn sha512_of(data: Seq<u8>) -> Seq<u8>;

#[verifier::external_type_specification]
#[verifier::external_body]
pub struct ExSha512(sha2::Sha512);

/// A streaming hash with a fixed 64-byte output.
///
/// `fed()` is the concatenation of all bytes fed since the state was last
/// fresh, and `wide_of` is the implementation's digest as a pure function of
/// those bytes: the digest depends on the concatenation alone, never on how
/// it was chunked across `feed` calls.
pub trait WideHash: Sized {
    /// The bytes fed so far for the element under construction.
    spec fn fed(&self) -> Seq<u8>;

    /// The 64-byte digest of a byte string, as a function of the bytes alone.
    spec fn wide_of(data: Seq<u8>) -> Seq<u8>;

    /// A fresh state over the empty input.
    fn fresh() -> (r: Self)
        ensures
            r.fed() == Seq::<u8>::empty(),
    ;

    /// Append `data` to the bytes of the element under construction.
    fn feed(&mut self, data: &[u8])
        ensures
            final(self).fed() == old(self).fed() + data@,
    ;

    /// Finish the element under construction: return the 64-byte digest of
    /// everything fed since the state was fresh, and restore a fresh state.
    fn take_wide(&mut self) -> (r: Vec<u8>)
        ensures
            r@ == Self::wide_of(old(self).fed()),
            r@.len() == 64,
            final(self).fed() == Seq::<u8>::empty(),
    ;

    /// Discard the element under construction and restore a fresh state.
    fn clear(&mut self)
        ensures
            final(self).fed() == Seq::<u8>::empty(),
    ;
}

/// SHA-512 as a wide-digest strategy.
///
/// The ghost field `fed_bytes` mirrors the bytes the inner hasher has
/// consumed since it was last fresh: `fresh` pairs a hasher that has consumed
/// nothing with the empty sequence, and every method below keeps the two in
/// step.
pub struct Sha512Wide {
    inner: sha2::Sha512,
    fed_bytes: Ghost<Seq<u8>>,
}

/// Relies on sha2::Sha512::default: a fresh hasher that has consumed no
/// input.
#[verifier::external_body]
fn sha512_fresh() -> sha2::Sha512 {
    sha2::Sha512::default()
}

impl Sha512Wide {
    /// Relies on sha2::Sha512 (Digest::update): consuming more input appends
    /// it to the byte string being hashed.
    #[verifier::external_body]
    fn sha_feed(&mut self, data: &[u8])
        ensures
            final(self).fed_bytes@ == old(self).fed_bytes@ + data@,
    {
        self.inner.update(data);
    }

    /// Relies on sha2::Sha512 (Digest::finalize_reset): returns the 64-byte
    /// SHA-512 digest of everything consumed since the hasher was fresh --- a
    /// pure function of those bytes --- and resets the hasher to fresh.
    #[verifier::external_body]
    fn sha_take(&mut self) -> (r: Vec<u8>)
        ensures
            r@ == sha512_of(old(self).fed_bytes@),
            r@.len() == 64,
            final(self).fed_bytes@ == Seq::<u8>::empty(),
    {
        self.inner.finalize_reset().to_vec()
    }

    /// Relies on sha2::Sha512 (Digest::reset): resets the hasher to fresh,
    /// discarding all input consumed so far.
    #[verifier::external_body]
    fn sha_clear(&mut self)
        ensures
            final(self).fed_bytes@ == Seq::<u8>::empty(),
    {
        self.inner.reset();
    }
}

impl WideHash for Sha512Wide {
    closed spec fn fed(&self) -> Seq<u8> {
        self.fed_bytes@
    }

    open spec fn wide_of(data: Seq<u8>) -> Seq<u8> {
        sha512_of(data)
    }

    fn fresh() -> (r: Self) {
        Sha512Wide { inner: sha512_fresh(), fed_bytes: Ghost(Seq::empty()) }
    }

    fn feed(&mut self, data: &[u8]) {
        self.sha_feed(data);
    }

    fn take_wide(&mut self) -> (r: Vec<u8>) {
        self.sha_take()
    }

    fn clear(&mut self) {
        self.sha_clear();
    }
}

} // verus!
