use ristretto_hash::accumulator::MisuseError;
use ristretto_hash::accumulator::RistrettoHash;
use ristretto_hash::accumulator::merge_digests;
use ristretto_hash::wide::Sha512Wide;

#[test]
fn test_add_with_multiplicity() {
    let data = b"test data";

    let mut hash1 = RistrettoHash::<Sha512Wide>::default();
    let mut hash2 = RistrettoHash::<Sha512Wide>::default();

    hash1.add(data, 3).unwrap();
    hash2.add(data, 1).unwrap();
    hash2.add(data, 1).unwrap();
    hash2.add(data, 1).unwrap();

    let output1 = hash1.finalize().unwrap();
    let output2 = hash2.finalize().unwrap();
    assert_eq!(output1, output2)
}

#[test]
fn test_hash_commutative() {
    let data_a = b"test data A";
    let data_b = b"test data B";

    let mut hash1 = RistrettoHash::<Sha512Wide>::default();
    let mut hash2 = RistrettoHash::<Sha512Wide>::default();

    hash1.add(data_a, 1).unwrap();
    hash1.add(data_b, 1).unwrap();

    hash2.add(data_b, 1).unwrap();
    hash2.add(data_a, 1).unwrap();

    let output1 = hash1.finalize().unwrap();
    let output2 = hash2.finalize().unwrap();
    assert_eq!(output1, output2)
}

#[test]
fn test_partial_updates() {
    let mut hash1 = RistrettoHash::<Sha512Wide>::default();
    let mut hash2 = RistrettoHash::<Sha512Wide>::default();

    hash1.add("the full data".as_bytes(), 3).unwrap();
    hash2.update("the".as_bytes());
    hash2.update(" full".as_bytes());
    hash2.update(" data".as_bytes());
    hash2.end_update(3);

    let output1 = hash1.finalize().unwrap();
    let output2 = hash2.finalize().unwrap();
    assert_eq!(output1, output2)
}

#[test]
fn test_add_during_update_is_error() {
    let mut hash = RistrettoHash::<Sha512Wide>::default();
    hash.update(b"some data");
    assert_eq!(hash.add(b"more data", 1), Err(MisuseError::AddDuringUpdate));
}

#[test]
fn test_finalize_during_update_is_error() {
    let mut hash = RistrettoHash::<Sha512Wide>::default();
    hash.update(b"some data");
    assert_eq!(
        hash.finalize().unwrap_err(),
        MisuseError::FinalizeDuringUpdate
    );
    assert_eq!(
        hash.finalize_and_reset().unwrap_err(),
        MisuseError::FinalizeDuringUpdate
    );
}

#[test]
fn test_failed_add_leaves_committed_state_unchanged() {
    let mut hash = RistrettoHash::<Sha512Wide>::new();
    hash.add(b"A", 1).unwrap();
    hash.update(b"junk");
    assert!(hash.add(b"B", 1).is_err());
    // A commit with multiplicity 0 contributes nothing, so the digest shows
    // exactly what was committed before the failed call.
    hash.end_update(0);
    let after_failure = hash.finalize().unwrap();

    let mut clean = RistrettoHash::<Sha512Wide>::new();
    clean.add(b"A", 1).unwrap();
    assert_eq!(after_failure, clean.finalize().unwrap());
}

#[test]
fn test_empty_element_commit() {
    // end_update from the idle state commits the empty-string element.
    let mut hash1 = RistrettoHash::<Sha512Wide>::new();
    hash1.end_update(2);

    let mut hash2 = RistrettoHash::<Sha512Wide>::new();
    hash2.add(b"", 2).unwrap();

    assert_eq!(hash1.finalize().unwrap(), hash2.finalize().unwrap());
}

#[test]
fn test_finalize_is_repeatable() {
    let mut hash = RistrettoHash::<Sha512Wide>::new();
    hash.add(b"stable", 7).unwrap();
    let d1 = hash.finalize().unwrap();
    let d2 = hash.finalize().unwrap();
    assert_eq!(d1, d2);
}

#[test]
fn test_digest_is_32_bytes() {
    let mut hash = RistrettoHash::<Sha512Wide>::new();
    hash.add(b"x", 1).unwrap();
    assert_eq!(hash.finalize().unwrap().len(), 32);
}

#[test]
fn test_distinct_elements_give_distinct_digests() {
    let mut hash1 = RistrettoHash::<Sha512Wide>::new();
    hash1.add(b"A", 1).unwrap();
    let mut hash2 = RistrettoHash::<Sha512Wide>::new();
    hash2.add(b"B", 1).unwrap();
    assert_ne!(hash1.finalize().unwrap(), hash2.finalize().unwrap());
}

#[test]
fn test_multiplicity_matters() {
    let mut hash1 = RistrettoHash::<Sha512Wide>::new();
    hash1.add(b"A", 1).unwrap();
    let mut hash2 = RistrettoHash::<Sha512Wide>::new();
    hash2.add(b"A", 2).unwrap();
    let empty = RistrettoHash::<Sha512Wide>::new();
    assert_ne!(hash1.finalize().unwrap(), hash2.finalize().unwrap());
    assert_ne!(hash1.finalize().unwrap(), empty.finalize().unwrap());
}

#[test]
fn test_finalize_and_reset_restores_fresh_state() {
    let mut hash = RistrettoHash::<Sha512Wide>::new();
    hash.add(b"anything at all", 5).unwrap();
    hash.add(b"and more", 9).unwrap();
    let full = hash.finalize_and_reset().unwrap();

    let fresh = RistrettoHash::<Sha512Wide>::new();
    let empty_digest = fresh.finalize().unwrap();
    assert_ne!(full, empty_digest);
    assert_eq!(hash.finalize().unwrap(), empty_digest);

    // The reused instance digests a new multiset exactly as a fresh one does.
    hash.add(b"second life", 4).unwrap();
    let mut fresh2 = RistrettoHash::<Sha512Wide>::new();
    fresh2.add(b"second life", 4).unwrap();
    assert_eq!(hash.finalize().unwrap(), fresh2.finalize().unwrap());
}

#[test]
fn test_reset_clears_pending_and_committed() {
    let mut hash = RistrettoHash::<Sha512Wide>::new();
    hash.add(b"committed", 1).unwrap();
    hash.update(b"half an element");
    hash.reset();

    let mut fresh = RistrettoHash::<Sha512Wide>::new();
    assert_eq!(hash.finalize().unwrap(), fresh.finalize().unwrap());

    // The discarded pending bytes must not leak into the next element.
    hash.add(b"tail", 1).unwrap();
    fresh.add(b"tail", 1).unwrap();
    assert_eq!(hash.finalize().unwrap(), fresh.finalize().unwrap());
}

#[test]
fn test_merge_digests_is_union() {
    let mut hash1 = RistrettoHash::<Sha512Wide>::new();
    hash1.add(b"A", 1).unwrap();
    let mut hash2 = RistrettoHash::<Sha512Wide>::new();
    hash2.add(b"B", 2).unwrap();
    let mut both = RistrettoHash::<Sha512Wide>::new();
    both.add(b"A", 1).unwrap();
    both.add(b"B", 2).unwrap();

    let merged = merge_digests(&hash1.finalize().unwrap(), &hash2.finalize().unwrap());
    assert_eq!(merged, Some(both.finalize().unwrap()));
}

#[test]
fn test_merge_digests_sums_multiplicities_on_overlap() {
    let mut hash1 = RistrettoHash::<Sha512Wide>::new();
    hash1.add(b"A", 1).unwrap();
    let mut hash2 = RistrettoHash::<Sha512Wide>::new();
    hash2.add(b"A", 2).unwrap();
    let mut both = RistrettoHash::<Sha512Wide>::new();
    both.add(b"A", 3).unwrap();

    let merged = merge_digests(&hash1.finalize().unwrap(), &hash2.finalize().unwrap());
    assert_eq!(merged, Some(both.finalize().unwrap()));
}

#[test]
fn test_merge_digests_rejects_non_encodings() {
    let not_a_point = vec![0xffu8; 32];
    assert_eq!(merge_digests(&not_a_point, &not_a_point), None);
}
