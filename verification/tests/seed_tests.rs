use quic_dispatch::burst::keep_coalescing;
use quic_dispatch::seed::{derive_conn_id, seed_from_bytes, MAX_CONN_ID_LEN};

#[test]
fn derived_cid_has_protocol_length() {
    let seed = seed_from_bytes(vec![0x42u8; 32]);
    let cid = derive_conn_id(&seed, &vec![1, 2, 3]);
    assert_eq!(cid.len(), MAX_CONN_ID_LEN);
    // The digest, not the input, determines the length.
    assert_eq!(derive_conn_id(&seed, &Vec::new()).len(), MAX_CONN_ID_LEN);
    assert_eq!(derive_conn_id(&seed, &vec![0u8; 64]).len(), MAX_CONN_ID_LEN);
}

#[test]
fn derived_cid_is_a_function_of_seed_and_input() {
    // Stable across key values built from the same bytes: both of a
    // connection's identifiers keep resolving for the process lifetime.
    let seed = seed_from_bytes(vec![7u8; 32]);
    let again = seed_from_bytes(vec![7u8; 32]);
    let cid = derive_conn_id(&seed, &vec![1, 2, 3]);
    assert_eq!(cid, derive_conn_id(&seed, &vec![1, 2, 3]));
    assert_eq!(cid, derive_conn_id(&again, &vec![1, 2, 3]));
    // The derivation is keyed: it reads both the seed and the identifier.
    assert_ne!(cid, derive_conn_id(&seed, &vec![1, 2, 4]));
    let other_seed = seed_from_bytes(vec![8u8; 32]);
    assert_ne!(cid, derive_conn_id(&other_seed, &vec![1, 2, 3]));
}

#[test]
fn derived_cid_matches_the_keyed_digest() {
    // The derivation is exactly the truncated SHA-256 keyed digest.
    let seed = seed_from_bytes(b"seed".to_vec());
    let key = ring::hmac::Key::new(ring::hmac::HMAC_SHA256, b"seed");
    let tag = ring::hmac::sign(&key, &[1, 2, 3]);
    assert_eq!(
        derive_conn_id(&seed, &vec![1, 2, 3]),
        tag.as_ref()[..MAX_CONN_ID_LEN].to_vec()
    );
}

#[test]
fn coalescing_runs_only_on_full_packets() {
    // Full-size packet, room left: keep going.
    assert!(keep_coalescing(true, 1350, 1350, 2700, 13500));
    // A short packet always ends the run.
    assert!(!keep_coalescing(true, 900, 1350, 2700, 13500));
    // No coalescing support: every packet goes out alone.
    assert!(!keep_coalescing(false, 1350, 1350, 2700, 13500));
    // The ceiling is reached.
    assert!(!keep_coalescing(true, 1350, 1350, 13500, 13500));
}
