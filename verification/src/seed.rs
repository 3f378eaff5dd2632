//! Derivation of the server-chosen connection identifier.
//!
//! The server derives its identifier from the client-chosen destination
//! identifier with a keyed one-way function, seeded once per process, and
//! truncates the digest to the protocol's maximum identifier length.
//! Without the seed an observer cannot invert the derivation.
//!
//! The seed is modeled by its raw bytes: a `SeedKey` can only be built by
//! `seed_from_bytes`, which constructs the SHA-256 keyed-digest key for
//! exactly those bytes, so the digest below is a function of the seed
//! bytes and the data alone.

use vstd::prelude::*;

verus! {

/// The protocol's maximum connection-identifier length, in bytes.
pub const MAX_CONN_ID_LEN: usize = 20;

/// The length of the keyed digest the derivation starts from, in bytes.
pub const DIGEST_LEN: usize = 32;

#[verifier::external_type_specification]
#[verifier::external_body]
pub struct ExHmacKey(ring::hmac::Key);

/// The process-wide derivation seed: the raw seed bytes and the keyed
/// digest key built from them. The fields are private and only
/// `seed_from_bytes` constructs a value, so the key always belongs to the
/// bytes the view shows.
pub struct SeedKey {
    bytes: Vec<u8>,
    key: ring::hmac::Key,
}

impl View for SeedKey {
    type V = Seq<u8>;

    /// The raw bytes the seed was built from.
    closed spec fn view(&self) -> Seq<u8> {
        self.bytes@
    }
}

/// The SHA-256 keyed digest of `data` under the key built from `key`
/// bytes: a function of the two alone, the same in every process.
pub uninterp spec fn hmac_sha256_of(key: Seq<u8>, data: Seq<u8>) -> Seq<u8>;

/// Relies on ring::hmac::Key::new: the key it returns is a pure function
/// of the algorithm and the key bytes, here fixed to the SHA-256 family.
#[verifier::external_body]
pub fn seed_from_bytes(bytes: Vec<u8>) -> (r: SeedKey)
    ensures
        r@ == bytes@,
{
    let key = ring::hmac::Key::new(ring::hmac::HMAC_SHA256, &bytes);
    SeedKey { bytes, key }
}

/// Relies on ring::hmac::sign: the tag is the keyed digest of the data —
/// named `hmac_sha256_of`, since the seed's key is SHA-256 by
/// construction — and a SHA-256 tag is 32 bytes long. ring panics only on
/// input lengths far beyond any datagram, which the precondition rules
/// out.
#[verifier::external_body]
fn hmac_sign(seed: &SeedKey, data: &Vec<u8>) -> (r: Vec<u8>)
    requires
        data@.len() <= 65536,
    ensures
        r@ == hmac_sha256_of(seed@, data@),
        r@.len() == DIGEST_LEN as nat,
{
    ring::hmac::sign(&seed.key, data.as_slice()).as_ref().to_vec()
}

/// Derive the server-chosen connection identifier for a client-chosen
/// destination identifier: the seed's keyed digest of the identifier,
/// truncated to the protocol's maximum identifier length. Stable for the
/// life of the seed, and not invertible without it.
pub fn derive_conn_id(seed: &SeedKey, dcid: &Vec<u8>) -> (r: Vec<u8>)
    requires
        dcid@.len() <= 65536,
    ensures
        r@ == hmac_sha256_of(seed@, dcid@).take(MAX_CONN_ID_LEN as int),
        r@.len() == MAX_CONN_ID_LEN as nat,
{
    let mut tag = hmac_sign(seed, dcid);
    tag.truncate(MAX_CONN_ID_LEN);
    proof {
        assert(tag@ =~= hmac_sha256_of(seed@, dcid@).take(MAX_CONN_ID_LEN as int));
    }
    tag
}

} // verus!
