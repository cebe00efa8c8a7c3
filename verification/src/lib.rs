//! A linear-homomorphic signature scheme over the BLS12-381 pairing-friendly
//! bilinear group: a signer authenticates indexed scalar values under a shared
//! dataset identifier, and anyone holding the public key can verify a weighted
//! linear combination of signed values from the matching linear combination of
//! their signatures, without the per-index signatures or the secret key.

mod group;
mod laws;
mod scheme;

pub use group::{
    entropy_rng, group_order, hash_log, hash_ok, le_bytes_val, seeded_rng, G1Point, G2Point,
    HashMappingError, RandomSource, Scalar,
};
pub use laws::{
    lemma_aggregate_characterized, lemma_aggregate_rejection, lemma_combined_signature_tracks,
    lemma_homomorphism, lemma_sign_verifies, lemma_tampered_anchor, lemma_tampered_message,
    lemma_tampered_signature, lemma_verify_characterized,
};
pub use scheme::{
    aggregate_anchor_val, anchor_val, combine, combine_messages, combined_message_val,
    combined_signature_val, encode_index, honest_signature_vals, index_bytes, point_views,
    scalar_views, setup, sign, signature_val, verifies, verify, verify_aggregate, PK,
};
