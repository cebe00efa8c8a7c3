use linsig::{
    combine, combine_messages, encode_index, entropy_rng, seeded_rng, setup, sign, verify,
    verify_aggregate, G1Point, Scalar,
};

/// Signing, verifying, combining and verifying the aggregate, end to end,
/// with the deterministic randomness source.
#[test]
fn test_sign_verify() {
    // Generate public key and secret key
    let mut key_rng = seeded_rng();
    let (pk, sk) = setup(&mut key_rng);

    // Pick a unique identifier
    let id: &[u8] = b"test";

    // Testing with 8 random messages
    let n: usize = 8;
    let mut first = seeded_rng();
    let m0 = Scalar::random(&mut first);
    let mut m_vec: Vec<Scalar> = Vec::new();
    for _ in 0..n {
        m_vec.push(m0.clone());
    }

    // Sign and verify each message
    let mut signatures: Vec<G1Point> = Vec::new();
    for i in 0..n {
        let signature = sign(sk.clone(), &pk, id, i, m_vec[i].clone()).unwrap();
        assert!(verify(&pk, id, i, m_vec[i].clone(), signature.clone()).unwrap());
        signatures.push(signature);
    }

    // Generate an aggregate signature and message with random weights
    let mut rng = seeded_rng();
    let mut weights: Vec<Scalar> = Vec::new();
    for _ in 0..n {
        weights.push(Scalar::random(&mut rng));
    }
    let aggregate_signature = combine(&weights, signatures);
    let aggregate_m = combine_messages(&weights, &m_vec);

    // Verify the aggregate signature
    assert!(
        verify_aggregate(&pk, id, weights.clone(), aggregate_m, aggregate_signature.clone())
            .unwrap()
    );

    // Test with wrong message
    let mut other = seeded_rng();
    let wrong_m = Scalar::random(&mut other);
    assert!(!verify_aggregate(&pk, id, weights, wrong_m, aggregate_signature).unwrap());
}

/// Signing is deterministic: identical inputs give the identical G1 point,
/// so the hash-to-curve step is deterministic too.
#[test]
fn test_sign_deterministic() {
    let mut key_rng = seeded_rng();
    let (pk, sk) = setup(&mut key_rng);
    let id: &[u8] = b"dataset-a";
    let m = Scalar::from_u64(42);
    let s1 = sign(sk.clone(), &pk, id, 3, m.clone()).unwrap();
    let s2 = sign(sk, &pk, id, 3, m).unwrap();
    assert!(s1.equals(&s2));
}

/// Flipping any one of message, index, dataset identifier or signature after
/// a correct sign makes verification fail.
#[test]
fn test_tampering_rejected() {
    let mut key_rng = seeded_rng();
    let (pk, sk) = setup(&mut key_rng);
    let id: &[u8] = b"ledger";
    let m = Scalar::from_u64(5);
    let signature = sign(sk.clone(), &pk, id, 0, m.clone()).unwrap();

    // The untampered signature passes.
    assert!(verify(&pk, id, 0, m.clone(), signature.clone()).unwrap());

    // Tampered message.
    assert!(!verify(&pk, id, 0, Scalar::from_u64(6), signature.clone()).unwrap());

    // Tampered index.
    assert!(!verify(&pk, id, 1, m.clone(), signature.clone()).unwrap());

    // Tampered dataset identifier.
    assert!(!verify(&pk, b"ledger2", 0, m.clone(), signature.clone()).unwrap());

    // Tampered signature: the signature for a different message.
    let other_sig = sign(sk, &pk, id, 0, Scalar::from_u64(7)).unwrap();
    assert!(!other_sig.equals(&signature));
    assert!(!verify(&pk, id, 0, m, other_sig).unwrap());
}

/// Aggregation with small known weights: the combined message is the exact
/// weighted sum, the combined signature verifies against it, and any other
/// claimed aggregate message is rejected.
#[test]
fn test_aggregate_exact_values() {
    let mut key_rng = seeded_rng();
    let (pk, sk) = setup(&mut key_rng);
    let id: &[u8] = b"series";
    let messages = vec![Scalar::from_u64(5), Scalar::from_u64(7)];
    let weights = vec![Scalar::from_u64(2), Scalar::from_u64(3)];

    let mut signatures: Vec<G1Point> = Vec::new();
    for i in 0..messages.len() {
        signatures.push(sign(sk.clone(), &pk, id, i, messages[i].clone()).unwrap());
    }

    // 2*5 + 3*7 == 31
    let aggregate_m = combine_messages(&weights, &messages);
    assert!(aggregate_m.equals(&Scalar::from_u64(31)));

    let aggregate_sig = combine(&weights, signatures);
    assert!(verify_aggregate(&pk, id, weights.clone(), aggregate_m, aggregate_sig.clone()).unwrap());

    // A claimed aggregate off by one is rejected.
    assert!(
        !verify_aggregate(&pk, id, weights, Scalar::from_u64(32), aggregate_sig).unwrap()
    );
}

/// The empty aggregation: no weights, no signatures.  The combined signature
/// is the identity and verifies exactly against the zero message.
#[test]
fn test_empty_aggregate() {
    let mut key_rng = seeded_rng();
    let (pk, _sk) = setup(&mut key_rng);
    let id: &[u8] = b"empty";
    let weights: Vec<Scalar> = Vec::new();
    let signatures: Vec<G1Point> = Vec::new();
    let aggregate_sig = combine(&weights, signatures);
    assert!(
        verify_aggregate(&pk, id, Vec::new(), Scalar::from_u64(0), aggregate_sig.clone()).unwrap()
    );
    assert!(!verify_aggregate(&pk, id, Vec::new(), Scalar::from_u64(1), aggregate_sig).unwrap());
}

/// The protocol's index encoding: eight bytes, least-significant first.
#[test]
fn test_encode_index() {
    assert_eq!(encode_index(0), vec![0u8, 0, 0, 0, 0, 0, 0, 0]);
    assert_eq!(encode_index(0x0102), vec![2u8, 1, 0, 0, 0, 0, 0, 0]);
    assert_eq!(
        encode_index(usize::MAX),
        vec![255u8, 255, 255, 255, 255, 255, 255, 255]
    );
}

/// Scalars embed integers: distinct small integers are distinct scalars and
/// equal ones are equal.
#[test]
fn test_scalar_embedding() {
    assert!(Scalar::from_u64(12).equals(&Scalar::from_u64(12)));
    assert!(!Scalar::from_u64(12).equals(&Scalar::from_u64(13)));
}

/// Setup with an entropy-seeded source: a freshly drawn key signs and
/// verifies.
#[test]
fn test_setup_with_entropy() {
    let mut rng = entropy_rng();
    let (pk, sk) = setup(&mut rng);
    let m = Scalar::random(&mut rng);
    let sig = sign(sk, &pk, b"fresh", 0, m.clone()).unwrap();
    assert!(verify(&pk, b"fresh", 0, m, sig).unwrap());
}

/// Scalars embed arbitrary little-endian byte strings, consistently with the
/// integer embedding.
#[test]
fn test_scalar_from_le_bytes() {
    assert!(Scalar::from_le_bytes(&[]).equals(&Scalar::from_u64(0)));
    assert!(Scalar::from_le_bytes(&[31]).equals(&Scalar::from_u64(31)));
    assert!(Scalar::from_le_bytes(&[1, 1]).equals(&Scalar::from_u64(257)));
    assert!(!Scalar::from_le_bytes(&[1, 1]).equals(&Scalar::from_u64(258)));
}
