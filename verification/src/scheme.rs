//! The linear-homomorphic signature scheme: key setup, signing, verification
//! of single and aggregated signatures, and the homomorphic combination rule.
//!
//! Contracts are stated over the exponent model of the bilinear group (see
//! the group module): a G1 or G2 element is its discrete logarithm with
//! respect to the canonical generator, a target-group element its exponent
//! with respect to the pairing of the two generators, and every exponent is a
//! residue modulo `group_order()`.

use vstd::prelude::*;

use crate::group::{
    g1_add, g1_generator, g1_mul, g1_zero, g2_generator, g2_mul, group_order, gt_equals,
    hash_log, hash_ok, hash_to_anchor, pair_points, scalar_add, scalar_mul, G1Point, G2Point,
    HashMappingError, RandomSource, Scalar,
};

verus! {

/// The canonical byte encoding of an index: its value as eight bytes,
/// least-significant first.  This encoding is a protocol constant: it is the
/// message handed to the hash-to-curve map, so changing it would silently
/// break signature compatibility.
pub open spec fn index_bytes(i: u64) -> Seq<u8> {
    seq![
        (i & 0xff) as u8,
        ((i >> 8) & 0xff) as u8,
        ((i >> 16) & 0xff) as u8,
        ((i >> 24) & 0xff) as u8,
        ((i >> 32) & 0xff) as u8,
        ((i >> 40) & 0xff) as u8,
        ((i >> 48) & 0xff) as u8,
        ((i >> 56) & 0xff) as u8,
    ]
}

/// The exponent of the anchor point that the hash-to-curve map assigns to an
/// index under a dataset identifier.
pub open spec fn anchor_val(index: u64, id: Seq<u8>) -> int {
    hash_log(index_bytes(index), id) % group_order()
}

/// The exponent of the signature on a message `m` at an anchor with exponent
/// `a`, under secret key `sk` and a public G1 generator point with exponent
/// `p`: the signature is `sk · (anchor + m · P)`.
pub open spec fn signature_val(sk: int, p: int, a: int, m: int) -> int {
    (sk * ((a + (m * p) % group_order()) % group_order())) % group_order()
}

/// The verification equation, on exponents.  With public key `(P, Q, R)`
/// (exponents `p`, `q`, `r`), anchor exponent `a`, claimed message `m` and
/// signature exponent `s`, verification compares the pairings
/// `e(S, Q) == e(anchor + m · P, R)`, which on exponents is the equality
/// below.
pub open spec fn verifies(p: int, q: int, r: int, a: int, m: int, s: int) -> bool {
    (s * q) % group_order() == (((a + (m * p) % group_order()) % group_order()) * r)
        % group_order()
}

/// The views of a sequence of scalars.
pub open spec fn scalar_views(s: Seq<Scalar>) -> Seq<int> {
    s.map_values(|x: Scalar| x@)
}

/// The views of a sequence of G1 points.
pub open spec fn point_views(s: Seq<G1Point>) -> Seq<int> {
    s.map_values(|x: G1Point| x@)
}

/// The exponent of the aggregate anchor `Σ_{i<k} w_i · H(i, id)`, built up
/// exactly as the verifier's loop builds it.
pub open spec fn aggregate_anchor_val(ws: Seq<int>, id: Seq<u8>, k: int) -> int
    decreases k,
{
    if k <= 0 {
        0
    } else {
        (aggregate_anchor_val(ws, id, k - 1) + (ws[k - 1] * anchor_val((k - 1) as u64, id))
            % group_order()) % group_order()
    }
}

/// The combined message `Σ_{i<k} w_i · m_i`, as a residue, built up exactly
/// as `combine_messages` builds it.
pub open spec fn combined_message_val(ws: Seq<int>, ms: Seq<int>, k: int) -> int
    decreases k,
{
    if k <= 0 {
        0
    } else {
        (combined_message_val(ws, ms, k - 1) + (ws[k - 1] * ms[k - 1]) % group_order())
            % group_order()
    }
}

/// The exponent of the combined signature `Σ_{i<k} w_i · s_i`, built up
/// exactly as `combine` builds it.
pub open spec fn combined_signature_val(ws: Seq<int>, sigs: Seq<int>, k: int) -> int
    decreases k,
{
    if k <= 0 {
        0
    } else {
        (combined_signature_val(ws, sigs, k - 1) + (ws[k - 1] * sigs[k - 1]) % group_order())
            % group_order()
    }
}

/// The exponents of the signatures an honest signer with secret key `sk` and
/// generator exponent `p` issues on messages `ms`, one per index from 0.
pub open spec fn honest_signature_vals(sk: int, p: int, id: Seq<u8>, ms: Seq<int>) -> Seq<int> {
    Seq::new(ms.len(), |i: int| signature_val(sk, p, anchor_val(i as u64, id), ms[i]))
}

/// A public key: a G1 generator point `p`, a G2 generator point `q`, and
/// `r = sk · q` for the associated secret key `sk`.
pub struct PK {
    p: G1Point,
    q: G2Point,
    r: G2Point,
}

impl PK {
    /// The exponent of the G1 generator point of this key.
    pub closed spec fn p_val(&self) -> int {
        self.p@
    }

    /// The exponent of the G2 generator point of this key.
    pub closed spec fn q_val(&self) -> int {
        self.q@
    }

    /// The exponent of the G2 point `r = sk · q` of this key.
    pub closed spec fn r_val(&self) -> int {
        self.r@
    }
}

/// Draws a secret key from the supplied randomness source and derives the
/// matching public key: `p` and `q` are the canonical G1 and G2 generators
/// and `r = sk · q`, so the invariant binding the pair holds by
/// construction.  Pass an entropy-backed source for a fresh key, or a seeded
/// one for a reproducible key.
pub fn setup(rng: &mut RandomSource) -> (r: (PK, Scalar))
    ensures
        r.0.p_val() == 1,
        r.0.q_val() == 1,
        r.0.r_val() == r.1@,
        0 <= r.1@ < group_order(),
{
    let p = g1_generator();
    let q = g2_generator();
    let sk = Scalar::random(rng);
    let rr = g2_mul(&sk, &q);
    proof {
        vstd::arithmetic::div_mod::lemma_small_mod(sk@ as nat, group_order() as nat);
    }
    (PK { p, q, r: rr }, sk)
}

/// The canonical little-endian byte encoding of an index, as handed to the
/// hash-to-curve map.
pub fn encode_index(index: usize) -> (r: Vec<u8>)
    ensures
        r@ == index_bytes(index as u64),
{
    let x: u64 = index as u64;
    assert((x & 0xff) < 256) by (bit_vector);
    assert(((x >> 8) & 0xff) < 256) by (bit_vector);
    assert(((x >> 16) & 0xff) < 256) by (bit_vector);
    assert(((x >> 24) & 0xff) < 256) by (bit_vector);
    assert(((x >> 32) & 0xff) < 256) by (bit_vector);
    assert(((x >> 40) & 0xff) < 256) by (bit_vector);
    assert(((x >> 48) & 0xff) < 256) by (bit_vector);
    assert(((x >> 56) & 0xff) < 256) by (bit_vector);
    let mut out: Vec<u8> = Vec::new();
    out.push((x & 0xff) as u8);
    out.push(((x >> 8) & 0xff) as u8);
    out.push(((x >> 16) & 0xff) as u8);
    out.push(((x >> 24) & 0xff) as u8);
    out.push(((x >> 32) & 0xff) as u8);
    out.push(((x >> 40) & 0xff) as u8);
    out.push(((x >> 48) & 0xff) as u8);
    out.push(((x >> 56) & 0xff) as u8);
    proof {
        assert(out@ =~= index_bytes(index as u64));
    }
    out
}

/// Signs the message `m` at position `index` of the dataset `id`: computes
/// the anchor `H = hash_to_curve(encode(index), id)` and returns
/// `sk · (H + m · p)`, binding the signature at once to the position and to
/// the value.  Fails exactly when the hash-to-curve construction fails for
/// these inputs, and surfaces that error.
pub fn sign(sk: Scalar, pk: &PK, id: &[u8], index: usize, m: Scalar) -> (r: Result<
    G1Point,
    HashMappingError,
>)
    ensures
        (r is Ok) == hash_ok(index_bytes(index as u64), id@),
        r matches Ok(s) ==> s@ == signature_val(sk@, pk.p_val(), anchor_val(index as u64, id@), m@),
{
    let enc = encode_index(index);
    let h = match hash_to_anchor(enc.as_slice(), id) {
        Ok(h) => h,
        Err(e) => {
            return Err(e);
        },
    };
    let mp = g1_mul(&m, &pk.p);
    let hm = g1_add(&h, &mp);
    Ok(g1_mul(&sk, &hm))
}

/// Checks a single signature: recomputes the anchor for `(index, id)` and
/// returns whether `e(signature, q) == e(H + m·p, r)`.  A `false` result is
/// the normal rejection outcome, not an error; the only error is a failure
/// of the hash-to-curve construction, surfaced as in `sign`.
pub fn verify(pk: &PK, id: &[u8], index: usize, m: Scalar, signature: G1Point) -> (r: Result<
    bool,
    HashMappingError,
>)
    ensures
        (r is Ok) == hash_ok(index_bytes(index as u64), id@),
        r matches Ok(b) ==> b == verifies(
            pk.p_val(),
            pk.q_val(),
            pk.r_val(),
            anchor_val(index as u64, id@),
            m@,
            signature@,
        ),
{
    let enc = encode_index(index);
    let h = match hash_to_anchor(enc.as_slice(), id) {
        Ok(h) => h,
        Err(e) => {
            return Err(e);
        },
    };
    let mp = g1_mul(&m, &pk.p);
    let hm = g1_add(&h, &mp);
    let left = pair_points(&signature, &pk.q);
    let right = pair_points(&hm, &pk.r);
    Ok(gt_equals(&left, &right))
}

/// Checks a signature claimed to combine the signatures at positions
/// `0..weights.len()`: computes the aggregate anchor
/// `Σᵢ weightsᵢ · H(i, id)` and returns whether
/// `e(signature, q) == e(H_agg + m·p, r)`.  Fails exactly when the
/// hash-to-curve construction fails for one of the positions.
pub fn verify_aggregate(pk: &PK, id: &[u8], weights: Vec<Scalar>, m: Scalar, signature: G1Point)
    -> (r: Result<bool, HashMappingError>)
    ensures
        (r is Ok) == (forall|j: int|
            0 <= j < weights@.len() ==> #[trigger] hash_ok(index_bytes(j as u64), id@)),
        r matches Ok(b) ==> b == verifies(
            pk.p_val(),
            pk.q_val(),
            pk.r_val(),
            aggregate_anchor_val(scalar_views(weights@), id@, weights@.len() as int),
            m@,
            signature@,
        ),
{
    let n = weights.len();
    let mut acc = g1_zero();
    let mut i: usize = 0;
    while i < n
        invariant
            n == weights@.len(),
            i <= n,
            acc@ == aggregate_anchor_val(scalar_views(weights@), id@, i as int),
            forall|j: int| 0 <= j < i ==> #[trigger] hash_ok(index_bytes(j as u64), id@),
        decreases n - i,
    {
        let enc = encode_index(i);
        let h = match hash_to_anchor(enc.as_slice(), id) {
            Ok(h) => h,
            Err(e) => {
                return Err(e);
            },
        };
        let term = g1_mul(&weights[i], &h);
        acc = g1_add(&acc, &term);
        i = i + 1;
    }
    let mp = g1_mul(&m, &pk.p);
    let hm = g1_add(&acc, &mp);
    let left = pair_points(&signature, &pk.q);
    let right = pair_points(&hm, &pk.r);
    Ok(gt_equals(&left, &right))
}

/// Linearly combines signatures with the given weights:
/// `Σᵢ weightsᵢ · signaturesᵢ` in G1.  Requires one weight per signature;
/// no secret material is involved.
pub fn combine(weights: &Vec<Scalar>, signatures: Vec<G1Point>) -> (r: G1Point)
    requires
        weights@.len() == signatures@.len(),
    ensures
        r@ == combined_signature_val(
            scalar_views(weights@),
            point_views(signatures@),
            weights@.len() as int,
        ),
{
    let n = weights.len();
    let mut acc = g1_zero();
    let mut i: usize = 0;
    while i < n
        invariant
            n == weights@.len(),
            weights@.len() == signatures@.len(),
            i <= n,
            acc@ == combined_signature_val(
                scalar_views(weights@),
                point_views(signatures@),
                i as int,
            ),
        decreases n - i,
    {
        let term = g1_mul(&weights[i], &signatures[i]);
        acc = g1_add(&acc, &term);
        i = i + 1;
    }
    acc
}

/// Linearly combines message values with the given weights:
/// `Σᵢ weightsᵢ · messagesᵢ` in the scalar field.  This is the combination
/// that `verify_aggregate` expects the claimed aggregate message to satisfy.
pub fn combine_messages(weights: &Vec<Scalar>, messages: &Vec<Scalar>) -> (r: Scalar)
    requires
        weights@.len() == messages@.len(),
    ensures
        r@ == combined_message_val(
            scalar_views(weights@),
            scalar_views(messages@),
            weights@.len() as int,
        ),
{
    let n = weights.len();
    let mut acc = Scalar::from_u64(0);
    let mut i: usize = 0;
    while i < n
        invariant
            n == weights@.len(),
            weights@.len() == messages@.len(),
            i <= n,
            acc@ == combined_message_val(
                scalar_views(weights@),
                scalar_views(messages@),
                i as int,
            ),
        decreases n - i,
    {
        let term = scalar_mul(&weights[i], &messages[i]);
        acc = scalar_add(&acc, &term);
        i = i + 1;
    }
    acc
}

} // verus!
