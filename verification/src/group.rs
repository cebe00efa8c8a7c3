//! Trusted boundary to the BLS12-381 bilinear group.
//!
//! Group elements are modelled by their discrete logarithms: fixing the
//! canonical generators `g1` of G1, `g2` of G2 and `e(g1, g2)` of the pairing
//! target group (all cyclic of the same prime order), every element of each
//! group is a unique scalar multiple (or power) of the generator, and the
//! group operations act on those exponents by modular addition and
//! multiplication.  Each wrapper type below carries the real curve value
//! together with a ghost exponent, and the trusted wrappers state how the
//! arkworks operations act on the exponents.

use vstd::prelude::*;

use ark_ec::hashing::curve_maps::wb::WBMap;
use ark_ec::hashing::map_to_curve_hasher::MapToCurveBasedHasher;
use ark_ec::hashing::{HashToCurve, HashToCurveError};
use ark_ec::pairing::Pairing;
use ark_ec::{AffineRepr, CurveGroup};
use ark_ff::fields::field_hashers::DefaultFieldHasher;
use ark_ff::PrimeField;
use ark_std::rand::SeedableRng;
use ark_std::UniformRand;

use vstd::pervasive::arbitrary;

verus! {

/// Order of the BLS12-381 scalar field: the prime `r` such that G1, G2 and
/// the pairing target group are cyclic of order `r`.  Scalars, and the
/// exponents that model group elements, are residues modulo this prime.
pub open spec fn group_order() -> int {
    0x73eda753299d7d483339d80809a1d80553bda402fffe5bfeffffffff00000001int
}

/// Holds an `ark_bls12_381::Fr` field element opaquely.  The generic
/// parameters of the arkworks types carry outside trait bounds that the
/// verifier cannot process, so each curve value is kept behind an opaque
/// struct of the library's own; the verifier never looks inside.
#[verifier::external_body]
pub(crate) struct FrValue {
    v: ark_bls12_381::Fr,
}

/// Holds an `ark_bls12_381::G1Affine` curve point opaquely (see `FrValue`).
#[verifier::external_body]
pub(crate) struct G1Value {
    v: ark_bls12_381::G1Affine,
}

/// Holds an `ark_bls12_381::G2Affine` curve point opaquely (see `FrValue`).
#[verifier::external_body]
pub(crate) struct G2Value {
    v: ark_bls12_381::G2Affine,
}

/// Holds a pairing output (target-group element) opaquely (see `FrValue`).
#[verifier::external_body]
pub(crate) struct GtValue {
    v: ark_ec::pairing::PairingOutput<ark_bls12_381::Bls12_381>,
}

/// Holds an `ark_std::rand::rngs::StdRng` opaquely (see `FrValue`), so that
/// a randomness source can be threaded explicitly through the operations
/// that draw from it.
#[verifier::external_body]
pub struct RandomSource {
    v: ark_std::rand::rngs::StdRng,
}

/// An element of the scalar field.  The view is the scalar's canonical
/// residue, in `[0, group_order())`.
pub struct Scalar {
    v: FrValue,
    m: Ghost<int>,
}

impl View for Scalar {
    type V = int;

    closed spec fn view(&self) -> int {
        self.m@
    }
}

impl Clone for Scalar {
    /// Relies on `Copy` for `ark_ff::Fp`: the copy is the same field element.
    #[verifier::external_body]
    fn clone(&self) -> (r: Self)
        ensures
            r@ == self@,
    {
        Scalar { v: FrValue { v: self.v.v }, m: Ghost(arbitrary()) }
    }
}

/// An element of G1.  The view is its exponent: the discrete logarithm with
/// respect to the canonical G1 generator, in `[0, group_order())`.
pub struct G1Point {
    p: G1Value,
    m: Ghost<int>,
}

impl View for G1Point {
    type V = int;

    closed spec fn view(&self) -> int {
        self.m@
    }
}

impl Clone for G1Point {
    /// Relies on `Copy` for `ark_ec::short_weierstrass::Affine`: the copy is
    /// the same curve point.
    #[verifier::external_body]
    fn clone(&self) -> (r: Self)
        ensures
            r@ == self@,
    {
        G1Point { p: G1Value { v: self.p.v }, m: Ghost(arbitrary()) }
    }
}

/// An element of G2.  The view is its exponent with respect to the canonical
/// G2 generator, in `[0, group_order())`.
pub struct G2Point {
    p: G2Value,
    m: Ghost<int>,
}

impl View for G2Point {
    type V = int;

    closed spec fn view(&self) -> int {
        self.m@
    }
}

/// An element of the pairing target group.  The view is its exponent with
/// respect to `e(g1, g2)`, in `[0, group_order())`.
pub(crate) struct GtPoint {
    v: GtValue,
    m: Ghost<int>,
}

impl View for GtPoint {
    type V = int;

    closed spec fn view(&self) -> int {
        self.m@
    }
}

/// The hash-to-curve construction could not be instantiated or evaluated for
/// the supplied domain tag; surfaced verbatim from the curve library.
#[derive(Debug)]
pub enum HashMappingError {
    /// The curve does not support the chosen hash-to-curve method.
    UnsupportedCurve(String),
    /// The field element produced by hashing could not be mapped to the curve.
    MapToCurve(String),
}

/// Exponent of the G1 point that the domain-separated hash-to-curve map
/// assigns to a message under a domain tag.  The map is a pure function of
/// the two byte strings, so its result may be named; nothing further is
/// assumed of it.
pub uninterp spec fn hash_log(msg: Seq<u8>, dom: Seq<u8>) -> int;

/// Whether the hash-to-curve construction succeeds for a message and domain
/// tag.  Success, too, depends only on the two byte strings.
pub uninterp spec fn hash_ok(msg: Seq<u8>, dom: Seq<u8>) -> bool;

/// The integer a byte string denotes, read least-significant byte first.
pub open spec fn le_bytes_val(s: Seq<u8>) -> int
    decreases s.len(),
{
    if s.len() == 0 {
        0
    } else {
        s[0] + 256 * le_bytes_val(s.drop_first())
    }
}

/// Relies on `ark_std::rand::rngs::StdRng::from_seed`: a deterministic
/// random number generator from a fixed seed (the seed used by
/// `ark_std::test_rng`).  Nothing is claimed of the values it produces.
#[verifier::external_body]
pub fn seeded_rng() -> RandomSource {
    let seed = [
        1u8, 0, 0, 0, 23, 0, 0, 0, 200, 1, 0, 0, 210, 30, 0, 0, 0, 0, 0, 0, 0, 0, 0, 0, 0, 0, 0,
        0, 0, 0, 0, 0,
    ];
    RandomSource { v: ark_std::rand::rngs::StdRng::from_seed(seed) }
}

/// Relies on `StdRng::from_entropy` (`rand::SeedableRng`): a random number
/// generator seeded from the operating system's entropy source.  The source
/// is assumed available (the call aborts otherwise), as the key manager's
/// contract assumes.
#[verifier::external_body]
pub fn entropy_rng() -> RandomSource {
    RandomSource { v: ark_std::rand::rngs::StdRng::from_entropy() }
}

impl Scalar {
    /// Relies on `Fr::rand` (`ark_ff::UniformRand`): draws a field element;
    /// all that is claimed of the draw is that it is a valid residue.
    #[verifier::external_body]
    pub fn random(rng: &mut RandomSource) -> (r: Scalar)
        ensures
            0 <= r@ < group_order(),
    {
        Scalar { v: FrValue { v: ark_bls12_381::Fr::rand(&mut rng.v) }, m: Ghost(arbitrary()) }
    }

    /// Relies on `Fr::from::<u64>` (`ark_ff::Fp::from`): embeds an integer as
    /// its residue modulo the field order; every `u64` is below the order.
    #[verifier::external_body]
    pub fn from_u64(n: u64) -> (r: Scalar)
        ensures
            r@ == n as int,
    {
        Scalar { v: FrValue { v: ark_bls12_381::Fr::from(n) }, m: Ghost(arbitrary()) }
    }

    /// Relies on `Fr::from_le_bytes_mod_order` (`ark_ff::PrimeField`): reads
    /// the bytes as a little-endian integer and reduces it modulo the field
    /// order, embedding an arbitrary byte string as a scalar.
    #[verifier::external_body]
    pub fn from_le_bytes(bytes: &[u8]) -> (r: Scalar)
        ensures
            r@ == le_bytes_val(bytes@) % group_order(),
    {
        Scalar {
            v: FrValue { v: ark_bls12_381::Fr::from_le_bytes_mod_order(bytes) },
            m: Ghost(arbitrary()),
        }
    }

    /// Relies on `PartialEq` for `ark_ff::Fp`: field elements are equal
    /// exactly when they are the same residue.
    #[verifier::external_body]
    pub fn equals(&self, other: &Scalar) -> (r: bool)
        ensures
            r == (self@ == other@),
    {
        self.v.v == other.v.v
    }
}

/// Relies on `Add` for `ark_ff::Fp`: field addition is addition of residues
/// modulo the field order.
#[verifier::external_body]
pub(crate) fn scalar_add(a: &Scalar, b: &Scalar) -> (r: Scalar)
    ensures
        r@ == (a@ + b@) % group_order(),
{
    Scalar { v: FrValue { v: a.v.v + b.v.v }, m: Ghost(arbitrary()) }
}

/// Relies on `Mul` for `ark_ff::Fp`: field multiplication is multiplication
/// of residues modulo the field order.
#[verifier::external_body]
pub(crate) fn scalar_mul(a: &Scalar, b: &Scalar) -> (r: Scalar)
    ensures
        r@ == (a@ * b@) % group_order(),
{
    Scalar { v: FrValue { v: a.v.v * b.v.v }, m: Ghost(arbitrary()) }
}

impl G1Point {
    /// Relies on `PartialEq` for `ark_ec::short_weierstrass::Affine`: points
    /// of a cyclic group are equal exactly when their exponents are.
    #[verifier::external_body]
    pub fn equals(&self, other: &G1Point) -> (r: bool)
        ensures
            r == (self@ == other@),
    {
        self.p.v == other.p.v
    }
}

/// Relies on `AffineRepr::generator`: the canonical G1 generator, exponent 1.
#[verifier::external_body]
pub(crate) fn g1_generator() -> (r: G1Point)
    ensures
        r@ == 1,
{
    G1Point { p: G1Value { v: ark_bls12_381::G1Affine::generator() }, m: Ghost(arbitrary()) }
}

/// Relies on `AffineRepr::zero`: the G1 identity element, exponent 0.
#[verifier::external_body]
pub(crate) fn g1_zero() -> (r: G1Point)
    ensures
        r@ == 0,
{
    G1Point { p: G1Value { v: ark_bls12_381::G1Affine::zero() }, m: Ghost(arbitrary()) }
}

/// Relies on `Add` for `ark_ec::short_weierstrass::Affine`: adding group
/// elements adds their exponents modulo the group order.
#[verifier::external_body]
pub(crate) fn g1_add(a: &G1Point, b: &G1Point) -> (r: G1Point)
    ensures
        r@ == (a@ + b@) % group_order(),
{
    G1Point { p: G1Value { v: (a.p.v + b.p.v).into_affine() }, m: Ghost(arbitrary()) }
}

/// Relies on `Mul` for `ark_ec::short_weierstrass::Affine`: multiplying a
/// group element by a scalar multiplies its exponent by that residue,
/// modulo the group order.
#[verifier::external_body]
pub(crate) fn g1_mul(s: &Scalar, a: &G1Point) -> (r: G1Point)
    ensures
        r@ == (s@ * a@) % group_order(),
{
    G1Point { p: G1Value { v: (a.p.v * s.v.v).into_affine() }, m: Ghost(arbitrary()) }
}

/// Relies on `AffineRepr::generator`: the canonical G2 generator, exponent 1.
#[verifier::external_body]
pub(crate) fn g2_generator() -> (r: G2Point)
    ensures
        r@ == 1,
{
    G2Point { p: G2Value { v: ark_bls12_381::G2Affine::generator() }, m: Ghost(arbitrary()) }
}

/// Relies on `Mul` for `ark_ec::short_weierstrass::Affine` in G2: scalar
/// multiplication multiplies the exponent by the residue, modulo the order.
#[verifier::external_body]
pub(crate) fn g2_mul(s: &Scalar, a: &G2Point) -> (r: G2Point)
    ensures
        r@ == (s@ * a@) % group_order(),
{
    G2Point { p: G2Value { v: (a.p.v * s.v.v).into_affine() }, m: Ghost(arbitrary()) }
}

/// Relies on `Bls12_381::pairing` (`ark_ec::pairing::Pairing`): the pairing
/// is bilinear, so `e(a·g1, b·g2) = e(g1, g2)^(a·b)`; on exponents it
/// multiplies, modulo the group order.
#[verifier::external_body]
pub(crate) fn pair_points(a: &G1Point, b: &G2Point) -> (r: GtPoint)
    ensures
        r@ == (a@ * b@) % group_order(),
{
    GtPoint { v: GtValue { v: ark_bls12_381::Bls12_381::pairing(a.p.v, b.p.v) }, m: Ghost(arbitrary()) }
}

/// Relies on `PartialEq` for `ark_ec::pairing::PairingOutput`: target-group
/// elements are equal exactly when their exponents are.
#[verifier::external_body]
pub(crate) fn gt_equals(a: &GtPoint, b: &GtPoint) -> (r: bool)
    ensures
        r == (a@ == b@),
{
    a.v.v == b.v.v
}

/// Relies on `MapToCurveBasedHasher::{new, hash}` with the
/// Wahby–Boneh map and SHA-256 field hasher: a deterministic,
/// domain-separated hash from a byte string to a G1 point.  The result, and
/// whether the construction succeeds, are pure functions of the message and
/// the domain tag; the error is surfaced verbatim.
#[verifier::external_body]
pub(crate) fn hash_to_anchor(msg: &[u8], dom: &[u8]) -> (r: Result<G1Point, HashMappingError>)
    ensures
        (r is Ok) == hash_ok(msg@, dom@),
        r matches Ok(h) ==> h@ == hash_log(msg@, dom@) % group_order(),
{
    let hashed = MapToCurveBasedHasher::<
        ark_bls12_381::G1Projective,
        DefaultFieldHasher<sha2::Sha256>,
        WBMap<ark_bls12_381::g1::Config>,
    >::new(dom).and_then(|h| h.hash(msg));
    match hashed {
        Ok(p) => Ok(G1Point { p: G1Value { v: p }, m: Ghost(arbitrary()) }),
        Err(HashToCurveError::UnsupportedCurveError(s)) => {
            Err(HashMappingError::UnsupportedCurve(s))
        },
        Err(HashToCurveError::MapToCurveError(s)) => Err(HashMappingError::MapToCurve(s)),
    }
}

} // verus!
