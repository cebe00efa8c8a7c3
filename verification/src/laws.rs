//! The algebraic laws of the scheme, proved over the exponent model.
//!
//! Throughout, the public key is an honest one: the generator points have
//! exponent 1 and `r = sk · q` has exponent `sk`, exactly what `setup`
//! ensures.  Anchors, messages and signatures are exponents, i.e. residues
//! modulo `group_order()`.

use vstd::prelude::*;

use vstd::arithmetic::div_mod::{
    lemma_add_mod_noop, lemma_mod_equivalence, lemma_mod_twice, lemma_mul_mod_noop_right,
    lemma_small_mod,
};
use vstd::arithmetic::mul::{
    lemma_mul_is_associative, lemma_mul_is_commutative, lemma_mul_is_distributive_add,
    lemma_mul_is_distributive_sub,
};

use crate::group::group_order;
use crate::scheme::{
    aggregate_anchor_val, anchor_val, combined_message_val, combined_signature_val,
    honest_signature_vals, signature_val, verifies,
};

verus! {

/// Adding an already-reduced term commutes with reduction.
proof fn lemma_mod_add_right(x: int, y: int)
    ensures
        (x + y % group_order()) % group_order() == (x + y) % group_order(),
{
    let p = group_order();
    lemma_mod_twice(y, p);
    lemma_add_mod_noop(x, y % p, p);
    lemma_add_mod_noop(x, y, p);
}

/// Under an honest key, a signature on `(a, m)` verifies exactly when it is
/// the honestly signed value: the verification equation pins the signature
/// exponent completely.
pub proof fn lemma_verify_characterized(sk: int, a: int, m: int, s: int)
    requires
        0 <= sk < group_order(),
        0 <= a < group_order(),
        0 <= m < group_order(),
        0 <= s < group_order(),
    ensures
        verifies(1, 1, sk, a, m, s) == (s == signature_val(sk, 1, a, m)),
{
    let p = group_order();
    lemma_small_mod(m as nat, p as nat);
    lemma_small_mod(s as nat, p as nat);
    let x = (a + m) % p;
    lemma_mul_is_commutative(x, sk);
    lemma_mod_twice(sk * x, p);
}

/// Correctness: a signature produced by an honest signer verifies.
pub proof fn lemma_sign_verifies(sk: int, a: int, m: int)
    requires
        0 <= sk < group_order(),
        0 <= a < group_order(),
        0 <= m < group_order(),
    ensures
        verifies(1, 1, sk, a, m, signature_val(sk, 1, a, m)),
{
    lemma_verify_characterized(sk, a, m, signature_val(sk, 1, a, m));
}

/// Tampering with the signature: any value other than the honestly signed
/// one is rejected.
pub proof fn lemma_tampered_signature(sk: int, a: int, m: int, s: int)
    requires
        0 <= sk < group_order(),
        0 <= a < group_order(),
        0 <= m < group_order(),
        0 <= s < group_order(),
        s != signature_val(sk, 1, a, m),
    ensures
        !verifies(1, 1, sk, a, m, s),
{
    lemma_verify_characterized(sk, a, m, s);
}

/// Tampering with the message: a signature honestly issued on `m1` is
/// rejected for a claimed message `m2` whenever `sk · (m1 − m2)` is a
/// nonzero residue.  The scalar order is prime, so that hypothesis holds
/// exactly when `sk` is nonzero and `m2 != m1`; that number-theoretic fact
/// is not formalized here, which is why the hypothesis is stated as the
/// product directly.
pub proof fn lemma_tampered_message(sk: int, a: int, m1: int, m2: int)
    requires
        0 <= sk < group_order(),
        0 <= a < group_order(),
        0 <= m1 < group_order(),
        0 <= m2 < group_order(),
        (sk * (m1 - m2)) % group_order() != 0,
    ensures
        !verifies(1, 1, sk, a, m2, signature_val(sk, 1, a, m1)),
{
    let p = group_order();
    let s1 = signature_val(sk, 1, a, m1);
    lemma_verify_characterized(sk, a, m2, s1);
    lemma_small_mod(m1 as nat, p as nat);
    lemma_small_mod(m2 as nat, p as nat);
    lemma_mul_mod_noop_right(sk, a + m1, p);
    lemma_mul_mod_noop_right(sk, a + m2, p);
    lemma_mod_equivalence(sk * (a + m1), sk * (a + m2), p);
    lemma_mul_is_distributive_add(sk, a, m1);
    lemma_mul_is_distributive_add(sk, a, m2);
    lemma_mul_is_distributive_sub(sk, m1, m2);
}

/// Tampering with the position or the dataset: a signature honestly issued
/// at an anchor `a1` is rejected at an anchor `a2` whenever `sk · (a1 − a2)`
/// is a nonzero residue.  Distinct (index, dataset) pairs give distinct
/// anchors exactly when the hash-to-curve map separates them; on that
/// separation the scheme relies, so the lemma takes the two anchor exponents
/// as inputs.
pub proof fn lemma_tampered_anchor(sk: int, a1: int, a2: int, m: int)
    requires
        0 <= sk < group_order(),
        0 <= a1 < group_order(),
        0 <= a2 < group_order(),
        0 <= m < group_order(),
        (sk * (a1 - a2)) % group_order() != 0,
    ensures
        !verifies(1, 1, sk, a2, m, signature_val(sk, 1, a1, m)),
{
    let p = group_order();
    let s1 = signature_val(sk, 1, a1, m);
    lemma_verify_characterized(sk, a2, m, s1);
    lemma_small_mod(m as nat, p as nat);
    lemma_mul_mod_noop_right(sk, a1 + m, p);
    lemma_mul_mod_noop_right(sk, a2 + m, p);
    lemma_mod_equivalence(sk * (a1 + m), sk * (a2 + m), p);
    lemma_mul_is_distributive_add(sk, a1, m);
    lemma_mul_is_distributive_add(sk, a2, m);
    lemma_mul_is_distributive_sub(sk, a1, a2);
}

/// The combination rule tracks the signing equation: combining the first `k`
/// honest signatures with weights `ws` yields exactly the signature of the
/// aggregate anchor and the combined message, `sk · (A_k + M_k)`.
pub proof fn lemma_combined_signature_tracks(
    sk: int,
    ws: Seq<int>,
    ms: Seq<int>,
    id: Seq<u8>,
    k: int,
)
    requires
        0 <= sk < group_order(),
        ms.len() == ws.len(),
        0 <= k <= ws.len(),
        forall|i: int| 0 <= i < ms.len() ==> 0 <= #[trigger] ms[i] < group_order(),
    ensures
        combined_signature_val(ws, honest_signature_vals(sk, 1, id, ms), k) == (sk * ((
        aggregate_anchor_val(ws, id, k) + combined_message_val(ws, ms, k)) % group_order()))
            % group_order(),
    decreases k,
{
    let p = group_order();
    if k <= 0 {
        lemma_small_mod(0nat, p as nat);
    } else {
        lemma_combined_signature_tracks(sk, ws, ms, id, k - 1);
        let aa = aggregate_anchor_val(ws, id, k - 1);
        let mm = combined_message_val(ws, ms, k - 1);
        let a = anchor_val((k - 1) as u64, id);
        let m = ms[k - 1];
        let w = ws[k - 1];
        let s = honest_signature_vals(sk, 1, id, ms)[k - 1];
        assert(s == signature_val(sk, 1, a, m));
        lemma_small_mod(m as nat, p as nat);
        let x = (a + m) % p;
        lemma_mul_mod_noop_right(w, sk * x, p);
        lemma_mul_is_associative(w, sk, x);
        lemma_mul_mod_noop_right(w * sk, a + m, p);
        lemma_mul_mod_noop_right(sk, aa + mm, p);
        lemma_add_mod_noop(sk * (aa + mm), (w * sk) * (a + m), p);
        assert(sk * (aa + mm) + (w * sk) * (a + m) == sk * (aa + mm + w * a + w * m))
            by (nonlinear_arith);
        lemma_mod_add_right(aa, w * a);
        lemma_mod_add_right(mm, w * m);
        lemma_add_mod_noop(aa + w * a, mm + w * m, p);
        lemma_mul_mod_noop_right(sk, aa + w * a + (mm + w * m), p);
    }
}

/// Under an honest key, a combined signature of honestly signed messages
/// verifies against a claimed aggregate message `m2` exactly when
/// `sk · (M − m2)` is a zero residue, `M` being the weighted combination of
/// the signed messages.
pub proof fn lemma_aggregate_characterized(
    sk: int,
    ws: Seq<int>,
    ms: Seq<int>,
    id: Seq<u8>,
    m2: int,
)
    requires
        0 <= sk < group_order(),
        ms.len() == ws.len(),
        0 <= m2 < group_order(),
        forall|i: int| 0 <= i < ms.len() ==> 0 <= #[trigger] ms[i] < group_order(),
    ensures
        verifies(
            1,
            1,
            sk,
            aggregate_anchor_val(ws, id, ws.len() as int),
            m2,
            combined_signature_val(ws, honest_signature_vals(sk, 1, id, ms), ws.len() as int),
        ) == ((sk * (combined_message_val(ws, ms, ws.len() as int) - m2)) % group_order() == 0),
{
    let p = group_order();
    let n = ws.len() as int;
    lemma_combined_signature_tracks(sk, ws, ms, id, n);
    let aa = aggregate_anchor_val(ws, id, n);
    let mm = combined_message_val(ws, ms, n);
    lemma_mul_mod_noop_right(sk, aa + mm, p);
    lemma_small_mod(m2 as nat, p as nat);
    lemma_mod_twice(sk * (aa + mm), p);
    lemma_mul_is_commutative((aa + m2) % p, sk);
    lemma_mul_mod_noop_right(sk, aa + m2, p);
    lemma_mod_equivalence(sk * (aa + mm), sk * (aa + m2), p);
    lemma_mul_is_distributive_add(sk, aa, mm);
    lemma_mul_is_distributive_add(sk, aa, m2);
    lemma_mul_is_distributive_sub(sk, mm, m2);
}

/// Homomorphism: combining honest signatures with weights `ws` produces a
/// signature that verifies against the same weighted combination of the
/// signed messages.
pub proof fn lemma_homomorphism(sk: int, ws: Seq<int>, ms: Seq<int>, id: Seq<u8>)
    requires
        0 <= sk < group_order(),
        ms.len() == ws.len(),
        forall|i: int| 0 <= i < ms.len() ==> 0 <= #[trigger] ms[i] < group_order(),
    ensures
        verifies(
            1,
            1,
            sk,
            aggregate_anchor_val(ws, id, ws.len() as int),
            combined_message_val(ws, ms, ws.len() as int),
            combined_signature_val(ws, honest_signature_vals(sk, 1, id, ms), ws.len() as int),
        ),
{
    let p = group_order();
    let n = ws.len() as int;
    let mm = combined_message_val(ws, ms, n);
    lemma_aggregate_characterized(sk, ws, ms, id, mm);
    assert(sk * (mm - mm) == 0) by (nonlinear_arith);
    lemma_small_mod(0nat, p as nat);
}

/// Aggregate rejection: a claimed aggregate message `m2` with
/// `sk · (M − m2)` a nonzero residue is rejected.  As with message
/// tampering, primality of the scalar order means this hypothesis holds
/// exactly when `sk` is nonzero and `m2` differs from the true combination
/// `M`; the lemma states the product hypothesis directly.
pub proof fn lemma_aggregate_rejection(sk: int, ws: Seq<int>, ms: Seq<int>, id: Seq<u8>, m2: int)
    requires
        0 <= sk < group_order(),
        ms.len() == ws.len(),
        0 <= m2 < group_order(),
        forall|i: int| 0 <= i < ms.len() ==> 0 <= #[trigger] ms[i] < group_order(),
        (sk * (combined_message_val(ws, ms, ws.len() as int) - m2)) % group_order() != 0,
    ensures
        !verifies(
            1,
            1,
            sk,
            aggregate_anchor_val(ws, id, ws.len() as int),
            m2,
            combined_signature_val(ws, honest_signature_vals(sk, 1, id, ms), ws.len() as int),
        ),
{
    lemma_aggregate_characterized(sk, ws, ms, id, m2);
}

} // verus!
