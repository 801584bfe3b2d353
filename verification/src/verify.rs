//! Proof verification: length checks, the two recomputed Schnorr commitments,
//! and the bilinear pairing check.

use vstd::prelude::*;
use crate::curve::{
    g1_add, g1_eq, g1_identity, g1_log, g1_mul, g1_sub, g2_log, gt_eq, pairing_of, s_val,
    scalar_neg,
};
use crate::model::{msm, verify_model};
use crate::modular::{eqm, fr, lemma_eqm_add, lemma_eqm_canon, lemma_eqm_mul, lemma_eqm_reduce};
use crate::types::{msm_add, scalar_vals, Proof, PublicParameters};

verus! {

use bls12_381::{G2Projective, Scalar};

/// Decides whether `proof` demonstrates possession of a valid signature under
/// the issuer public key `w` over a message vector whose disclosed slots equal
/// `disclosed`. Pure check; it accepts exactly when the integer model of its
/// inputs satisfies the protocol's verification equations, and it rejects a
/// length mismatch before any pairing is evaluated.
pub fn verify_proof(
    w: &G2Projective,
    proof: &Proof,
    disclosed: &Vec<Scalar>,
    params: &PublicParameters,
) -> (r: bool)
    ensures
        r == verify_model(g2_log(*w), proof.model(), scalar_vals(disclosed@), params.model()),
{
    let ghost pf = proof.model();
    let ghost pp = params.model();

    if disclosed.len() != params.revealed_generators.len() {
        return false;
    }
    if proof.hidden_hat.len() != params.hidden_generators.len() {
        return false;
    }

    // First commitment: c1 must equal (a_bar - d) * c + a_prime * e_hat + h0 * r2_hat.
    let u1 = g1_mul(&g1_sub(&proof.a_bar, &proof.d), &proof.c);
    let u2 = g1_mul(&proof.a_prime, &proof.e_hat);
    let u3 = g1_mul(&params.h0, &proof.r2_hat);
    let c1_v = g1_add(&g1_add(&u1, &u2), &u3);
    proof {
        lemma_eqm_reduce(pf.a_bar - pf.d);
        lemma_eqm_mul((pf.a_bar - pf.d) % fr(), pf.c, pf.a_bar - pf.d, pf.c);
        lemma_eqm_reduce(((pf.a_bar - pf.d) % fr()) * pf.c);
        lemma_eqm_reduce(pf.a_prime * pf.e_hat);
        lemma_eqm_add(g1_log(u1), g1_log(u2), (pf.a_bar - pf.d) * pf.c, pf.a_prime * pf.e_hat);
        lemma_eqm_reduce(g1_log(u1) + g1_log(u2));
        lemma_eqm_reduce(pp.h0 * pf.r2_hat);
        lemma_eqm_add(
            (g1_log(u1) + g1_log(u2)) % fr(),
            g1_log(u3),
            (pf.a_bar - pf.d) * pf.c + pf.a_prime * pf.e_hat,
            pp.h0 * pf.r2_hat,
        );
        lemma_eqm_reduce((g1_log(u1) + g1_log(u2)) % fr() + g1_log(u3));
        lemma_eqm_canon(
            g1_log(c1_v),
            (pf.a_bar - pf.d) * pf.c + pf.a_prime * pf.e_hat + pp.h0 * pf.r2_hat,
        );
    }
    if !g1_eq(&proof.c1, &c1_v) {
        return false;
    }

    // Second commitment: c2 must equal
    // (p1 + sum revealed_generators[i] * disclosed[i]) * c - d * r3_hat + h0 * s_hat
    //   + sum hidden_generators[j] * hidden_hat[j].
    let t = msm_add(&params.p1, &params.revealed_generators, disclosed);
    let hidden_base = g1_identity();
    let hidden_t = msm_add(&hidden_base, &params.hidden_generators, &proof.hidden_hat);
    let neg_r3_hat = scalar_neg(&proof.r3_hat);
    let v1 = g1_mul(&t, &proof.c);
    let v2 = g1_mul(&proof.d, &neg_r3_hat);
    let v3 = g1_mul(&params.h0, &proof.s_hat);
    let c2_v = g1_add(&g1_add(&v1, &v2), &g1_add(&v3, &hidden_t));
    proof {
        let tv = pp.p1 + msm(pp.rev, scalar_vals(disclosed@));
        let hv = msm(pp.hid, pf.hidden_hat);
        // v1: t * c
        lemma_eqm_mul(g1_log(t), pf.c, tv, pf.c);
        lemma_eqm_reduce(g1_log(t) * pf.c);
        // v2: d * (-r3_hat)
        lemma_eqm_reduce(0 - pf.r3_hat);
        lemma_eqm_mul(pf.d, s_val(neg_r3_hat), pf.d, 0 - pf.r3_hat);
        lemma_eqm_reduce(pf.d * s_val(neg_r3_hat));
        assert(pf.d * (0 - pf.r3_hat) == 0 - pf.d * pf.r3_hat) by (nonlinear_arith);
        // v1 + v2
        lemma_eqm_add(g1_log(v1), g1_log(v2), tv * pf.c, 0 - pf.d * pf.r3_hat);
        lemma_eqm_reduce(g1_log(v1) + g1_log(v2));
        // v3 + hidden_t
        lemma_eqm_reduce(pp.h0 * pf.s_hat);
        lemma_eqm_add(g1_log(v3), g1_log(hidden_t), pp.h0 * pf.s_hat, 0 + hv);
        lemma_eqm_reduce(g1_log(v3) + g1_log(hidden_t));
        // the full sum
        lemma_eqm_add(
            (g1_log(v1) + g1_log(v2)) % fr(),
            (g1_log(v3) + g1_log(hidden_t)) % fr(),
            tv * pf.c + (0 - pf.d * pf.r3_hat),
            pp.h0 * pf.s_hat + hv,
        );
        lemma_eqm_reduce((g1_log(v1) + g1_log(v2)) % fr() + (g1_log(v3) + g1_log(hidden_t)) % fr());
        lemma_eqm_canon(
            g1_log(c2_v),
            tv * pf.c - pf.d * pf.r3_hat + pp.h0 * pf.s_hat + hv,
        );
    }
    if !g1_eq(&proof.c2, &c2_v) {
        return false;
    }

    // Pairing check: e(a_bar, p2) must equal e(a_prime, w).
    let lhs = pairing_of(&proof.a_bar, &params.p2);
    let rhs = pairing_of(&proof.a_prime, w);
    gt_eq(&lhs, &rhs)
}

} // verus!
