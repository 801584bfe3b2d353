//! General properties of the verification relation, stated and proved over
//! the integer model.

use vstd::prelude::*;
use crate::model::{lemma_msm_single_diff, msm, verify_model, ParamsModel, ProofModel};
use crate::modular::{
    eqm, fr, lemma_eqm_add, lemma_eqm_canon, lemma_eqm_mul, lemma_eqm_of_zero_diff,
    lemma_eqm_reduce, lemma_eqm_to_zero_diff,
};

verus! {

/// A proof whose `hidden_hat` length differs from the hidden-generator count,
/// or whose disclosed-message count differs from the revealed-generator
/// count, is rejected.
pub proof fn lemma_length_mismatch_rejected(
    w: int,
    pf: ProofModel,
    disclosed: Seq<int>,
    pp: ParamsModel,
)
    requires
        pf.hidden_hat.len() != pp.hid.len() || disclosed.len() != pp.rev.len(),
    ensures
        !verify_model(w, pf, disclosed, pp),
{
}

/// The accepted commitments are determined by the rest of the proof: two
/// accepted proofs that agree on every field but `c1` and `c2` agree on those
/// as well. Substituting any other value for `c1` or `c2` therefore makes the
/// verifier reject.
pub proof fn lemma_commitments_determined(
    w: int,
    pf1: ProofModel,
    pf2: ProofModel,
    disclosed: Seq<int>,
    pp: ParamsModel,
)
    requires
        verify_model(w, pf1, disclosed, pp),
        verify_model(w, pf2, disclosed, pp),
        pf1.a_prime == pf2.a_prime,
        pf1.a_bar == pf2.a_bar,
        pf1.d == pf2.d,
        pf1.c == pf2.c,
        pf1.e_hat == pf2.e_hat,
        pf1.r2_hat == pf2.r2_hat,
        pf1.r3_hat == pf2.r3_hat,
        pf1.s_hat == pf2.s_hat,
        pf1.hidden_hat == pf2.hidden_hat,
    ensures
        pf1.c1 == pf2.c1,
        pf1.c2 == pf2.c2,
{
}

/// Response binding: the accepted response `e_hat` is determined by the rest
/// of the proof whenever the randomized signature point `a_prime` is
/// invertible modulo the group order (witnessed by `ap_inv`). Substituting
/// any value not congruent to it therefore makes the verifier reject; the
/// invertibility hypothesis excludes only an `a_prime` congruent to zero.
pub proof fn lemma_response_binding(
    w: int,
    pf1: ProofModel,
    pf2: ProofModel,
    disclosed: Seq<int>,
    pp: ParamsModel,
    ap_inv: int,
)
    requires
        verify_model(w, pf1, disclosed, pp),
        verify_model(w, pf2, disclosed, pp),
        pf1.a_prime == pf2.a_prime,
        pf1.a_bar == pf2.a_bar,
        pf1.d == pf2.d,
        pf1.c == pf2.c,
        pf1.r2_hat == pf2.r2_hat,
        pf1.c1 == pf2.c1,
        eqm(pf1.a_prime * ap_inv, 1),
    ensures
        eqm(pf1.e_hat, pf2.e_hat),
{
    let x1 = (pf1.a_bar - pf1.d) * pf1.c + pf1.a_prime * pf1.e_hat + pp.h0 * pf1.r2_hat;
    let x2 = (pf2.a_bar - pf2.d) * pf2.c + pf2.a_prime * pf2.e_hat + pp.h0 * pf2.r2_hat;
    lemma_eqm_reduce(x1);
    lemma_eqm_reduce(x2);
    lemma_eqm_to_zero_diff(x1, x2);
    let delta = pf1.e_hat - pf2.e_hat;
    assert(x1 - x2 == pf1.a_prime * delta) by (nonlinear_arith)
        requires
            x1 - x2 == pf1.a_prime * pf1.e_hat - pf1.a_prime * pf2.e_hat,
            delta == pf1.e_hat - pf2.e_hat;
    lemma_eqm_mul(ap_inv, pf1.a_prime * delta, ap_inv, 0);
    assert(ap_inv * (pf1.a_prime * delta) == (pf1.a_prime * ap_inv) * delta) by (nonlinear_arith);
    lemma_eqm_mul(pf1.a_prime * ap_inv, delta, 1, delta);
    assert(ap_inv * 0 == 0) by (nonlinear_arith);
    lemma_eqm_of_zero_diff(pf1.e_hat, pf2.e_hat);
}

/// Message binding: one proof cannot stand for two different disclosed
/// message vectors. If the verifier accepts the same proof for `d1` and for
/// `d2`, which differ at most in slot `i`, and both the challenge and slot
/// `i`'s generator are invertible modulo the group order (witnessed by
/// `c_inv` and `g_inv`), then the two disclosed values at slot `i` are
/// congruent. The invertibility hypotheses exclude only the degenerate
/// inputs: a challenge or generator congruent to zero.
pub proof fn lemma_message_binding(
    w: int,
    pf: ProofModel,
    d1: Seq<int>,
    d2: Seq<int>,
    pp: ParamsModel,
    i: int,
    c_inv: int,
    g_inv: int,
)
    requires
        verify_model(w, pf, d1, pp),
        verify_model(w, pf, d2, pp),
        0 <= i < pp.rev.len(),
        forall|j: int| 0 <= j < pp.rev.len() && j != i ==> #[trigger] d1[j] == d2[j],
        eqm(pf.c * c_inv, 1),
        eqm(pp.rev[i] * g_inv, 1),
    ensures
        eqm(d1[i], d2[i]),
{
    let x1 = (pp.p1 + msm(pp.rev, d1)) * pf.c - pf.d * pf.r3_hat + pp.h0 * pf.s_hat
        + msm(pp.hid, pf.hidden_hat);
    let x2 = (pp.p1 + msm(pp.rev, d2)) * pf.c - pf.d * pf.r3_hat + pp.h0 * pf.s_hat
        + msm(pp.hid, pf.hidden_hat);
    // Both accepted: the two recomputed commitments are congruent.
    lemma_eqm_reduce(x1);
    lemma_eqm_reduce(x2);
    assert(eqm(x1, x2));
    lemma_eqm_to_zero_diff(x1, x2);
    // Their difference is the challenge times the slot difference.
    let delta = msm(pp.rev, d1) - msm(pp.rev, d2);
    lemma_msm_single_diff(pp.rev, d1, d2, i);
    assert(x1 - x2 == pf.c * delta) by (nonlinear_arith)
        requires x1 - x2 == (pp.p1 + msm(pp.rev, d1)) * pf.c - (pp.p1 + msm(pp.rev, d2)) * pf.c,
            delta == msm(pp.rev, d1) - msm(pp.rev, d2);
    // Cancel the challenge with its inverse.
    lemma_eqm_mul(c_inv, pf.c * delta, c_inv, 0);
    assert(c_inv * (pf.c * delta) == (pf.c * c_inv) * delta) by (nonlinear_arith);
    lemma_eqm_mul(pf.c * c_inv, delta, 1, delta);
    assert(c_inv * 0 == 0) by (nonlinear_arith);
    assert(eqm(delta, 0));
    // Cancel the generator with its inverse.
    let md = d1[i] - d2[i];
    lemma_eqm_mul(g_inv, pp.rev[i] * md, g_inv, 0);
    assert(g_inv * (pp.rev[i] * md) == (pp.rev[i] * g_inv) * md) by (nonlinear_arith);
    lemma_eqm_mul(pp.rev[i] * g_inv, md, 1, md);
    assert(g_inv * 0 == 0) by (nonlinear_arith);
    assert(eqm(d1[i] - d2[i], 0));
    lemma_eqm_of_zero_diff(d1[i], d2[i]);
}

/// Extensibility: an accepted proof extends to one more hidden slot. Adding a
/// new hidden generator `g_new` with response `m_new`, leaving `c1` unchanged
/// and folding the term `g_new * m_new` into `c2`, keeps the verifier
/// accepting against the extended generator list.
pub proof fn lemma_proof_extension(
    w: int,
    pf: ProofModel,
    pf2: ProofModel,
    disclosed: Seq<int>,
    pp: ParamsModel,
    pp2: ParamsModel,
    g_new: int,
    m_new: int,
)
    requires
        verify_model(w, pf, disclosed, pp),
        pp2 == (ParamsModel { hid: pp.hid.push(g_new), ..pp }),
        pf2 == (ProofModel {
            hidden_hat: pf.hidden_hat.push(m_new),
            c2: (pf.c2 + g_new * m_new) % fr(),
            ..pf
        }),
    ensures
        verify_model(w, pf2, disclosed, pp2),
{
    // The extended sum picks up exactly the new term.
    assert(pp2.hid.drop_last() =~= pp.hid);
    assert(pf2.hidden_hat.drop_last() =~= pf.hidden_hat);
    assert(msm(pp2.hid, pf2.hidden_hat)
        == msm(pp.hid, pf.hidden_hat) + g_new * m_new);
    let x = (pp.p1 + msm(pp.rev, disclosed)) * pf.c - pf.d * pf.r3_hat + pp.h0 * pf.s_hat
        + msm(pp.hid, pf.hidden_hat);
    // c2 was canonical; the extended c2 is the canonical form of x plus the
    // new term.
    lemma_eqm_reduce(x);
    lemma_eqm_add(x % fr(), g_new * m_new, x, g_new * m_new);
    lemma_eqm_reduce(pf.c2 + g_new * m_new);
    lemma_eqm_canon(pf2.c2, x + g_new * m_new);
}

} // verus!
