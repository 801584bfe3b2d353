//! The mathematical model of the protocol: every group element is represented
//! by its discrete logarithm, an integer modulo `fr()`, and the protocol's
//! algebraic checks are stated as congruences over those integers.

use vstd::prelude::*;
use crate::modular::{eqm, fr, lemma_eqm_add, lemma_eqm_mul, lemma_eqm_reduce};

verus! {

/// The multi-scalar sum `gens[0] * msgs[0] + ... + gens[n-1] * msgs[n-1]`
/// (not reduced modulo the group order).
pub open spec fn msm(gens: Seq<int>, msgs: Seq<int>) -> int
    decreases gens.len(),
{
    if gens.len() == 0 || msgs.len() == 0 {
        0
    } else {
        msm(gens.drop_last(), msgs.drop_last()) + gens.last() * msgs.last()
    }
}

/// The multi-scalar sum over a concatenation splits into the two parts.
pub proof fn lemma_msm_concat(g1: Seq<int>, m1: Seq<int>, g2: Seq<int>, m2: Seq<int>)
    requires
        g1.len() == m1.len(),
        g2.len() == m2.len(),
    ensures
        msm(g1 + g2, m1 + m2) == msm(g1, m1) + msm(g2, m2),
    decreases g2.len(),
{
    if g2.len() == 0 {
        assert(g1 + g2 =~= g1);
        assert(m1 + m2 =~= m1);
    } else {
        assert((g1 + g2).drop_last() =~= g1 + g2.drop_last());
        assert((m1 + m2).drop_last() =~= m1 + m2.drop_last());
        lemma_msm_concat(g1, m1, g2.drop_last(), m2.drop_last());
    }
}

/// Extending the sum by one more prefix element.
pub proof fn lemma_msm_take_step(gens: Seq<int>, msgs: Seq<int>, i: int)
    requires
        gens.len() == msgs.len(),
        0 <= i < gens.len(),
    ensures
        msm(gens.take(i + 1), msgs.take(i + 1)) == msm(gens.take(i), msgs.take(i)) + gens[i] * msgs[i],
{
    assert(gens.take(i + 1).drop_last() =~= gens.take(i));
    assert(msgs.take(i + 1).drop_last() =~= msgs.take(i));
}

/// If each coefficient of `hh` is congruent to `t[j] + c * m[j]`, the whole
/// sum is congruent to `msm(gens, t) + c * msm(gens, m)`.
pub proof fn lemma_msm_combine(gens: Seq<int>, t: Seq<int>, m: Seq<int>, hh: Seq<int>, c: int)
    requires
        t.len() == gens.len(),
        m.len() == gens.len(),
        hh.len() == gens.len(),
        forall|j: int| 0 <= j < gens.len() ==> eqm(#[trigger] hh[j], t[j] + c * m[j]),
    ensures
        eqm(msm(gens, hh), msm(gens, t) + c * msm(gens, m)),
    decreases gens.len(),
{
    if gens.len() == 0 {
        lemma_eqm_reduce(0);
    } else {
        let n = gens.len() - 1;
        lemma_msm_combine(gens.drop_last(), t.drop_last(), m.drop_last(), hh.drop_last(), c);
        lemma_eqm_reduce(gens[n]);
        lemma_eqm_mul(gens[n], hh[n], gens[n], t[n] + c * m[n]);
        lemma_eqm_add(
            msm(gens.drop_last(), hh.drop_last()),
            gens[n] * hh[n],
            msm(gens.drop_last(), t.drop_last()) + c * msm(gens.drop_last(), m.drop_last()),
            gens[n] * (t[n] + c * m[n]),
        );
        assert(msm(gens.drop_last(), t.drop_last()) + c * msm(gens.drop_last(), m.drop_last())
            + gens[n] * (t[n] + c * m[n])
            == (msm(gens.drop_last(), t.drop_last()) + gens[n] * t[n])
                + c * (msm(gens.drop_last(), m.drop_last()) + gens[n] * m[n]))
            by (nonlinear_arith);
    }
}

/// If two coefficient vectors differ in at most one slot, the two sums differ
/// by that slot's term.
pub proof fn lemma_msm_single_diff(gens: Seq<int>, m1: Seq<int>, m2: Seq<int>, i: int)
    requires
        m1.len() == gens.len(),
        m2.len() == gens.len(),
        0 <= i < gens.len(),
        forall|j: int| 0 <= j < gens.len() && j != i ==> #[trigger] m1[j] == m2[j],
    ensures
        msm(gens, m1) - msm(gens, m2) == gens[i] * (m1[i] - m2[i]),
    decreases gens.len(),
{
    let n = gens.len() - 1;
    if i == n {
        assert(m1.drop_last() =~= m2.drop_last());
        assert(gens[n] * m1[n] - gens[n] * m2[n] == gens[n] * (m1[n] - m2[n])) by (nonlinear_arith);
    } else {
        lemma_msm_single_diff(gens.drop_last(), m1.drop_last(), m2.drop_last(), i);
    }
}

/// The discrete logarithms of the public parameters: the two base points, the
/// blinding generator, and one generator per revealed and per hidden message
/// slot.
pub struct ParamsModel {
    pub p1: int,
    pub p2: int,
    pub h0: int,
    pub rev: Seq<int>,
    pub hid: Seq<int>,
}

/// The integer model of a selective-disclosure proof: discrete logarithms of
/// its points and canonical values of its scalars.
pub struct ProofModel {
    pub a_prime: int,
    pub a_bar: int,
    pub d: int,
    pub c: int,
    pub e_hat: int,
    pub r2_hat: int,
    pub r3_hat: int,
    pub s_hat: int,
    pub hidden_hat: Seq<int>,
    pub c1: int,
    pub c2: int,
}

/// Validity of a signature `(a, e, s)` over the message values `msgs` under
/// the issuer public key of logarithm `w`: the logarithm form of the pairing
/// equation `e(b, p2) == e(a, w + p2 * e)` with
/// `b = p1 + h0 * s + sum(generators[i] * msgs[i])`.
pub open spec fn sig_valid(a: int, e: int, s: int, msgs: Seq<int>, pp: ParamsModel, w: int) -> bool {
    eqm((pp.p1 + s * pp.h0 + msm(pp.rev + pp.hid, msgs)) * pp.p2, a * (w + pp.p2 * e))
}

/// The verifier's decision on the integer model of its inputs: both length
/// checks, the two recomputed Schnorr commitments, and the pairing check.
pub open spec fn verify_model(w: int, pf: ProofModel, disclosed: Seq<int>, pp: ParamsModel) -> bool {
    &&& disclosed.len() == pp.rev.len()
    &&& pf.hidden_hat.len() == pp.hid.len()
    &&& pf.c1 == ((pf.a_bar - pf.d) * pf.c + pf.a_prime * pf.e_hat + pp.h0 * pf.r2_hat) % fr()
    &&& pf.c2 == ((pp.p1 + msm(pp.rev, disclosed)) * pf.c - pf.d * pf.r3_hat + pp.h0 * pf.s_hat
        + msm(pp.hid, pf.hidden_hat)) % fr()
    &&& eqm(pf.a_bar * pp.p2, pf.a_prime * w)
}

} // verus!
