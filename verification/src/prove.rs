//! Proof generation: randomizing the signature into `a_prime, a_bar, d`,
//! committing with the Schnorr blinding scalars, and answering the challenge.
//! The contract of `create_proof_with` is the scheme's completeness theorem:
//! an honestly generated proof satisfies the verifier's equations.

use vstd::prelude::*;
use crate::curve::{
    fresh_scalar, g1_add, g1_log, g1_mul, g2_log, s_val, scalar_add, scalar_invert, scalar_mul,
    scalar_neg,
};
use crate::model::{
    lemma_msm_combine, lemma_msm_concat, msm, sig_valid, verify_model,
};
use crate::modular::{
    eqm, fr, lemma_eqm_add, lemma_eqm_canon, lemma_eqm_mul, lemma_eqm_reduce, lemma_eqm_sub,
};
use crate::types::{msm_add, scalar_vals, Error, Proof, PublicParameters, Signature};

verus! {

use bls12_381::{G2Projective, Scalar};

/// How often proof generation resamples a degenerate `r1` before giving up.
pub const PROOF_RETRIES: usize = 16;

/// The scalars a proof session consumes: the signature randomizers `r1, r2`,
/// the Schnorr blinding scalars (one `m_tildes[j]` per hidden message), and
/// the challenge `c`. For a non-interactive proof the challenge must be the
/// output of a collision-resistant transcript hash (a Fiat-Shamir transform)
/// over the public parameters, `a_prime, a_bar, d, c1, c2` and the disclosed
/// messages; a randomly sampled challenge yields only the interactive variant
/// of the protocol.
pub struct ProofRandomness {
    pub r1: Scalar,
    pub r2: Scalar,
    pub e_tilde: Scalar,
    pub s_tilde: Scalar,
    pub r2_tilde: Scalar,
    pub r3_tilde: Scalar,
    pub m_tildes: Vec<Scalar>,
    pub c: Scalar,
}

impl ProofRandomness {
    /// All scalars lie in their canonical ranges.
    pub open spec fn wf(&self) -> bool {
        &&& 0 <= s_val(self.r1) < fr()
        &&& 0 <= s_val(self.r2) < fr()
        &&& 0 <= s_val(self.e_tilde) < fr()
        &&& 0 <= s_val(self.s_tilde) < fr()
        &&& 0 <= s_val(self.r2_tilde) < fr()
        &&& 0 <= s_val(self.r3_tilde) < fr()
        &&& 0 <= s_val(self.c) < fr()
    }
}

/// The ring identity behind the first commitment check: substituting the
/// prover's assignments into the verifier's recomputation of `c1` collapses
/// to the committed value.
#[verifier::rlimit(100)]
proof fn lemma_c1_identity(ap: int, e: int, b: int, r1: int, h0: int, r2: int, c: int, et: int, r2t: int)
    by (nonlinear_arith)
    ensures
        (((0 - ap * e) + b * r1) - (b * r1 + h0 * r2)) * c + ap * (et + c * e) + h0 * (r2t + c * r2)
            == ap * et + h0 * r2t,
{
}

/// The ring identity behind the second commitment check: the verifier's
/// recomputation of `c2` differs from the committed value by
/// `c * b * (1 - r1 * r3)`, which vanishes once `r3` is the inverse of `r1`.
proof fn lemma_c2_identity(
    c: int, p1: int, mr: int, mh: int, s: int, h0: int, r2: int, r3: int, r3t: int, st: int,
    mt: int, r1: int, bp: int, dp: int,
)
    requires
        bp == p1 + s * h0 + mr + mh,
        dp == bp * r1 + h0 * r2,
    ensures
        (p1 + mr) * c - dp * (r3t + c * r3) + h0 * (st + c * (s + r2 * r3)) + mt + c * mh
            == ((0 - dp * r3t) + h0 * st + mt) + c * bp - (c * bp) * (r1 * r3),
{
    assert(dp * (r3t + c * r3) == dp * r3t + dp * (c * r3)) by (nonlinear_arith);
    assert(dp * (c * r3) == (bp * r1) * (c * r3) + (h0 * r2) * (c * r3)) by (nonlinear_arith)
        requires dp == bp * r1 + h0 * r2;
    assert((bp * r1) * (c * r3) == c * (bp * (r1 * r3))) by (nonlinear_arith);
    assert((h0 * r2) * (c * r3) == c * (h0 * (r2 * r3))) by (nonlinear_arith);
    assert(h0 * (st + c * (s + r2 * r3)) == h0 * st + h0 * (c * s) + h0 * (c * (r2 * r3)))
        by (nonlinear_arith);
    assert(h0 * (c * s) == c * (s * h0)) by (nonlinear_arith);
    assert(h0 * (c * (r2 * r3)) == c * (h0 * (r2 * r3))) by (nonlinear_arith);
    assert((p1 + mr) * c == c * p1 + c * mr) by (nonlinear_arith);
    assert(c * bp == c * p1 + c * (s * h0) + c * mr + c * mh) by (nonlinear_arith)
        requires bp == p1 + s * h0 + mr + mh;
    assert((c * bp) * (r1 * r3) == c * (bp * (r1 * r3))) by (nonlinear_arith);
}

/// The ring identity behind the pairing check: the randomized `a_bar` pairs
/// with the G2 base point as `a_prime` pairs with the issuer key, up to a
/// multiple of the signature's validity equation.
#[verifier::rlimit(100)]
proof fn lemma_pairing_identity(a: int, r1: int, e: int, bp: int, p2: int, w: int)
    by (nonlinear_arith)
    ensures
        ((0 - (a * r1) * e) + bp * r1) * p2
            == (a * r1) * w + r1 * (bp * p2) - r1 * (a * (w + p2 * e)),
{
}

/// Produces a selective-disclosure proof from a valid signature over the
/// messages `revealed ++ hidden`, using the given session scalars. Succeeds
/// exactly when the randomizer `r1` is invertible, that is when
/// `r1 % fr() != 0`; the proof then satisfies the verifier's equations for
/// the disclosed messages `revealed` — the scheme's completeness theorem.
pub fn create_proof_with(
    signature: &Signature,
    revealed: &Vec<Scalar>,
    hidden: &Vec<Scalar>,
    w: &G2Projective,
    params: &PublicParameters,
    rnd: &ProofRandomness,
) -> (r: Result<Proof, Error>)
    requires
        revealed.len() == params.revealed_generators.len(),
        hidden.len() == params.hidden_generators.len(),
        rnd.m_tildes.len() == hidden.len(),
        signature.wf(),
        rnd.wf(),
        sig_valid(
            g1_log(signature.a),
            s_val(signature.e),
            s_val(signature.s),
            scalar_vals(revealed@) + scalar_vals(hidden@),
            params.model(),
            g2_log(*w),
        ),
    ensures
        r is Ok <==> s_val(rnd.r1) != 0,
        r matches Err(err) ==> err == Error::DomainError,
        r is Ok ==> verify_model(
            g2_log(*w),
            r.unwrap().model(),
            scalar_vals(revealed@),
            params.model(),
        ),
{
    let ghost pp = params.model();
    let ghost big_a = g1_log(signature.a);
    let ghost big_e = s_val(signature.e);
    let ghost big_s = s_val(signature.s);
    let ghost big_w = g2_log(*w);
    let ghost cc = s_val(rnd.c);
    let ghost rv1 = s_val(rnd.r1);
    let ghost rv2 = s_val(rnd.r2);
    let ghost et = s_val(rnd.e_tilde);
    let ghost st = s_val(rnd.s_tilde);
    let ghost r2t = s_val(rnd.r2_tilde);
    let ghost r3t = s_val(rnd.r3_tilde);
    let ghost mrv = scalar_vals(revealed@);
    let ghost mhv = scalar_vals(hidden@);
    let ghost mtv = scalar_vals(rnd.m_tildes@);
    let ghost big_mr = msm(pp.rev, mrv);
    let ghost big_mh = msm(pp.hid, mhv);
    let ghost big_mt = msm(pp.hid, mtv);
    let ghost bp = pp.p1 + big_s * pp.h0 + big_mr + big_mh;
    let ghost dp = bp * rv1 + pp.h0 * rv2;

    // r3 = r1^-1; a zero r1 is the domain failure.
    let r3 = match scalar_invert(&rnd.r1) {
        Some(r3) => r3,
        None => {
            proof {
                vstd::arithmetic::div_mod::lemma_small_mod(rv1 as nat, fr() as nat);
            }
            return Err(Error::DomainError);
        },
    };
    let ghost rv3 = s_val(r3);
    proof {
        vstd::arithmetic::div_mod::lemma_small_mod(rv1 as nat, fr() as nat);
        vstd::arithmetic::div_mod::lemma_small_mod(1nat, fr() as nat);
        assert(eqm(rv1 * rv3, 1));
    }

    // b = p1 + h0 * s + sum(generators[i] * messages[i]), as at signing time.
    let base = g1_add(&params.p1, &g1_mul(&params.h0, &signature.s));
    let partial = msm_add(&base, &params.revealed_generators, revealed);
    let b = msm_add(&partial, &params.hidden_generators, hidden);
    let ghost bl = g1_log(b);
    proof {
        lemma_eqm_reduce(pp.h0 * big_s);
        lemma_eqm_add(pp.p1, (pp.h0 * big_s) % fr(), pp.p1, pp.h0 * big_s);
        lemma_eqm_reduce(pp.p1 + (pp.h0 * big_s) % fr());
        lemma_eqm_add(g1_log(base), big_mr, pp.p1 + pp.h0 * big_s, big_mr);
        lemma_eqm_add(g1_log(partial), big_mh, pp.p1 + pp.h0 * big_s + big_mr, big_mh);
        assert(pp.h0 * big_s == big_s * pp.h0) by (nonlinear_arith);
        assert(eqm(bl, bp));
    }

    // Randomized signature commitments.
    let a_prime = g1_mul(&signature.a, &rnd.r1);
    let neg_e = scalar_neg(&signature.e);
    let a_bar = g1_add(&g1_mul(&a_prime, &neg_e), &g1_mul(&b, &rnd.r1));
    let d = g1_add(&g1_mul(&b, &rnd.r1), &g1_mul(&params.h0, &rnd.r2));
    let s_prime = scalar_add(&signature.s, &scalar_mul(&rnd.r2, &r3));
    let ghost apl = g1_log(a_prime);
    let ghost abl = g1_log(a_bar);
    let ghost dl = g1_log(d);
    let ghost spl = s_val(s_prime);
    proof {
        lemma_eqm_reduce(big_a * rv1);
        // a_bar == a_prime * (-e) + b * r1
        lemma_eqm_reduce(0 - big_e);
        lemma_eqm_mul(apl, s_val(neg_e), apl, 0 - big_e);
        assert(apl * (0 - big_e) == 0 - apl * big_e) by (nonlinear_arith);
        lemma_eqm_reduce(apl * s_val(neg_e));
        lemma_eqm_reduce(bl * rv1);
        lemma_eqm_add((apl * s_val(neg_e)) % fr(), (bl * rv1) % fr(),
            0 - apl * big_e, bl * rv1);
        lemma_eqm_reduce((apl * s_val(neg_e)) % fr() + (bl * rv1) % fr());
        assert(eqm(abl, (0 - apl * big_e) + bl * rv1));
        // d == b * r1 + h0 * r2
        lemma_eqm_reduce(pp.h0 * rv2);
        lemma_eqm_add((bl * rv1) % fr(), (pp.h0 * rv2) % fr(), bl * rv1, pp.h0 * rv2);
        lemma_eqm_reduce((bl * rv1) % fr() + (pp.h0 * rv2) % fr());
        assert(eqm(dl, bl * rv1 + pp.h0 * rv2));
        // s_prime == s + r2 * r3
        lemma_eqm_reduce(rv2 * rv3);
        lemma_eqm_add(big_s, (rv2 * rv3) % fr(), big_s, rv2 * rv3);
        lemma_eqm_reduce(big_s + (rv2 * rv3) % fr());
        assert(eqm(spl, big_s + rv2 * rv3));
    }

    // First-move commitments.
    let c1 = g1_add(&g1_mul(&a_prime, &rnd.e_tilde), &g1_mul(&params.h0, &rnd.r2_tilde));
    let neg_r3_tilde = scalar_neg(&rnd.r3_tilde);
    let c2_base = g1_add(&g1_mul(&d, &neg_r3_tilde), &g1_mul(&params.h0, &rnd.s_tilde));
    let c2 = msm_add(&c2_base, &params.hidden_generators, &rnd.m_tildes);
    let ghost c1l = g1_log(c1);
    let ghost c2l = g1_log(c2);
    proof {
        // c1 == a_prime * e_tilde + h0 * r2_tilde
        lemma_eqm_reduce(apl * et);
        lemma_eqm_reduce(pp.h0 * r2t);
        lemma_eqm_add((apl * et) % fr(), (pp.h0 * r2t) % fr(), apl * et, pp.h0 * r2t);
        lemma_eqm_reduce((apl * et) % fr() + (pp.h0 * r2t) % fr());
        assert(eqm(c1l, apl * et + pp.h0 * r2t));
        // c2 == d * (-r3_tilde) + h0 * s_tilde + sum(hidden_generators[j] * m_tildes[j])
        lemma_eqm_reduce(0 - r3t);
        lemma_eqm_mul(dl, s_val(neg_r3_tilde), dl, 0 - r3t);
        assert(dl * (0 - r3t) == 0 - dl * r3t) by (nonlinear_arith);
        lemma_eqm_reduce(dl * s_val(neg_r3_tilde));
        lemma_eqm_reduce(pp.h0 * st);
        lemma_eqm_add((dl * s_val(neg_r3_tilde)) % fr(), (pp.h0 * st) % fr(),
            0 - dl * r3t, pp.h0 * st);
        lemma_eqm_reduce((dl * s_val(neg_r3_tilde)) % fr() + (pp.h0 * st) % fr());
        lemma_eqm_add(g1_log(c2_base), big_mt, (0 - dl * r3t) + pp.h0 * st, big_mt);
        assert(eqm(c2l, (0 - dl * r3t) + pp.h0 * st + big_mt));
    }

    // Challenge-bound responses.
    let e_hat = scalar_add(&rnd.e_tilde, &scalar_mul(&rnd.c, &signature.e));
    let s_hat = scalar_add(&rnd.s_tilde, &scalar_mul(&rnd.c, &s_prime));
    let r2_hat = scalar_add(&rnd.r2_tilde, &scalar_mul(&rnd.c, &rnd.r2));
    let r3_hat = scalar_add(&rnd.r3_tilde, &scalar_mul(&rnd.c, &r3));
    let ghost ehl = s_val(e_hat);
    let ghost shl = s_val(s_hat);
    let ghost r2hl = s_val(r2_hat);
    let ghost r3hl = s_val(r3_hat);
    proof {
        lemma_eqm_reduce(cc * big_e);
        lemma_eqm_add(et, (cc * big_e) % fr(), et, cc * big_e);
        lemma_eqm_reduce(et + (cc * big_e) % fr());
        assert(eqm(ehl, et + cc * big_e));
        lemma_eqm_reduce(cc * spl);
        lemma_eqm_mul(cc, spl, cc, big_s + rv2 * rv3);
        lemma_eqm_add(st, (cc * spl) % fr(), st, cc * (big_s + rv2 * rv3));
        lemma_eqm_reduce(st + (cc * spl) % fr());
        assert(eqm(shl, st + cc * (big_s + rv2 * rv3)));
        lemma_eqm_reduce(cc * rv2);
        lemma_eqm_add(r2t, (cc * rv2) % fr(), r2t, cc * rv2);
        lemma_eqm_reduce(r2t + (cc * rv2) % fr());
        assert(eqm(r2hl, r2t + cc * rv2));
        lemma_eqm_reduce(cc * rv3);
        lemma_eqm_add(r3t, (cc * rv3) % fr(), r3t, cc * rv3);
        lemma_eqm_reduce(r3t + (cc * rv3) % fr());
        assert(eqm(r3hl, r3t + cc * rv3));
    }

    // hidden_hat[j] = m_tildes[j] + c * hidden[j]
    let mut hidden_hat: Vec<Scalar> = Vec::new();
    let mut j: usize = 0;
    while j < hidden.len()
        invariant
            hidden.len() == rnd.m_tildes.len(),
            j <= hidden.len(),
            hidden_hat.len() == j,
            cc == s_val(rnd.c),
            mhv == scalar_vals(hidden@),
            mtv == scalar_vals(rnd.m_tildes@),
            forall|k: int| 0 <= k < j ==> s_val(#[trigger] hidden_hat@[k])
                == (mtv[k] + (cc * mhv[k]) % fr()) % fr(),
        decreases hidden.len() - j,
    {
        hidden_hat.push(scalar_add(&rnd.m_tildes[j], &scalar_mul(&rnd.c, &hidden[j])));
        j = j + 1;
    }
    let ghost hhv = scalar_vals(hidden_hat@);

    let pf = Proof {
        a_prime,
        a_bar,
        d,
        c: rnd.c,
        e_hat,
        r2_hat,
        r3_hat,
        s_hat,
        hidden_hat,
        c1,
        c2,
    };

    proof {
        vstd::arithmetic::div_mod::lemma_small_mod(rv1 as nat, fr() as nat);
        let pm = pf.model();

        // The first commitment check.
        lemma_eqm_sub(abl, dl, (0 - apl * big_e) + bl * rv1, bl * rv1 + pp.h0 * rv2);
        lemma_eqm_mul(abl - dl, cc,
            ((0 - apl * big_e) + bl * rv1) - (bl * rv1 + pp.h0 * rv2), cc);
        lemma_eqm_mul(apl, ehl, apl, et + cc * big_e);
        lemma_eqm_mul(pp.h0, r2hl, pp.h0, r2t + cc * rv2);
        lemma_eqm_add((abl - dl) * cc, apl * ehl,
            (((0 - apl * big_e) + bl * rv1) - (bl * rv1 + pp.h0 * rv2)) * cc,
            apl * (et + cc * big_e));
        lemma_eqm_add((abl - dl) * cc + apl * ehl, pp.h0 * r2hl,
            (((0 - apl * big_e) + bl * rv1) - (bl * rv1 + pp.h0 * rv2)) * cc
                + apl * (et + cc * big_e),
            pp.h0 * (r2t + cc * rv2));
        lemma_c1_identity(apl, big_e, bl, rv1, pp.h0, rv2, cc, et, r2t);
        lemma_eqm_canon(c1l, (abl - dl) * cc + apl * ehl + pp.h0 * r2hl);
        assert(pm.c1 == ((pm.a_bar - pm.d) * pm.c + pm.a_prime * pm.e_hat
            + pp.h0 * pm.r2_hat) % fr());

        // The second commitment check.
        assert(hhv.len() == pp.hid.len());
        assert forall|k: int| 0 <= k < pp.hid.len() implies eqm(#[trigger] hhv[k], mtv[k] + cc * mhv[k]) by {
            lemma_eqm_reduce(cc * mhv[k]);
            lemma_eqm_add(mtv[k], (cc * mhv[k]) % fr(), mtv[k], cc * mhv[k]);
            lemma_eqm_reduce(mtv[k] + (cc * mhv[k]) % fr());
        };
        lemma_msm_combine(pp.hid, mtv, mhv, hhv, cc);
        // Substitute the ideal values into the verifier's expression.
        lemma_eqm_mul(dl, r3hl, bl * rv1 + pp.h0 * rv2, r3t + cc * rv3);
        lemma_eqm_mul(bl, rv1, bp, rv1);
        lemma_eqm_add(bl * rv1, pp.h0 * rv2, bp * rv1, pp.h0 * rv2);
        lemma_eqm_mul(bl * rv1 + pp.h0 * rv2, r3t + cc * rv3, dp, r3t + cc * rv3);
        lemma_eqm_mul(pp.h0, shl, pp.h0, st + cc * (big_s + rv2 * rv3));
        let x2 = (pp.p1 + big_mr) * cc - dl * r3hl + pp.h0 * shl + msm(pp.hid, hhv);
        let x2p = (pp.p1 + big_mr) * cc - dp * (r3t + cc * rv3)
            + pp.h0 * (st + cc * (big_s + rv2 * rv3)) + (big_mt + cc * big_mh);
        lemma_eqm_sub((pp.p1 + big_mr) * cc, dl * r3hl,
            (pp.p1 + big_mr) * cc, dp * (r3t + cc * rv3));
        lemma_eqm_add((pp.p1 + big_mr) * cc - dl * r3hl, pp.h0 * shl,
            (pp.p1 + big_mr) * cc - dp * (r3t + cc * rv3),
            pp.h0 * (st + cc * (big_s + rv2 * rv3)));
        lemma_eqm_add((pp.p1 + big_mr) * cc - dl * r3hl + pp.h0 * shl, msm(pp.hid, hhv),
            (pp.p1 + big_mr) * cc - dp * (r3t + cc * rv3)
                + pp.h0 * (st + cc * (big_s + rv2 * rv3)),
            big_mt + cc * big_mh);
        assert(eqm(x2, x2p));
        lemma_c2_identity(cc, pp.p1, big_mr, big_mh, big_s, pp.h0, rv2, rv3, r3t, st,
            big_mt, rv1, bp, dp);
        // The committed c2, with the ideal d substituted in.
        lemma_eqm_mul(dl, r3t, dp, r3t);
        lemma_eqm_sub(0, dl * r3t, 0, dp * r3t);
        lemma_eqm_add(0 - dl * r3t, pp.h0 * st, 0 - dp * r3t, pp.h0 * st);
        lemma_eqm_add((0 - dl * r3t) + pp.h0 * st, big_mt, (0 - dp * r3t) + pp.h0 * st, big_mt);
        assert(eqm(c2l, ((0 - dp * r3t) + pp.h0 * st + big_mt)));
        // The correction term vanishes: r1 * r3 is congruent to 1.
        lemma_eqm_mul(cc * bp, rv1 * rv3, cc * bp, 1);
        lemma_eqm_sub(((0 - dp * r3t) + pp.h0 * st + big_mt) + cc * bp, (cc * bp) * (rv1 * rv3),
            ((0 - dp * r3t) + pp.h0 * st + big_mt) + cc * bp, (cc * bp) * 1);
        assert(eqm(x2p, (0 - dp * r3t) + pp.h0 * st + big_mt));
        lemma_eqm_canon(c2l, x2);
        assert(pm.c2 == ((pp.p1 + msm(pp.rev, mrv)) * pm.c - pm.d * pm.r3_hat
            + pp.h0 * pm.s_hat + msm(pp.hid, pm.hidden_hat)) % fr());

        // The pairing check.
        lemma_msm_concat(pp.rev, mrv, pp.hid, mhv);
        assert(sig_valid(big_a, big_e, big_s, mrv + mhv, pp, big_w));
        assert(eqm(bp * pp.p2, big_a * (big_w + pp.p2 * big_e)));
        // a_bar, with a_prime and b substituted by their ideals.
        lemma_eqm_mul(apl, big_e, big_a * rv1, big_e);
        lemma_eqm_sub(0, apl * big_e, 0, (big_a * rv1) * big_e);
        lemma_eqm_add(0 - apl * big_e, bl * rv1, 0 - (big_a * rv1) * big_e, bp * rv1);
        assert(eqm(abl, (0 - (big_a * rv1) * big_e) + bp * rv1));
        lemma_eqm_mul(abl, pp.p2, (0 - (big_a * rv1) * big_e) + bp * rv1, pp.p2);
        lemma_pairing_identity(big_a, rv1, big_e, bp, pp.p2, big_w);
        lemma_eqm_mul(rv1, bp * pp.p2, rv1, big_a * (big_w + pp.p2 * big_e));
        lemma_eqm_sub((big_a * rv1) * big_w + rv1 * (bp * pp.p2),
            rv1 * (big_a * (big_w + pp.p2 * big_e)),
            (big_a * rv1) * big_w + rv1 * (bp * pp.p2),
            rv1 * (bp * pp.p2));
        lemma_eqm_mul(apl, big_w, big_a * rv1, big_w);
        assert(eqm(pm.a_bar * pp.p2, pm.a_prime * big_w));

        assert(verify_model(big_w, pm, mrv, pp));
    }

    Ok(pf)
}

/// Produces a selective-disclosure proof with fresh random session scalars,
/// retrying a bounded number of times if the randomizer `r1` lands on zero.
/// The challenge is sampled fresh, as in the interactive protocol; a
/// deployment that needs a non-interactive proof derives the challenge from a
/// transcript hash and calls `create_proof_with` instead.
pub fn create_proof(
    signature: &Signature,
    revealed: &Vec<Scalar>,
    hidden: &Vec<Scalar>,
    w: &G2Projective,
    params: &PublicParameters,
) -> (r: Result<Proof, Error>)
    requires
        revealed.len() == params.revealed_generators.len(),
        hidden.len() == params.hidden_generators.len(),
        signature.wf(),
        sig_valid(
            g1_log(signature.a),
            s_val(signature.e),
            s_val(signature.s),
            scalar_vals(revealed@) + scalar_vals(hidden@),
            params.model(),
            g2_log(*w),
        ),
    ensures
        r matches Err(err) ==> err == Error::DomainError,
        r is Ok ==> verify_model(
            g2_log(*w),
            r.unwrap().model(),
            scalar_vals(revealed@),
            params.model(),
        ),
{
    let mut tries: usize = 0;
    while tries < PROOF_RETRIES
        invariant
            revealed.len() == params.revealed_generators.len(),
            hidden.len() == params.hidden_generators.len(),
            signature.wf(),
            sig_valid(
                g1_log(signature.a),
                s_val(signature.e),
                s_val(signature.s),
                scalar_vals(revealed@) + scalar_vals(hidden@),
                params.model(),
                g2_log(*w),
            ),
        decreases PROOF_RETRIES - tries,
    {
        let mut m_tildes: Vec<Scalar> = Vec::new();
        let mut j: usize = 0;
        while j < hidden.len()
            invariant
                j <= hidden.len(),
                m_tildes.len() == j,
            decreases hidden.len() - j,
        {
            m_tildes.push(fresh_scalar());
            j = j + 1;
        }
        let rnd = ProofRandomness {
            r1: fresh_scalar(),
            r2: fresh_scalar(),
            e_tilde: fresh_scalar(),
            s_tilde: fresh_scalar(),
            r2_tilde: fresh_scalar(),
            r3_tilde: fresh_scalar(),
            m_tildes,
            c: fresh_scalar(),
        };
        match create_proof_with(signature, revealed, hidden, w, params, &rnd) {
            Ok(pf) => {
                return Ok(pf);
            },
            Err(_) => {},
        }
        tries = tries + 1;
    }
    Err(Error::DomainError)
}

} // verus!
