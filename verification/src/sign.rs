//! Signature issuance: `b = p1 + h0 * s + sum(generators[i] * messages[i])`,
//! `a = b * (e + x)^-1`.

use vstd::prelude::*;
use crate::curve::{fresh_scalar, g1_add, g1_log, g1_mul, g2_log, s_val, scalar_add, scalar_invert};
use crate::model::{lemma_msm_concat, msm, sig_valid};
use crate::modular::{eqm, fr, lemma_eqm_add, lemma_eqm_mul, lemma_eqm_reduce};
use crate::types::{msm_add, scalar_vals, Error, KeyPair, PublicParameters, Signature};

verus! {

use bls12_381::Scalar;

/// How often signing resamples a degenerate `e` before giving up.
pub const SIGN_RETRIES: usize = 16;

/// Signs the ordered message vector with the given signature scalars `e, s`.
/// Succeeds exactly when `e + x` is invertible, that is when
/// `(e + x) % fr() != 0`; the signature then satisfies the scheme's validity
/// equation under the issuer public key.
pub fn sign_with(
    key: &KeyPair,
    e: Scalar,
    s: Scalar,
    messages: &Vec<Scalar>,
    params: &PublicParameters,
) -> (r: Result<Signature, Error>)
    requires
        messages.len() == params.revealed_generators.len() + params.hidden_generators.len(),
        key.valid_for(params.model().p2),
        0 <= s_val(e) < fr(),
        0 <= s_val(s) < fr(),
    ensures
        r is Ok <==> (s_val(e) + key.secret()) % fr() != 0,
        r matches Err(err) ==> err == Error::DomainError,
        r is Ok ==> r.unwrap().wf(),
        r is Ok ==> s_val(r.unwrap().e) == s_val(e) && s_val(r.unwrap().s) == s_val(s),
        r is Ok ==> sig_valid(
            g1_log(r.unwrap().a),
            s_val(e),
            s_val(s),
            scalar_vals(messages@),
            params.model(),
            g2_log(key.w),
        ),
{
    let ghost pp = params.model();
    let ghost sv = scalar_vals(messages@);
    let ghost big_x = key.secret();
    let ghost big_w = g2_log(key.w);

    let denom = scalar_add(&e, &key.x);
    let inv = match scalar_invert(&denom) {
        Some(inv) => inv,
        None => {
            proof {
                lemma_eqm_reduce(s_val(e) + big_x);
            }
            return Err(Error::DomainError);
        },
    };
    proof {
        lemma_eqm_reduce(s_val(e) + big_x);
    }

    // Split the message vector at the revealed/hidden boundary, matching the
    // generator lists.
    let rev_len = params.revealed_generators.len();
    let mut rev_msgs: Vec<Scalar> = Vec::new();
    let mut i: usize = 0;
    while i < rev_len
        invariant
            i <= rev_len <= messages.len(),
            rev_msgs@ == messages@.take(i as int),
        decreases rev_len - i,
    {
        rev_msgs.push(messages[i]);
        proof {
            assert(rev_msgs@ =~= messages@.take(i + 1));
        }
        i = i + 1;
    }
    let mut hid_msgs: Vec<Scalar> = Vec::new();
    let mut j: usize = rev_len;
    while j < messages.len()
        invariant
            rev_len <= j <= messages.len(),
            hid_msgs@ == messages@.subrange(rev_len as int, j as int),
        decreases messages.len() - j,
    {
        hid_msgs.push(messages[j]);
        proof {
            assert(hid_msgs@ =~= messages@.subrange(rev_len as int, j + 1));
        }
        j = j + 1;
    }
    proof {
        assert(scalar_vals(rev_msgs@) =~= sv.take(rev_len as int));
        assert(scalar_vals(hid_msgs@) =~= sv.skip(rev_len as int));
    }

    // b = p1 + h0 * s + sum(generators[i] * messages[i])
    let base = g1_add(&params.p1, &g1_mul(&params.h0, &s));
    let partial = msm_add(&base, &params.revealed_generators, &rev_msgs);
    let b = msm_add(&partial, &params.hidden_generators, &hid_msgs);
    let a = g1_mul(&b, &inv);

    proof {
        let mr = msm(pp.rev, sv.take(rev_len as int));
        let mh = msm(pp.hid, sv.skip(rev_len as int));
        let bp = pp.p1 + s_val(s) * pp.h0 + msm(pp.rev + pp.hid, sv);

        // The computed b is congruent to the model's b.
        lemma_msm_concat(pp.rev, sv.take(rev_len as int), pp.hid, sv.skip(rev_len as int));
        assert(sv.take(rev_len as int) + sv.skip(rev_len as int) =~= sv);
        lemma_eqm_reduce(pp.h0 * s_val(s));
        lemma_eqm_reduce(pp.p1 + (pp.h0 * s_val(s)) % fr());
        assert(eqm(g1_log(base), pp.p1 + pp.h0 * s_val(s))) by {
            lemma_eqm_add(pp.p1, (pp.h0 * s_val(s)) % fr(), pp.p1, pp.h0 * s_val(s));
        };
        lemma_eqm_add(g1_log(base), msm(pp.rev, sv.take(rev_len as int)),
            pp.p1 + pp.h0 * s_val(s), mr);
        lemma_eqm_add(g1_log(partial), mh, pp.p1 + pp.h0 * s_val(s) + mr, mh);
        assert(pp.h0 * s_val(s) == s_val(s) * pp.h0) by (nonlinear_arith);
        assert(eqm(g1_log(b), bp));

        // a * (w + p2 * e) is congruent to b * p2.
        let big_e = s_val(e);
        let iv = s_val(inv);
        lemma_eqm_reduce(pp.p2 * big_x);
        lemma_eqm_reduce(pp.p2 * big_e);
        lemma_eqm_add(big_w, (pp.p2 * big_e) % fr(), pp.p2 * big_x, pp.p2 * big_e);
        lemma_eqm_reduce(g1_log(b) * iv);
        lemma_eqm_mul(g1_log(a), big_w + (pp.p2 * big_e) % fr(),
            g1_log(b) * iv, pp.p2 * big_x + pp.p2 * big_e);
        assert((g1_log(b) * iv) * (pp.p2 * big_x + pp.p2 * big_e)
            == (g1_log(b) * pp.p2) * (iv * (big_x + big_e))) by (nonlinear_arith);
        lemma_eqm_reduce(big_e + big_x);
        lemma_eqm_mul(iv, big_e + big_x, iv, s_val(denom));
        assert(iv * s_val(denom) == s_val(denom) * iv) by (nonlinear_arith);
        vstd::arithmetic::div_mod::lemma_small_mod(1nat, fr() as nat);
        assert(eqm(iv * (big_e + big_x), 1));
        assert(iv * (big_x + big_e) == iv * (big_e + big_x));
        lemma_eqm_mul(g1_log(b) * pp.p2, iv * (big_x + big_e), g1_log(b) * pp.p2, 1);
        lemma_eqm_mul(g1_log(b), pp.p2, bp, pp.p2);
        assert(eqm(g1_log(a) * (big_w + (pp.p2 * big_e) % fr()), bp * pp.p2));

        // The model's pairing equation takes the unreduced w + p2 * e.
        lemma_eqm_add(big_w, (pp.p2 * big_e) % fr(), big_w, pp.p2 * big_e);
        lemma_eqm_mul(g1_log(a), big_w + (pp.p2 * big_e) % fr(),
            g1_log(a), big_w + pp.p2 * big_e);
        assert(sig_valid(g1_log(a), big_e, s_val(s), sv, pp, big_w));
    }

    Ok(Signature { a, e, s })
}

/// Signs the ordered message vector with fresh random signature scalars,
/// retrying a bounded number of times if `e + x` lands on zero.
pub fn sign(
    key: &KeyPair,
    messages: &Vec<Scalar>,
    params: &PublicParameters,
) -> (r: Result<Signature, Error>)
    requires
        messages.len() == params.revealed_generators.len() + params.hidden_generators.len(),
        key.valid_for(params.model().p2),
    ensures
        r matches Err(err) ==> err == Error::DomainError,
        r is Ok ==> r.unwrap().wf(),
        r is Ok ==> sig_valid(
            g1_log(r.unwrap().a),
            s_val(r.unwrap().e),
            s_val(r.unwrap().s),
            scalar_vals(messages@),
            params.model(),
            g2_log(key.w),
        ),
{
    let s = fresh_scalar();
    let mut tries: usize = 0;
    while tries < SIGN_RETRIES
        invariant
            messages.len() == params.revealed_generators.len() + params.hidden_generators.len(),
            key.valid_for(params.model().p2),
            0 <= s_val(s) < fr(),
        decreases SIGN_RETRIES - tries,
    {
        let e = fresh_scalar();
        match sign_with(key, e, s, messages, params) {
            Ok(sig) => {
                return Ok(sig);
            },
            Err(_) => {},
        }
        tries = tries + 1;
    }
    Err(Error::DomainError)
}

} // verus!
