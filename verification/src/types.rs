//! The value types of the scheme: public parameters, key pair, signature and
//! proof, each with its integer model.

use vstd::prelude::*;
use crate::curve::{
    fresh_g1, fresh_scalar, g1_add, g1_generator, g1_log, g1_mul, g2_generator, g2_log, g2_mul,
    s_val,
};
use crate::model::{lemma_msm_take_step, msm, ParamsModel, ProofModel};
use crate::modular::{eqm, fr, lemma_eqm_add, lemma_eqm_reduce};

verus! {

use bls12_381::{G1Projective, G2Projective, Scalar};

/// The error surfaced by signing and proof generation when a sampled scalar
/// lands on a degenerate value even after the bounded retries.
#[derive(Clone, Copy, Debug, PartialEq, Eq, Structural)]
pub enum Error {
    DomainError,
}

/// The canonical values of a sequence of scalars.
pub open spec fn scalar_vals(s: Seq<Scalar>) -> Seq<int> {
    s.map_values(|x: Scalar| s_val(x))
}

/// The discrete logarithms of a sequence of G1 points.
pub open spec fn g1_logs(s: Seq<G1Projective>) -> Seq<int> {
    s.map_values(|p: G1Projective| g1_log(p))
}

/// The fixed public generators: base points of G1 and G2, the blinding
/// generator `h0`, and one G1 generator per revealed and per hidden message
/// slot. The concatenation of the two generator lists carries one generator
/// per slot of the signed message vector, in signing order.
pub struct PublicParameters {
    pub p1: G1Projective,
    pub p2: G2Projective,
    pub h0: G1Projective,
    pub revealed_generators: Vec<G1Projective>,
    pub hidden_generators: Vec<G1Projective>,
}

impl PublicParameters {
    /// The integer model of the parameters.
    pub open spec fn model(&self) -> ParamsModel {
        ParamsModel {
            p1: g1_log(self.p1),
            p2: g2_log(self.p2),
            h0: g1_log(self.h0),
            rev: g1_logs(self.revealed_generators@),
            hid: g1_logs(self.hidden_generators@),
        }
    }

    /// Samples a fresh, independent set of generators: the two base points
    /// plus uniformly random G1 elements for `h0` and the message slots.
    pub fn new_random(revealed_slots: usize, hidden_slots: usize) -> (r: PublicParameters)
        ensures
            r.revealed_generators.len() == revealed_slots,
            r.hidden_generators.len() == hidden_slots,
            r.model().p1 == 1,
            r.model().p2 == 1,
    {
        let mut revealed_generators: Vec<G1Projective> = Vec::new();
        let mut hidden_generators: Vec<G1Projective> = Vec::new();
        let mut i: usize = 0;
        while i < revealed_slots
            invariant
                i <= revealed_slots,
                revealed_generators.len() == i,
            decreases revealed_slots - i,
        {
            revealed_generators.push(fresh_g1());
            i = i + 1;
        }
        let mut j: usize = 0;
        while j < hidden_slots
            invariant
                j <= hidden_slots,
                hidden_generators.len() == j,
            decreases hidden_slots - j,
        {
            hidden_generators.push(fresh_g1());
            j = j + 1;
        }
        PublicParameters {
            p1: g1_generator(),
            p2: g2_generator(),
            h0: fresh_g1(),
            revealed_generators,
            hidden_generators,
        }
    }
}

/// An issuer key pair: the secret scalar `x` and the public point
/// `w = p2 * x`.
pub struct KeyPair {
    /// The secret scalar; it stays with the signer.
    pub x: Scalar,
    /// The published point `p2 * x`.
    pub w: G2Projective,
}

impl KeyPair {
    /// The canonical value of the secret key.
    pub open spec fn secret(&self) -> int {
        s_val(self.x)
    }

    /// The key pair belongs together under the given G2 base point: the
    /// public point is the base point raised to the secret key.
    pub open spec fn valid_for(&self, p2: int) -> bool {
        &&& 0 <= self.secret() < fr()
        &&& g2_log(self.w) == (p2 * self.secret()) % fr()
    }

    /// Builds the key pair of a given secret key over the G2 base point of
    /// the parameters.
    pub fn from_secret(x: Scalar, params: &PublicParameters) -> (r: KeyPair)
        requires
            0 <= s_val(x) < fr(),
        ensures
            r.valid_for(params.model().p2),
            r.secret() == s_val(x),
    {
        let w = g2_mul(&params.p2, &x);
        KeyPair { x, w }
    }

    /// Samples a fresh secret key and derives its public point.
    pub fn generate(params: &PublicParameters) -> (r: KeyPair)
        ensures
            r.valid_for(params.model().p2),
    {
        KeyPair::from_secret(fresh_scalar(), params)
    }
}

/// A signature `(a, e, s)` over an ordered message vector.
pub struct Signature {
    pub a: G1Projective,
    pub e: Scalar,
    pub s: Scalar,
}

impl Signature {
    /// The components lie in their canonical ranges.
    pub open spec fn wf(&self) -> bool {
        &&& 0 <= g1_log(self.a) < fr()
        &&& 0 <= s_val(self.e) < fr()
        &&& 0 <= s_val(self.s) < fr()
    }
}

/// A selective-disclosure proof: the randomized signature points
/// `a_prime, a_bar, d`, the challenge `c`, the challenge-bound responses, and
/// the two Schnorr commitments `c1, c2`.
#[derive(Clone)]
pub struct Proof {
    pub a_prime: G1Projective,
    pub a_bar: G1Projective,
    pub d: G1Projective,
    pub c: Scalar,
    pub e_hat: Scalar,
    pub r2_hat: Scalar,
    pub r3_hat: Scalar,
    pub s_hat: Scalar,
    pub hidden_hat: Vec<Scalar>,
    pub c1: G1Projective,
    pub c2: G1Projective,
}

impl Proof {
    /// The integer model of the proof.
    pub open spec fn model(&self) -> ProofModel {
        ProofModel {
            a_prime: g1_log(self.a_prime),
            a_bar: g1_log(self.a_bar),
            d: g1_log(self.d),
            c: s_val(self.c),
            e_hat: s_val(self.e_hat),
            r2_hat: s_val(self.r2_hat),
            r3_hat: s_val(self.r3_hat),
            s_hat: s_val(self.s_hat),
            hidden_hat: scalar_vals(self.hidden_hat@),
            c1: g1_log(self.c1),
            c2: g1_log(self.c2),
        }
    }
}

/// Adds `gens[0] * scalars[0] + ... + gens[n-1] * scalars[n-1]` onto `base`.
pub(crate) fn msm_add(base: &G1Projective, gens: &Vec<G1Projective>, scalars: &Vec<Scalar>) -> (r: G1Projective)
    requires
        gens.len() == scalars.len(),
    ensures
        eqm(g1_log(r), g1_log(*base) + msm(g1_logs(gens@), scalar_vals(scalars@))),
        0 <= g1_log(*base) < fr() ==> 0 <= g1_log(r) < fr(),
{
    let ghost gl = g1_logs(gens@);
    let ghost sl = scalar_vals(scalars@);
    let mut acc = *base;
    let mut i: usize = 0;
    proof {
        assert(gl.take(0) =~= Seq::<int>::empty());
        assert(sl.take(0) =~= Seq::<int>::empty());
        lemma_eqm_reduce(g1_log(acc) + 0);
        assert(eqm(g1_log(acc), g1_log(*base) + msm(gl.take(0), sl.take(0))));
    }
    while i < gens.len()
        invariant
            gens.len() == scalars.len(),
            i <= gens.len(),
            gl == g1_logs(gens@),
            sl == scalar_vals(scalars@),
            eqm(g1_log(acc), g1_log(*base) + msm(gl.take(i as int), sl.take(i as int))),
            0 <= g1_log(*base) < fr() ==> 0 <= g1_log(acc) < fr(),
        decreases gens.len() - i,
    {
        let term = g1_mul(&gens[i], &scalars[i]);
        let next = g1_add(&acc, &term);
        proof {
            let n = i as int;
            lemma_msm_take_step(gl, sl, n);
            lemma_eqm_reduce(g1_log(gens@[n]) * s_val(scalars@[n]));
            lemma_eqm_add(
                g1_log(acc),
                g1_log(term),
                g1_log(*base) + msm(gl.take(n), sl.take(n)),
                gl[n] * sl[n],
            );
            lemma_eqm_reduce(g1_log(acc) + g1_log(term));
            assert(eqm(g1_log(next), g1_log(*base) + msm(gl.take(n + 1), sl.take(n + 1))));
        }
        acc = next;
        i = i + 1;
    }
    proof {
        assert(gl.take(gens.len() as int) =~= gl);
        assert(sl.take(scalars.len() as int) =~= sl);
    }
    acc
}

} // verus!
