//! Trusted interface to the BLS12-381 arithmetic of the `bls12_381` crate.
//!
//! G1, G2 and GT are cyclic groups of the same prime order (`fr()`), so every
//! element is determined by its discrete logarithm to the group's base point:
//! an integer in `[0, fr())`. The uninterpreted spec functions below name that
//! logarithm for each group (and the canonical integer value of a scalar), and
//! each wrapper states, over those names, what the wrapped operation does.
//! The stated facts are the documented group laws of the crate: the groups
//! have prime order `fr()`, addition of points adds logarithms, scalar
//! multiplication multiplies a logarithm by the scalar, and the pairing is
//! bilinear and non-degenerate.

use vstd::prelude::*;
use crate::modular::fr;
use ff::Field;
use group::{Curve, Group};

verus! {

use bls12_381::{G1Projective, G2Projective, Gt, Scalar};

#[verifier::external_type_specification]
#[verifier::external_body]
pub struct ExScalar(Scalar);

#[verifier::external_type_specification]
#[verifier::external_body]
pub struct ExG1(G1Projective);

#[verifier::external_type_specification]
#[verifier::external_body]
pub struct ExG2(G2Projective);

#[verifier::external_type_specification]
#[verifier::external_body]
pub struct ExGt(Gt);

/// The canonical integer value of a scalar, in `[0, fr())`.
pub uninterp spec fn s_val(s: Scalar) -> int;

/// The discrete logarithm of a G1 element to the G1 base point, in `[0, fr())`.
pub uninterp spec fn g1_log(p: G1Projective) -> int;

/// The discrete logarithm of a G2 element to the G2 base point, in `[0, fr())`.
pub uninterp spec fn g2_log(p: G2Projective) -> int;

/// The discrete logarithm of a GT element to the base point `e(g1, g2)` of GT,
/// in `[0, fr())`.
pub uninterp spec fn gt_log(t: Gt) -> int;

/// Relies on the derived `Clone for Scalar`, which copies the value.
pub assume_specification[ <Scalar as Clone>::clone ](a: &Scalar) -> (r: Scalar)
    ensures
        r == *a,
;

/// Relies on the derived `Clone for G1Projective`, which copies the value.
pub assume_specification[ <G1Projective as Clone>::clone ](a: &G1Projective) -> (r: G1Projective)
    ensures
        r == *a,
;

/// Relies on `Add for Scalar`: field addition modulo the group order.
#[verifier::external_body]
pub(crate) fn scalar_add(a: &Scalar, b: &Scalar) -> (r: Scalar)
    ensures
        s_val(r) == (s_val(*a) + s_val(*b)) % fr(),
{
    *a + *b
}

/// Relies on `Mul for Scalar`: field multiplication modulo the group order.
#[verifier::external_body]
pub(crate) fn scalar_mul(a: &Scalar, b: &Scalar) -> (r: Scalar)
    ensures
        s_val(r) == (s_val(*a) * s_val(*b)) % fr(),
{
    *a * *b
}

/// Relies on `Neg for Scalar`: field negation modulo the group order.
#[verifier::external_body]
pub(crate) fn scalar_neg(a: &Scalar) -> (r: Scalar)
    ensures
        s_val(r) == (0 - s_val(*a)) % fr(),
{
    -*a
}

/// Relies on `Scalar::invert`: the multiplicative inverse, which exists for
/// exactly the nonzero field elements.
#[verifier::external_body]
pub(crate) fn scalar_invert(a: &Scalar) -> (r: Option<Scalar>)
    ensures
        r is Some <==> s_val(*a) % fr() != 0,
        r is Some ==> (s_val(*a) * s_val(r.unwrap())) % fr() == 1,
        r is Some ==> 0 <= s_val(r.unwrap()) < fr(),
{
    Option::from(a.invert())
}

/// Relies on `ff::Field::random` for `Scalar`: a uniformly sampled field
/// element. Nothing is known of the value beyond its range.
#[verifier::external_body]
pub(crate) fn fresh_scalar() -> (r: Scalar)
    ensures
        0 <= s_val(r) < fr(),
{
    Scalar::random(&mut rand::thread_rng())
}

/// Relies on `Add for G1Projective`: group addition adds discrete logarithms.
#[verifier::external_body]
pub(crate) fn g1_add(a: &G1Projective, b: &G1Projective) -> (r: G1Projective)
    ensures
        g1_log(r) == (g1_log(*a) + g1_log(*b)) % fr(),
{
    *a + *b
}

/// Relies on `Sub for G1Projective`: group subtraction subtracts discrete
/// logarithms.
#[verifier::external_body]
pub(crate) fn g1_sub(a: &G1Projective, b: &G1Projective) -> (r: G1Projective)
    ensures
        g1_log(r) == (g1_log(*a) - g1_log(*b)) % fr(),
{
    *a - *b
}

/// Relies on `Mul<Scalar> for G1Projective`: scalar multiplication multiplies
/// the discrete logarithm by the scalar.
#[verifier::external_body]
pub(crate) fn g1_mul(p: &G1Projective, k: &Scalar) -> (r: G1Projective)
    ensures
        g1_log(r) == (g1_log(*p) * s_val(*k)) % fr(),
{
    *p * *k
}

/// Relies on `G1Projective::identity`: the neutral element, of logarithm zero.
#[verifier::external_body]
pub(crate) fn g1_identity() -> (r: G1Projective)
    ensures
        g1_log(r) == 0,
{
    G1Projective::identity()
}

/// Relies on `G1Projective::generator`: the base point, of logarithm one.
#[verifier::external_body]
pub(crate) fn g1_generator() -> (r: G1Projective)
    ensures
        g1_log(r) == 1,
{
    G1Projective::generator()
}

/// Relies on `group::Group::random` for `G1Projective`: a uniformly sampled
/// group element. Nothing is known of the value beyond the range of its
/// logarithm.
#[verifier::external_body]
pub(crate) fn fresh_g1() -> (r: G1Projective)
    ensures
        0 <= g1_log(r) < fr(),
{
    G1Projective::random(&mut rand::thread_rng())
}

/// Relies on `PartialEq for G1Projective`: equality of group elements, which
/// in a cyclic group is equality of discrete logarithms.
#[verifier::external_body]
pub(crate) fn g1_eq(a: &G1Projective, b: &G1Projective) -> (r: bool)
    ensures
        r == (g1_log(*a) == g1_log(*b)),
{
    a == b
}

/// Relies on `G2Projective::generator`: the base point, of logarithm one.
#[verifier::external_body]
pub(crate) fn g2_generator() -> (r: G2Projective)
    ensures
        g2_log(r) == 1,
{
    G2Projective::generator()
}

/// Relies on `Mul<Scalar> for G2Projective`: scalar multiplication multiplies
/// the discrete logarithm by the scalar.
#[verifier::external_body]
pub(crate) fn g2_mul(p: &G2Projective, k: &Scalar) -> (r: G2Projective)
    ensures
        g2_log(r) == (g2_log(*p) * s_val(*k)) % fr(),
{
    *p * *k
}

/// Relies on `bls12_381::pairing`, the bilinear pairing: the logarithm of
/// `e(p, q)` to the GT base point `e(g1, g2)` is the product of the
/// logarithms of `p` and `q`.
#[verifier::external_body]
pub(crate) fn pairing_of(p: &G1Projective, q: &G2Projective) -> (r: Gt)
    ensures
        gt_log(r) == (g1_log(*p) * g2_log(*q)) % fr(),
{
    bls12_381::pairing(&p.to_affine(), &q.to_affine())
}

/// Relies on `PartialEq for Gt`: equality of group elements, which in a
/// cyclic group is equality of discrete logarithms.
#[verifier::external_body]
pub(crate) fn gt_eq(a: &Gt, b: &Gt) -> (r: bool)
    ensures
        r == (gt_log(*a) == gt_log(*b)),
{
    a == b
}

} // verus!
