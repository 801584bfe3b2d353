//! Congruence arithmetic modulo the order of the BLS12-381 groups.

use vstd::prelude::*;
use vstd::arithmetic::div_mod::{
    lemma_add_mod_noop, lemma_mod_bound, lemma_mod_equivalence, lemma_mod_twice,
    lemma_mul_mod_noop_general, lemma_small_mod, lemma_sub_mod_noop,
};

verus! {

/// The prime order of the BLS12-381 scalar field and of the groups G1, G2 and GT,
/// 0x73eda753299d7d483339d80809a1d80553bda402fffe5bfeffffffff00000001,
/// assembled here from its four 64-bit limbs.
pub open spec fn fr() -> int {
    ((0x73eda753299d7d48int * 0x10000000000000000 + 0x3339d80809a1d805) * 0x10000000000000000
        + 0x53bda402fffe5bfe) * 0x10000000000000000 + 0xffffffff00000001
}

/// Congruence modulo the group order.
pub open spec fn eqm(a: int, b: int) -> bool {
    a % fr() == b % fr()
}

/// Reducing modulo the group order keeps the congruence class and lands in `[0, fr())`.
pub proof fn lemma_eqm_reduce(a: int)
    ensures
        eqm(a % fr(), a),
        0 <= a % fr() < fr(),
{
    lemma_mod_twice(a, fr());
    lemma_mod_bound(a, fr());
}

/// A value in `[0, fr())` is the canonical representative of its class.
pub proof fn lemma_eqm_canon(a: int, b: int)
    requires
        eqm(a, b),
        0 <= a < fr(),
    ensures
        a == b % fr(),
{
    lemma_small_mod(a as nat, fr() as nat);
}

/// Congruence is compatible with addition.
pub proof fn lemma_eqm_add(a1: int, b1: int, a2: int, b2: int)
    requires
        eqm(a1, a2),
        eqm(b1, b2),
    ensures
        eqm(a1 + b1, a2 + b2),
{
    lemma_add_mod_noop(a1, b1, fr());
    lemma_add_mod_noop(a2, b2, fr());
}

/// Congruence is compatible with subtraction.
pub proof fn lemma_eqm_sub(a1: int, b1: int, a2: int, b2: int)
    requires
        eqm(a1, a2),
        eqm(b1, b2),
    ensures
        eqm(a1 - b1, a2 - b2),
{
    lemma_sub_mod_noop(a1, b1, fr());
    lemma_sub_mod_noop(a2, b2, fr());
}

/// Congruence is compatible with multiplication.
pub proof fn lemma_eqm_mul(a1: int, b1: int, a2: int, b2: int)
    requires
        eqm(a1, a2),
        eqm(b1, b2),
    ensures
        eqm(a1 * b1, a2 * b2),
{
    lemma_mul_mod_noop_general(a1, b1, fr());
    lemma_mul_mod_noop_general(a2, b2, fr());
}

/// Two values whose difference is congruent to zero are congruent.
pub proof fn lemma_eqm_of_zero_diff(a: int, b: int)
    requires
        eqm(a - b, 0),
    ensures
        eqm(a, b),
{
    lemma_mod_equivalence(a, b, fr());
    lemma_small_mod(0nat, fr() as nat);
}

/// Congruent values have a difference congruent to zero.
pub proof fn lemma_eqm_to_zero_diff(a: int, b: int)
    requires
        eqm(a, b),
    ensures
        eqm(a - b, 0),
{
    lemma_mod_equivalence(a, b, fr());
    lemma_small_mod(0nat, fr() as nat);
}

} // verus!
