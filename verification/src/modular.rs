//! Facts about powers and remainders that the proofs of this crate share.

use vstd::arithmetic::div_mod::*;
use vstd::arithmetic::mul::*;
use vstd::arithmetic::power::*;
use vstd::prelude::*;

use crate::model::mod_pow;

verus! {

/// Squaring the base halves an even exponent.
pub proof fn lemma_pow_square(b: int, e: nat)
    ensures
        pow(b * b, e) == pow(b, 2 * e),
{
    lemma_pow_multiplies(b, 2, e);
    lemma_square_is_pow2(b);
}

/// One more factor of the base raises the exponent by one.
pub proof fn lemma_pow_succ(b: int, e: nat)
    ensures
        pow(b, e + 1) == b * pow(b, e),
{
    reveal(pow);
}

/// For a positive modulus, `mod_pow` is the remainder of the power and lies
/// below the modulus.
pub proof fn lemma_mod_pow_is_remainder(b: nat, e: nat, m: nat)
    requires
        m > 0,
    ensures
        mod_pow(b, e, m) == pow(b as int, e) % (m as int),
        mod_pow(b, e, m) < m,
{
    lemma_mod_bound(pow(b as int, e), m as int);
}

/// One more factor of the base, modulo `m`.
pub proof fn lemma_mod_pow_succ(b: nat, e: nat, m: nat)
    requires
        m > 0,
    ensures
        mod_pow(b, e + 1, m) == (mod_pow(b, e, m) * b) % m,
{
    lemma_mod_pow_is_remainder(b, e, m);
    lemma_mod_pow_is_remainder(b, e + 1, m);
    lemma_pow_succ(b as int, e);
    lemma_mul_mod_noop_general(pow(b as int, e), b as int, m as int);
    lemma_mul_is_commutative(b as int, pow(b as int, e));
}

/// Once `g^q` is 1 modulo `p`, whole multiples of `q` in the exponent drop out.
pub proof fn lemma_pow_cycle(g: nat, a: nat, q: nat, t: nat, p: nat)
    requires
        p > 1,
        mod_pow(g, q, p) == 1,
    ensures
        mod_pow(g, a + q * t, p) == mod_pow(g, a, p),
{
    let base: int = g as int;
    let m: int = p as int;
    let turns: int = pow(base, q * t);
    lemma_mod_pow_is_remainder(g, q, p);
    lemma_mod_pow_is_remainder(g, a, p);
    lemma_mod_pow_is_remainder(g, a + q * t, p);
    // g^(q*t) = (g^q)^t, which is 1^t = 1 modulo p.
    lemma_pow_multiplies(base, q, t);
    lemma_pow_mod_noop(pow(base, q), t, m);
    lemma1_pow(t);
    lemma_small_mod(1, p);
    assert(turns % m == 1);
    // g^(a + q*t) = g^a * g^(q*t).
    lemma_pow_adds(base, a, q * t);
    lemma_mul_mod_noop_general(pow(base, a), turns, m);
    lemma_mul_basics(pow(base, a));
}

/// Equal powers modulo `p` stay equal when both exponents grow by `d`.
pub proof fn lemma_pow_shift(g: nat, a: nat, b: nat, d: nat, p: nat)
    requires
        p > 0,
        mod_pow(g, a, p) == mod_pow(g, b, p),
    ensures
        mod_pow(g, a + d, p) == mod_pow(g, b + d, p),
{
    let base: int = g as int;
    lemma_mod_pow_is_remainder(g, a, p);
    lemma_mod_pow_is_remainder(g, b, p);
    lemma_mod_pow_is_remainder(g, a + d, p);
    lemma_mod_pow_is_remainder(g, b + d, p);
    lemma_pow_adds(base, a, d);
    lemma_pow_adds(base, b, d);
    lemma_mul_mod_noop_general(pow(base, a), pow(base, d), p as int);
    lemma_mul_mod_noop_general(pow(base, b), pow(base, d), p as int);
}

/// The Euclidean remainder of a negative number, from the remainder of its
/// magnitude: zero stays zero, anything else is counted back from `m`.
pub proof fn lemma_mod_of_negative(a: int, m: int)
    requires
        m > 0,
        a < 0,
    ensures
        (-a) % m == 0 ==> a % m == 0,
        (-a) % m != 0 ==> a % m == m - (-a) % m,
{
    let d: int = (-a) / m;
    let t: int = (-a) % m;
    lemma_fundamental_div_mod(-a, m);
    lemma_mod_bound(-a, m);
    assert(-a == m * d + t);
    if t == 0 {
        assert(a == (-d) * m + 0) by (nonlinear_arith)
            requires
                -a == m * d + t,
                t == 0,
        ;
        lemma_fundamental_div_mod_converse(a, m, -d, 0);
    } else {
        assert(a == (-d - 1) * m + (m - t)) by (nonlinear_arith)
            requires
                -a == m * d + t,
        ;
        lemma_fundamental_div_mod_converse(a, m, -d - 1, m - t);
    }
}

} // verus!
