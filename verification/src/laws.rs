//! What holds of the protocol as a whole, proved over the model.

use vstd::arithmetic::div_mod::*;
use vstd::arithmetic::mul::*;
use vstd::arithmetic::power::*;
use vstd::prelude::*;

use crate::model::{accepts, has_order, mod_pow, recomputed, response, valid_parameters};
use crate::modular::{lemma_mod_pow_is_remainder, lemma_pow_cycle, lemma_pow_shift};

verus! {

/// Anything to the power zero is 1 modulo a modulus above 1.
pub proof fn lemma_zero_exponent(base: nat, modulus: nat)
    requires
        modulus > 1,
    ensures
        mod_pow(base, 0, modulus) == 1,
{
    lemma_pow0(base as int);
    lemma_small_mod(1, modulus);
}

/// The response always lies in `[0, q)`, and it is congruent to `k - c * x`
/// modulo `q`.
pub proof fn lemma_response_in_range(x: nat, k: nat, c: nat, q: nat)
    requires
        q > 0,
    ensures
        response(x, k, c, q) < q,
        response(x, k, c, q) == (k - c * x) % (q as int),
{
    lemma_mod_bound(k - c * x, q as int);
}

/// For a public value `y = g^x mod p`, what the verifier recomputes is the
/// single power `g^(s + x * c) mod p`.
pub proof fn lemma_recomputed_is_power(g: nat, x: nat, c: nat, s: nat, p: nat)
    requires
        p > 0,
    ensures
        recomputed(g, mod_pow(g, x, p), c, s, p) == mod_pow(g, s + x * c, p),
{
    let base: int = g as int;
    let m: int = p as int;
    let y: int = mod_pow(g, x, p) as int;
    lemma_mod_pow_is_remainder(g, x, p);
    lemma_mod_pow_is_remainder(g, s + x * c, p);
    // y^c = (g^x)^c = g^(x*c) modulo p.
    lemma_pow_mod_noop(pow(base, x), c, m);
    lemma_pow_multiplies(base, x, c);
    assert(pow(y, c) % m == pow(base, x * c) % m);
    // g^s * y^c = g^s * g^(x*c) = g^(s + x*c) modulo p.
    lemma_mul_mod_noop_general(pow(base, s), pow(y, c), m);
    lemma_mul_mod_noop_general(pow(base, s), pow(base, x * c), m);
    lemma_pow_adds(base, s, x * c);
}

/// One half of completeness: for a generator with `g^q = 1 mod p`, the
/// response computed from `x`, `k` and `c` makes the verifier recompute
/// exactly the commitment `g^k mod p`.
pub proof fn lemma_honest_response_recomputes_commitment(
    p: nat,
    q: nat,
    g: nat,
    x: nat,
    k: nat,
    c: nat,
)
    requires
        p > 1,
        q > 0,
        mod_pow(g, q, p) == 1,
    ensures
        recomputed(g, mod_pow(g, x, p), c, response(x, k, c, q), p) == mod_pow(g, k, p),
{
    let raw: int = k - c * x;
    let s: nat = response(x, k, c, q);
    let d: int = raw / (q as int);
    lemma_response_in_range(x, k, c, q);
    lemma_fundamental_div_mod(raw, q as int);
    lemma_mul_is_commutative(c as int, x as int);
    assert(raw == q * d + s);
    lemma_recomputed_is_power(g, x, c, s, p);
    // The exponent s + x * c differs from k by a multiple of q.
    let total: nat = s + x * c;
    if d <= 0 {
        let t: nat = (-d) as nat;
        assert(q * t == -(q * d)) by (nonlinear_arith)
            requires
                t == -d,
        ;
        assert(total == k + q * t);
        lemma_pow_cycle(g, k, q, t, p);
    } else {
        let t: nat = d as nat;
        assert(k == total + q * t);
        lemma_pow_cycle(g, total, q, t, p);
    }
}

/// Completeness: with valid parameters, an honest prover is always accepted.
/// The public key is derived from the secret `x`, the commitment from the
/// nonce `k`, and the response from `x`, `k` and the challenge `c`.
pub proof fn lemma_completeness(p: nat, q: nat, g: nat, h: nat, x: nat, k: nat, c: nat)
    requires
        valid_parameters(p, q, g, h),
        x < q,
        k < q,
        c < q,
    ensures
        accepts(
            p,
            mod_pow(g, x, p),
            mod_pow(h, x, p),
            mod_pow(g, k, p),
            mod_pow(h, k, p),
            g,
            h,
            c,
            response(x, k, c, q),
        ),
{
    lemma_honest_response_recomputes_commitment(p, q, g, x, k, c);
    lemma_honest_response_recomputes_commitment(p, q, h, x, k, c);
}

/// For a generator of order exactly `q` and a public value `y = g^x mod p`,
/// two responses that differ modulo `q` never recompute the same value.
pub proof fn lemma_recomputed_separates_responses(
    p: nat,
    q: nat,
    g: nat,
    x: nat,
    c: nat,
    s1: nat,
    s2: nat,
)
    requires
        p > 1,
        has_order(g, q, p),
        s1 % q != s2 % q,
    ensures
        recomputed(g, mod_pow(g, x, p), c, s1, p) != recomputed(g, mod_pow(g, x, p), c, s2, p),
{
    let e: nat = x * c;
    let big1: nat = s1 + e;
    let big2: nat = s2 + e;
    lemma_recomputed_is_power(g, x, c, s1, p);
    lemma_recomputed_is_power(g, x, c, s2, p);
    // Reduce both exponents modulo q.
    let a: nat = big1 % q;
    let b: nat = big2 % q;
    lemma_mod_bound(big1 as int, q as int);
    lemma_mod_bound(big2 as int, q as int);
    lemma_fundamental_div_mod(big1 as int, q as int);
    lemma_fundamental_div_mod(big2 as int, q as int);
    lemma_pow_cycle(g, a, q, big1 / q, p);
    lemma_pow_cycle(g, b, q, big2 / q, p);
    assert(mod_pow(g, big1, p) == mod_pow(g, a, p));
    assert(mod_pow(g, big2, p) == mod_pow(g, b, p));
    // The reduced exponents differ, because the responses do.
    assert(a != b) by {
        lemma_mod_equivalence(big1 as int, big2 as int, q as int);
        lemma_mod_equivalence(s1 as int, s2 as int, q as int);
    }
    if mod_pow(g, a, p) == mod_pow(g, b, p) {
        // Moving both exponents up to the next multiple of q gives a power
        // of g below q that is 1, which the order of g rules out.
        if a < b {
            let j: nat = (a + (q - b)) as nat;
            lemma_pow_shift(g, a, b, (q - b) as nat, p);
            assert(mod_pow(g, j, p) == 1);
        } else {
            let j: nat = (b + (q - a)) as nat;
            lemma_pow_shift(g, b, a, (q - a) as nat, p);
            assert(mod_pow(g, j, p) == 1);
        }
    }
}

/// At most one response modulo `q` is accepted: if the public value `y1` is a
/// power of `g` and two responses to the same commitment and challenge are
/// both accepted, they agree modulo `q`.
pub proof fn lemma_accepted_response_unique(
    p: nat,
    q: nat,
    g: nat,
    h: nat,
    x: nat,
    y2: nat,
    r1: nat,
    r2: nat,
    c: nat,
    s1: nat,
    s2: nat,
)
    requires
        valid_parameters(p, q, g, h),
        accepts(p, mod_pow(g, x, p), y2, r1, r2, g, h, c, s1),
        accepts(p, mod_pow(g, x, p), y2, r1, r2, g, h, c, s2),
    ensures
        s1 % q == s2 % q,
{
    if s1 % q != s2 % q {
        lemma_recomputed_separates_responses(p, q, g, x, c, s1, s2);
    }
}

/// Soundness against a perturbed response: in an honest transcript, any
/// response that is not congruent modulo `q` to the honest one is rejected.
pub proof fn lemma_perturbed_response_rejected(
    p: nat,
    q: nat,
    g: nat,
    h: nat,
    x: nat,
    k: nat,
    c: nat,
    s: nat,
)
    requires
        valid_parameters(p, q, g, h),
        x < q,
        k < q,
        c < q,
        s % q != response(x, k, c, q),
    ensures
        !accepts(
            p,
            mod_pow(g, x, p),
            mod_pow(h, x, p),
            mod_pow(g, k, p),
            mod_pow(h, k, p),
            g,
            h,
            c,
            s,
        ),
{
    let honest: nat = response(x, k, c, q);
    lemma_response_in_range(x, k, c, q);
    lemma_small_mod(honest, q);
    lemma_honest_response_recomputes_commitment(p, q, g, x, k, c);
    lemma_recomputed_separates_responses(p, q, g, x, c, s, honest);
}

/// Exponentiation is a function of its inputs: two results that both meet
/// the contract of `exponentiate` for the same base, exponent and modulus are
/// the same number.
pub proof fn lemma_exponentiate_deterministic(
    num: u32,
    exp: u32,
    p: u32,
    first: u32,
    second: u32,
)
    requires
        first == mod_pow(num as nat, exp as nat, p as nat),
        second == mod_pow(num as nat, exp as nat, p as nat),
    ensures
        first == second,
{
}

/// Verification is a function of its inputs: two verdicts that both meet the
/// contract of `verify` for the same transcript are the same verdict.
pub proof fn lemma_verify_deterministic(
    p: u32,
    y1: u32,
    y2: u32,
    r1: u32,
    r2: u32,
    g: u32,
    h: u32,
    c: u32,
    s: u32,
    first: bool,
    second: bool,
)
    requires
        first == accepts(
            p as nat,
            y1 as nat,
            y2 as nat,
            r1 as nat,
            r2 as nat,
            g as nat,
            h as nat,
            c as nat,
            s as nat,
        ),
        second == accepts(
            p as nat,
            y1 as nat,
            y2 as nat,
            r1 as nat,
            r2 as nat,
            g as nat,
            h as nat,
            c as nat,
            s as nat,
        ),
    ensures
        first == second,
{
}

} // verus!
