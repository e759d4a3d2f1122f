//! Modular exponentiation by repeated squaring.

use vstd::arithmetic::div_mod::*;
use vstd::arithmetic::mul::*;
use vstd::arithmetic::power::*;
use vstd::prelude::*;

use crate::error::ProtocolError;
use crate::model::mod_pow;
use crate::modular::{lemma_mod_pow_is_remainder, lemma_pow_square, lemma_pow_succ};

verus! {

/// One round of square-and-multiply leaves `acc * base^e` unchanged modulo
/// `m`: an odd exponent moves one factor of `base` into `acc`, and squaring
/// the base halves what is left.
proof fn lemma_square_and_multiply_step(acc: int, base: int, e: nat, m: int)
    requires
        m > 0,
        e > 0,
    ensures
        e % 2 == 1 ==> (((acc * base) % m) * pow((base * base) % m, e / 2)) % m == (acc * pow(
            base,
            e,
        )) % m,
        e % 2 == 0 ==> (acc * pow((base * base) % m, e / 2)) % m == (acc * pow(base, e)) % m,
{
    let half: nat = e / 2;
    let square: int = base * base;
    let rest: int = pow(base, 2 * half);
    lemma_pow_mod_noop(square, half, m);
    lemma_pow_square(base, half);
    assert(pow(square % m, half) % m == rest % m);
    if e % 2 == 1 {
        assert(e == 2 * half + 1);
        lemma_pow_succ(base, 2 * half);
        assert(pow(base, e) == base * rest);
        lemma_mul_mod_noop_general(acc * base, pow(square % m, half), m);
        lemma_mul_mod_noop_general(acc * base, rest, m);
        lemma_mul_is_associative(acc, base, rest);
    } else {
        assert(e == 2 * half);
        lemma_mul_mod_noop_general(acc, pow(square % m, half), m);
        lemma_mul_mod_noop_general(acc, rest, m);
    }
}

/// Computes `num^exp mod p` by square-and-multiply. Every product is formed
/// in 64 bits from two factors below `p` and reduced at once, so nothing
/// overflows however large the exponent is.
pub fn exponentiate(num: u32, exp: u32, p: u32) -> (r: u32)
    requires
        p > 0,
    ensures
        r == mod_pow(num as nat, exp as nat, p as nat),
        r < p,
        exp == 0 && p > 1 ==> r == 1,
{
    let m: u64 = p as u64;
    let mut acc: u64 = 1 % m;
    let mut base: u64 = (num as u64) % m;
    let mut e: u32 = exp;
    proof {
        lemma_mod_pow_is_remainder(num as nat, exp as nat, p as nat);
        lemma_pow_mod_noop(num as int, exp as nat, m as int);
        lemma_mul_mod_noop_general(1, pow(base as int, e as nat), m as int);
    }
    while e > 0
        invariant
            m == p,
            0 < m <= u32::MAX,
            acc < m,
            base < m,
            (acc * pow(base as int, e as nat)) % (m as int) == mod_pow(
                num as nat,
                exp as nat,
                p as nat,
            ),
        decreases e,
    {
        proof {
            lemma_square_and_multiply_step(acc as int, base as int, e as nat, m as int);
            assert(acc * base <= u32::MAX * u32::MAX) by (nonlinear_arith)
                requires
                    acc < m,
                    base < m,
                    m <= u32::MAX,
            ;
            assert(base * base <= u32::MAX * u32::MAX) by (nonlinear_arith)
                requires
                    base < m,
                    m <= u32::MAX,
            ;
        }
        if e % 2 == 1 {
            acc = (acc * base) % m;
        }
        base = (base * base) % m;
        e = e / 2;
    }
    proof {
        lemma_pow0(base as int);
        lemma_small_mod(acc as nat, m as nat);
        if exp == 0 && p > 1 {
            lemma_pow0(num as int);
            lemma_small_mod(1, p as nat);
        }
    }
    acc as u32
}

/// Computes `base^exponent mod modulus`, rejecting a modulus of zero or one.
pub fn modular_exponentiate(base: u32, exponent: u32, modulus: u32) -> (res: Result<
    u32,
    ProtocolError,
>)
    ensures
        match res {
            Ok(r) => modulus > 1 && r == mod_pow(base as nat, exponent as nat, modulus as nat),
            Err(e) => modulus <= 1 && e == ProtocolError::InvalidModulus,
        },
        modulus > 1 && exponent == 0 ==> res == Ok::<u32, ProtocolError>(1),
{
    if modulus <= 1 {
        return Err(ProtocolError::InvalidModulus);
    }
    Ok(exponentiate(base, exponent, modulus))
}

/// Derives the public value `generator^secret mod modulus`: a half of the
/// public key when `secret` is the prover's secret, a half of the commitment
/// when it is the nonce. The generator is a group parameter and is taken as
/// given; only a modulus of zero or one is rejected.
pub fn derive_public_value(generator: u32, secret: u32, modulus: u32) -> (res: Result<
    u32,
    ProtocolError,
>)
    ensures
        match res {
            Ok(y) => modulus > 1 && y == mod_pow(generator as nat, secret as nat, modulus as nat),
            Err(e) => modulus <= 1 && e == ProtocolError::InvalidModulus,
        },
{
    modular_exponentiate(generator, secret, modulus)
}

} // verus!
