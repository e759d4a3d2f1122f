//! A group small enough to follow by hand: the subgroup of order 11 of the
//! integers modulo 23. It is meant for examples and tests, not for use.

use vstd::arithmetic::power::*;
use vstd::prelude::*;

use crate::model::{has_order, is_prime, mod_pow, valid_parameters};
use crate::modular::{lemma_mod_pow_is_remainder, lemma_mod_pow_succ};

verus! {

/// The prime modulus.
pub const P: u32 = 23;

/// The prime order of the subgroup.
pub const Q: u32 = 11;

/// The first generator.
pub const G: u32 = 4;

/// The second generator.
pub const H: u32 = 9;

/// 23 and 11 are prime: none of the smaller numbers above 1 divides them.
proof fn lemma_primes()
    ensures
        is_prime(23),
        is_prime(11),
{
    assert forall|d: nat| 1 < d < 23 implies #[trigger] (23nat % d) != 0 by {
        assert(d == 2 || d == 3 || d == 4 || d == 5 || d == 6 || d == 7 || d == 8 || d == 9 || d
            == 10 || d == 11 || d == 12 || d == 13 || d == 14 || d == 15 || d == 16 || d == 17
            || d == 18 || d == 19 || d == 20 || d == 21 || d == 22);
    }
    assert forall|d: nat| 1 < d < 11 implies #[trigger] (11nat % d) != 0 by {
        assert(d == 2 || d == 3 || d == 4 || d == 5 || d == 6 || d == 7 || d == 8 || d == 9 || d
            == 10);
    }
}

/// The powers of 4 modulo 23 run through 4, 16, 18, 3, 12, 2, 8, 9, 13, 6
/// and come back to 1 at the eleventh.
proof fn lemma_first_generator_has_order()
    ensures
        has_order(4, 11, 23),
{
    lemma_pow1(4);
    lemma_mod_pow_is_remainder(4, 1, 23);
    assert(mod_pow(4, 1, 23) == 4);
    lemma_mod_pow_succ(4, 1, 23);
    assert(mod_pow(4, 2, 23) == 16);
    lemma_mod_pow_succ(4, 2, 23);
    assert(mod_pow(4, 3, 23) == 18);
    lemma_mod_pow_succ(4, 3, 23);
    assert(mod_pow(4, 4, 23) == 3);
    lemma_mod_pow_succ(4, 4, 23);
    assert(mod_pow(4, 5, 23) == 12);
    lemma_mod_pow_succ(4, 5, 23);
    assert(mod_pow(4, 6, 23) == 2);
    lemma_mod_pow_succ(4, 6, 23);
    assert(mod_pow(4, 7, 23) == 8);
    lemma_mod_pow_succ(4, 7, 23);
    assert(mod_pow(4, 8, 23) == 9);
    lemma_mod_pow_succ(4, 8, 23);
    assert(mod_pow(4, 9, 23) == 13);
    lemma_mod_pow_succ(4, 9, 23);
    assert(mod_pow(4, 10, 23) == 6);
    lemma_mod_pow_succ(4, 10, 23);
    assert(mod_pow(4, 11, 23) == 1);
    assert forall|j: nat| 0 < j < 11 implies #[trigger] mod_pow(4, j, 23) != 1 by {
        assert(j == 1 || j == 2 || j == 3 || j == 4 || j == 5 || j == 6 || j == 7 || j == 8 || j
            == 9 || j == 10);
    }
}

/// The powers of 9 modulo 23 run through 9, 12, 16, 6, 8, 3, 4, 13, 2, 18
/// and come back to 1 at the eleventh.
proof fn lemma_second_generator_has_order()
    ensures
        has_order(9, 11, 23),
{
    lemma_pow1(9);
    lemma_mod_pow_is_remainder(9, 1, 23);
    assert(mod_pow(9, 1, 23) == 9);
    lemma_mod_pow_succ(9, 1, 23);
    assert(mod_pow(9, 2, 23) == 12);
    lemma_mod_pow_succ(9, 2, 23);
    assert(mod_pow(9, 3, 23) == 16);
    lemma_mod_pow_succ(9, 3, 23);
    assert(mod_pow(9, 4, 23) == 6);
    lemma_mod_pow_succ(9, 4, 23);
    assert(mod_pow(9, 5, 23) == 8);
    lemma_mod_pow_succ(9, 5, 23);
    assert(mod_pow(9, 6, 23) == 3);
    lemma_mod_pow_succ(9, 6, 23);
    assert(mod_pow(9, 7, 23) == 4);
    lemma_mod_pow_succ(9, 7, 23);
    assert(mod_pow(9, 8, 23) == 13);
    lemma_mod_pow_succ(9, 8, 23);
    assert(mod_pow(9, 9, 23) == 2);
    lemma_mod_pow_succ(9, 9, 23);
    assert(mod_pow(9, 10, 23) == 18);
    lemma_mod_pow_succ(9, 10, 23);
    assert(mod_pow(9, 11, 23) == 1);
    assert forall|j: nat| 0 < j < 11 implies #[trigger] mod_pow(9, j, 23) != 1 by {
        assert(j == 1 || j == 2 || j == 3 || j == 4 || j == 5 || j == 6 || j == 7 || j == 8 || j
            == 9 || j == 10);
    }
}

/// The toy group meets every demand on group parameters, so the laws of the
/// protocol apply to it.
pub proof fn lemma_toy_parameters_valid()
    ensures
        valid_parameters(P as nat, Q as nat, G as nat, H as nat),
{
    lemma_primes();
    lemma_first_generator_has_order();
    lemma_second_generator_has_order();
}

} // verus!
