//! The prover's response to a challenge.

use vstd::arithmetic::div_mod::*;
use vstd::prelude::*;

use crate::error::ProtocolError;
use crate::model::response;
use crate::modular::lemma_mod_of_negative;

verus! {

/// Computes the response `s = (k - c * x) mod q` to the challenge `c`, for the
/// secret `x` and the nonce `k`.
///
/// The difference is formed in 128 bits, where the product of two 32-bit
/// values cannot overflow, and a negative remainder is brought into `[0, q)`
/// by adding `q`.
pub fn solve(x: u32, k: u32, c: u32, q: u32) -> (s: u32)
    requires
        q > 0,
    ensures
        s == response(x as nat, k as nat, c as nat, q as nat),
        s < q,
{
    assert(0 <= c * x <= 0xffff_ffff * 0xffff_ffff) by (nonlinear_arith)
        requires
            0 <= c <= 0xffff_ffff,
            0 <= x <= 0xffff_ffff,
    ;
    let product: i128 = (c as i128) * (x as i128);
    let raw: i128 = (k as i128) - product;
    let rem: i128 = raw % (q as i128);
    proof {
        lemma_mod_bound(raw as int, q as int);
        if raw < 0 {
            lemma_mod_bound(-raw as int, q as int);
            lemma_mod_of_negative(raw as int, q as int);
        }
    }
    if rem >= 0 {
        rem as u32
    } else {
        (q as i128 + rem) as u32
    }
}

/// Computes the response like [`solve`], rejecting a secret, nonce or
/// challenge outside `[0, q)`. An order of zero leaves no value in range.
pub fn solve_response(secret: u32, nonce: u32, challenge: u32, order: u32) -> (res: Result<
    u32,
    ProtocolError,
>)
    ensures
        match res {
            Ok(s) => {
                &&& secret < order
                &&& nonce < order
                &&& challenge < order
                &&& s == response(secret as nat, nonce as nat, challenge as nat, order as nat)
                &&& s < order
            },
            Err(e) => {
                &&& secret >= order || nonce >= order || challenge >= order
                &&& e == ProtocolError::InvalidRange
            },
        },
{
    if secret >= order || nonce >= order || challenge >= order {
        return Err(ProtocolError::InvalidRange);
    }
    Ok(solve(secret, nonce, challenge, order))
}

} // verus!
