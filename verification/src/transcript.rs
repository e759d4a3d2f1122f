//! The verifier's decision on a transcript.

use vstd::arithmetic::div_mod::*;
use vstd::arithmetic::power::pow;
use vstd::prelude::*;

use crate::error::ProtocolError;
use crate::exponent::exponentiate;
use crate::model::{accepts, recomputed};
use crate::modular::lemma_mod_pow_is_remainder;

verus! {

/// Recomputes `g^s * y^c mod p` from the two reduced powers, so that the
/// product stays below `p^2`.
fn recompute(g: u32, y: u32, c: u32, s: u32, p: u32) -> (r: u32)
    requires
        p > 0,
    ensures
        r == recomputed(g as nat, y as nat, c as nat, s as nat, p as nat),
        r < p,
{
    let left: u64 = exponentiate(g, s, p) as u64;
    let right: u64 = exponentiate(y, c, p) as u64;
    proof {
        lemma_mod_pow_is_remainder(g as nat, s as nat, p as nat);
        lemma_mod_pow_is_remainder(y as nat, c as nat, p as nat);
        lemma_mul_mod_noop_general(pow(g as int, s as nat), pow(y as int, c as nat), p as int);
        lemma_mod_bound(pow(g as int, s as nat) * pow(y as int, c as nat), p as int);
        assert(left * right <= 0xffff_ffff * 0xffff_ffff) by (nonlinear_arith)
            requires
                0 <= left <= 0xffff_ffff,
                0 <= right <= 0xffff_ffff,
        ;
    }
    ((left * right) % (p as u64)) as u32
}

/// Decides whether the response `s` to the challenge `c` proves that `y1` and
/// `y2` are the same power of `g` and `h`, given the commitment `(r1, r2)`:
/// `g^s * y1^c mod p` must equal `r1`, and `h^s * y2^c mod p` must equal `r2`.
pub fn verify(p: u32, y1: u32, y2: u32, r1: u32, r2: u32, g: u32, h: u32, c: u32, s: u32) -> (ok:
    bool)
    requires
        p > 0,
    ensures
        ok == accepts(
            p as nat,
            y1 as nat,
            y2 as nat,
            r1 as nat,
            r2 as nat,
            g as nat,
            h as nat,
            c as nat,
            s as nat,
        ),
{
    let eq1: bool = r1 == recompute(g, y1, c, s, p);
    let eq2: bool = r2 == recompute(h, y2, c, s, p);
    eq1 && eq2
}

/// Whether both halves of the public key and of the commitment are residues
/// modulo `p`.
pub open spec fn are_residues(p: nat, y1: nat, y2: nat, r1: nat, r2: nat) -> bool {
    y1 < p && y2 < p && r1 < p && r2 < p
}

/// Decides like [`verify`], after looking at the inputs: a modulus of zero or
/// one is rejected, and for a modulus above one so is a public key or a
/// commitment with a half outside `[0, p)`. The generators are group
/// parameters and are taken as given. A transcript that fails verification is
/// `Ok(false)`, not an error.
pub fn verify_proof(
    modulus: u32,
    y1: u32,
    y2: u32,
    r1: u32,
    r2: u32,
    g: u32,
    h: u32,
    challenge: u32,
    response: u32,
) -> (res: Result<bool, ProtocolError>)
    ensures
        match res {
            Ok(ok) => {
                &&& modulus > 1
                &&& are_residues(modulus as nat, y1 as nat, y2 as nat, r1 as nat, r2 as nat)
                &&& ok == accepts(
                    modulus as nat,
                    y1 as nat,
                    y2 as nat,
                    r1 as nat,
                    r2 as nat,
                    g as nat,
                    h as nat,
                    challenge as nat,
                    response as nat,
                )
            },
            Err(e) => if modulus <= 1 {
                e == ProtocolError::InvalidModulus
            } else {
                &&& !are_residues(modulus as nat, y1 as nat, y2 as nat, r1 as nat, r2 as nat)
                &&& e == ProtocolError::InvalidRange
            },
        },
{
    if modulus <= 1 {
        return Err(ProtocolError::InvalidModulus);
    }
    if y1 >= modulus || y2 >= modulus || r1 >= modulus || r2 >= modulus {
        return Err(ProtocolError::InvalidRange);
    }
    Ok(verify(modulus, y1, y2, r1, r2, g, h, challenge, response))
}

} // verus!
