//! The mathematical model that the contracts of this crate are stated over.
//! Every quantity of the protocol is a natural number.

use vstd::arithmetic::power::pow;
use vstd::prelude::*;

verus! {

/// `base` raised to `exp`, reduced modulo `modulus`.
pub open spec fn mod_pow(base: nat, exp: nat, modulus: nat) -> nat {
    (pow(base as int, exp) % (modulus as int)) as nat
}

/// The response `(k - c * x) mod q` of a prover with secret `x` and nonce `k`
/// to the challenge `c`. The remainder is the Euclidean one, so for a
/// positive `q` it lies in `[0, q)` even when `k - c * x` is negative.
pub open spec fn response(x: nat, k: nat, c: nat, q: nat) -> nat {
    ((k - c * x) % (q as int)) as nat
}

/// What the verifier recomputes for one generator: `g^s * y^c mod p`.
pub open spec fn recomputed(g: nat, y: nat, c: nat, s: nat, p: nat) -> nat {
    ((pow(g as int, s) * pow(y as int, c)) % (p as int)) as nat
}

/// The verifier's verdict on a transcript: what is recomputed from the
/// response matches the commitment, for both generators.
pub open spec fn accepts(
    p: nat,
    y1: nat,
    y2: nat,
    r1: nat,
    r2: nat,
    g: nat,
    h: nat,
    c: nat,
    s: nat,
) -> bool {
    r1 == recomputed(g, y1, c, s, p) && r2 == recomputed(h, y2, c, s, p)
}

/// `n` is above 1 and has no divisor strictly between 1 and itself.
pub open spec fn is_prime(n: nat) -> bool {
    n > 1 && forall|d: nat| 1 < d < n ==> #[trigger] (n % d) != 0
}

/// `g` has multiplicative order exactly `q` modulo `p`: `g^q` is 1 and no
/// smaller positive power of `g` is.
pub open spec fn has_order(g: nat, q: nat, p: nat) -> bool {
    &&& q > 0
    &&& mod_pow(g, q, p) == 1
    &&& forall|j: nat| 0 < j < q ==> #[trigger] mod_pow(g, j, p) != 1
}

/// Group parameters as the protocol expects them: a prime modulus `p`, a
/// prime `q` dividing `p - 1`, and two distinct generators `g` and `h` of the
/// subgroup of order `q`, neither of them the identity.
pub open spec fn valid_parameters(p: nat, q: nat, g: nat, h: nat) -> bool {
    &&& is_prime(p)
    &&& is_prime(q)
    &&& (p - 1) % (q as int) == 0
    &&& 0 < g < p
    &&& 0 < h < p
    &&& has_order(g, q, p)
    &&& has_order(h, q, p)
    &&& g != h
    &&& g != 1
    &&& h != 1
}

} // verus!
