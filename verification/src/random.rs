//! Random values for nonces, challenges and identifiers, drawn from the
//! thread-local generator of the `rand` crate.

use rand::Rng;
use vstd::prelude::*;

verus! {

/// An ASCII letter or digit.
pub open spec fn is_alphanumeric(c: char) -> bool {
    ||| '0' <= c <= '9'
    ||| 'A' <= c <= 'Z'
    ||| 'a' <= c <= 'z'
}

/// `String::push` appends the character to the end of the string. As with
/// `Vec::push`, running out of memory is not part of the contract.
pub assume_specification[ String::push ](s: &mut String, ch: char)
    ensures
        final(s)@ == old(s)@.push(ch),
;

/// Draws one character from `rand::distributions::Alphanumeric` with
/// `rand::thread_rng()`. The distribution picks from the 62 ASCII letters and
/// digits; which one comes out is not determined.
#[verifier::external_body]
fn sample_alphanumeric() -> (c: char)
    ensures
        is_alphanumeric(c),
{
    char::from(rand::thread_rng().sample(rand::distributions::Alphanumeric))
}

/// Draws a `u32` with `rand::thread_rng().gen()`. Every value of the type can
/// come out, so nothing is promised of the result.
#[verifier::external_body]
pub fn random_number() -> u32 {
    rand::thread_rng().gen()
}

/// Builds a string of `n` random ASCII letters and digits.
pub fn random_string(n: usize) -> (s: String)
    ensures
        s@.len() == n,
        forall|i: int| 0 <= i < s@.len() ==> is_alphanumeric(#[trigger] s@[i]),
{
    let mut s: String = String::new();
    let mut i: usize = 0;
    while i < n
        invariant
            i <= n,
            s@.len() == i,
            forall|j: int| 0 <= j < s@.len() ==> is_alphanumeric(#[trigger] s@[j]),
        decreases n - i,
    {
        let c: char = sample_alphanumeric();
        s.push(c);
        i = i + 1;
    }
    s
}

} // verus!
