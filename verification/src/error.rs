//! Why an input is rejected.

use vstd::prelude::*;

verus! {

/// The ways in which an input can be malformed.
#[derive(Clone, Copy, Debug, PartialEq, Eq, Structural)]
pub enum ProtocolError {
    /// The modulus is zero or one.
    InvalidModulus,
    /// A value that must lie in `[0, q)` or in `[0, p)` does not.
    InvalidRange,
}

} // verus!
