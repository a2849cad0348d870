//! The ways in which setup, proving and verification fail.

use vstd::prelude::*;

verus! {

#[derive(Clone, Copy, Debug, PartialEq, Eq, Structural)]
pub enum SynthesisError {
    /// The reduction was asked for a witness that the circuit does not hold.
    AssignmentMissing,
    /// A scalar that must be invertible is zero, or a pairing has no value.
    UnexpectedIdentity,
    /// The public inputs do not match the verifying key in number.
    MalformedVerifyingKey,
}

} // verus!
