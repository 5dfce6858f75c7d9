//! Errors returned by the proof system.

use vstd::prelude::*;

verus! {

/// The ways in which proving or verifying can fail.
#[derive(Debug, Clone, Copy, PartialEq, Eq, Structural)]
pub enum Error {
    /// A proof was malformed, or the relation it claims does not hold.
    VerificationFailure,
    /// The witness handed to a prover does not satisfy the instance.
    InvalidInstanceWitnessPair,
    /// The source of random bytes failed.
    RandomnessUnavailable,
}

} // verus!
