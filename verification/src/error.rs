//! The ways in which construction and verification fail.

use vstd::prelude::*;

verus! {

/// Why a constraint system was not built, or why a witness was rejected.
/// None of these is transient: each names a different thing to put right.
#[derive(Clone, Copy, Debug, PartialEq, Eq, Structural)]
pub enum R1csError {
    /// The three matrices are empty or do not have one shape.
    ShapeMismatch,
    /// The two halves of the encoded witness differ in length, or at some
    /// index do not encode the same scalar.
    WitnessMismatch,
    /// The encoded witness does not have one entry per column.
    WitnessLroMismatch,
    /// The witness does not satisfy every constraint.
    VerificationFailed,
}

impl R1csError {
    /// The text of each failure.
    pub open spec fn text(self) -> Seq<char> {
        match self {
            R1csError::ShapeMismatch => "LRO mismatch"@,
            R1csError::WitnessMismatch => "Witness mismatch"@,
            R1csError::WitnessLroMismatch => "Witness LRO mismatch"@,
            R1csError::VerificationFailed => "Verification failed"@,
        }
    }

    /// A short description of the failure, fit for a panic or a log line.
    pub fn message(&self) -> (out: &'static str)
        ensures
            out@ == self.text(),
    {
        match self {
            R1csError::ShapeMismatch => "LRO mismatch",
            R1csError::WitnessMismatch => "Witness mismatch",
            R1csError::WitnessLroMismatch => "Witness LRO mismatch",
            R1csError::VerificationFailed => "Verification failed",
        }
    }
}

/// The answer that accepts.
pub open spec fn accepted() -> Result<(), R1csError> {
    Ok(())
}

/// The answer that rejects, for the given reason.
pub open spec fn rejected(reason: R1csError) -> Result<(), R1csError> {
    Err(reason)
}

} // verus!
