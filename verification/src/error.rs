//! Errors reported for malformed durations.

use vstd::prelude::*;

verus! {

/// Why a set of durations was refused.
#[derive(Clone, Copy, Debug, PartialEq, Eq, Structural)]
pub enum GateError {
    /// Attack or release is zero: the time constant of the smoothing would
    /// be divided by zero.
    InvalidParameter,
    /// Attack, sustain or release is negative.
    NegativeDuration,
}

impl GateError {
    /// The text of `message`.
    pub open spec fn message_text(self) -> Seq<char> {
        match self {
            GateError::InvalidParameter => "attack and release must not be zero samples"@,
            GateError::NegativeDuration => "attack, sustain and release must not be negative"@,
        }
    }

    /// A sentence that describes the error.
    pub fn message(&self) -> (text: String)
        ensures
            text@ == self.message_text(),
    {
        match self {
            GateError::InvalidParameter => "attack and release must not be zero samples".to_owned(),
            GateError::NegativeDuration => "attack, sustain and release must not be negative".to_owned(),
        }
    }
}

} // verus!
