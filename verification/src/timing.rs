//! The durations of a gate, counted in samples.

use vstd::prelude::*;
use crate::error::GateError;

verus! {

/// The error that a set of durations draws, if it draws one.
///
/// A zero attack or release is reported before a negative duration.
pub open spec fn rejection(attack: int, sustain: int, release: int) -> Option<GateError> {
    if attack == 0 || release == 0 {
        Some(GateError::InvalidParameter)
    } else if attack < 0 || sustain < 0 || release < 0 {
        Some(GateError::NegativeDuration)
    } else {
        None
    }
}

/// Attack, sustain and release of a gate, in samples.
///
/// A value of this type has been checked: attack and release are positive
/// and sustain is not negative.
#[derive(Clone, Copy, Debug)]
pub struct GateTiming {
    attack: i32,
    sustain: i32,
    release: i32,
}

impl GateTiming {
    #[verifier::type_invariant]
    spec fn checked(self) -> bool {
        rejection(self.attack as int, self.sustain as int, self.release as int) is None
    }

    /// The attack time.
    pub closed spec fn spec_attack(&self) -> i32 {
        self.attack
    }

    /// The sustain time.
    pub closed spec fn spec_sustain(&self) -> i32 {
        self.sustain
    }

    /// The release time.
    pub closed spec fn spec_release(&self) -> i32 {
        self.release
    }

    /// Checks the three durations and keeps them.
    ///
    /// Negative durations are refused, not clamped.
    pub fn new(attack: i32, sustain: i32, release: i32) -> (checked: Result<GateTiming, GateError>)
        ensures
            match checked {
                Ok(timing) => {
                    &&& rejection(attack as int, sustain as int, release as int) is None
                    &&& timing.attack() == attack
                    &&& timing.sustain() == sustain
                    &&& timing.release() == release
                },
                Err(error) => rejection(attack as int, sustain as int, release as int) == Some(
                    error,
                ),
            },
    {
        if attack == 0 || release == 0 {
            Err(GateError::InvalidParameter)
        } else if attack < 0 || sustain < 0 || release < 0 {
            Err(GateError::NegativeDuration)
        } else {
            Ok(GateTiming { attack, sustain, release })
        }
    }

    /// The attack time: the time constant with which the gain follows a
    /// closed gate down.
    #[verifier::when_used_as_spec(spec_attack)]
    pub fn attack(&self) -> (samples: i32)
        ensures
            samples == self.attack(),
            samples > 0,
    {
        proof {
            use_type_invariant(self);
        }
        self.attack
    }

    /// The sustain time: how many samples in a row may stay under the
    /// threshold before the gain starts to fall.
    #[verifier::when_used_as_spec(spec_sustain)]
    pub fn sustain(&self) -> (samples: i32)
        ensures
            samples == self.sustain(),
            samples >= 0,
    {
        proof {
            use_type_invariant(self);
        }
        self.sustain
    }

    /// The release time: the time constant with which the gain follows an
    /// open gate up.
    #[verifier::when_used_as_spec(spec_release)]
    pub fn release(&self) -> (samples: i32)
        ensures
            samples == self.release(),
            samples > 0,
    {
        proof {
            use_type_invariant(self);
        }
        self.release
    }
}

} // verus!
