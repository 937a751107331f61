//! The control logic of a streaming noise gate.
//!
//! A noise gate attenuates a signal whose level stays under a threshold.
//! This crate holds the part of it that decides: it checks the durations,
//! follows the state of a gate from sample to sample, and says which
//! smoothing the gain receives. The arithmetic on the samples and on the
//! gain is the caller's.

pub mod error;
pub mod timing;
pub mod gate;
pub mod runs;
