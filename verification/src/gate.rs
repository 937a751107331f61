//! A noise gate from one sample to the next.
//!
//! For each sample the caller reports whether its level reaches the
//! threshold, and `GateState::observe` gives the state after it. The caller
//! then reports how the smoothed gain compares with the control of that
//! state, and `GateState::smoothing` says which smoothing the gain receives
//! before it is applied to the sample.

use vstd::prelude::*;
use crate::timing::GateTiming;

verus! {

/// How the smoothed gain compares with the control, which is one for an
/// open gate and zero for a closed one.
#[derive(Clone, Copy, Debug, PartialEq, Eq, Structural)]
pub enum GainLevel {
    /// The gain is under the control.
    Below,
    /// The gain equals the control.
    Equal,
    /// The gain is over the control.
    Above,
    /// The two do not compare: the gain is not a number.
    Unordered,
}

impl GainLevel {
    /// The gain is at the control or over it.
    pub open spec fn at_or_over(self) -> bool {
        self == GainLevel::Equal || self == GainLevel::Above
    }

    /// The gain is under the control.
    pub open spec fn under(self) -> bool {
        self == GainLevel::Below
    }
}

/// What happens to the smoothed gain at one sample.
///
/// The names are those of the time constants. The attack constant moves the
/// gain down to the control, which is how a gate closes; the release
/// constant moves it up, which is how a gate opens.
#[derive(Clone, Copy, Debug, PartialEq, Eq, Structural)]
pub enum Smoothing {
    /// The gain moves to the control with the attack constant.
    Attack,
    /// The gain moves to the control with the release constant.
    Release,
    /// The gain stays as it is.
    Hold,
}

/// A gate as the recurrence sees it.
pub struct GateModel {
    /// The control: whether the last sample reached the threshold.
    pub open: bool,
    /// How many samples in a row stayed under the threshold.
    pub sustain_count: int,
}

impl GateModel {
    /// The state after a sample that reaches the threshold (`above`) or
    /// stays under it.
    ///
    /// A sample that reaches the threshold opens a closed gate and clears
    /// its count, and leaves an open one as it is. A sample under the
    /// threshold closes an open gate, and is counted.
    pub open spec fn observe(self, above: bool) -> GateModel {
        if above {
            GateModel {
                open: true,
                sustain_count: if self.open {
                    self.sustain_count
                } else {
                    0
                },
            }
        } else {
            GateModel { open: false, sustain_count: self.sustain_count + 1 }
        }
    }

    /// The smoothing that the gain receives in this state.
    ///
    /// Past the sustain time a gain at the control or over it moves with the
    /// attack constant. Within the sustain time a gain under the control
    /// moves with the release constant. Any other gain stays.
    pub open spec fn smoothing(self, level: GainLevel, sustain: int) -> Smoothing {
        if self.sustain_count > sustain && level.at_or_over() {
            Smoothing::Attack
        } else if self.sustain_count <= sustain && level.under() {
            Smoothing::Release
        } else {
            Smoothing::Hold
        }
    }

    /// The state after a run of samples, taken in order.
    pub open spec fn run(self, above: Seq<bool>) -> GateModel
        decreases above.len(),
    {
        if above.len() == 0 {
            self
        } else {
            self.run(above.drop_last()).observe(above.last())
        }
    }
}

/// The part of a gate's state that decides: the control and the count of
/// samples under the threshold. The caller keeps it between buffers, beside
/// the smoothed gain.
#[derive(Clone, Copy, Debug, PartialEq, Eq, Structural)]
pub struct GateState {
    /// The control: whether the last sample reached the threshold.
    pub open: bool,
    /// How many samples in a row stayed under the threshold.
    pub sustain_count: i32,
}

impl View for GateState {
    type V = GateModel;

    open spec fn view(&self) -> GateModel {
        GateModel { open: self.open, sustain_count: self.sustain_count as int }
    }
}

impl GateState {
    /// The state after one more sample, of which `above` says whether its
    /// level reaches the threshold.
    ///
    /// The count has to leave room for a sample under the threshold.
    pub fn observe(self, above: bool) -> (next: GateState)
        requires
            !above ==> self.sustain_count < i32::MAX,
        ensures
            next@ == self@.observe(above),
    {
        if above {
            GateState {
                open: true,
                sustain_count: if self.open {
                    self.sustain_count
                } else {
                    0
                },
            }
        } else {
            GateState { open: false, sustain_count: self.sustain_count + 1 }
        }
    }

    /// The smoothing that the gain receives for the sample that led to this
    /// state, where `level` compares the gain with this state's control.
    pub fn smoothing(&self, level: GainLevel, timing: &GateTiming) -> (choice: Smoothing)
        ensures
            choice == self@.smoothing(level, timing.sustain() as int),
    {
        let past_sustain = self.sustain_count > timing.sustain();
        match level {
            GainLevel::Below => if past_sustain {
                Smoothing::Hold
            } else {
                Smoothing::Release
            },
            GainLevel::Equal | GainLevel::Above => if past_sustain {
                Smoothing::Attack
            } else {
                Smoothing::Hold
            },
            GainLevel::Unordered => Smoothing::Hold,
        }
    }
}

} // verus!
