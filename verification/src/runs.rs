//! What holds of a gate over runs of samples.

use vstd::prelude::*;
use crate::gate::{GainLevel, GateModel, Smoothing};

verus! {

/// Every sample of the run stays under the threshold.
pub open spec fn all_under(above: Seq<bool>) -> bool {
    forall|i: int| 0 <= i < above.len() ==> !above[i]
}

/// Every sample of the run reaches the threshold.
pub open spec fn all_reach(above: Seq<bool>) -> bool {
    forall|i: int| 0 <= i < above.len() ==> above[i]
}

/// A run of no samples leaves the state as it is.
pub proof fn lemma_run_of_nothing(gate: GateModel)
    ensures
        gate.run(Seq::empty()) == gate,
{
}

/// One more sample after a run is one more observation.
pub proof fn lemma_run_then_one(gate: GateModel, above: Seq<bool>, next: bool)
    ensures
        gate.run(above.push(next)) == gate.run(above).observe(next),
{
    assert(above.push(next).drop_last() =~= above);
}

/// A stream may be cut into buffers anywhere: the state after two runs, the
/// second started from the state that the first one left, is the state
/// after the two runs taken as one.
pub proof fn lemma_run_in_two(gate: GateModel, first: Seq<bool>, second: Seq<bool>)
    ensures
        gate.run(first + second) == gate.run(first).run(second),
    decreases second.len(),
{
    if second.len() == 0 {
        assert(first + second =~= first);
    } else {
        lemma_run_in_two(gate, first, second.drop_last());
        assert((first + second).drop_last() =~= first + second.drop_last());
    }
}

/// A count that is not negative never becomes negative.
pub proof fn lemma_count_stays_nonnegative(gate: GateModel, above: Seq<bool>)
    requires
        gate.sustain_count >= 0,
    ensures
        gate.run(above).sustain_count >= 0,
    decreases above.len(),
{
    if above.len() > 0 {
        lemma_count_stays_nonnegative(gate, above.drop_last());
    }
}

/// A run under the threshold leaves a closed gate and adds its length to
/// the count.
pub proof fn lemma_quiet_run(gate: GateModel, above: Seq<bool>)
    requires
        all_under(above),
    ensures
        gate.run(above).sustain_count == gate.sustain_count + above.len(),
        above.len() > 0 ==> !gate.run(above).open,
    decreases above.len(),
{
    if above.len() > 0 {
        lemma_quiet_run(gate, above.drop_last());
    }
}

/// A run that reaches the threshold leaves an open gate. It clears the
/// count of a closed gate, and keeps that of an open one.
pub proof fn lemma_loud_run(gate: GateModel, above: Seq<bool>)
    requires
        all_reach(above),
        above.len() > 0,
    ensures
        gate.run(above).open,
        gate.run(above).sustain_count == if gate.open {
            gate.sustain_count
        } else {
            0
        },
    decreases above.len(),
{
    if above.len() > 1 {
        lemma_loud_run(gate, above.drop_last());
    } else {
        reveal_with_fuel(GateModel::run, 2);
    }
}

/// A smoothing never moves the gain away from the control: the attack
/// constant is chosen only for a gain at the control or over it, the release
/// constant only for a gain under it. A gain that does not compare is never
/// moved.
pub proof fn lemma_gain_moves_toward_control(gate: GateModel, level: GainLevel, sustain: int)
    ensures
        gate.smoothing(level, sustain) == Smoothing::Attack ==> level.at_or_over(),
        gate.smoothing(level, sustain) == Smoothing::Release ==> level.under(),
        level == GainLevel::Unordered ==> gate.smoothing(level, sustain) == Smoothing::Hold,
{
}

/// Within the sustain time the gain is held. After any sample under the
/// threshold that leaves the count within the sustain time, the gain is not
/// moved with the attack constant, and a gain that is not under the control
/// stays as it is. Once the count is past the sustain time, a gain at the
/// control or over it moves with the attack constant.
pub proof fn lemma_sustain_hold(gate: GateModel, level: GainLevel, sustain: int)
    ensures
        ({
            let next = gate.observe(false);
            &&& next.sustain_count <= sustain ==> next.smoothing(level, sustain)
                != Smoothing::Attack
            &&& next.sustain_count <= sustain && !level.under() ==> next.smoothing(level, sustain)
                == Smoothing::Hold
            &&& next.sustain_count > sustain && level.at_or_over() ==> next.smoothing(level, sustain)
                == Smoothing::Attack
        }),
{
}

/// The sustain time counts from the end of a run that reached the
/// threshold. After such a run, started with a closed gate, up to `sustain`
/// samples under the threshold leave a gain at the control or over it as it
/// is; the sample after them starts to move it with the attack constant.
pub proof fn lemma_hold_after_loud_run(
    gate: GateModel,
    loud: Seq<bool>,
    quiet: Seq<bool>,
    level: GainLevel,
    sustain: int,
)
    requires
        !gate.open,
        all_reach(loud),
        loud.len() > 0,
        all_under(quiet),
        quiet.len() > 0,
        level.at_or_over(),
    ensures
        gate.run(loud + quiet).smoothing(level, sustain) == if quiet.len() <= sustain {
            Smoothing::Hold
        } else {
            Smoothing::Attack
        },
{
    lemma_run_in_two(gate, loud, quiet);
    lemma_loud_run(gate, loud);
    lemma_quiet_run(gate.run(loud), quiet);
}

/// While the signal reaches the threshold the gain is only ever raised.
/// After a run that reaches the threshold, started with a closed gate or
/// with a count within the sustain time, a gain under the control moves with
/// the release constant and any other gain stays as it is.
pub proof fn lemma_loud_run_raises_gain(
    gate: GateModel,
    above: Seq<bool>,
    level: GainLevel,
    sustain: int,
)
    requires
        all_reach(above),
        above.len() > 0,
        sustain >= 0,
        !gate.open || gate.sustain_count <= sustain,
    ensures
        gate.run(above).smoothing(level, sustain) == if level.under() {
            Smoothing::Release
        } else {
            Smoothing::Hold
        },
{
    lemma_loud_run(gate, above);
}

/// While the signal stays under the threshold for longer than the sustain
/// time the gain is only ever lowered. After a run under the threshold that
/// is longer than the sustain time, started with a count that is not
/// negative, a gain at the control or over it moves with the attack constant
/// and any other gain stays as it is.
pub proof fn lemma_quiet_run_lowers_gain(
    gate: GateModel,
    above: Seq<bool>,
    level: GainLevel,
    sustain: int,
)
    requires
        all_under(above),
        above.len() > sustain,
        gate.sustain_count >= 0,
    ensures
        gate.run(above).smoothing(level, sustain) == if level.at_or_over() {
            Smoothing::Attack
        } else {
            Smoothing::Hold
        },
{
    lemma_quiet_run(gate, above);
}

} // verus!
