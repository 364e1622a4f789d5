use vstd::prelude::*;

use crate::LEVEL_MAX;

verus! {

/// Output level: open or closed.
#[derive(Debug, Clone, Copy, PartialEq, Eq, Structural)]
pub enum Gate {
    Open,
    Closed,
}

/// How a stage opens and closes its output over its pulses.
#[derive(Debug, Clone, Copy, PartialEq, Eq, Structural)]
pub enum GateMode {
    /// Opens at the start of every pulse, for `gate_time`.
    Repeat,
    /// Stays open through the stage and closes after `gate_time` on the last pulse.
    Sustain,
    /// Opens for `gate_time` on the first pulse only.
    Single,
    /// Never opens.
    Silent,
}

impl GateMode {
    /// Output is open `elapsed` time units after the last step, with an open
    /// window of `gate_time`.
    pub open spec fn is_open(self, gate_time: u32, elapsed: u32, first_pulse: bool, last_pulse: bool) -> bool {
        match self {
            GateMode::Repeat => gate_time >= elapsed,
            GateMode::Single => gate_time >= elapsed && first_pulse,
            GateMode::Sustain => !last_pulse || gate_time >= elapsed,
            GateMode::Silent => false,
        }
    }

    pub open spec fn gate_spec(self, gate_time: u32, elapsed: u32, first_pulse: bool, last_pulse: bool) -> Gate {
        if self.is_open(gate_time, elapsed, first_pulse, last_pulse) {
            Gate::Open
        } else {
            Gate::Closed
        }
    }

    pub fn gate(self, gate_time_ms: u32, last_beat_ms: u32, first_pulse: bool, last_pulse: bool) -> (r: Gate)
        ensures
            r == self.gate_spec(gate_time_ms, last_beat_ms, first_pulse, last_pulse),
    {
        match self {
            GateMode::Repeat if gate_time_ms >= last_beat_ms => Gate::Open,
            GateMode::Single if gate_time_ms >= last_beat_ms && first_pulse => Gate::Open,
            GateMode::Sustain if !last_pulse || gate_time_ms >= last_beat_ms => Gate::Open,
            _ => Gate::Closed,
        }
    }

    /// The mode chosen by a control level: the range splits into four equal
    /// quarters, from `Repeat` at the bottom to `Silent` at the top.
    pub open spec fn from_level_spec(level: u32) -> GateMode {
        if level < LEVEL_MAX / 4 {
            GateMode::Repeat
        } else if level < LEVEL_MAX / 2 {
            GateMode::Sustain
        } else if level < LEVEL_MAX / 4 * 3 {
            GateMode::Single
        } else {
            GateMode::Silent
        }
    }

    pub fn from_level(level: u32) -> (r: GateMode)
        ensures
            r == Self::from_level_spec(level),
    {
        if level < LEVEL_MAX / 4 {
            GateMode::Repeat
        } else if level < LEVEL_MAX / 2 {
            GateMode::Sustain
        } else if level < LEVEL_MAX / 4 * 3 {
            GateMode::Single
        } else {
            GateMode::Silent
        }
    }
}

/// Sustain stays open on every pulse but the last whatever the time, and on
/// the last pulse closes once `gate_time` has passed.
pub proof fn lemma_sustain_gate(gate_time: u32, elapsed: u32, first_pulse: bool)
    ensures
        GateMode::Sustain.gate_spec(gate_time, elapsed, first_pulse, false) == Gate::Open,
        elapsed > gate_time ==> GateMode::Sustain.gate_spec(gate_time, elapsed, first_pulse, true)
            == Gate::Closed,
        elapsed <= gate_time ==> GateMode::Sustain.gate_spec(gate_time, elapsed, first_pulse, true)
            == Gate::Open,
{
}

} // verus!
