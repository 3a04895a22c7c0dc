//! Mapping from appliance phase to the two binary status outputs.

use vstd::prelude::*;

verus! {

/// Logic level of one binary output pin.
#[derive(Clone, Copy, Debug, PartialEq, Eq, Structural)]
pub enum Level {
    Low,
    High,
}

/// The opposite logic level.
pub open spec fn spec_toggle_level(level: Level) -> Level {
    match level {
        Level::Low => Level::High,
        Level::High => Level::Low,
    }
}

/// Flips a logic level: low becomes high and high becomes low.
pub fn toggle_level(level: Level) -> (r: Level)
    ensures
        r == spec_toggle_level(level),
{
    if level == Level::Low {
        Level::High
    } else {
        Level::Low
    }
}

/// Discrete appliance state that the indicator outputs reflect.
#[derive(Clone, Copy, Debug, PartialEq, Eq, Structural)]
pub enum IndicatorState {
    /// Powered on, not yet serving.
    Idle,
    /// Waiting for a peer to connect.
    Listening,
    /// A peer is connected and the service waits for data.
    Connected,
    /// Data was just read from the peer.
    Receiving,
}

/// The fixed mapping table from appliance state to the levels of
/// output A and output B.
pub open spec fn levels_for(state: IndicatorState) -> (Level, Level) {
    match state {
        IndicatorState::Idle => (Level::Low, Level::Low),
        IndicatorState::Listening => (Level::Low, Level::High),
        IndicatorState::Connected => (Level::High, Level::Low),
        IndicatorState::Receiving => (Level::Low, Level::High),
    }
}

/// Drives the two binary status outputs. The fields mirror the level each
/// physical output was last set to; the host program copies them to the pins
/// after every [`IndicatorController::set`].
#[derive(Clone, Copy, Debug, PartialEq, Eq, Structural)]
pub struct IndicatorController {
    pub output_a: Level,
    pub output_b: Level,
}

impl IndicatorController {
    /// Both outputs start low, matching the idle state.
    pub fn new() -> (r: IndicatorController)
        ensures
            (r.output_a, r.output_b) == levels_for(IndicatorState::Idle),
    {
        IndicatorController { output_a: Level::Low, output_b: Level::Low }
    }

    /// Sets the two outputs to the levels the table assigns to `state`.
    /// It cannot fail and returns nothing.
    pub fn set(&mut self, state: IndicatorState)
        ensures
            (final(self).output_a, final(self).output_b) == levels_for(state),
    {
        match state {
            IndicatorState::Idle => {
                self.output_a = Level::Low;
                self.output_b = Level::Low;
            },
            IndicatorState::Listening => {
                self.output_a = Level::Low;
                self.output_b = Level::High;
            },
            IndicatorState::Connected => {
                self.output_a = Level::High;
                self.output_b = Level::Low;
            },
            IndicatorState::Receiving => {
                self.output_a = Level::Low;
                self.output_b = Level::High;
            },
        }
    }
}

} // verus!
