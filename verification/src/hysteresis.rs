//! The hysteresis policy: when the fan switches on and off.

use crate::config::Thresholds;
use vstd::prelude::*;

verus! {

/// Whether the fan is running.
#[derive(Clone, Copy, Debug, PartialEq, Eq, Structural)]
pub enum FanState {
    Off,
    On,
}

impl FanState {
    /// The level that the output line has in this state: 1 drives the fan, 0 does not.
    pub open spec fn level(self) -> u8 {
        match self {
            FanState::Off => 0,
            FanState::On => 1,
        }
    }

    /// How the state is written on the diagnostic stream.
    pub open spec fn name(self) -> Seq<char> {
        match self {
            FanState::Off => "OFF"@,
            FanState::On => "ON"@,
        }
    }

    /// How the state is written on the diagnostic stream.
    pub fn label(self) -> (text: &'static str)
        ensures
            text@ == self.name(),
    {
        match self {
            FanState::Off => "OFF",
            FanState::On => "ON",
        }
    }

    /// The level to which the output line is driven in this state.
    pub fn line_value(self) -> (v: u8)
        ensures
            v == self.level(),
    {
        match self {
            FanState::Off => 0,
            FanState::On => 1,
        }
    }
}

/// The state that follows `current` when the temperature is `temp`: a
/// running fan stops at or below the lower threshold, a stopped fan starts at
/// or above the upper one, and otherwise nothing changes.
pub open spec fn next_state(current: FanState, temp: int, thresholds: Thresholds) -> FanState {
    if current == FanState::On && temp <= thresholds.off() {
        FanState::Off
    } else if current == FanState::Off && temp >= thresholds.on() {
        FanState::On
    } else {
        current
    }
}

/// One decision of the controller: the state of the fan after a sample of
/// `temp` thousandths of a degree Celsius.
pub fn step(current: FanState, temp: i32, thresholds: Thresholds) -> (next: FanState)
    ensures
        next == next_state(current, temp as int, thresholds),
        temp >= thresholds.on() ==> next == FanState::On,
        temp <= thresholds.off() ==> next == FanState::Off,
        thresholds.off() < temp < thresholds.on() ==> next == current,
{
    match current {
        FanState::On => if temp <= thresholds.off_temp() {
            FanState::Off
        } else {
            FanState::On
        },
        FanState::Off => if temp >= thresholds.on_temp() {
            FanState::On
        } else {
            FanState::Off
        },
    }
}

/// A stopped fan that reaches exactly the upper threshold starts, and a
/// running fan that cools to exactly the lower threshold stops.
pub proof fn lemma_switches_at_thresholds(thresholds: Thresholds)
    requires
        thresholds.well_formed(),
    ensures
        next_state(FanState::Off, thresholds.on(), thresholds) == FanState::On,
        next_state(FanState::On, thresholds.off(), thresholds) == FanState::Off,
{
}

/// Strictly between the two thresholds the fan keeps its state.
pub proof fn lemma_dead_band_holds(current: FanState, temp: int, thresholds: Thresholds)
    requires
        thresholds.off() < temp < thresholds.on(),
    ensures
        next_state(current, temp, thresholds) == current,
{
}

/// Outside the dead band the temperature alone decides: at or above the
/// upper threshold the fan runs, at or below the lower one it does not.
pub proof fn lemma_outside_dead_band(current: FanState, temp: int, thresholds: Thresholds)
    requires
        thresholds.well_formed(),
    ensures
        temp >= thresholds.on() ==> next_state(current, temp, thresholds) == FanState::On,
        temp <= thresholds.off() ==> next_state(current, temp, thresholds) == FanState::Off,
{
}

/// A temperature that stays the same switches the fan at most once: the
/// second decision on the same sample changes nothing.
pub proof fn lemma_steady_temperature_settles(current: FanState, temp: int, thresholds: Thresholds)
    requires
        thresholds.well_formed(),
    ensures
        next_state(next_state(current, temp, thresholds), temp, thresholds) == next_state(
            current,
            temp,
            thresholds,
        ),
{
}

} // verus!
