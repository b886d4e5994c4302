//! The errors of the output line that drives the fan.

use vstd::prelude::*;

verus! {

/// Why the output line could not be claimed or driven.
#[derive(Clone, Copy, Debug, PartialEq, Eq, Structural)]
pub enum ActuatorError {
    /// The chip could not be opened.
    ChipUnavailable,
    /// The chip has no line at the offset.
    LineUnavailable,
    /// The line is there but could not be claimed.
    LineBusy,
    /// The line could not be driven.
    WriteFailed,
}

impl ActuatorError {
    /// What failed, in words.
    pub open spec fn description(self) -> Seq<char> {
        match self {
            ActuatorError::ChipUnavailable => "the chip could not be opened"@,
            ActuatorError::LineUnavailable => "the line is not available on the chip"@,
            ActuatorError::LineBusy => "the line could not be claimed"@,
            ActuatorError::WriteFailed => "the line could not be driven"@,
        }
    }

    /// What failed, in words.
    pub fn describe(&self) -> (text: &'static str)
        ensures
            text@ == self.description(),
    {
        match self {
            ActuatorError::ChipUnavailable => "the chip could not be opened",
            ActuatorError::LineUnavailable => "the line is not available on the chip",
            ActuatorError::LineBusy => "the line could not be claimed",
            ActuatorError::WriteFailed => "the line could not be driven",
        }
    }
}

} // verus!
