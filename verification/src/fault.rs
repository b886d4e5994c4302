//! The errors that end the process, and how it ends.

use crate::actuator::ActuatorError;
use crate::config::ConfigError;
use crate::sensor::SensorError;
use vstd::prelude::*;
use vstd::string::StringExecFns;

verus! {

/// An error that ends the process. None is retried.
#[derive(Clone, Copy, Debug, PartialEq, Eq, Structural)]
pub enum Fault {
    /// The process could not start.
    Config(ConfigError),
    /// A sample could not be taken.
    Sensor(SensorError),
    /// The output line could not be driven while the loop ran.
    Actuator(ActuatorError),
}

/// How a run ended: by a shutdown request, or by a fault.
pub type Outcome = Result<(), Fault>;

/// The process's exit status: 0 after a shutdown request, 1 after a fault.
pub open spec fn exit_status(outcome: Outcome) -> u8 {
    match outcome {
        Ok(_) => 0,
        Err(_) => 1,
    }
}

/// The status with which the process exits.
pub fn exit_code(outcome: &Outcome) -> (code: u8)
    ensures
        code == exit_status(*outcome),
        code == 0 <==> outcome is Ok,
{
    match outcome {
        Ok(_) => 0,
        Err(_) => 1,
    }
}

impl Fault {
    /// The fault that a failure to claim the output line is. The loop has
    /// not started then, so it counts against the configuration, which names
    /// a chip or a line that cannot be had.
    pub fn before_start(error: ActuatorError) -> (fault: Fault)
        ensures
            fault == Fault::Config(ConfigError::Unreachable(error)),
    {
        Fault::Config(ConfigError::Unreachable(error))
    }

    /// The part of the process that failed.
    pub open spec fn operation(self) -> Seq<char> {
        match self {
            Fault::Config(_) => "invalid configuration: "@,
            Fault::Sensor(_) => "sensor error: "@,
            Fault::Actuator(_) => "actuator error: "@,
        }
    }

    /// The line for the diagnostic stream: the part of the process that
    /// failed, then what failed.
    pub open spec fn description(self) -> Seq<char> {
        self.operation() + match self {
            Fault::Config(error) => error.description(),
            Fault::Sensor(error) => error.description(),
            Fault::Actuator(error) => error.description(),
        }
    }

    /// The message to print before the process exits.
    pub fn describe(&self) -> (message: String)
        ensures
            message@ == self.description(),
    {
        match self {
            Fault::Config(error) => String::from_str("invalid configuration: ").concat(
                error.describe(),
            ),
            Fault::Sensor(error) => String::from_str("sensor error: ").concat(error.describe()),
            Fault::Actuator(error) => String::from_str("actuator error: ").concat(error.describe()),
        }
    }
}

} // verus!
