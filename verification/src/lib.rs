//! Thermal protection for a single fan: a two-threshold hysteresis policy,
//! the sensor's text format, and the control loop that ties them together.
//!
//! The library decides; it does not touch the sensor, the output line or the
//! clock. A driver reads the sensor's text and hands it to [`sample`], and
//! runs a [`ControlLoop`] by doing what each [`Action`] says and reporting
//! back with an [`Event`].

pub mod actuator;
pub mod config;
pub mod control;
pub mod fault;
pub mod hysteresis;
pub mod sensor;

pub use actuator::ActuatorError;
pub use config::{ConfigError, Configuration, Thresholds};
pub use control::{Action, ControlLoop, Event, LoopState, Report};
pub use fault::{exit_code, Fault, Outcome};
pub use hysteresis::{step, FanState};
pub use sensor::{parse_temperature, sample, SensorError};
