//! What the loop is started with, and the checks it has to pass.

use crate::actuator::ActuatorError;
use vstd::prelude::*;

verus! {

/// Why the process cannot start with the configuration it was given.
#[derive(Clone, Copy, Debug, PartialEq, Eq, Structural)]
pub enum ConfigError {
    /// The temperature that starts the fan is not above the one that stops it.
    InvalidThresholds,
    /// The poll interval is zero.
    InvalidInterval,
    /// The chip or the line that the configuration names could not be claimed.
    Unreachable(ActuatorError),
}

impl ConfigError {
    /// What is wrong with the configuration, in words.
    pub open spec fn description(self) -> Seq<char> {
        match self {
            ConfigError::InvalidThresholds => "the on temperature must exceed the off temperature"@,
            ConfigError::InvalidInterval => "the poll interval must be greater than zero"@,
            ConfigError::Unreachable(error) => error.description(),
        }
    }

    /// What is wrong with the configuration, in words.
    pub fn describe(&self) -> (text: &'static str)
        ensures
            text@ == self.description(),
    {
        match self {
            ConfigError::InvalidThresholds => "the on temperature must exceed the off temperature",
            ConfigError::InvalidInterval => "the poll interval must be greater than zero",
            ConfigError::Unreachable(error) => error.describe(),
        }
    }
}

/// The temperature at or above which the fan starts and the one at or below
/// which it stops, in thousandths of a degree Celsius. The first is always
/// above the second.
#[derive(Clone, Copy, Debug, PartialEq, Eq, Structural)]
pub struct Thresholds {
    on_temp: i32,
    off_temp: i32,
}

impl Thresholds {
    #[verifier::type_invariant]
    spec fn ordered(self) -> bool {
        self.on_temp > self.off_temp
    }

    /// The temperature at or above which a stopped fan starts.
    pub closed spec fn on(self) -> int {
        self.on_temp as int
    }

    /// The temperature at or below which a running fan stops.
    pub closed spec fn off(self) -> int {
        self.off_temp as int
    }

    /// What holds of every `Thresholds` that `new` gave out.
    pub open spec fn well_formed(self) -> bool {
        self.on() > self.off()
    }

    /// Thresholds with the given temperatures, or
    /// `ConfigError::InvalidThresholds` where `on_temp` is not above `off_temp`.
    pub fn new(on_temp: i32, off_temp: i32) -> (r: Result<Thresholds, ConfigError>)
        ensures
            on_temp > off_temp ==> r is Ok && r->Ok_0.on() == on_temp && r->Ok_0.off() == off_temp,
            on_temp <= off_temp ==> r == Err::<Thresholds, ConfigError>(
                ConfigError::InvalidThresholds,
            ),
    {
        if on_temp > off_temp {
            Ok(Thresholds { on_temp, off_temp })
        } else {
            Err(ConfigError::InvalidThresholds)
        }
    }

    /// Two `Thresholds` with the same temperatures are the same.
    pub proof fn lemma_equal_by_temperatures(self, other: Thresholds)
        requires
            self.on() == other.on(),
            self.off() == other.off(),
        ensures
            self == other,
    {
    }

    /// The temperature at or above which a stopped fan starts.
    pub fn on_temp(&self) -> (t: i32)
        ensures
            t == self.on(),
            self.well_formed(),
    {
        proof {
            use_type_invariant(self);
        }
        self.on_temp
    }

    /// The temperature at or below which a running fan stops.
    pub fn off_temp(&self) -> (t: i32)
        ensures
            t == self.off(),
            self.well_formed(),
    {
        proof {
            use_type_invariant(self);
        }
        self.off_temp
    }
}

/// What a `Configuration` holds, as plain values.
pub struct ConfigurationView {
    /// The path of the chip that has the output line.
    pub chip: Seq<char>,
    /// The offset of the output line on the chip.
    pub offset: u32,
    pub thresholds: Thresholds,
    /// The time between two samples, in milliseconds.
    pub poll_interval_ms: u64,
    /// Whether each sample is reported on the diagnostic stream.
    pub verbose: bool,
}

/// What the process is started with. It is checked once, when it is built,
/// and does not change afterwards.
#[derive(Debug, PartialEq, Eq)]
pub struct Configuration {
    chip: String,
    offset: u32,
    thresholds: Thresholds,
    poll_interval_ms: u64,
    verbose: bool,
}

impl View for Configuration {
    type V = ConfigurationView;

    closed spec fn view(&self) -> ConfigurationView {
        ConfigurationView {
            chip: self.chip@,
            offset: self.offset,
            thresholds: self.thresholds,
            poll_interval_ms: self.poll_interval_ms,
            verbose: self.verbose,
        }
    }
}

impl Configuration {
    #[verifier::type_invariant]
    spec fn checked(self) -> bool {
        self.poll_interval_ms > 0 && self.thresholds.well_formed()
    }

    /// A configuration of the given values, or `ConfigError::InvalidInterval`
    /// where the poll interval is zero.
    pub fn new(
        chip: String,
        offset: u32,
        thresholds: Thresholds,
        poll_interval_ms: u64,
        verbose: bool,
    ) -> (r: Result<Configuration, ConfigError>)
        ensures
            poll_interval_ms > 0 ==> r is Ok && r->Ok_0@ == (ConfigurationView {
                chip: chip@,
                offset,
                thresholds,
                poll_interval_ms,
                verbose,
            }),
            poll_interval_ms == 0 ==> r == Err::<Configuration, ConfigError>(
                ConfigError::InvalidInterval,
            ),
    {
        if poll_interval_ms == 0 {
            return Err(ConfigError::InvalidInterval);
        }
        proof {
            use_type_invariant(thresholds);
        }
        Ok(Configuration { chip, offset, thresholds, poll_interval_ms, verbose })
    }

    /// The path of the chip that has the output line.
    pub fn chip(&self) -> (path: &str)
        ensures
            path@ == self@.chip,
    {
        self.chip.as_str()
    }

    /// The offset of the output line on the chip.
    pub fn offset(&self) -> (offset: u32)
        ensures
            offset == self@.offset,
    {
        self.offset
    }

    /// The two temperatures of the hysteresis policy.
    pub fn thresholds(&self) -> (thresholds: Thresholds)
        ensures
            thresholds == self@.thresholds,
            thresholds.well_formed(),
    {
        proof {
            use_type_invariant(self);
        }
        self.thresholds
    }

    /// The time between two samples, in milliseconds; never zero.
    pub fn poll_interval_ms(&self) -> (millis: u64)
        ensures
            millis == self@.poll_interval_ms,
            millis > 0,
    {
        proof {
            use_type_invariant(self);
        }
        self.poll_interval_ms
    }

    /// Whether each sample is reported on the diagnostic stream.
    pub fn verbose(&self) -> (verbose: bool)
        ensures
            verbose == self@.verbose,
    {
        self.verbose
    }
}

} // verus!
