//! Bus frequency and timeout policy.

use vstd::prelude::*;
use crate::variant::Variant;

verus! {

/// SCL timeout period.
///
/// When the level of SCL remains unchanged for more than `timeout` bus clock
/// cycles, the bus goes to idle state. On all families but the first the
/// effective timeout may be longer than the value configured here.
#[derive(Debug, Clone, Copy, PartialEq, Eq, Hash, Structural)]
pub enum BusTimeout {
    /// Use the maximum timeout value.
    Maximum,
    /// Disable timeout control. Not every family can.
    Disabled,
    /// Timeout in bus clock cycles.
    BusCycles(u32),
}

impl BusTimeout {
    pub open spec fn spec_cycles(&self, variant: Variant) -> u32 {
        match *self {
            BusTimeout::Maximum => variant.timeout_max(),
            BusTimeout::Disabled => 1,
            BusTimeout::BusCycles(cycles) => cycles,
        }
    }

    /// Value for the timeout register's count field.
    #[verifier::when_used_as_spec(spec_cycles)]
    pub fn cycles(&self, variant: Variant) -> (cycles: u32)
        ensures
            cycles == self.spec_cycles(variant),
    {
        match self {
            BusTimeout::Maximum => variant.timeout_max(),
            BusTimeout::Disabled => 1,
            BusTimeout::BusCycles(cycles) => *cycles,
        }
    }

    pub open spec fn spec_is_set(&self) -> bool {
        *self is BusCycles || *self is Maximum
    }

    /// Whether timeout control is on.
    #[verifier::when_used_as_spec(spec_is_set)]
    pub fn is_set(&self) -> (set: bool)
        ensures
            set == self.spec_is_set(),
    {
        match self {
            BusTimeout::BusCycles(_) | BusTimeout::Maximum => true,
            BusTimeout::Disabled => false,
        }
    }

    /// Name of the variant.
    pub fn name(&self) -> (text: &'static str)
        ensures
            text@ == match *self {
                BusTimeout::Maximum => "Maximum"@,
                BusTimeout::Disabled => "Disabled"@,
                BusTimeout::BusCycles(_) => "BusCycles"@,
            },
    {
        match self {
            BusTimeout::Maximum => "Maximum",
            BusTimeout::Disabled => "Disabled",
            BusTimeout::BusCycles(_) => "BusCycles",
        }
    }
}

/// Hertz in `khz` kilohertz.
///
/// Trusted: calls `fugit::Rate::<u32, 1, 1>::kHz` and reads the rate back
/// with `raw`. For a rate in hertz `kHz` multiplies by 1000 in `u32`, which
/// the precondition keeps in range, and `raw` returns the stored number.
#[verifier::external_body]
fn kilohertz(khz: u32) -> (hz: u32)
    requires
        khz * 1000 <= u32::MAX,
    ensures
        hz == khz * 1000,
{
    fugit::HertzU32::kHz(khz).raw()
}

/// Driver configuration.
#[derive(Debug, Clone, Copy, PartialEq, Eq, Hash, Structural)]
#[non_exhaustive]
pub struct Config {
    /// The I2C clock frequency, in hertz.
    pub frequency: u32,
    /// I2C SCL timeout period.
    pub timeout: BusTimeout,
}

impl Default for Config {
    /// 100 kHz, with a timeout of 10 bus cycles.
    fn default() -> (config: Config)
        ensures
            config.frequency == 100_000,
            config.timeout == BusTimeout::BusCycles(10),
    {
        Config { frequency: kilohertz(100), timeout: BusTimeout::BusCycles(10) }
    }
}

impl Config {
    /// The configuration with another frequency, in hertz.
    pub fn with_frequency(self, frequency: u32) -> (config: Config)
        ensures
            config.frequency == frequency,
            config.timeout == self.timeout,
    {
        Config { frequency, timeout: self.timeout }
    }

    /// The configuration with another timeout.
    pub fn with_timeout(self, timeout: BusTimeout) -> (config: Config)
        ensures
            config.frequency == self.frequency,
            config.timeout == timeout,
    {
        Config { frequency: self.frequency, timeout }
    }
}

} // verus!
