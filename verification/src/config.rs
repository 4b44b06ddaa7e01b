//! The two closed configuration enumerations — integration time and gain —
//! with their control-register codes and the coefficients the lux formula
//! uses.

use vstd::prelude::*;

verus! {

/// Exposure duration of one conversion, 100–600 ms in 100 ms steps.
#[derive(Clone, Copy, Debug, PartialEq, Eq, Structural)]
pub enum IntegrationTime {
    IT100MS,
    IT200MS,
    IT300MS,
    IT400MS,
    IT500MS,
    IT600MS,
}

/// Analog sensitivity multiplier applied before digitization.
#[derive(Clone, Copy, Debug, PartialEq, Eq, Structural)]
pub enum Gain {
    LOW,
    MEDIUM,
    GHIGH,
    MAX,
}

impl IntegrationTime {
    /// Control-register code of this integration time.
    pub open spec fn spec_code(self) -> u8 {
        match self {
            IntegrationTime::IT100MS => 0x00,
            IntegrationTime::IT200MS => 0x01,
            IntegrationTime::IT300MS => 0x02,
            IntegrationTime::IT400MS => 0x03,
            IntegrationTime::IT500MS => 0x04,
            IntegrationTime::IT600MS => 0x05,
        }
    }

    /// Control-register code of this integration time.
    pub fn code(self) -> (r: u8)
        ensures
            r == self.spec_code(),
    {
        match self {
            IntegrationTime::IT100MS => 0x00,
            IntegrationTime::IT200MS => 0x01,
            IntegrationTime::IT300MS => 0x02,
            IntegrationTime::IT400MS => 0x03,
            IntegrationTime::IT500MS => 0x04,
            IntegrationTime::IT600MS => 0x05,
        }
    }

    /// The `atime` coefficient: the exposure duration in milliseconds.
    pub open spec fn spec_atime_ms(self) -> u64 {
        match self {
            IntegrationTime::IT100MS => 100,
            IntegrationTime::IT200MS => 200,
            IntegrationTime::IT300MS => 300,
            IntegrationTime::IT400MS => 400,
            IntegrationTime::IT500MS => 500,
            IntegrationTime::IT600MS => 600,
        }
    }

    /// The `atime` coefficient: the exposure duration in milliseconds.
    pub fn atime_ms(self) -> (r: u64)
        ensures
            r == self.spec_atime_ms(),
            100 <= r <= 600,
    {
        match self {
            IntegrationTime::IT100MS => 100,
            IntegrationTime::IT200MS => 200,
            IntegrationTime::IT300MS => 300,
            IntegrationTime::IT400MS => 400,
            IntegrationTime::IT500MS => 500,
            IntegrationTime::IT600MS => 600,
        }
    }
}

impl Gain {
    /// Control-register code of this gain.
    pub open spec fn spec_code(self) -> u8 {
        match self {
            Gain::LOW => 0x00,
            Gain::MEDIUM => 0x10,
            Gain::GHIGH => 0x20,
            Gain::MAX => 0x30,
        }
    }

    /// Control-register code of this gain.
    pub fn code(self) -> (r: u8)
        ensures
            r == self.spec_code(),
    {
        match self {
            Gain::LOW => 0x00,
            Gain::MEDIUM => 0x10,
            Gain::GHIGH => 0x20,
            Gain::MAX => 0x30,
        }
    }

    /// The `again` coefficient: the sensitivity multiplier.
    pub open spec fn spec_again(self) -> u64 {
        match self {
            Gain::LOW => 1,
            Gain::MEDIUM => 25,
            Gain::GHIGH => 428,
            Gain::MAX => 9876,
        }
    }

    /// The `again` coefficient: the sensitivity multiplier.
    pub fn again(self) -> (r: u64)
        ensures
            r == self.spec_again(),
            1 <= r <= 9876,
    {
        match self {
            Gain::LOW => 1,
            Gain::MEDIUM => 25,
            Gain::GHIGH => 428,
            Gain::MAX => 9876,
        }
    }
}

/// The byte `configure` writes to the control register: the bitwise OR of the
/// two parameter codes.
pub open spec fn spec_control_byte(integration: IntegrationTime, gain: Gain) -> u8 {
    integration.spec_code() | gain.spec_code()
}

/// Combines an integration-time code and a gain code into one control byte.
pub fn control_byte(integration: IntegrationTime, gain: Gain) -> (r: u8)
    ensures
        r == spec_control_byte(integration, gain),
{
    integration.code() | gain.code()
}

} // verus!
