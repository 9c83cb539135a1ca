//! The choice between a 12-hour and a 24-hour clock.

use vstd::prelude::*;
use vstd::std_specs::convert::FromSpecImpl;

verus! {

/// How the hour is shown.
#[derive(Copy, Clone, Debug, PartialEq, Eq, Structural)]
pub enum HourFormat {
    Twelve,
    TwentyFour,
}

impl Default for HourFormat {
    /// The 24-hour clock is what an unconfigured device shows.
    fn default() -> (format: Self)
        ensures
            format == HourFormat::TwentyFour,
    {
        HourFormat::TwentyFour
    }
}

impl From<u8> for HourFormat {
    fn from(value: u8) -> (format: Self) {
        if value == 0 {
            HourFormat::Twelve
        } else {
            HourFormat::TwentyFour
        }
    }
}

impl FromSpecImpl<u8> for HourFormat {
    open spec fn obeys_from_spec() -> bool {
        true
    }

    open spec fn from_spec(value: u8) -> Self {
        HourFormat::of_code(value)
    }
}

impl HourFormat {
    /// The format that a stored number stands for: 0 for the 12-hour clock,
    /// 1 and every other number for the 24-hour clock.
    pub open spec fn of_code(value: u8) -> Self {
        if value == 0 {
            HourFormat::Twelve
        } else {
            HourFormat::TwentyFour
        }
    }

    /// The number that stands for the format where it is stored.
    pub open spec fn code(self) -> u8 {
        match self {
            HourFormat::Twelve => 0,
            HourFormat::TwentyFour => 1,
        }
    }

    /// The number that stands for the format where it is stored.
    pub fn to_u8(self) -> (code: u8)
        ensures
            code == self.code(),
    {
        match self {
            HourFormat::Twelve => 0,
            HourFormat::TwentyFour => 1,
        }
    }
}

/// The format in force: the one that was set, or the 24-hour clock while
/// none has been.
pub open spec fn format_in_force(setting: Option<HourFormat>) -> HourFormat {
    match setting {
        Some(format) => format,
        None => HourFormat::TwentyFour,
    }
}

/// Reads the format in force from the setting.
pub fn get_hour_format(setting: &Option<HourFormat>) -> (format: HourFormat)
    ensures
        format == format_in_force(*setting),
{
    match setting {
        Some(hour_format) => *hour_format,
        None => HourFormat::default(),
    }
}

/// Puts a new format into the setting.
pub fn set_hour_format(setting: &mut Option<HourFormat>, new_hour_format: HourFormat)
    ensures
        *final(setting) == Some(new_hour_format),
{
    *setting = Some(new_hour_format);
}

/// A format survives being stored as a number and read back.
pub proof fn lemma_code_round_trip(format: HourFormat)
    ensures
        HourFormat::of_code(format.code()) == format,
{
}

} // verus!
