//! What can be asked of a four-digit display.

use crate::error::AppError;
use crate::module::led::AmPmIndicator;
use crate::prefs::hour_format::HourFormat;
use vstd::prelude::*;

verus! {

/// Four decimal digits, each from 0 to 9.
pub open spec fn are_digits(digits: Seq<u8>) -> bool {
    digits.len() == 4 && forall|i: int| 0 <= i < 4 ==> #[trigger] digits[i] <= 9
}

/// Whether these are four decimal digits.
pub fn check_digits(digits: &[u8]) -> (ok: bool)
    ensures
        ok == are_digits(digits@),
{
    digits.len() == 4 && digits[0] <= 9 && digits[1] <= 9 && digits[2] <= 9 && digits[3] <= 9
}

/// Controlling a seven-segment display of four digits.
pub trait SevenSegmentDisplayService {
    fn init(&mut self) -> Result<(), AppError>;

    fn write(&mut self, message: [u8; 4]) -> Result<(), AppError>;

    fn set_brightness(&mut self, level: u8) -> Result<(), AppError>;

    /// Shows the time of day given as four digits, two of the hour from 0 to
    /// 23 and two of the minute.
    fn update_display_hour(
        &mut self,
        time_24h: &Vec<u8>,
        am_pm_indicator: &mut AmPmIndicator,
        hour_format: HourFormat,
    ) -> Result<(), AppError>
        requires
            are_digits(time_24h@),
    ;

    /// Shows the year given as four digits.
    fn update_display_year(&mut self, year: &Vec<u8>) -> Result<(), AppError>
        requires
            are_digits(year@),
    ;

    /// Shows the day of the month and the month, both below 100.
    fn update_display_date(&mut self, day: u8, month: u8) -> Result<(), AppError>
        requires
            day <= 99,
            month <= 99,
    ;
}

} // verus!
