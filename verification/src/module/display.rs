//! A seven-segment display of four digits, as the segments it shows.
//!
//! Whoever owns the hardware writes the segments and the brightness to it
//! after each change.

use crate::error::AppError;
use crate::module::led::AmPmIndicator;
use crate::prefs::hour_format::HourFormat;
use crate::service::display::{SevenSegmentDisplayService, are_digits};
use crate::service::led::AmPmIndicatorService;
use crate::util::messages::DisplayMessage;
use crate::util::{DISPLAY_DIGIT, DISPLAY_DOT};
use vstd::prelude::*;

verus! {

/// The segments of a digit from 0 to 9.
pub open spec fn glyph(digit: int) -> u8
    recommends
        0 <= digit <= 9,
{
    DISPLAY_DIGIT@[digit]
}

/// The segments of a digit with the dot behind it lit.
pub open spec fn dotted(digit: int) -> u8
    recommends
        0 <= digit <= 9,
{
    glyph(digit) | DISPLAY_DOT
}

/// The hour of a 12-hour clock for an hour of the day: midnight and noon are
/// 12, and the afternoon counts from 1 again.
pub open spec fn twelve_hour(hour: int) -> int {
    if hour == 0 {
        12
    } else if hour <= 12 {
        hour
    } else {
        hour - 12
    }
}

/// The hour that two digits spell.
pub open spec fn hour_of(time_24h: Seq<u8>) -> int {
    time_24h[0] * 10 + time_24h[1]
}

/// What the display shows for a time of day: the hour in the chosen format,
/// a dot, and the minute.
pub open spec fn hour_segments(time_24h: Seq<u8>, hour_format: HourFormat) -> Seq<u8> {
    let hour = match hour_format {
        HourFormat::Twelve => twelve_hour(hour_of(time_24h)),
        HourFormat::TwentyFour => hour_of(time_24h),
    };
    seq![
        glyph(hour / 10),
        dotted(hour % 10),
        glyph(time_24h[2] as int),
        glyph(time_24h[3] as int),
    ]
}

/// What the indicator shows for a time of day: in the 12-hour format AM
/// before noon and PM from noon on, in the 24-hour format nothing.
pub open spec fn half_of_day(time_24h: Seq<u8>, hour_format: HourFormat) -> AmPmIndicator {
    match hour_format {
        HourFormat::Twelve => if hour_of(time_24h) < 12 {
            AmPmIndicator { am: true, pm: false }
        } else {
            AmPmIndicator { am: false, pm: true }
        },
        HourFormat::TwentyFour => AmPmIndicator { am: false, pm: false },
    }
}

/// What the display shows for a year.
pub open spec fn year_segments(year: Seq<u8>) -> Seq<u8> {
    seq![
        glyph(year[0] as int),
        glyph(year[1] as int),
        glyph(year[2] as int),
        glyph(year[3] as int),
    ]
}

/// What the display shows for a date: the day, a dot, and the month.
pub open spec fn date_segments(day: int, month: int) -> Seq<u8> {
    seq![glyph(day / 10), dotted(day % 10), glyph(month / 10), glyph(month % 10)]
}

/// A display of four digits: the segments it shows and how bright.
#[derive(Copy, Clone, Debug, PartialEq, Eq)]
pub struct SevenSegmentDisplay {
    pub segments: [u8; 4],
    pub brightness: u8,
}

/// The three displays of the clock.
#[derive(Copy, Clone, Debug, PartialEq, Eq)]
pub struct DisplayGroup {
    pub date: SevenSegmentDisplay,
    pub year: SevenSegmentDisplay,
    pub hour: SevenSegmentDisplay,
}

impl SevenSegmentDisplay {
    /// A blank display at the lowest brightness.
    pub fn new() -> (display: Self)
        ensures
            display.segments@ == seq![0u8, 0u8, 0u8, 0u8],
            display.brightness == 0,
    {
        SevenSegmentDisplay { segments: [0, 0, 0, 0], brightness: 0 }
    }
}

impl SevenSegmentDisplayService for SevenSegmentDisplay {
    /// Sets the lowest brightness and shows the word that greets the user.
    fn init(&mut self) -> (done: Result<(), AppError>)
        ensures
            done is Ok,
            final(self).brightness == 0,
            final(self).segments@ == DisplayMessage::Init.segments(),
    {
        self.brightness = 0;
        self.write(DisplayMessage::Init.as_bytes())
    }

    /// Shows the four given patterns in place of what was shown.
    fn write(&mut self, message: [u8; 4]) -> (done: Result<(), AppError>)
        ensures
            done is Ok,
            final(self).segments == message,
            final(self).brightness == old(self).brightness,
    {
        self.segments = message;
        Ok(())
    }

    /// Sets the brightness and leaves what is shown.
    fn set_brightness(&mut self, level: u8) -> (done: Result<(), AppError>)
        ensures
            done is Ok,
            final(self).brightness == level,
            final(self).segments == old(self).segments,
    {
        self.brightness = level;
        Ok(())
    }

    /// Shows a time of day in the chosen format and sets the indicator to
    /// match.
    fn update_display_hour(
        &mut self,
        time_24h: &Vec<u8>,
        am_pm_indicator: &mut AmPmIndicator,
        hour_format: HourFormat,
    ) -> (done: Result<(), AppError>)
        ensures
            done is Ok,
            final(self).segments@ == hour_segments(time_24h@, hour_format),
            final(self).brightness == old(self).brightness,
            *final(am_pm_indicator) == half_of_day(time_24h@, hour_format),
    {
        match hour_format {
            HourFormat::Twelve => {
                let hour: u8 = time_24h[0] * 10 + time_24h[1];
                let display_hour: u8 = if hour == 0 {
                    12
                } else if hour <= 12 {
                    hour
                } else {
                    hour - 12
                };
                let digits: [u8; 4] = [
                    DISPLAY_DIGIT[(display_hour / 10) as usize],
                    DISPLAY_DIGIT[(display_hour % 10) as usize] | DISPLAY_DOT,
                    DISPLAY_DIGIT[time_24h[2] as usize],
                    DISPLAY_DIGIT[time_24h[3] as usize],
                ];
                assert(digits@ =~= hour_segments(time_24h@, hour_format));
                self.write(digits)?;
                if hour < 12 {
                    am_pm_indicator.set_am()?;
                } else {
                    am_pm_indicator.set_pm()?;
                }
            },
            HourFormat::TwentyFour => {
                let digits: [u8; 4] = [
                    DISPLAY_DIGIT[time_24h[0] as usize],
                    DISPLAY_DIGIT[time_24h[1] as usize] | DISPLAY_DOT,
                    DISPLAY_DIGIT[time_24h[2] as usize],
                    DISPLAY_DIGIT[time_24h[3] as usize],
                ];
                assert(digits@ =~= hour_segments(time_24h@, hour_format));
                self.write(digits)?;
                am_pm_indicator.clear()?;
            },
        }
        Ok(())
    }

    /// Shows a year.
    fn update_display_year(&mut self, year: &Vec<u8>) -> (done: Result<(), AppError>)
        ensures
            done is Ok,
            final(self).segments@ == year_segments(year@),
            final(self).brightness == old(self).brightness,
    {
        let digits: [u8; 4] = [
            DISPLAY_DIGIT[year[0] as usize],
            DISPLAY_DIGIT[year[1] as usize],
            DISPLAY_DIGIT[year[2] as usize],
            DISPLAY_DIGIT[year[3] as usize],
        ];
        assert(digits@ =~= year_segments(year@));
        self.write(digits)
    }

    /// Shows a date.
    fn update_display_date(&mut self, day: u8, month: u8) -> (done: Result<(), AppError>)
        ensures
            done is Ok,
            final(self).segments@ == date_segments(day as int, month as int),
            final(self).brightness == old(self).brightness,
    {
        let digits: [u8; 4] = [
            DISPLAY_DIGIT[(day / 10) as usize],
            DISPLAY_DIGIT[(day % 10) as usize] | DISPLAY_DOT,
            DISPLAY_DIGIT[(month / 10) as usize],
            DISPLAY_DIGIT[(month % 10) as usize],
        ];
        assert(digits@ =~= date_segments(day as int, month as int));
        self.write(digits)
    }
}

} // verus!
