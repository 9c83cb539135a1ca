//! The AM/PM indicator, as the state of its two LEDs.
//!
//! Whoever owns the pins drives them to these levels after each change.

use crate::error::AppError;
use crate::service::led::AmPmIndicatorService;
use vstd::prelude::*;

verus! {

/// The two indicator LEDs: `true` is lit.
#[derive(Copy, Clone, Debug, PartialEq, Eq, Structural)]
pub struct AmPmIndicator {
    pub am: bool,
    pub pm: bool,
}

impl AmPmIndicator {
    /// An indicator with both LEDs dark.
    pub fn new() -> (indicator: Self)
        ensures
            indicator == (AmPmIndicator { am: false, pm: false }),
    {
        AmPmIndicator { am: false, pm: false }
    }
}

impl AmPmIndicatorService for AmPmIndicator {
    /// Lights the AM LED and darkens the PM LED.
    fn set_am(&mut self) -> (done: Result<(), AppError>)
        ensures
            done is Ok,
            *final(self) == (AmPmIndicator { am: true, pm: false }),
    {
        self.am = true;
        self.pm = false;
        Ok(())
    }

    /// Lights the PM LED and darkens the AM LED.
    fn set_pm(&mut self) -> (done: Result<(), AppError>)
        ensures
            done is Ok,
            *final(self) == (AmPmIndicator { am: false, pm: true }),
    {
        self.am = false;
        self.pm = true;
        Ok(())
    }

    /// Darkens both LEDs.
    fn clear(&mut self) -> (done: Result<(), AppError>)
        ensures
            done is Ok,
            *final(self) == (AmPmIndicator { am: false, pm: false }),
    {
        self.am = false;
        self.pm = false;
        Ok(())
    }
}

} // verus!
