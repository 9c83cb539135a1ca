//! What can be asked of the LED strip.

use crate::error::AppError;
use vstd::prelude::*;

verus! {

/// Controlling an LED strip.
pub trait LedStripService {
    fn init(&mut self) -> Result<(), AppError>;

    fn turn_off(&mut self) -> Result<(), AppError>;
}

} // verus!
