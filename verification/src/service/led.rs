//! What can be asked of the AM/PM indicator.

use crate::error::AppError;
use vstd::prelude::*;

verus! {

/// Controlling the two LEDs that tell morning from afternoon.
pub trait AmPmIndicatorService {
    fn set_am(&mut self) -> Result<(), AppError>;

    fn set_pm(&mut self) -> Result<(), AppError>;

    fn clear(&mut self) -> Result<(), AppError>;
}

} // verus!
