//! The colour themes of the LED strip.

use crate::error::AppError;
use vstd::prelude::*;

verus! {

/// A colour theme.
#[derive(Copy, Clone, Debug, PartialEq, Eq, Structural)]
pub enum Theme {
    /// Red with a yellow centre.
    Original,
    /// Yellow, pink and green.
    Hoverboard,
    /// Yellow, green and grey.
    Plutonium,
    /// Bronze, white and sepia.
    OldWest,
    /// Turquoise, pink and purple.
    Cafe80s,
}

impl Default for Theme {
    fn default() -> (theme: Self)
        ensures
            theme == Theme::Original,
    {
        Theme::Original
    }
}

/// Something that can take on a theme.
pub trait AppTheme {
    fn apply_theme(&mut self, theme: &Theme) -> Result<(), AppError>;
}

} // verus!
