//! The parts of the clock that show something, as what they show.

pub mod display;
pub mod led;
pub mod led_strip;
