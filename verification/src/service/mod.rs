//! The services that the parts of the clock offer to each other.

pub mod app_storage;
pub mod display;
pub mod led;
pub mod led_strip;
