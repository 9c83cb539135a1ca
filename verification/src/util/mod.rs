//! Small shared tables.

use vstd::prelude::*;

pub mod messages;

verus! {

/// The segment pattern of each decimal digit: bit 0 is the top segment, the
/// bits go round clockwise, and bit 6 is the middle segment.
pub const DISPLAY_DIGIT: [u8; 10] = [0x3f, 0x06, 0x5b, 0x4f, 0x66, 0x6d, 0x7d, 0x07, 0x7f, 0x6f];

/// The bit that lights the dot or colon behind a digit.
pub const DISPLAY_DOT: u8 = 0x80;

} // verus!
