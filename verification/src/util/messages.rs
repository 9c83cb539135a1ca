use vstd::prelude::*;

verus! {

/// Fixed words that a four-digit display can show.
#[derive(Copy, Clone, Debug, PartialEq, Eq, Structural)]
pub enum DisplayMessage {
    Init,
    Sync,
}

impl DisplayMessage {
    /// The segment patterns of the word, one byte per digit, leftmost first.
    pub open spec fn segments(self) -> Seq<u8> {
        match self {
            DisplayMessage::Init => seq![0b0000_0110u8, 0b0101_0100u8, 0b0000_0100u8, 0b0111_1000u8],
            DisplayMessage::Sync => seq![0b0110_1101u8, 0b0110_1110u8, 0b0011_0111u8, 0b0011_1001u8],
        }
    }

    /// Converts the message into the four bytes to be written to the display.
    pub fn as_bytes(&self) -> (bytes: [u8; 4])
        ensures
            bytes@ == self.segments(),
    {
        match self {
            DisplayMessage::Init => [
                0b0000_0110,  // i
                0b0101_0100,  // n
                0b0000_0100,  // i
                0b0111_1000,  // t
            ],
            DisplayMessage::Sync => [
                0b0110_1101,  // s
                0b0110_1110,  // y
                0b0011_0111,  // n
                0b0011_1001,  // c
            ],
        }
    }
}

} // verus!
