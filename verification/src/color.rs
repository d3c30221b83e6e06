//! The two colors of a monochrome panel.
use vstd::prelude::*;

verus! {

/// A pixel color.
#[derive(Clone, Copy, Debug, PartialEq, Eq, Structural)]
pub enum Color {
    /// A dark pixel.
    Black,
    /// A light pixel.
    White,
}

impl Color {
    /// The byte that fills eight pixels of controller RAM with this color.
    pub open spec fn spec_byte_value(self) -> u8 {
        match self {
            Color::White => 0xff,
            Color::Black => 0x00,
        }
    }

    /// The byte that fills eight pixels of controller RAM with this color.
    pub fn get_byte_value(self) -> (byte: u8)
        ensures
            byte == self.spec_byte_value(),
    {
        match self {
            Color::White => 0xff,
            Color::Black => 0x00,
        }
    }
}

} // verus!
