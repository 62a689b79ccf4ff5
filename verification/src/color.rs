use vstd::prelude::*;

verus! {

/// A pixel or fill color of the bi-tonal panel.
#[derive(Clone, Copy, Debug, PartialEq, Eq)]
pub enum Color {
    Black,
    White,
}

impl Color {
    /// The byte that floods a transmission channel with this color.
    pub open spec fn spec_byte_value(self) -> u8 {
        match self {
            Color::Black => 0x00,
            Color::White => 0xFF,
        }
    }

    /// The byte that floods a transmission channel with this color.
    #[verifier::when_used_as_spec(spec_byte_value)]
    pub fn get_byte_value(self) -> (r: u8)
        ensures
            r == self.spec_byte_value(),
    {
        match self {
            Color::Black => 0x00,
            Color::White => 0xFF,
        }
    }
}

} // verus!
