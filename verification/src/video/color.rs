use vstd::prelude::*;

verus! {

/// The four shades of the screen, from the lightest to the darkest.
#[derive(Debug, Copy, Clone, PartialEq, Eq, Structural)]
pub enum Color {
    White,
    LightGray,
    DarkGray,
    Black,
}

/// The shade of a 2-bit color number; any other value is white.
pub open spec fn spec_color(value: u8) -> Color {
    if value == 1 {
        Color::LightGray
    } else if value == 2 {
        Color::DarkGray
    } else if value == 3 {
        Color::Black
    } else {
        Color::White
    }
}

impl Color {
    /// The shade of a 2-bit color number.
    pub fn from_value(value: u8) -> (r: Color)
        ensures
            r == spec_color(value),
    {
        match value {
            1 => Color::LightGray,
            2 => Color::DarkGray,
            3 => Color::Black,
            _ => Color::White,
        }
    }
}

} // verus!
