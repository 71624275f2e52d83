use vstd::prelude::*;
use crate::video::color::{Color, spec_color};

verus! {

/// A palette register: four 2-bit shade numbers, color 0 in the lowest bits.
#[derive(Debug, Copy, Clone)]
pub struct Palette {
    pub palette: [Color; 4],
    pub register: u8,
}

/// The shade that palette `register` gives color number `idx`.
pub open spec fn palette_color(register: u8, idx: u8) -> Color {
    spec_color(((register >> ((2 * idx) as u8)) & 0b11) as u8)
}

impl Palette {
    /// The palette 0b00011011: color n is shade 3 - n.
    pub fn new() -> (r: Self)
        ensures
            r.register == 0b00011011,
    {
        Palette {
            palette: [Color::White, Color::LightGray, Color::DarkGray, Color::Black],
            register: 0b00011011,
        }
    }

    /// The shade of color number `idx`.
    pub fn color(&self, idx: u8) -> (r: Color)
        requires
            idx < 4,
        ensures
            r == palette_color(self.register, idx),
    {
        Color::from_value((self.register >> (2 * idx)) & 0b11)
    }

    pub fn get(&self) -> (r: u8)
        ensures
            r == self.register,
    {
        self.register
    }

    pub fn set(&mut self, value: u8)
        ensures
            *final(self) == (Palette { register: value, ..*old(self) }),
    {
        self.register = value;
    }
}


/// Palette `register` gives color number `idx` the shade in its bits `2 idx` and
/// `2 idx + 1`: 0 white, 1 light gray, 2 dark gray, 3 black.
pub proof fn lemma_palette_shades(register: u8, idx: u8)
    requires
        idx < 4,
    ensures
        ({
            let shade = (register as int / vstd::arithmetic::power::pow(4, idx as nat)) % 4;
            palette_color(register, idx) == (if shade == 0 {
                Color::White
            } else if shade == 1 {
                Color::LightGray
            } else if shade == 2 {
                Color::DarkGray
            } else {
                Color::Black
            })
        }),
{
    vstd::arithmetic::power::lemma_pow0(4);
    vstd::arithmetic::power::lemma_pow1(4);
    vstd::arithmetic::power::lemma_pow_adds(4, 1, 1);
    vstd::arithmetic::power::lemma_pow_adds(4, 2, 1);
    assert(
        (idx == 0 ==> ((register >> ((2 * idx) as u8)) & 0b11) as u8 == (register / 1) % 4) &&
        (idx == 1 ==> ((register >> ((2 * idx) as u8)) & 0b11) as u8 == (register / 4) % 4) &&
        (idx == 2 ==> ((register >> ((2 * idx) as u8)) & 0b11) as u8 == (register / 16) % 4) &&
        (idx == 3 ==> ((register >> ((2 * idx) as u8)) & 0b11) as u8 == (register / 64) % 4)
    ) by (bit_vector);
}

} // verus!
