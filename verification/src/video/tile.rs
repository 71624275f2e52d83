use vstd::prelude::*;
use crate::video::color::{Color, spec_color};

verus! {

/// An 8x8 tile: one 16-bit line per row, the high byte holding the high bits of the color
/// numbers and the low byte the low bits, the leftmost pixel in bit 7.
#[derive(Debug, Copy, Clone)]
pub struct Tile {
    pub data: [u16; 8],
}

/// The color number of pixel `x` (0 leftmost) of a tile line.
pub open spec fn pixel_value(line: u16, x: u8) -> u8 {
    let shift = (7 - x) as u8;
    let msb = (line >> 8u16) as u8;
    let lsb = line as u8;
    ((((lsb >> shift) & 1) << 1u8) | ((msb >> shift) & 1)) as u8
}

/// The 2-bit field `x` (counted modulo 4) of the low byte of a line.
pub open spec fn packed_value(line: u16, x: u8) -> u8 {
    (((line as u8) >> (((2 * x) % 8) as u8)) & 0b11) as u8
}

impl Tile {
    pub fn new(data: [u16; 8]) -> (r: Tile)
        ensures
            r.data@ == data@,
    {
        Tile { data }
    }

    /// Row `line` of the tile.
    pub fn line(&self, line: u8) -> (r: u16)
        requires
            line < 8,
        ensures
            r == self.data@[line as int],
    {
        self.data[line as usize]
    }

    /// Replaces row `line` of the tile.
    pub fn set_line(&mut self, line: u8, value: u16)
        requires
            line < 8,
        ensures
            final(self).data@ == old(self).data@.update(line as int, value),
    {
        self.data[line as usize] = value;
    }

    /// The shades of the 64 pixels, row by row, with color number n as shade n.
    pub fn colored(&self) -> (r: [Color; 64])
        ensures
            forall|row: int, col: int| 0 <= row < 8 && 0 <= col < 8 ==>
                #[trigger] r@[row * 8 + col] == spec_color(pixel_value(self.data@[row], col as u8)),
    {
        let mut colors: [Color; 64] = [Color::Black; 64];
        let mut row: usize = 0;
        while row < 8
            invariant
                row <= 8,
                colors@.len() == 64,
                forall|r: int, c: int| 0 <= r < row && 0 <= c < 8 ==>
                    #[trigger] colors@[r * 8 + c] == spec_color(pixel_value(self.data@[r], c as u8)),
            decreases 8 - row,
        {
            let mut col: usize = 0;
            while col < 8
                invariant
                    row < 8,
                    col <= 8,
                    colors@.len() == 64,
                    forall|r: int, c: int| 0 <= r < row && 0 <= c < 8 ==>
                        #[trigger] colors@[r * 8 + c] == spec_color(pixel_value(self.data@[r], c as u8)),
                    forall|c: int| 0 <= c < col ==>
                        #[trigger] colors@[row * 8 + c] == spec_color(pixel_value(self.data@[row as int], c as u8)),
                decreases 8 - col,
            {
                let color = self.color_at(col as u8, row as u8);
                colors[row * 8 + col] = color;
                assert forall|r: int, c: int| 0 <= r < row && 0 <= c < 8 implies
                    #[trigger] colors@[r * 8 + c] == spec_color(pixel_value(self.data@[r], c as u8)) by {
                    assert(r * 8 + c < row * 8 + col);
                }
                col = col + 1;
            }
            row = row + 1;
        }
        colors
    }

    /// The 2-bit field `x` (counted modulo 4) of the low byte of row `y`.
    pub fn get(&self, x: u8, y: u8) -> (r: u8)
        requires
            x < 128,
            y < 8,
        ensures
            r == packed_value(self.data@[y as int], x),
    {
        let double: u8 = 2 * x;
        let shift: u8 = double & 7;
        assert(shift == double % 8) by (bit_vector)
            requires
                shift == double & 7,
        ;
        ((self.data[y as usize] as u8) >> shift) & 0b11
    }

    /// The shade of pixel (`x`, `y`), `x` 0 being the leftmost.
    pub fn color_at(&self, x: u8, y: u8) -> (r: Color)
        requires
            x < 8,
            y < 8,
        ensures
            r == spec_color(pixel_value(self.data@[y as int], x)),
    {
        let x = 7 - x;
        let line = self.data[y as usize];
        let msb: u8 = (line >> 8) as u8;
        let lsb: u8 = line as u8;
        let value: u8 = (((lsb >> x) & 1) << 1) | ((msb >> x) & 1);
        Color::from_value(value)
    }

    /// The four 2-bit fields of the low byte of row `y`, twice over. Only the first row
    /// fits the eight results.
    pub fn formatted_line(&self, y: u8) -> (r: [u8; 8])
        requires
            y == 0,
        ensures
            forall|col: int| 0 <= col < 8 ==> #[trigger] r@[col] == packed_value(self.data@[0], col as u8),
    {
        let mut colors: [u8; 8] = [0; 8];
        let mut col: u8 = 0;
        while col < 8
            invariant
                y == 0,
                col <= 8,
                colors@.len() == 8,
                forall|c: int| 0 <= c < col ==> #[trigger] colors@[c] == packed_value(self.data@[0], c as u8),
            decreases 8 - col,
        {
            colors[(y * 8 + col) as usize] = self.get(col, y);
            col = col + 1;
        }
        colors
    }
}

} // verus!
