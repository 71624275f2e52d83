use vstd::prelude::*;
use crate::util::bits::{bit_set, get_bit};
use crate::video::register::Register;

verus! {

/// The LCD control register (LCDC).
#[derive(Debug, Copy, Clone, PartialEq, Eq, Structural)]
pub struct ControlRegister {
    pub register: u8,
}

/// Where the tile data of the background is read.
#[derive(Debug, Copy, Clone, PartialEq, Eq, Structural)]
pub enum TileDataAddressing {
    /// Tiles 0-255 at 0x8000-0x8FFF.
    Mode8000,
    /// Tiles -128-127 around 0x9000.
    Mode8800,
}

pub open spec fn spec_adjust_address(mode: TileDataAddressing, address: u16) -> u16 {
    if mode == TileDataAddressing::Mode8000 {
        address
    } else if 0x8000 <= address <= 0x87FF {
        (address + 0x1000) as u16
    } else if 0x9000 <= address <= 0x97FF {
        (address - 0x1000) as u16
    } else {
        address
    }
}

pub open spec fn spec_addressing(register: u8) -> TileDataAddressing {
    if bit_set(register, 4) {
        TileDataAddressing::Mode8000
    } else {
        TileDataAddressing::Mode8800
    }
}

impl ControlRegister {
    /// Everything off.
    pub fn new() -> (r: Self)
        ensures
            r.register == 0,
    {
        ControlRegister { register: 0 }
    }

    /// Bit 7: the display is on.
    pub fn lcd_enabled(&self) -> (r: bool)
        ensures
            r == bit_set(self.register, 7),
    {
        get_bit(self.register, 7)
    }

    /// Bit 5: the window is shown.
    pub fn window_enabled(&self) -> (r: bool)
        ensures
            r == bit_set(self.register, 5),
    {
        get_bit(self.register, 5)
    }

    /// Bit 4: where the background tile data is read.
    pub fn bg_tile_data_addressing(&self) -> (r: TileDataAddressing)
        ensures
            r == spec_addressing(self.register),
    {
        if get_bit(self.register, 4) {
            TileDataAddressing::Mode8000
        } else {
            TileDataAddressing::Mode8800
        }
    }

    /// Bit 3: which background tile map is shown (0 for 0x9800, 1 for 0x9C00).
    pub fn bg_map(&self) -> (r: u8)
        ensures
            r == (if bit_set(self.register, 3) { 1u8 } else { 0u8 }),
    {
        if get_bit(self.register, 3) { 1 } else { 0 }
    }

    /// Bit 1: sprites are shown.
    pub fn obj_enabled(&self) -> (r: bool)
        ensures
            r == bit_set(self.register, 1),
    {
        get_bit(self.register, 1)
    }

    /// Bit 0: the background and the window are shown.
    pub fn bg_window_enabled(&self) -> (r: bool)
        ensures
            r == bit_set(self.register, 0),
    {
        get_bit(self.register, 0)
    }
}

impl Register for ControlRegister {
    open spec fn spec_get(&self) -> u8 {
        self.register
    }

    fn get(&self) -> (r: u8) {
        self.register
    }

    fn set(&mut self, value: u8) {
        self.register = value;
    }
}

impl TileDataAddressing {
    /// In 0x8800 mode, swaps the two 2 KiB halves 0x8000-0x87FF and 0x9000-0x97FF;
    /// leaves every other address, and every address in 0x8000 mode, as it is.
    pub fn adjust_address(&self, address: u16) -> (r: u16)
        ensures
            r == spec_adjust_address(*self, address),
    {
        if *self == TileDataAddressing::Mode8000 {
            address
        } else if 0x8000 <= address && address <= 0x87FF {
            address + 0x1000
        } else if 0x9000 <= address && address <= 0x97FF {
            address - 0x1000
        } else {
            address
        }
    }
}

} // verus!
