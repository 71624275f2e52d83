use vstd::prelude::*;
use crate::util::bits::{bit_set, get_bit};

verus! {

/// The four modes of the video hardware.
#[derive(Debug, Copy, Clone, PartialEq, Eq, Structural)]
pub enum StatusMode {
    HBlank,
    VBlank,
    ReadingOAM,
    LCDTransfer,
}

/// The number of a mode in the low bits of the status register.
pub open spec fn mode_number(mode: StatusMode) -> u8 {
    match mode {
        StatusMode::HBlank => 0,
        StatusMode::VBlank => 1,
        StatusMode::ReadingOAM => 2,
        StatusMode::LCDTransfer => 3,
    }
}

/// The LCD status register (STAT): which events request the LCD status interrupt.
#[derive(Debug, Copy, Clone, PartialEq, Eq, Structural)]
pub struct StatusRegister {
    pub register: u8,
}

/// The byte the status register reads as: the interrupt selection bits, the
/// coincidence flag (bit 2) and the mode.
pub open spec fn spec_generate(register: u8, mode: StatusMode, ly: u8, lyc: u8) -> u8 {
    ((register & 0x78) | (if ly == lyc { 4u8 } else { 0u8 }) | mode_number(mode)) as u8
}

impl StatusRegister {
    /// No interrupt selected.
    pub fn new() -> (r: Self)
        ensures
            r.register == 0,
    {
        StatusRegister { register: 0 }
    }

    /// Bit 3: entering HBlank requests the interrupt.
    pub fn hblank_interrupt_enabled(&self) -> (r: bool)
        ensures
            r == bit_set(self.register, 3),
    {
        get_bit(self.register, 3)
    }

    /// Bit 4: entering VBlank requests the interrupt.
    pub fn vblank_interrupt_enabled(&self) -> (r: bool)
        ensures
            r == bit_set(self.register, 4),
    {
        get_bit(self.register, 4)
    }

    /// Bit 5: entering OAM reading requests the interrupt.
    pub fn oam_interrupt_enabled(&self) -> (r: bool)
        ensures
            r == bit_set(self.register, 5),
    {
        get_bit(self.register, 5)
    }

    /// Bit 6: LY reaching LYC requests the interrupt.
    pub fn lyc_interrupt_enabled(&self) -> (r: bool)
        ensures
            r == bit_set(self.register, 6),
    {
        get_bit(self.register, 6)
    }

    /// Sets the interrupt selection bits; the others are read-only.
    pub fn set(&mut self, value: u8)
        ensures
            final(self).register == value & 0x78,
    {
        self.register = value & 0x78;
    }

    /// The byte the register reads as, for the given mode, LY and LYC.
    pub fn generate(&self, mode: StatusMode, ly: u8, lyc: u8) -> (r: u8)
        ensures
            r == spec_generate(self.register, mode, ly, lyc),
    {
        let coincidence: u8 = if ly == lyc { 4 } else { 0 };
        let number: u8 = match mode {
            StatusMode::HBlank => 0,
            StatusMode::VBlank => 1,
            StatusMode::ReadingOAM => 2,
            StatusMode::LCDTransfer => 3,
        };
        (self.register & 0x78) | coincidence | number
    }
}

} // verus!
