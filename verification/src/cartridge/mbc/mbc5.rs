use vstd::prelude::*;
use super::MemoryBankController;
use crate::cartridge::cartridge_capability::CartridgeCapability;

verus! {

/// An MBC5 controller: a 16-bit ROM bank number written in two halves, and up to 16 RAM
/// banks, selectable while RAM is enabled.
#[derive(Debug, Copy, Clone, PartialEq, Eq, Structural)]
pub struct MBC5 {
    pub rom_bank: u16,
    pub ram_enabled: bool,
    pub ram_bank: u8,
}

/// The two banking modes of an MBC5.
#[derive(Debug, Copy, Clone, PartialEq, Eq, Structural)]
pub enum MBC5Mode {
    MaxROM,
    MaxRAM,
}

impl MBC5 {
    /// The power-on state: ROM bank 0, RAM disabled, RAM bank 0.
    pub open spec fn initial() -> MBC5 {
        MBC5 { rom_bank: 0, ram_enabled: false, ram_bank: 0 }
    }

    pub fn new(_capabilities: &[CartridgeCapability]) -> (r: MBC5)
        ensures
            r == MBC5::initial(),
    {
        MBC5 { rom_bank: 0, ram_enabled: false, ram_bank: 0 }
    }

    /// Enables or disables the cartridge RAM.
    pub fn set_ram_enabled(&mut self, enabled: bool)
        ensures
            *final(self) == (MBC5 { ram_enabled: enabled, ..*old(self) }),
    {
        self.ram_enabled = enabled;
    }
}

impl MemoryBankController for MBC5 {
    open spec fn spec_rom_bank(&self) -> u16 {
        self.rom_bank
    }

    open spec fn spec_ram_bank(&self) -> u8 {
        self.ram_bank
    }

    open spec fn spec_ram_enabled(&self) -> bool {
        self.ram_enabled
    }

    open spec fn spec_write_rom(&self, address: usize, value: u8) -> MBC5 {
        if address <= 0x1FFF {
            MBC5 { ram_enabled: value == 0x0A, ..*self }
        } else if address <= 0x2FFF {
            MBC5 { rom_bank: value as u16, ..*self }
        } else if address <= 0x3FFF {
            MBC5 { rom_bank: (self.rom_bank & 0xFF) | ((value as u16) << 8u16), ..*self }
        } else if address <= 0x5FFF {
            if self.ram_enabled {
                MBC5 { ram_bank: value & 0xF, ..*self }
            } else {
                *self
            }
        } else {
            *self
        }
    }

    fn rom_bank(&self) -> (r: u16) {
        self.rom_bank
    }

    fn ram_bank(&self) -> (r: u8) {
        self.ram_bank
    }

    fn ram_enabled(&self) -> (r: bool) {
        self.ram_enabled
    }

    fn write_rom(&mut self, address: usize, value: u8)
        ensures
            final(self).ram_bank <= 0xF || final(self).ram_bank == old(self).ram_bank,
    {
        if address <= 0x1FFF {
            self.ram_enabled = value == 0x0A;
        } else if address <= 0x2FFF {
            self.rom_bank = value as u16;
        } else if address <= 0x3FFF {
            self.rom_bank = (self.rom_bank & 0xFF) | ((value as u16) << 8u16);
        } else if address <= 0x5FFF {
            if self.ram_enabled {
                self.ram_bank = value & 0xF;
            }
        }
        assert(value & 0xF <= 0xF) by (bit_vector);
    }
}

/// Writing the low byte of the ROM bank number and then its high byte selects the bank
/// they make together.
pub proof fn lemma_rom_bank_halves(m: MBC5, low: u8, high: u8)
    ensures
        m.spec_write_rom(0x2000, low).spec_write_rom(0x3000, high).spec_rom_bank()
            == ((high as u16) << 8u16) | (low as u16),
{
    let l = low as u16;
    let h = high as u16;
    assert(((l & 0xFF) | (h << 8u16)) == ((h << 8u16) | l)) by (bit_vector)
        requires
            l < 256,
    ;
}

/// An MBC5 write at 0 to 0x1FFF enables RAM exactly when the value is 0x0A; at 0x2000 to
/// 0x2FFF it sets the low eight bits of the ROM bank to the value (bank 0 included); at
/// 0x3000 to 0x3FFF it sets the bits above them to the value; at 0x4000 to 0x5FFF, with
/// RAM enabled, it selects RAM bank `value % 16`. Other writes change nothing.
pub proof fn lemma_mbc5_write(m: MBC5, address: usize, value: u8)
    ensures
        ({
            let w = m.spec_write_rom(address, value);
            if address <= 0x1FFF {
                w.spec_ram_enabled() == (value == 0x0A) && w.spec_rom_bank() == m.spec_rom_bank()
                    && w.spec_ram_bank() == m.spec_ram_bank()
            } else if address <= 0x2FFF {
                w.spec_rom_bank() == value && w.spec_ram_enabled() == m.spec_ram_enabled()
                    && w.spec_ram_bank() == m.spec_ram_bank()
            } else if address <= 0x3FFF {
                w.spec_rom_bank() == value * 256 + m.spec_rom_bank() % 256
                    && w.spec_ram_enabled() == m.spec_ram_enabled() && w.spec_ram_bank() == m.spec_ram_bank()
            } else if address <= 0x5FFF && m.spec_ram_enabled() {
                w.spec_ram_bank() == value % 16 && w.spec_rom_bank() == m.spec_rom_bank()
                    && w.spec_ram_enabled() == m.spec_ram_enabled()
            } else {
                w == m
            }
        }),
{
    let bank = m.rom_bank;
    assert(value & 0xF == value % 16) by (bit_vector);
    assert((bank & 0xFF) | ((value as u16) << 8u16) == value * 256 + bank % 256) by (bit_vector);
}

} // verus!
