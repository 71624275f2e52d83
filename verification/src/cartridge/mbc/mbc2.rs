use vstd::prelude::*;
use super::MemoryBankController;
use crate::cartridge::cartridge_capability::CartridgeCapability;

verus! {

/// An MBC2 controller: up to 16 ROM banks and a built-in RAM. Bit 8 of the address tells
/// a RAM enable write (clear) from a ROM bank write (set).
#[derive(Debug, Copy, Clone, PartialEq, Eq, Structural)]
pub struct MBC2 {
    pub rom_bank: u8,
    pub ram_enabled: bool,
}

impl MBC2 {
    /// The power-on state: ROM bank 1, RAM disabled.
    pub open spec fn initial() -> MBC2 {
        MBC2 { rom_bank: 1, ram_enabled: false }
    }

    /// The banks an MBC2 can select: ROM banks 1 to 15.
    pub open spec fn wf(&self) -> bool {
        1 <= self.rom_bank <= 0xF
    }

    pub fn new(_capabilities: &[CartridgeCapability]) -> (r: MBC2)
        ensures
            r == MBC2::initial(),
            r.wf(),
    {
        MBC2 { rom_bank: 1, ram_enabled: false }
    }
}

impl MemoryBankController for MBC2 {
    open spec fn spec_rom_bank(&self) -> u16 {
        self.rom_bank as u16
    }

    open spec fn spec_ram_bank(&self) -> u8 {
        0
    }

    open spec fn spec_ram_enabled(&self) -> bool {
        self.ram_enabled
    }

    open spec fn spec_write_rom(&self, address: usize, value: u8) -> MBC2 {
        if address <= 0x1FFF {
            if address & 0x100 == 0 {
                MBC2 { ram_enabled: value == 0x0A, ..*self }
            } else {
                *self
            }
        } else if address <= 0x3FFF {
            if address & 0x100 != 0 {
                let bank = value & 0xF;
                MBC2 { rom_bank: if bank >= 1 { bank } else { 1 }, ..*self }
            } else {
                *self
            }
        } else {
            *self
        }
    }

    fn rom_bank(&self) -> (r: u16) {
        self.rom_bank as u16
    }

    fn ram_bank(&self) -> (r: u8) {
        0
    }

    fn ram_enabled(&self) -> (r: bool) {
        self.ram_enabled
    }

    fn write_rom(&mut self, address: usize, value: u8)
        ensures
            old(self).wf() ==> final(self).wf(),
    {
        if address <= 0x1FFF {
            if address & 0x100 == 0 {
                self.ram_enabled = value == 0x0A;
            }
        } else if address <= 0x3FFF {
            if address & 0x100 != 0 {
                let bank: u8 = value & 0xF;
                self.rom_bank = if bank >= 1 { bank } else { 1 };
            }
        }
        assert(value & 0xF <= 0xF) by (bit_vector);
    }
}

/// An MBC2 write with bit 8 of the address set, at 0x2000 to 0x3FFF, selects ROM bank
/// `value % 16`, or 1 where that is 0; one with bit 8 clear, at 0 to 0x1FFF, enables RAM
/// exactly when the value is 0x0A. Every other write changes nothing.
pub proof fn lemma_mbc2_write(m: MBC2, address: usize, value: u8)
    ensures
        ({
            let w = m.spec_write_rom(address, value);
            let bit8 = (address / 256) % 2 == 1;
            if 0x2000 <= address <= 0x3FFF && bit8 {
                w.spec_rom_bank() == (if value % 16 == 0 { 1 } else { value % 16 })
                    && w.spec_ram_enabled() == m.spec_ram_enabled()
            } else if address <= 0x1FFF && !bit8 {
                w.spec_ram_enabled() == (value == 0x0A) && w.spec_rom_bank() == m.spec_rom_bank()
            } else {
                w == m
            }
        }),
{
    assert(value & 0xF == value % 16) by (bit_vector);
    assert((address & 0x100 == 0) == ((address / 256) % 2 == 0)) by (bit_vector);
}

} // verus!
