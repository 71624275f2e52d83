use vstd::prelude::*;
use super::MemoryBankController;
use crate::cartridge::cartridge_capability::CartridgeCapability;

verus! {

/// An MBC3 controller: up to 128 ROM banks selected by writes at 0x2000-0x3FFF (0
/// selecting bank 1), RAM enabled by writing 0x0A at 0x0000-0x1FFF, and RAM banks 0 to 3
/// selected at 0x4000-0x5FFF. Selecting a clock register (0x08-0x0C) there, and latching
/// the clock at 0x6000-0x7FFF, leave the banks as they are: the clock is not emulated.
#[derive(Debug, Copy, Clone, PartialEq, Eq, Structural)]
pub struct MBC3 {
    pub rom_bank: u8,
    pub ram_enabled: bool,
    pub ram_bank: u8,
}

impl MBC3 {
    /// The power-on state: ROM bank 1, RAM disabled, RAM bank 0.
    pub open spec fn initial() -> MBC3 {
        MBC3 { rom_bank: 1, ram_enabled: false, ram_bank: 0 }
    }

    /// The banks an MBC3 can select: ROM banks 1 to 127 and RAM banks 0 to 3.
    pub open spec fn wf(&self) -> bool {
        1 <= self.rom_bank <= 0x7F && self.ram_bank <= 3
    }

    pub fn new(_capabilities: &[CartridgeCapability]) -> (r: MBC3)
        ensures
            r == MBC3::initial(),
            r.wf(),
    {
        MBC3 { rom_bank: 1, ram_enabled: false, ram_bank: 0 }
    }
}

impl MemoryBankController for MBC3 {
    open spec fn spec_rom_bank(&self) -> u16 {
        self.rom_bank as u16
    }

    open spec fn spec_ram_bank(&self) -> u8 {
        self.ram_bank
    }

    open spec fn spec_ram_enabled(&self) -> bool {
        self.ram_enabled
    }

    open spec fn spec_write_rom(&self, address: usize, value: u8) -> MBC3 {
        if address <= 0x1FFF {
            MBC3 { ram_enabled: value == 0x0A, ..*self }
        } else if address <= 0x3FFF {
            let bank = value & 0x7F;
            MBC3 { rom_bank: if bank >= 1 { bank } else { 1 }, ..*self }
        } else if address <= 0x5FFF {
            if value <= 3 {
                MBC3 { ram_bank: value, ..*self }
            } else {
                *self
            }
        } else {
            *self
        }
    }

    fn rom_bank(&self) -> (r: u16) {
        self.rom_bank as u16
    }

    fn ram_bank(&self) -> (r: u8) {
        self.ram_bank
    }

    fn ram_enabled(&self) -> (r: bool) {
        self.ram_enabled
    }

    fn write_rom(&mut self, address: usize, value: u8)
        ensures
            old(self).wf() ==> final(self).wf(),
    {
        if address <= 0x1FFF {
            self.ram_enabled = value == 0x0A;
        } else if address <= 0x3FFF {
            let bank: u8 = value & 0x7F;
            self.rom_bank = if bank >= 1 { bank } else { 1 };
        } else if address <= 0x5FFF {
            if value <= 3 {
                self.ram_bank = value;
            }
        }
        assert(value & 0x7F <= 0x7F) by (bit_vector);
    }
}

/// An MBC3 write at 0 to 0x1FFF enables RAM exactly when the value is 0x0A; at 0x2000 to
/// 0x3FFF it selects ROM bank `value % 128`, or 1 where that is 0; at 0x4000 to 0x5FFF
/// a value from 0 to 3 selects that RAM bank. Other writes change nothing.
pub proof fn lemma_mbc3_write(m: MBC3, address: usize, value: u8)
    ensures
        ({
            let w = m.spec_write_rom(address, value);
            if address <= 0x1FFF {
                w.spec_ram_enabled() == (value == 0x0A) && w.spec_rom_bank() == m.spec_rom_bank()
                    && w.spec_ram_bank() == m.spec_ram_bank()
            } else if address <= 0x3FFF {
                w.spec_rom_bank() == (if value % 128 == 0 { 1 } else { value % 128 })
                    && w.spec_ram_enabled() == m.spec_ram_enabled() && w.spec_ram_bank() == m.spec_ram_bank()
            } else if address <= 0x5FFF && value <= 3 {
                w.spec_ram_bank() == value && w.spec_rom_bank() == m.spec_rom_bank()
                    && w.spec_ram_enabled() == m.spec_ram_enabled()
            } else {
                w == m
            }
        }),
{
    assert(value & 0x7F == value % 128) by (bit_vector);
}

} // verus!
