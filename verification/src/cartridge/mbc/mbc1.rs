use vstd::prelude::*;
use super::MemoryBankController;
use crate::cartridge::cartridge_capability::CartridgeCapability;
use crate::util::bits::{bit_set, get_bit};

verus! {

/// The two banking modes of an MBC1.
#[derive(Debug, Copy, Clone, PartialEq, Eq, Structural)]
pub enum MBC1Mode {
    MaxROM,
    MaxRAM,
}

/// An MBC1 controller. Its write windows are given by these bounds, in decimal where so
/// written: the ROM bank (1 to 31, 0 selecting 1) is written at 2000 to 0x3FFF; the mode
/// (bit 7) at 6000 to 0x7FFF, which, past the ROM bank window, is 0x4000 to 0x7FFF; and,
/// in RAM banking mode only, RAM is enabled by 0x0A at 0 to 0x1FFF and the RAM bank
/// (1 to 3, 0 selecting 1) is written at 4000 to 0x5FFF, past that window 0x2000 to
/// 0x5FFF. A write in two windows acts in both, the ROM bank and mode first.
#[derive(Debug, Copy, Clone, PartialEq, Eq, Structural)]
pub struct MBC1 {
    pub mode: MBC1Mode,
    pub rom_bank: u8,
    pub ram_enabled: bool,
    pub ram_bank: u8,
}

/// `value`, or 1 where it is 0.
pub open spec fn at_least_one(value: u8) -> u8 {
    if value >= 1 {
        value
    } else {
        1
    }
}

impl MBC1 {
    /// The power-on state: ROM banking mode, ROM bank 1, RAM disabled, RAM bank 1.
    pub open spec fn initial() -> MBC1 {
        MBC1 { mode: MBC1Mode::MaxROM, rom_bank: 1, ram_enabled: false, ram_bank: 1 }
    }

    /// The banks an MBC1 can select: ROM banks 1 to 31 and RAM banks 1 to 3.
    pub open spec fn wf(&self) -> bool {
        1 <= self.rom_bank <= 0x1F && 1 <= self.ram_bank <= 3
    }

    pub fn new(_capabilities: &[CartridgeCapability]) -> (r: MBC1)
        ensures
            r == MBC1::initial(),
            r.wf(),
    {
        MBC1 { mode: MBC1Mode::MaxROM, rom_bank: 1, ram_enabled: false, ram_bank: 1 }
    }
}

impl MemoryBankController for MBC1 {
    open spec fn spec_rom_bank(&self) -> u16 {
        self.rom_bank as u16
    }

    open spec fn spec_ram_bank(&self) -> u8 {
        self.ram_bank
    }

    open spec fn spec_ram_enabled(&self) -> bool {
        self.ram_enabled
    }

    open spec fn spec_write_rom(&self, address: usize, value: u8) -> MBC1 {
        let m = if 2000 <= address <= 0x3FFF {
            MBC1 { rom_bank: at_least_one(value & 0x1F), ..*self }
        } else if 6000 <= address <= 0x7FFF {
            MBC1 { mode: if bit_set(value, 7) { MBC1Mode::MaxRAM } else { MBC1Mode::MaxROM }, ..*self }
        } else {
            *self
        };
        if m.mode == MBC1Mode::MaxRAM {
            if address <= 0x1FFF {
                MBC1 { ram_enabled: value == 0x0A, ..m }
            } else if 4000 <= address <= 0x5FFF {
                MBC1 { ram_bank: at_least_one(value & 0b11), ..m }
            } else {
                m
            }
        } else {
            m
        }
    }

    fn rom_bank(&self) -> (r: u16) {
        self.rom_bank as u16
    }

    fn ram_bank(&self) -> (r: u8) {
        self.ram_bank
    }

    fn ram_enabled(&self) -> (r: bool) {
        self.ram_enabled
    }

    fn write_rom(&mut self, address: usize, value: u8)
        ensures
            old(self).wf() ==> final(self).wf(),
    {
        if 2000 <= address && address <= 0x3FFF {
            let bank: u8 = value & 0b11111;
            self.rom_bank = if bank >= 1 { bank } else { 1 };
        } else if 6000 <= address && address <= 0x7FFF {
            self.mode = if get_bit(value, 7) { MBC1Mode::MaxRAM } else { MBC1Mode::MaxROM };
        }
        if self.mode == MBC1Mode::MaxRAM {
            if address <= 0x1FFF {
                self.ram_enabled = value == 0x0A;
            } else if 4000 <= address && address <= 0x5FFF {
                let bank: u8 = value & 0b11;
                self.ram_bank = if bank >= 1 { bank } else { 1 };
            }
        }
        assert(value & 0b11111 <= 0x1F && value & 0b11 <= 3) by (bit_vector);
    }
}

/// An MBC1 write in the ROM bank window (2000 to 0x3FFF) selects bank `value % 32`, or
/// bank 1 where that is 0: only the five low bits count, and every bank from 1 to 31 can
/// be selected. A write anywhere else leaves the ROM bank as it is.
pub proof fn lemma_mbc1_rom_bank_write(m: MBC1, address: usize, value: u8)
    ensures
        2000 <= address <= 0x3FFF ==> m.spec_write_rom(address, value).spec_rom_bank()
            == (if value % 32 == 0 { 1 } else { value % 32 }),
        !(2000 <= address <= 0x3FFF) ==> m.spec_write_rom(address, value).spec_rom_bank() == m.spec_rom_bank(),
{
    assert(value & 0x1F == value % 32) by (bit_vector);
}

/// An MBC1 write at 0x4000 to 0x7FFF selects RAM banking mode when bit 7 of the value is
/// set (the value is at least 0x80) and ROM banking mode otherwise; a write elsewhere
/// keeps the mode.
pub proof fn lemma_mbc1_mode_write(m: MBC1, address: usize, value: u8)
    ensures
        0x4000 <= address <= 0x7FFF ==> m.spec_write_rom(address, value).mode
            == (if value >= 0x80 { MBC1Mode::MaxRAM } else { MBC1Mode::MaxROM }),
        !(0x4000 <= address <= 0x7FFF) ==> m.spec_write_rom(address, value).mode == m.mode,
{
    assert(((value >> 7u8) & 1 == 1) == (value >= 0x80)) by (bit_vector);
}

/// In RAM banking mode (after the write), an MBC1 write at 0 to 0x1FFF enables RAM
/// exactly when the value is 0x0A, and a write at 0x2000 to 0x5FFF selects RAM bank
/// `value % 4`, or 1 where that is 0. In ROM banking mode the RAM stays as it was.
pub proof fn lemma_mbc1_ram_write(m: MBC1, address: usize, value: u8)
    ensures
        ({
            let w = m.spec_write_rom(address, value);
            if w.mode == MBC1Mode::MaxRAM {
                &&& address <= 0x1FFF ==> w.spec_ram_enabled() == (value == 0x0A) && w.spec_ram_bank() == m.spec_ram_bank()
                &&& 0x2000 <= address <= 0x5FFF ==> w.spec_ram_bank() == (if value % 4 == 0 { 1 } else { value % 4 })
                    && w.spec_ram_enabled() == m.spec_ram_enabled()
                &&& address > 0x5FFF ==> w.spec_ram_bank() == m.spec_ram_bank() && w.spec_ram_enabled() == m.spec_ram_enabled()
            } else {
                w.spec_ram_bank() == m.spec_ram_bank() && w.spec_ram_enabled() == m.spec_ram_enabled()
            }
        }),
{
    assert(value & 0b11 == value % 4) by (bit_vector);
}

} // verus!
