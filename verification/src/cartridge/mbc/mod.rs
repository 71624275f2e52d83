pub mod mbc1;
pub mod mbc2;
pub mod mbc3;
pub mod mbc5;

use vstd::prelude::*;
use crate::cartridge::cartridge_capability::CartridgeCapability;
use crate::cartridge::cartridge_metadata::CartridgeMetadata;
use crate::cartridge::mbc::mbc1::MBC1;
use crate::cartridge::mbc::mbc2::MBC2;
use crate::cartridge::mbc::mbc3::MBC3;
use crate::cartridge::mbc::mbc5::MBC5;

verus! {

/// Where the switchable ROM bank `bank` starts, counted from the second bank of the buffer:
/// bank 0 and bank 1 both map the second bank.
pub open spec fn rom_bank_offset(bank: u16) -> int {
    if bank > 0 {
        (bank - 1) * 0x4000
    } else {
        0
    }
}

/// The buffer index that a cartridge RAM address maps to in RAM bank `bank`.
pub open spec fn ram_offset(bank: u8, address: int) -> int {
    address - 0xA000 + bank * 0xFF
}

/// A memory bank controller: the chip of a cartridge that maps banks of its ROM and RAM
/// into the address space.
pub trait MemoryBankController: Sized {
    /// The selected ROM bank.
    spec fn spec_rom_bank(&self) -> u16;

    /// The selected RAM bank.
    spec fn spec_ram_bank(&self) -> u8;

    /// Whether the cartridge RAM can be read and written.
    spec fn spec_ram_enabled(&self) -> bool;

    /// The controller after a write of `value` at `address` in the ROM area.
    spec fn spec_write_rom(&self, address: usize, value: u8) -> Self;

    fn rom_bank(&self) -> (r: u16)
        ensures
            r == self.spec_rom_bank(),
    ;

    fn ram_bank(&self) -> (r: u8)
        ensures
            r == self.spec_ram_bank(),
    ;

    fn ram_enabled(&self) -> (r: bool)
        ensures
            r == self.spec_ram_enabled(),
    ;

    /// The buffer index of a ROM address in the switchable bank.
    fn relative_rom_address(&self, address: usize) -> (r: usize)
        requires
            address + rom_bank_offset(self.spec_rom_bank()) <= usize::MAX,
        ensures
            r == address + rom_bank_offset(self.spec_rom_bank()),
    {
        let bank: u16 = self.rom_bank();
        let current_bank: usize = if bank > 0 {
            (bank - 1) as usize
        } else {
            0
        };
        address + current_bank * 0x4000
    }

    /// Takes a write in the ROM area: the controller's registers.
    fn write_rom(&mut self, address: usize, value: u8)
        ensures
            *final(self) == old(self).spec_write_rom(address, value),
    ;

    /// Reads the byte of the buffer that a RAM address maps to.
    fn read_ram(&self, address: usize, buffer: &Vec<u8>) -> (r: u8)
        requires
            0xA000 <= address,
            ram_offset(self.spec_ram_bank(), address as int) < buffer@.len(),
        ensures
            r == buffer@[ram_offset(self.spec_ram_bank(), address as int)],
    {
        let length = buffer.len();
        assert(ram_offset(self.spec_ram_bank(), address as int) < length);
        let address = self.relative_ram_address(address);
        buffer[address]
    }

    /// Writes `value` at index `address` of the buffer.
    fn write_ram(&mut self, address: usize, value: u8, buffer: &mut Vec<u8>)
        requires
            address < old(buffer)@.len(),
        ensures
            final(buffer)@ == old(buffer)@.update(address as int, value),
            *final(self) == *old(self),
    {
        buffer.set(address, value);
    }

    /// The buffer index that a RAM address maps to in the selected RAM bank.
    fn relative_ram_address(&self, address: usize) -> (r: usize)
        requires
            0xA000 <= address,
            ram_offset(self.spec_ram_bank(), address as int) <= usize::MAX,
        ensures
            r == ram_offset(self.spec_ram_bank(), address as int),
    {
        let address = address - 0xA000;
        let current_bank = self.ram_bank() as usize;
        address + current_bank * 0xFF
    }
}

/// The memory bank controllers that this library emulates, one variant for each.
#[derive(Debug, Copy, Clone, PartialEq, Eq, Structural)]
pub enum Controller {
    MBC1(MBC1),
    MBC2(MBC2),
    MBC3(MBC3),
    MBC5(MBC5),
}

impl MemoryBankController for Controller {
    open spec fn spec_rom_bank(&self) -> u16 {
        match self {
            Controller::MBC1(m) => m.spec_rom_bank(),
            Controller::MBC2(m) => m.spec_rom_bank(),
            Controller::MBC3(m) => m.spec_rom_bank(),
            Controller::MBC5(m) => m.spec_rom_bank(),
        }
    }

    open spec fn spec_ram_bank(&self) -> u8 {
        match self {
            Controller::MBC1(m) => m.spec_ram_bank(),
            Controller::MBC2(m) => m.spec_ram_bank(),
            Controller::MBC3(m) => m.spec_ram_bank(),
            Controller::MBC5(m) => m.spec_ram_bank(),
        }
    }

    open spec fn spec_ram_enabled(&self) -> bool {
        match self {
            Controller::MBC1(m) => m.spec_ram_enabled(),
            Controller::MBC2(m) => m.spec_ram_enabled(),
            Controller::MBC3(m) => m.spec_ram_enabled(),
            Controller::MBC5(m) => m.spec_ram_enabled(),
        }
    }

    open spec fn spec_write_rom(&self, address: usize, value: u8) -> Controller {
        match self {
            Controller::MBC1(m) => Controller::MBC1(m.spec_write_rom(address, value)),
            Controller::MBC2(m) => Controller::MBC2(m.spec_write_rom(address, value)),
            Controller::MBC3(m) => Controller::MBC3(m.spec_write_rom(address, value)),
            Controller::MBC5(m) => Controller::MBC5(m.spec_write_rom(address, value)),
        }
    }

    fn rom_bank(&self) -> (r: u16) {
        match self {
            Controller::MBC1(m) => m.rom_bank(),
            Controller::MBC2(m) => m.rom_bank(),
            Controller::MBC3(m) => m.rom_bank(),
            Controller::MBC5(m) => m.rom_bank(),
        }
    }

    fn ram_bank(&self) -> (r: u8) {
        match self {
            Controller::MBC1(m) => m.ram_bank(),
            Controller::MBC2(m) => m.ram_bank(),
            Controller::MBC3(m) => m.ram_bank(),
            Controller::MBC5(m) => m.ram_bank(),
        }
    }

    fn ram_enabled(&self) -> (r: bool) {
        match self {
            Controller::MBC1(m) => m.ram_enabled(),
            Controller::MBC2(m) => m.ram_enabled(),
            Controller::MBC3(m) => m.ram_enabled(),
            Controller::MBC5(m) => m.ram_enabled(),
        }
    }

    fn write_rom(&mut self, address: usize, value: u8) {
        match self {
            Controller::MBC1(m) => m.write_rom(address, value),
            Controller::MBC2(m) => m.write_rom(address, value),
            Controller::MBC3(m) => m.write_rom(address, value),
            Controller::MBC5(m) => m.write_rom(address, value),
        }
    }
}

/// The kinds of memory bank controller a cartridge can name.
#[derive(Debug, Copy, Clone, PartialEq, Eq, Structural)]
pub enum MBCVariant {
    MBC1,
    MBC2,
    MBC3,
    MBC5,
}

/// Whether `capabilities` holds `capability`.
fn has_capability(capabilities: &Vec<CartridgeCapability>, capability: CartridgeCapability) -> (r: bool)
    ensures
        r == capabilities@.contains(capability),
{
    let mut i: usize = 0;
    while i < capabilities.len()
        invariant
            i <= capabilities@.len(),
            forall|j: int| 0 <= j < i ==> capabilities@[j] != capability,
        decreases capabilities@.len() - i,
    {
        if capabilities[i] == capability {
            return true;
        }
        i = i + 1;
    }
    false
}

/// The controller that a list of capabilities names: the first of MBC1, MBC2, MBC3 and
/// MBC5 that it holds.
pub open spec fn spec_variant(capabilities: Seq<CartridgeCapability>) -> Option<MBCVariant> {
    if capabilities.contains(CartridgeCapability::MBC1) {
        Some(MBCVariant::MBC1)
    } else if capabilities.contains(CartridgeCapability::MBC2) {
        Some(MBCVariant::MBC2)
    } else if capabilities.contains(CartridgeCapability::MBC3) {
        Some(MBCVariant::MBC3)
    } else if capabilities.contains(CartridgeCapability::MBC5) {
        Some(MBCVariant::MBC5)
    } else {
        None
    }
}

impl MBCVariant {
    /// The controller that a list of capabilities names, if any.
    pub fn from_capabilities(capabilities: &Vec<CartridgeCapability>) -> (r: Option<MBCVariant>)
        ensures
            r == spec_variant(capabilities@),
    {
        if has_capability(capabilities, CartridgeCapability::MBC1) {
            Some(MBCVariant::MBC1)
        } else if has_capability(capabilities, CartridgeCapability::MBC2) {
            Some(MBCVariant::MBC2)
        } else if has_capability(capabilities, CartridgeCapability::MBC3) {
            Some(MBCVariant::MBC3)
        } else if has_capability(capabilities, CartridgeCapability::MBC5) {
            Some(MBCVariant::MBC5)
        } else {
            None
        }
    }
}

/// Makes the memory bank controller of a cartridge.
pub struct MBCFactory {}

impl MBCFactory {
    /// The controller of a cartridge with these metadata, in its power-on state; none where
    /// the cartridge names no controller.
    pub fn from_metadata(metadata: &CartridgeMetadata) -> (r: Option<Controller>)
        ensures
            r == (match spec_variant(metadata.capabilities@) {
                Some(v) => spec_controller(v),
                None => None,
            }),
    {
        let variant = MBCVariant::from_capabilities(&metadata.capabilities)?;
        Self::from_variant(&variant, &metadata.capabilities)
    }

    /// The controller of a variant in its power-on state.
    pub fn from_variant(variant: &MBCVariant, capabilities: &Vec<CartridgeCapability>) -> (r: Option<Controller>)
        ensures
            r == spec_controller(*variant),
    {
        match variant {
            MBCVariant::MBC1 => Some(Controller::MBC1(MBC1::new(capabilities.as_slice()))),
            MBCVariant::MBC2 => Some(Controller::MBC2(MBC2::new(capabilities.as_slice()))),
            MBCVariant::MBC3 => Some(Controller::MBC3(MBC3::new(capabilities.as_slice()))),
            MBCVariant::MBC5 => Some(Controller::MBC5(MBC5::new(capabilities.as_slice()))),
        }
    }
}

/// The power-on controller of a variant.
pub open spec fn spec_controller(variant: MBCVariant) -> Option<Controller> {
    match variant {
        MBCVariant::MBC1 => Some(Controller::MBC1(MBC1::initial())),
        MBCVariant::MBC2 => Some(Controller::MBC2(MBC2::initial())),
        MBCVariant::MBC3 => Some(Controller::MBC3(MBC3::initial())),
        MBCVariant::MBC5 => Some(Controller::MBC5(MBC5::initial())),
    }
}

/// A cartridge gets a controller exactly when its capabilities name MBC1, MBC2, MBC3 or
/// MBC5.
pub proof fn lemma_controller_when_named(capabilities: Seq<CartridgeCapability>)
    ensures
        (match spec_variant(capabilities) {
            Some(v) => spec_controller(v),
            None => None,
        }) is Some <==> (capabilities.contains(CartridgeCapability::MBC1)
            || capabilities.contains(CartridgeCapability::MBC2)
            || capabilities.contains(CartridgeCapability::MBC3)
            || capabilities.contains(CartridgeCapability::MBC5)),
{
}

/// The switchable ROM bank of an MBC1, an MBC2 or an MBC3 never maps bank 0, whatever is
/// written: a write of 0 selects bank 1.
pub proof fn lemma_rom_bank_never_zero(controller: Controller, address: usize, value: u8)
    requires
        match controller {
            Controller::MBC1(m) => m.wf(),
            Controller::MBC2(m) => m.wf(),
            Controller::MBC3(m) => m.wf(),
            Controller::MBC5(_) => true,
        },
    ensures
        match controller.spec_write_rom(address, value) {
            Controller::MBC1(m) => m.wf() && m.spec_rom_bank() >= 1,
            Controller::MBC2(m) => m.wf() && m.spec_rom_bank() >= 1,
            Controller::MBC3(m) => m.wf() && m.spec_rom_bank() >= 1,
            Controller::MBC5(_) => true,
        },
{
    assert(value & 0b11111 <= 0x1F && value & 0b11 <= 3 && value & 0xF <= 0xF && value & 0x7F <= 0x7F) by (bit_vector);
}

/// Bank 0 and bank 1 both map the second 16 KiB of the ROM at 0x4000-0x7FFF.
pub proof fn lemma_low_banks_map_second_bank(controller: Controller, address: usize)
    requires
        controller.spec_rom_bank() <= 1,
    ensures
        address + rom_bank_offset(controller.spec_rom_bank()) == address,
{
}

} // verus!
