pub mod cartridge_capability;
pub mod cartridge_metadata;
pub mod mbc;

use vstd::prelude::*;
use crate::bus::{Readable, Writable};
use crate::cartridge::cartridge_metadata::{CartridgeMetadata, MetadataError, MetadataView,
    metadata_error, spec_metadata, HEADER_CHECKSUM_OFFSET};
use crate::cartridge::mbc::{Controller, MBCFactory, MemoryBankController, rom_bank_offset,
    ram_offset, spec_controller, spec_variant};

verus! {

/// The byte at index `i` of `s`, or 0 where `s` has none.
pub open spec fn byte_at(s: Seq<u8>, i: int) -> u8 {
    if 0 <= i < s.len() {
        s[i]
    } else {
        0
    }
}

/// A cartridge as plain values: its image, the ROM size its header gives, and its
/// memory bank controller.
pub struct CartridgeView {
    pub buffer: Seq<u8>,
    pub rom_size: usize,
    pub mbc: Option<Controller>,
}

/// A game cartridge: its image, its header and its memory bank controller.
pub struct Cartridge {
    pub buffer: Vec<u8>,
    pub metadata: CartridgeMetadata,
    pub mbc: Option<Controller>,
}

impl View for Cartridge {
    type V = CartridgeView;

    open spec fn view(&self) -> CartridgeView {
        CartridgeView { buffer: self.buffer@, rom_size: self.metadata.rom_size, mbc: self.mbc }
    }
}

impl Cartridge {
    /// A cartridge from its image: the header read from it and the controller it names in
    /// its power-on state; an error where the header cannot be read.
    pub fn from_buffer(buffer: Vec<u8>) -> (r: Result<Cartridge, MetadataError>)
        requires
            buffer@.len() > HEADER_CHECKSUM_OFFSET,
        ensures
            r is Err <==> metadata_error(buffer@) is Some,
            r matches Err(e) ==> metadata_error(buffer@) == Some(e),
            r matches Ok(c) ==> c.buffer@ == buffer@ && c.metadata@ == spec_metadata(buffer@)
                && c.mbc == (match spec_variant(spec_metadata(buffer@).capabilities) {
                    Some(v) => spec_controller(v),
                    None => None,
                }),
    {
        let metadata = CartridgeMetadata::from_buffer(buffer.as_slice())?;
        let mbc = MBCFactory::from_metadata(&metadata);
        Ok(Cartridge { buffer, metadata, mbc })
    }
}

/// The byte at `index` of the buffer, or 0 past its end.
fn byte_or_zero(buffer: &Vec<u8>, index: usize) -> (r: u8)
    ensures
        r == byte_at(buffer@, index as int),
{
    if index < buffer.len() {
        buffer[index]
    } else {
        0
    }
}

impl Readable for Cartridge {
    /// The first ROM bank at 0x0000-0x3FFF, the switchable bank at 0x4000-0x7FFF, the
    /// RAM bank at 0xA000-0xBFFF while the controller enables RAM (the address is moved
    /// past the ROM, by the ROM size of the header), and 0 elsewhere and past the end of the
    /// image.
    open spec fn spec_read(v: CartridgeView, address: u16) -> u8 {
        if address <= 0x3FFF {
            byte_at(v.buffer, address as int)
        } else if address <= 0x7FFF {
            match v.mbc {
                Some(m) => byte_at(v.buffer, address + rom_bank_offset(m.spec_rom_bank())),
                None => byte_at(v.buffer, address as int),
            }
        } else if 0xA000 <= address <= 0xBFFF {
            match v.mbc {
                Some(m) => if m.spec_ram_enabled() && address + v.rom_size <= usize::MAX {
                    byte_at(v.buffer, ram_offset(m.spec_ram_bank(), address + v.rom_size))
                } else {
                    0
                },
                None => 0,
            }
        } else {
            0
        }
    }

    fn read(&self, address: u16) -> (r: u8) {
        if address <= 0x3FFF {
            byte_or_zero(&self.buffer, address as usize)
        } else if address <= 0x7FFF {
            self.read_switchable_rom(address)
        } else if 0xA000 <= address && address <= 0xBFFF {
            self.read_switchable_ram(address)
        } else {
            0
        }
    }
}

impl Cartridge {
    /// A read in the switchable ROM bank.
    fn read_switchable_rom(&self, address: u16) -> (r: u8)
        requires
            0x4000 <= address <= 0x7FFF,
        ensures
            r == Self::spec_read(self@, address),
    {
        match &self.mbc {
            Some(mbc) => {
                let index = mbc.relative_rom_address(address as usize);
                byte_or_zero(&self.buffer, index)
            },
            None => byte_or_zero(&self.buffer, address as usize),
        }
    }

    /// A read in the switchable RAM bank.
    fn read_switchable_ram(&self, address: u16) -> (r: u8)
        requires
            0xA000 <= address <= 0xBFFF,
        ensures
            r == Self::spec_read(self@, address),
    {
        let length = self.buffer.len();
        match &self.mbc {
            Some(mbc) => {
                if mbc.ram_enabled() {
                    match (address as usize).checked_add(self.metadata.rom_size) {
                        Some(shifted) => {
                            let bank = mbc.ram_bank() as usize;
                            let relative = shifted - 0xA000;
                            match relative.checked_add(bank * 0xFF) {
                                Some(index) => {
                                    if index < length {
                                        mbc.read_ram(shifted, &self.buffer)
                                    } else {
                                        0
                                    }
                                },
                                None => 0,
                            }
                        },
                        None => 0,
                    }
                } else {
                    0
                }
            },
            None => 0,
        }
    }
}

impl Writable for Cartridge {
    /// A write at 0x0000-0x7FFF goes to the controller's registers; one at 0xA000-0xBFFF,
    /// while the controller enables RAM, sets the byte at that same index of the image.
    open spec fn spec_write(v: CartridgeView, address: u16, value: u8) -> CartridgeView {
        if address <= 0x7FFF {
            match v.mbc {
                Some(m) => CartridgeView { mbc: Some(m.spec_write_rom(address as usize, value)), ..v },
                None => v,
            }
        } else if 0xA000 <= address <= 0xBFFF {
            match v.mbc {
                Some(m) => if m.spec_ram_enabled() && address < v.buffer.len() {
                    CartridgeView { buffer: v.buffer.update(address as int, value), ..v }
                } else {
                    v
                },
                None => v,
            }
        } else {
            v
        }
    }

    fn write(&mut self, address: u16, value: u8) {
        if address <= 0x7FFF {
            match &mut self.mbc {
                Some(mbc) => mbc.write_rom(address as usize, value),
                None => {},
            }
        } else if 0xA000 <= address && address <= 0xBFFF {
            match &mut self.mbc {
                Some(mbc) => {
                    if mbc.ram_enabled() && (address as usize) < self.buffer.len() {
                        mbc.write_ram(address as usize, value, &mut self.buffer);
                    }
                },
                None => {},
            }
        }
    }
}

/// The ROM is read-only: no write changes the image below 0xA000, and a write in the
/// ROM area changes nothing but the controller.
pub proof fn lemma_rom_read_only(v: CartridgeView, address: u16, value: u8)
    ensures
        forall|i: int| 0 <= i < 0xA000 ==> #[trigger] Cartridge::spec_write(v, address, value).buffer[i] == v.buffer[i],
        address <= 0x7FFF ==> Cartridge::spec_write(v, address, value).buffer == v.buffer,
        Cartridge::spec_write(v, address, value).buffer.len() == v.buffer.len(),
{
}

/// The first 16 KiB of the image are read as they are, whatever the controller.
pub proof fn lemma_first_bank_fixed(v: CartridgeView, address: u16)
    requires
        address <= 0x3FFF,
        address < v.buffer.len(),
    ensures
        Cartridge::spec_read(v, address) == v.buffer[address as int],
{
}

} // verus!
