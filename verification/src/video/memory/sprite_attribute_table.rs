use vstd::prelude::*;
use crate::util::bits::{bit_set, get_bit};

verus! {

/// One sprite of the object attribute memory.
#[derive(Debug, Copy, Clone)]
pub struct OAMEntry {
    /// (x, y)
    pub position: (u8, u8),
    pub tile_number: u8,
    pub attributes: u8,
}

/// Byte `byte` of an entry as the hardware lays it out: y, x, tile number, attributes.
pub open spec fn entry_byte(entry: OAMEntry, byte: u8) -> u8 {
    if byte == 0 {
        entry.position.1
    } else if byte == 1 {
        entry.position.0
    } else if byte == 2 {
        entry.tile_number
    } else {
        entry.attributes
    }
}

/// The entry with byte `byte` replaced by `value`.
pub open spec fn with_entry_byte(entry: OAMEntry, byte: u8, value: u8) -> OAMEntry {
    if byte == 0 {
        OAMEntry { position: (entry.position.0, value), ..entry }
    } else if byte == 1 {
        OAMEntry { position: (value, entry.position.1), ..entry }
    } else if byte == 2 {
        OAMEntry { tile_number: value, ..entry }
    } else {
        OAMEntry { attributes: value, ..entry }
    }
}

impl OAMEntry {
    /// A sprite at (0, 0), tile 0, no attribute set.
    pub fn new() -> (r: Self)
        ensures
            r == (OAMEntry { position: (0, 0), tile_number: 0, attributes: 0 }),
    {
        OAMEntry { position: (0, 0), tile_number: 0, attributes: 0 }
    }

    pub fn byte(&self, byte: u8) -> (r: u8)
        requires
            byte < 4,
        ensures
            r == entry_byte(*self, byte),
    {
        match byte {
            0 => self.position.1,
            1 => self.position.0,
            2 => self.tile_number,
            _ => self.attributes,
        }
    }

    pub fn set_byte(&mut self, byte: u8, value: u8)
        requires
            byte < 4,
        ensures
            *final(self) == with_entry_byte(*old(self), byte, value),
    {
        match byte {
            0 => self.position.1 = value,
            1 => self.position.0 = value,
            2 => self.tile_number = value,
            _ => self.attributes = value,
        }
    }

    /// Bit 4 of the attributes: the DMG palette of the sprite.
    pub fn obj_palette_number(&self) -> (r: u8)
        ensures
            r == (if bit_set(self.attributes, 4) { 1u8 } else { 0u8 }),
    {
        let a = self.attributes;
        assert((a & 0b10000) >> 4u8 == (if (a >> 4u8) & 1 == 1 { 1u8 } else { 0u8 })) by (bit_vector);
        (self.attributes & 0b10000) >> 4
    }

    /// Bit 5 of the attributes.
    pub fn x_flipped(&self) -> (r: bool)
        ensures
            r == bit_set(self.attributes, 5),
    {
        get_bit(self.attributes, 5)
    }

    /// Bit 6 of the attributes.
    pub fn y_flipped(&self) -> (r: bool)
        ensures
            r == bit_set(self.attributes, 6),
    {
        get_bit(self.attributes, 6)
    }

    /// Bit 3 of the attributes: the VRAM bank of the tile (color models).
    pub fn tile_vram_bank(&self) -> (r: u8)
        ensures
            r == (if bit_set(self.attributes, 3) { 1u8 } else { 0u8 }),
    {
        let a = self.attributes;
        assert((a & 0b1000) >> 3u8 == (if (a >> 3u8) & 1 == 1 { 1u8 } else { 0u8 })) by (bit_vector);
        (self.attributes & 0b1000) >> 3
    }

    /// The two low bits of the attributes: the color palette (color models).
    pub fn cgb_palette_number(&self) -> (r: u8)
        ensures
            r == self.attributes & 0b11,
    {
        self.attributes & 0b11
    }

    /// Bit 7 of the attributes: the sprite is behind the background.
    pub fn priority(&self) -> (r: u8)
        ensures
            r == (if bit_set(self.attributes, 7) { 1u8 } else { 0u8 }),
    {
        let a = self.attributes;
        assert((a & 0b10000000) >> 7u8 == (if (a >> 7u8) & 1 == 1 { 1u8 } else { 0u8 })) by (bit_vector);
        (self.attributes & 0b10000000) >> 7
    }
}

/// The object attribute memory: 40 sprites of 4 bytes at 0xFE00-0xFE9F.
#[derive(Debug, Copy, Clone)]
pub struct SpriteAttributeTable {
    pub table: [OAMEntry; 40],
}

/// Whether an address is in the object attribute memory.
pub open spec fn is_oam_address(address: u16) -> bool {
    0xFE00 <= address <= 0xFE9F
}

/// The byte at an address of the object attribute memory.
pub open spec fn spec_oam_read(table: Seq<OAMEntry>, address: u16) -> u8 {
    let offset = address - 0xFE00;
    entry_byte(table[offset / 4], (offset % 4) as u8)
}

/// The table after a write at an address of the object attribute memory.
pub open spec fn spec_oam_write(table: Seq<OAMEntry>, address: u16, value: u8) -> Seq<OAMEntry> {
    let offset = address - 0xFE00;
    table.update(offset / 4, with_entry_byte(table[offset / 4], (offset % 4) as u8, value))
}

impl SpriteAttributeTable {
    /// Forty blank sprites.
    pub fn new() -> (r: Self)
        ensures
            forall|i: int| 0 <= i < 40 ==> #[trigger] r.table@[i]
                == (OAMEntry { position: (0, 0), tile_number: 0, attributes: 0 }),
    {
        SpriteAttributeTable { table: [OAMEntry::new(); 40] }
    }

    /// The entry and the byte in it that an address designates.
    fn entry_byte_at(&self, address: u16) -> (r: (u8, u8))
        requires
            is_oam_address(address),
        ensures
            r.0 == (address - 0xFE00) / 4,
            r.1 == (address - 0xFE00) % 4,
    {
        let address = address - 0xFE00;
        let entry_idx = (address - address % 4) / 4;
        let byte_idx = address - entry_idx * 4;
        (entry_idx as u8, byte_idx as u8)
    }

    pub fn entries(&self) -> (r: &[OAMEntry; 40])
        ensures
            r@ == self.table@,
    {
        &self.table
    }

    /// Reads a byte of the table.
    pub fn read(&self, address: u16) -> (r: u8)
        requires
            is_oam_address(address),
        ensures
            r == spec_oam_read(self.table@, address),
    {
        let (entry_idx, byte_idx) = self.entry_byte_at(address);
        self.table[entry_idx as usize].byte(byte_idx)
    }

    /// Writes a byte of the table.
    pub fn write(&mut self, address: u16, value: u8)
        requires
            is_oam_address(address),
        ensures
            final(self).table@ == spec_oam_write(old(self).table@, address, value),
    {
        let (entry_idx, byte_idx) = self.entry_byte_at(address);
        let mut entry = self.table[entry_idx as usize];
        entry.set_byte(byte_idx, value);
        self.table[entry_idx as usize] = entry;
    }
}

} // verus!
