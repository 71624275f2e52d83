pub mod background_tile_map;
pub mod sprite_attribute_table;

use vstd::prelude::*;
use crate::video::memory::background_tile_map::BackgroundTileMap;
use crate::video::memory::sprite_attribute_table::{OAMEntry, SpriteAttributeTable, is_oam_address,
    spec_oam_read, spec_oam_write};
use crate::video::tile::Tile;

verus! {

/// The video memory: the tile data at 0x8000-0x97FF, the two background maps at
/// 0x9800-0x9BFF and 0x9C00-0x9FFF, and the object attribute memory at 0xFE00-0xFE9F.
#[derive(Debug, Copy, Clone)]
pub struct VideoMemory {
    pub tile_data: [Tile; 384],
    pub oam: SpriteAttributeTable,
    pub background_tile_maps: (BackgroundTileMap, BackgroundTileMap),
}

/// Whether the video memory answers at an address.
pub open spec fn is_vram_address(address: u16) -> bool {
    0x8000 <= address <= 0x9FFF || is_oam_address(address)
}

/// The tile line of a tile data address, and whether the address is its high byte.
pub open spec fn tile_line_index(address: u16) -> (int, int, bool) {
    let t = address - 0x8000;
    (t / 16, (t % 16) / 2, t % 2 == 1)
}

/// The video memory as plain values: the lines of each tile, the sprites, the two maps.
pub struct VideoMemoryView {
    pub tiles: Seq<Seq<u16>>,
    pub oam: Seq<OAMEntry>,
    pub maps: (Seq<u8>, Seq<u8>),
}

impl View for VideoMemory {
    type V = VideoMemoryView;

    open spec fn view(&self) -> VideoMemoryView {
        VideoMemoryView {
            tiles: self.tile_data@.map_values(|t: Tile| t.data@),
            oam: self.oam.table@,
            maps: (self.background_tile_maps.0.tiles@, self.background_tile_maps.1.tiles@),
        }
    }
}

/// The video memory at power-on: every tile blank, every sprite blank, every map entry 0.
pub open spec fn blank_vram() -> VideoMemoryView {
    VideoMemoryView {
        tiles: Seq::new(384, |i: int| seq![0u16, 0, 0, 0, 0, 0, 0, 0]),
        oam: Seq::new(40, |i: int| OAMEntry { position: (0, 0), tile_number: 0, attributes: 0 }),
        maps: (Seq::new(1024, |i: int| 0u8), Seq::new(1024, |i: int| 0u8)),
    }
}

/// The byte at an address of the video memory: the low byte of a tile line at an even
/// address and its high byte at an odd one, a map entry, or a sprite byte.
pub open spec fn spec_vram_read(v: VideoMemoryView, address: u16) -> u8 {
    if 0x8000 <= address <= 0x97FF {
        let (tile, line, high) = tile_line_index(address);
        let value = v.tiles[tile][line];
        if high { (value >> 8u16) as u8 } else { value as u8 }
    } else if 0x9800 <= address <= 0x9BFF {
        v.maps.0[address - 0x9800]
    } else if 0x9C00 <= address <= 0x9FFF {
        v.maps.1[address - 0x9C00]
    } else {
        spec_oam_read(v.oam, address)
    }
}

/// The video memory after a write at an address. A write in the tile data replaces the
/// whole tile line (see `written_line`).
pub open spec fn spec_vram_write(v: VideoMemoryView, address: u16, value: u8) -> VideoMemoryView {
    if 0x8000 <= address <= 0x97FF {
        let (tile, line, high) = tile_line_index(address);
        VideoMemoryView { tiles: v.tiles.update(tile, v.tiles[tile].update(line, written_line(address, value))), ..v }
    } else if 0x9800 <= address <= 0x9BFF {
        VideoMemoryView { maps: (v.maps.0.update(address - 0x9800, value), v.maps.1), ..v }
    } else if 0x9C00 <= address <= 0x9FFF {
        VideoMemoryView { maps: (v.maps.0, v.maps.1.update(address - 0x9C00, value)), ..v }
    } else {
        VideoMemoryView { oam: spec_oam_write(v.oam, address, value), ..v }
    }
}

/// The line that a write of `value` at a tile data address stores: the value shifted left
/// by 15 bits (even address) or 7 bits (odd address), cut to 16 bits.
pub open spec fn written_line(address: u16, value: u8) -> u16 {
    if (address - 0x8000) % 2 == 0 {
        ((value as u16) << 15u16) as u16
    } else {
        ((value as u16) << 7u16) as u16
    }
}

impl VideoMemory {
    /// Every tile blank, every map entry 0, every sprite blank.
    pub fn new() -> (r: VideoMemory)
        ensures
            r@ == blank_vram(),
    {
        let tile = Tile::new([0; 8]);
        assert(tile.data@ =~= seq![0u16, 0, 0, 0, 0, 0, 0, 0]);
        let r = VideoMemory {
            tile_data: [tile; 384],
            oam: SpriteAttributeTable::new(),
            background_tile_maps: (BackgroundTileMap::new(), BackgroundTileMap::new()),
        };
        assert forall|i: int| 0 <= i < 384 implies #[trigger] r@.tiles[i] == blank_vram().tiles[i] by {
            assert(r.tile_data@[i] == tile);
        }
        assert(r@.tiles =~= blank_vram().tiles);
        assert(r@.oam =~= blank_vram().oam);
        assert(r@.maps.0 =~= blank_vram().maps.0);
        assert(r@.maps.1 =~= blank_vram().maps.1);
        r
    }

    pub fn tile_data(&self) -> (r: &[Tile; 384])
        ensures
            r@ == self.tile_data@,
    {
        &self.tile_data
    }

    pub fn oam(&self) -> (r: &SpriteAttributeTable)
        ensures
            *r == self.oam,
    {
        &self.oam
    }

    pub fn background_tile_maps(&self) -> (r: &(BackgroundTileMap, BackgroundTileMap))
        ensures
            *r == self.background_tile_maps,
    {
        &self.background_tile_maps
    }

    /// The offset of a tile data address, the tile it falls in and the line in that tile.
    fn tile_idx_at(&self, address: u16) -> (r: (u16, u16, u8))
        requires
            0x8000 <= address <= 0x97FF,
        ensures
            r.0 == address - 0x8000,
            r.1 == tile_line_index(address).0,
            r.2 == tile_line_index(address).1,
            r.1 < 384,
            r.2 < 8,
    {
        let tile_address = address - 0x8000;
        let tile_base_address = (tile_address - tile_address % 16) / 16;
        let line_idx = ((tile_address - tile_address % 2) - tile_base_address * 16) / 2;
        (tile_address, tile_base_address, line_idx as u8)
    }

    /// The byte of a tile line at a tile data address.
    fn tile_line_at(&self, address: u16) -> (r: u8)
        requires
            0x8000 <= address <= 0x97FF,
        ensures
            r == spec_vram_read(self@, address),
    {
        let (tile_address, tile_idx, line_idx) = self.tile_idx_at(address);
        let line = self.tile_data[tile_idx as usize].line(line_idx);
        if tile_address % 2 == 0 {
            line as u8
        } else {
            (line >> 8) as u8
        }
    }

    /// Stores the line that a write at a tile data address makes.
    fn set_tile_line_at(&mut self, address: u16, value: u8)
        requires
            0x8000 <= address <= 0x97FF,
        ensures
            final(self)@ == spec_vram_write(old(self)@, address, value),
    {
        let (tile_address, tile_idx, line_idx) = self.tile_idx_at(address);
        let line: u16 = if tile_address % 2 == 0 {
            (value as u16) << 15
        } else {
            (value as u16) << 7
        };
        let mut tile = self.tile_data[tile_idx as usize];
        tile.set_line(line_idx, line);
        self.tile_data[tile_idx as usize] = tile;
        assert(self@.tiles =~= spec_vram_write(old(self)@, address, value).tiles);
    }

    /// Reads a byte of the video memory.
    pub fn read(&self, address: u16) -> (r: u8)
        requires
            is_vram_address(address),
        ensures
            r == spec_vram_read(self@, address),
    {
        if 0x8000 <= address && address <= 0x97FF {
            self.tile_line_at(address)
        } else if 0x9800 <= address && address <= 0x9BFF {
            self.background_tile_maps.0.tile_idx_at(address - 0x9800)
        } else if 0x9C00 <= address && address <= 0x9FFF {
            self.background_tile_maps.1.tile_idx_at(address - 0x9C00)
        } else {
            self.oam.read(address)
        }
    }

    /// Writes a byte of the video memory.
    pub fn write(&mut self, address: u16, value: u8)
        requires
            is_vram_address(address),
        ensures
            final(self)@ == spec_vram_write(old(self)@, address, value),
    {
        if 0x8000 <= address && address <= 0x97FF {
            self.set_tile_line_at(address, value)
        } else if 0x9800 <= address && address <= 0x9BFF {
            self.background_tile_maps.0.set_tile_idx_at(address - 0x9800, value)
        } else if 0x9C00 <= address && address <= 0x9FFF {
            self.background_tile_maps.1.set_tile_idx_at(address - 0x9C00, value)
        } else {
            self.oam.write(address, value)
        }
    }
}

} // verus!
