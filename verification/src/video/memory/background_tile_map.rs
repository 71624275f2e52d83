use vstd::prelude::*;

verus! {

/// A background map: the tile numbers of 32x32 tiles, row by row.
#[derive(Debug, Copy, Clone)]
pub struct BackgroundTileMap {
    pub tiles: [u8; 1024],
}

impl BackgroundTileMap {
    /// A map of tile 0 everywhere.
    pub fn new() -> (r: Self)
        ensures
            forall|i: int| 0 <= i < 1024 ==> #[trigger] r.tiles@[i] == 0,
    {
        BackgroundTileMap { tiles: [0; 1024] }
    }

    pub fn tiles(&self) -> (r: &[u8; 1024])
        ensures
            r@ == self.tiles@,
    {
        &self.tiles
    }

    /// The tile number at `offset` in the map.
    pub fn tile_idx_at(&self, offset: u16) -> (r: u8)
        requires
            offset < 1024,
        ensures
            r == self.tiles@[offset as int],
    {
        self.tiles[offset as usize]
    }

    /// Sets the tile number at `offset` in the map.
    pub fn set_tile_idx_at(&mut self, offset: u16, value: u8)
        requires
            offset < 1024,
        ensures
            final(self).tiles@ == old(self).tiles@.update(offset as int, value),
    {
        self.tiles[offset as usize] = value;
    }
}

} // verus!
