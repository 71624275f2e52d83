use vstd::prelude::*;
use vstd::arithmetic::div_mod::{lemma_fundamental_div_mod, lemma_fundamental_div_mod_converse};
use crate::util::drawer::{Entity, draw_entity, spec_drawn, covered, entity_pixel, entity_fits};
use crate::video::color::{Color, spec_color};
use crate::video::memory::sprite_attribute_table::OAMEntry;
use crate::video::tile::{Tile, pixel_value};
use crate::video::{Video, VideoView};
use crate::util::bits::bit_set;

verus! {

/// The screen: its size in pixels.
#[derive(Debug, Copy, Clone)]
pub struct Screen {
    /// (width, height)
    pub dimensions: (u8, u8),
}

/// A sprite to draw: its number in the attribute memory, its tile and its attributes.
#[derive(Debug, Copy, Clone)]
pub struct Sprite {
    pub id: u8,
    pub tile: Tile,
    pub attributes: OAMEntry,
}

/// The buffer, `w` pixels wide, with a tile drawn at (`x`, `y`).
pub open spec fn tile_drawn(buf: Seq<Color>, tile: Seq<u16>, x: int, y: int, w: int) -> Seq<Color> {
    Seq::new(buf.len(), |i: int| {
        let row = i / w - y;
        let col = i % w - x;
        if 0 <= row < 8 && 0 <= col < 8 {
            spec_color(pixel_value(tile[row], col as u8))
        } else {
            buf[i]
        }
    })
}

/// The background map that the control register selects.
pub open spec fn selected_map(v: VideoView) -> Seq<u8> {
    if bit_set(v.control, 3) {
        v.vram.maps.1
    } else {
        v.vram.maps.0
    }
}

/// The tile of the background map entry `n`, of the 32x32 map.
pub open spec fn map_tile(v: VideoView, n: int) -> Seq<u16> {
    v.vram.tiles[selected_map(v)[n] as int]
}

/// The 256x256 background with its first `n` map entries drawn over white.
pub open spec fn background_upto(video: VideoView, n: nat) -> Seq<Color>
    decreases n,
{
    if n == 0 {
        Seq::new(65536, |i: int| Color::White)
    } else {
        let k = (n - 1) as int;
        tile_drawn(background_upto(video, (n - 1) as nat), map_tile(video, k), 8 * (k % 32), 8 * (k / 32), 256)
    }
}

/// Whether a sprite is drawn: sprites are on and its attributes are not all clear.
pub open spec fn sprite_shown(video: VideoView, entry: OAMEntry) -> bool {
    bit_set(video.control, 1) && entry.attributes != 0
}

/// Every sprite that is drawn lies inside the screen.
pub open spec fn sprites_fit(video: VideoView) -> bool {
    forall|i: int| 0 <= i < 40 && #[trigger] sprite_shown(video, video.vram.oam[i]) ==>
        video.vram.oam[i].position.0 + 8 <= 160 && video.vram.oam[i].position.1 + 8 <= 144
}

/// The map entry that pixel `i` of the 256x256 background falls in.
pub open spec fn background_entry(i: int) -> int {
    (i / 256 / 8) * 32 + (i % 256) / 8
}

/// Pixel `i` of the background: the pixel of the tile of its map entry.
pub open spec fn background_pixel(video: VideoView, i: int) -> Color {
    spec_color(pixel_value(map_tile(video, background_entry(i))[(i / 256) % 8], ((i % 256) % 8) as u8))
}

/// Pixel `i` falls in the tile drawn at map entry `k` exactly when `k` is its entry, and
/// then it is pixel (`col % 8`, `row % 8`) of that tile.
proof fn lemma_entry(i: int, k: int)
    requires
        0 <= i < 65536,
        0 <= k < 1024,
    ensures
        (0 <= i / 256 - 8 * (k / 32) < 8 && 0 <= i % 256 - 8 * (k % 32) < 8) <==> background_entry(i) == k,
        background_entry(i) == k ==> i / 256 - 8 * (k / 32) == (i / 256) % 8 && i % 256 - 8 * (k % 32) == (i % 256) % 8,
        0 <= background_entry(i) < 1024,
{
    let row = i / 256;
    let col = i % 256;
    lemma_fundamental_div_mod(i, 256);
    lemma_fundamental_div_mod(row, 8);
    lemma_fundamental_div_mod(col, 8);
    lemma_fundamental_div_mod(k, 32);
    assert(0 <= row < 256 && 0 <= col < 256);
    let a = row / 8;
    let b = col / 8;
    assert(row == 8 * a + row % 8 && 0 <= row % 8 < 8);
    assert(col == 8 * b + col % 8 && 0 <= col % 8 < 8);
    assert(0 <= a < 32 && 0 <= b < 32);
    assert(k == 32 * (k / 32) + k % 32 && 0 <= k % 32 < 32);
    if background_entry(i) == k {
        lemma_fundamental_div_mod_converse(k, 32, a, b);
    }
    if 0 <= row - 8 * (k / 32) < 8 && 0 <= col - 8 * (k % 32) < 8 {
        lemma_fundamental_div_mod_converse(row, 8, k / 32, row - 8 * (k / 32));
        lemma_fundamental_div_mod_converse(col, 8, k % 32, col - 8 * (k % 32));
    }
}

/// The background, drawn tile after tile, shows at each pixel the pixel of the tile of its
/// map entry, and white where no entry is drawn yet.
pub proof fn lemma_background_pixels(video: VideoView, n: nat)
    requires
        n <= 1024,
    ensures
        background_upto(video, n).len() == 65536,
        forall|i: int| 0 <= i < 65536 ==> #[trigger] background_upto(video, n)[i]
            == if background_entry(i) < n { background_pixel(video, i) } else { Color::White },
    decreases n,
{
    if n > 0 {
        let k = (n - 1) as int;
        lemma_background_pixels(video, (n - 1) as nat);
        assert forall|i: int| 0 <= i < 65536 implies #[trigger] background_upto(video, n)[i]
            == if background_entry(i) < n { background_pixel(video, i) } else { Color::White } by {
            lemma_entry(i, k);
        }
    }
}

/// The whole background shows at each pixel the pixel of the tile of its map entry.
pub proof fn lemma_background(video: VideoView)
    ensures
        forall|i: int| 0 <= i < 65536 ==> #[trigger] background_upto(video, 1024)[i] == background_pixel(video, i),
{
    lemma_background_pixels(video, 1024);
    assert forall|i: int| 0 <= i < 65536 implies #[trigger] background_upto(video, 1024)[i] == background_pixel(video, i) by {
        lemma_entry(i, 0);
    }
}

/// The 160x144 screen with the first `n` sprites of the attribute memory drawn over white,
/// each at its position.
pub open spec fn sprites_upto(video: VideoView, n: nat) -> Seq<Color>
    decreases n,
{
    if n == 0 {
        Seq::new(160 * 144, |i: int| Color::White)
    } else {
        let k = (n - 1) as int;
        let entry = video.vram.oam[k];
        let previous = sprites_upto(video, (n - 1) as nat);
        if sprite_shown(video, entry) {
            tile_drawn(previous, video.vram.tiles[entry.tile_number as int],
                entry.position.0 as int, entry.position.1 as int, 160)
        } else {
            previous
        }
    }
}

/// The 128x192 picture of the tile data, 16 tiles a row, with its first `n` tiles drawn
/// over black.
pub open spec fn tile_data_upto(video: VideoView, n: nat) -> Seq<Color>
    decreases n,
{
    if n == 0 {
        Seq::new(128 * 192, |i: int| Color::Black)
    } else {
        let k = (n - 1) as int;
        tile_drawn(tile_data_upto(video, (n - 1) as nat), video.vram.tiles[k], 8 * (k % 16), 8 * (k / 16), 128)
    }
}

/// A buffer of `n` pixels of one shade.
fn blank(n: usize, color: Color) -> (r: Vec<Color>)
    ensures
        r@ == Seq::new(n as nat, |i: int| color),
{
    let mut r: Vec<Color> = Vec::new();
    let mut i: usize = 0;
    while i < n
        invariant
            i <= n,
            r@ == Seq::new(i as nat, |j: int| color),
        decreases n - i,
    {
        r.push(color);
        i = i + 1;
        assert(r@ =~= Seq::new(i as nat, |j: int| color));
    }
    r
}

/// Drawing the entity of a tile draws the tile.
proof fn lemma_tile_entity(buf: Seq<Color>, e: Entity, tile: Seq<u16>, w: int)
    requires
        w > 0,
        e.width == 8,
        e.height == 8,
        tile.len() == 8,
        forall|row: int, col: int| 0 <= row < 8 && 0 <= col < 8 ==>
            #[trigger] e.data@[row * 8 + col] == spec_color(pixel_value(tile[row], col as u8)),
    ensures
        spec_drawn(buf, e, w) == tile_drawn(buf, tile, e.x as int, e.y as int, w),
{
    assert forall|i: int| 0 <= i < buf.len() implies
        #[trigger] spec_drawn(buf, e, w)[i] == tile_drawn(buf, tile, e.x as int, e.y as int, w)[i] by {
        if covered(e, w, i, 8, 0) {
            let row = i / w - e.y;
            let col = i % w - e.x;
            assert(e.data@[row * 8 + col] == spec_color(pixel_value(tile[row], col as u8)));
            assert(entity_pixel(e, w, i) == e.data@[row * 8 + col]);
        }
    }
    assert(spec_drawn(buf, e, w) =~= tile_drawn(buf, tile, e.x as int, e.y as int, w));
}

impl Screen {
    /// A 160x144 screen.
    pub fn new() -> (r: Self)
        ensures
            r.dimensions == (160u8, 144u8),
    {
        Screen { dimensions: (160, 144) }
    }

    /// The screen: white, with each sprite that is drawn copied at its position, in the
    /// order of the attribute memory. The background is not drawn on it.
    pub fn draw(&self, video: &Video) -> (r: Vec<Color>)
        requires
            self.dimensions == (160u8, 144u8),
            sprites_fit(video@),
        ensures
            r@ == sprites_upto(video@, 40),
    {
        let mut buf = blank(self.dimensions.0 as usize * self.dimensions.1 as usize, Color::White);
        let memory = video.memory();
        let oam_entries = memory.oam().entries();
        let tile_data = memory.tile_data();
        let control = video.control();

        if control.bg_window_enabled() {
            let _background = self.background(video);
        }

        let sprites_enabled = control.obj_enabled();
        let mut id: usize = 0;
        assert(buf@ =~= sprites_upto(video@, 0));
        while id < 40
            invariant
                self.dimensions == (160u8, 144u8),
                sprites_fit(video@),
                oam_entries@ == video@.vram.oam,
                tile_data@.map_values(|t: Tile| t.data@) == video@.vram.tiles,
                sprites_enabled == bit_set(video@.control, 1),
                id <= 40,
                buf@.len() == 160 * 144,
                buf@ == sprites_upto(video@, id as nat),
            decreases 40 - id,
        {
            let entry = oam_entries[id];
            if sprites_enabled && entry.attributes != 0 {
                assert(sprite_shown(video@, video@.vram.oam[id as int]));
                let sprite = Sprite { id: id as u8, tile: tile_data[entry.tile_number as usize], attributes: entry };
                let entity = Entity::from_sprite(&sprite);
                proof {
                    lemma_tile_entity(buf@, entity, sprite.tile.data@, 160);
                }
                self.draw_entity(entity, &mut buf);
            }
            id = id + 1;
        }
        buf
    }

    /// Draws an entity on a buffer of the size of the screen.
    fn draw_entity(&self, entity: Entity, buf: &mut Vec<Color>)
        requires
            entity_fits(entity, (self.dimensions.0 as usize, self.dimensions.1 as usize)),
            old(buf)@.len() == self.dimensions.0 * self.dimensions.1,
        ensures
            final(buf)@ == spec_drawn(old(buf)@, entity, self.dimensions.0 as int),
    {
        draw_entity(entity, (self.dimensions.0 as usize, self.dimensions.1 as usize), buf);
    }

    /// The 256x256 background: each of the 32x32 entries of the selected map drawn as its
    /// tile.
    #[verifier::rlimit(50)]
    #[verifier::spinoff_prover]
    pub fn background(&self, video: &Video) -> (r: Vec<Color>)
        ensures
            r@ == background_upto(video@, 1024),
            r@.len() == 65536,
            forall|i: int| 0 <= i < 65536 ==> #[trigger] r@[i] == background_pixel(video@, i),
    {
        proof {
            lemma_background(video@);
            lemma_background_pixels(video@, 1024);
        }
        let memory = video.memory();
        let tile_data = memory.tile_data();
        let background_tile_map = if video.control().bg_map() == 0 {
            &memory.background_tile_maps().0
        } else {
            &memory.background_tile_maps().1
        };
        let mut background_buf = blank(65536, Color::White);
        let mut index: usize = 0;
        while index < 1024
            invariant
                tile_data@.map_values(|t: Tile| t.data@) == video@.vram.tiles,
                background_tile_map.tiles@ == selected_map(video@),
                index <= 1024,
                background_buf@.len() == 65536,
                background_buf@ == background_upto(video@, index as nat),
            decreases 1024 - index,
        {
            let tile_index = background_tile_map.tiles[index];
            let tile = &tile_data[tile_index as usize];
            let relative_y = (index - index % 32) / 32;
            let relative_x = index - relative_y * 32;
            let entity = Entity::from_tile(tile, (8 * relative_x) as u8, (8 * relative_y) as u8);
            proof {
                lemma_tile_entity(background_buf@, entity, tile.data@, 256);
            }
            draw_entity(entity, (256, 256), &mut background_buf);
            index = index + 1;
        }
        background_buf
    }
}

/// The tile data as a 128x192 picture: the 384 tiles in rows of 16, over black.
#[verifier::rlimit(50)]
#[verifier::spinoff_prover]
pub fn tile_data(video: &Video) -> (r: Vec<Color>)
    ensures
        r@ == tile_data_upto(video@, 384),
{
    let tile_data = video.memory().tile_data();
    let mut buf = blank(128 * 192, Color::Black);
    let mut idx: usize = 0;
    while idx < 384
        invariant
            tile_data@.map_values(|t: Tile| t.data@) == video@.vram.tiles,
            tile_data@.len() == 384,
            idx <= 384,
            buf@.len() == 128 * 192,
            buf@ == tile_data_upto(video@, idx as nat),
        decreases 384 - idx,
    {
        let y = idx / 16;
        let x = idx - y * 16;
        let tile = &tile_data[idx];
        let entity = Entity::from_tile(tile, (x * 8) as u8, (y * 8) as u8);
        proof {
            lemma_tile_entity(buf@, entity, tile.data@, 128);
        }
        draw_entity(entity, (128, 192), &mut buf);
        idx = idx + 1;
    }
    buf
}

impl Entity {
    /// The entity of a sprite: its tile at its position.
    pub fn from_sprite(sprite: &Sprite) -> (r: Self)
        ensures
            r.width == 8 && r.height == 8,
            r.x == sprite.attributes.position.0 && r.y == sprite.attributes.position.1,
            forall|row: int, col: int| 0 <= row < 8 && 0 <= col < 8 ==>
                #[trigger] r.data@[row * 8 + col] == spec_color(pixel_value(sprite.tile.data@[row], col as u8)),
    {
        Self::from_tile(&sprite.tile, sprite.x(), sprite.y())
    }

    /// The entity of a tile at (`x`, `y`).
    pub fn from_tile(tile: &Tile, x: u8, y: u8) -> (r: Self)
        ensures
            r.width == 8 && r.height == 8 && r.x == x && r.y == y,
            forall|row: int, col: int| 0 <= row < 8 && 0 <= col < 8 ==>
                #[trigger] r.data@[row * 8 + col] == spec_color(pixel_value(tile.data@[row], col as u8)),
    {
        Entity { width: 8, height: 8, x, y, data: tile.colored() }
    }
}

impl Sprite {
    pub fn x(&self) -> (r: u8)
        ensures
            r == self.attributes.position.0,
    {
        self.attributes.position.0
    }

    pub fn y(&self) -> (r: u8)
        ensures
            r == self.attributes.position.1,
    {
        self.attributes.position.1
    }
}

} // verus!
