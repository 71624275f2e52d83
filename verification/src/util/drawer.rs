use vstd::prelude::*;
use vstd::arithmetic::div_mod::{lemma_fundamental_div_mod, lemma_fundamental_div_mod_converse};
use vstd::arithmetic::mul::lemma_mul_is_commutative;
use crate::video::color::Color;

verus! {

/// A rectangle of pixels to draw at (`x`, `y`), row by row in `data`.
#[derive(Debug, Copy, Clone)]
pub struct Entity {
    pub width: u8,
    pub height: u8,
    pub x: u8,
    pub y: u8,
    pub data: [Color; 64],
}

/// Whether pixel `i` of a buffer `w` pixels wide falls in the entity, within its first
/// `rows` rows and the first `cols` pixels of the row after them.
pub open spec fn covered(e: Entity, w: int, i: int, rows: int, cols: int) -> bool {
    let row = i / w - e.y;
    let col = i % w - e.x;
    0 <= row && 0 <= col < e.width && (row < rows || (row == rows && col < cols))
}

/// The pixel of the entity that pixel `i` of the buffer shows.
pub open spec fn entity_pixel(e: Entity, w: int, i: int) -> Color {
    e.data@[(i / w - e.y) * e.width + (i % w - e.x)]
}

/// The buffer, `w` pixels wide, with the first `rows` rows (and `cols` pixels) of the
/// entity drawn over it.
pub open spec fn drawn_upto(buf: Seq<Color>, e: Entity, w: int, rows: int, cols: int) -> Seq<Color> {
    Seq::new(buf.len(), |i: int| if covered(e, w, i, rows, cols) { entity_pixel(e, w, i) } else { buf[i] })
}

/// The buffer, `w` pixels wide, with the entity drawn over it.
pub open spec fn spec_drawn(buf: Seq<Color>, e: Entity, w: int) -> Seq<Color> {
    drawn_upto(buf, e, w, e.height as int, 0)
}

/// The entity has at most 64 pixels and lies inside a buffer of the given dimensions,
/// whose pixels can be counted in 16 bits. An entity with no pixels fits anywhere inside.
pub open spec fn entity_fits(e: Entity, dimensions: (usize, usize)) -> bool {
    &&& e.width * e.height <= 64
    &&& e.x + e.width <= dimensions.0
    &&& e.y + e.height <= dimensions.1
    &&& e.y + e.height <= 256
    &&& dimensions.0 * dimensions.1 <= 65536
}

/// Copies the pixels of an entity into a buffer that holds at least `dimensions.0` by
/// `dimensions.1` pixels, row by row; pixels past those are left as they are.
pub fn draw_entity(entity: Entity, dimensions: (usize, usize), buf: &mut Vec<Color>)
    requires
        entity_fits(entity, dimensions),
        old(buf)@.len() >= dimensions.0 * dimensions.1,
    ensures
        final(buf)@ == spec_drawn(old(buf)@, entity, dimensions.0 as int),
{
    let ghost w = dimensions.0 as int;
    let ghost buf0 = buf@;
    let mut entity_y: u8 = 0;
    assert(buf@ =~= drawn_upto(buf0, entity, w, 0, 0));
    while entity_y < entity.height
        invariant
            entity_fits(entity, dimensions),
            w == dimensions.0,
            buf0.len() >= dimensions.0 * dimensions.1,
            entity_y <= entity.height,
            buf@ == drawn_upto(buf0, entity, w, entity_y as int, 0),
        decreases entity.height - entity_y,
    {
        let y: u8 = entity_y + entity.y;
        assert((y as int) * w < 65536) by (nonlinear_arith)
            requires
                y < dimensions.1,
                w == dimensions.0,
                dimensions.0 * dimensions.1 <= 65536,
        ;
        assert(y == 0 || w < 65536) by (nonlinear_arith)
            requires
                y < dimensions.1,
                w == dimensions.0,
                dimensions.0 * dimensions.1 <= 65536,
        ;
        assert(entity_y * entity.width <= 64) by (nonlinear_arith)
            requires
                entity_y < entity.height,
                entity.width * entity.height <= 64,
        ;
        let row_width: u16 = dimensions.0 as u16;
        assert(y == 0 || row_width == w);
        assert(y * row_width == y * w) by (nonlinear_arith)
            requires
                y == 0 || row_width == w,
        ;
        let base_idx: u16 = y as u16 * row_width;
        let entity_base_idx: u8 = entity_y * entity.width;
        let mut x: u8 = 0;
        while x < entity.width
            invariant
                entity_fits(entity, dimensions),
                w == dimensions.0,
                buf0.len() >= dimensions.0 * dimensions.1,
                entity_y < entity.height,
                y == entity_y + entity.y,
                base_idx == y * w,
                entity_base_idx == entity_y * entity.width,
                x <= entity.width,
                buf@ == drawn_upto(buf0, entity, w, entity_y as int, x as int),
            decreases entity.width - x,
        {
            assert(base_idx + entity.x + x < dimensions.0 * dimensions.1) by (nonlinear_arith)
                requires
                    base_idx == y * w,
                    y < dimensions.1,
                    entity.x + x < w,
                    w == dimensions.0,
            ;
            assert(entity_base_idx + x < 64) by (nonlinear_arith)
                requires
                    entity_base_idx == entity_y * entity.width,
                    entity_y < entity.height,
                    x < entity.width,
                    entity.width * entity.height <= 64,
            ;
            let buf_idx: u16 = base_idx + entity.x as u16 + x as u16;
            let entity_idx: u8 = entity_base_idx + x;
            let ghost prev = buf@;
            buf.set(buf_idx as usize, entity.data[entity_idx as usize]);
            proof {
                let row = y as int;
                let col = entity.x + x;
                lemma_fundamental_div_mod_converse(buf_idx as int, w, row, col);
                assert forall|i: int| 0 <= i < buf0.len() implies
                    #[trigger] buf@[i] == drawn_upto(buf0, entity, w, entity_y as int, x + 1)[i] by {
                    if i != buf_idx {
                        lemma_fundamental_div_mod(i, w);
                        lemma_mul_is_commutative(w, i / w);
                        assert(prev[i] == drawn_upto(buf0, entity, w, entity_y as int, x as int)[i]);
                    }
                }
                assert(buf@ =~= drawn_upto(buf0, entity, w, entity_y as int, x + 1));
            }
            x = x + 1;
        }
        assert(buf@ =~= drawn_upto(buf0, entity, w, entity_y + 1, 0));
        entity_y = entity_y + 1;
    }
}

} // verus!
