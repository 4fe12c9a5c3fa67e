//! The sprite that the draw instruction puts on the framebuffer.
//!
//! A sprite is up to fifteen rows of eight pixels, one byte per row with the
//! leftmost pixel in the highest bit. It is placed with its top left corner
//! at `(Vx mod 64, Vy mod 32)`. What would fall right of the last column or
//! below the last row is cut off, not wrapped round.

use vstd::prelude::*;
use crate::machine::{Machine, PIXEL_ON, VIDEO_HEIGHT, VIDEO_SIZE, VIDEO_WIDTH};
use crate::opcode::{n_of, x_of, y_of};

verus! {

/// Whether pixel `col` of a sprite row is set, counting from the left.
pub open spec fn sprite_bit(row_byte: u8, col: int) -> bool {
    row_byte & (0x80u8 >> (col as u8)) != 0
}

/// The column of the sprite's left edge.
pub open spec fn draw_left(m: Machine, opcode: u16) -> int {
    m.registers[x_of(opcode)] as int % (VIDEO_WIDTH as int)
}

/// The row of the sprite's top edge.
pub open spec fn draw_top(m: Machine, opcode: u16) -> int {
    m.registers[y_of(opcode)] as int % (VIDEO_HEIGHT as int)
}

/// Whether the sprite has a set pixel over `cell`, looking only at the
/// sprite pixels that come before pixel `col` of row `row` in reading order.
pub open spec fn sprite_covers_before(m: Machine, opcode: u16, cell: int, row: int, col: int) -> bool {
    let r = cell / (VIDEO_WIDTH as int) - draw_top(m, opcode);
    let c = cell % (VIDEO_WIDTH as int) - draw_left(m, opcode);
    &&& 0 <= r < n_of(opcode)
    &&& 0 <= c < 8
    &&& r < row || (r == row && c < col)
    &&& sprite_bit(m.memory[m.index + r], c)
}

/// Whether the sprite has a set pixel over `cell`.
pub open spec fn sprite_covers(m: Machine, opcode: u16, cell: int) -> bool {
    sprite_covers_before(m, opcode, cell, n_of(opcode), 0)
}

/// The framebuffer after the draw: each cell under a set sprite pixel is
/// flipped and every other cell stays.
pub open spec fn draw_video(m: Machine, opcode: u16) -> Seq<u32> {
    Seq::new(
        VIDEO_SIZE as nat,
        |cell: int|
            if sprite_covers(m, opcode, cell) {
                m.video[cell] ^ PIXEL_ON
            } else {
                m.video[cell]
            },
    )
}

/// Whether `cell` is lit and under a set sprite pixel that comes before
/// pixel `col` of row `row`.
pub open spec fn collides_at(m: Machine, opcode: u16, cell: int, row: int, col: int) -> bool {
    &&& 0 <= cell < VIDEO_SIZE
    &&& sprite_covers_before(m, opcode, cell, row, col)
    &&& m.video[cell] == PIXEL_ON
}

/// Whether some lit cell lies under a set sprite pixel that comes before
/// pixel `col` of row `row`.
pub open spec fn collides_before(m: Machine, opcode: u16, row: int, col: int) -> bool {
    exists|cell: int| collides_at(m, opcode, cell, row, col)
}

/// Whether the draw turns some lit cell dark.
pub open spec fn draw_collides(m: Machine, opcode: u16) -> bool {
    collides_before(m, opcode, n_of(opcode), 0)
}

/// The cell under pixel `col` of sprite row `row`, if that pixel is on the
/// grid.
pub open spec fn target_cell(m: Machine, opcode: u16, row: int, col: int) -> int {
    (draw_top(m, opcode) + row) * (VIDEO_WIDTH as int) + draw_left(m, opcode) + col
}

/// Whether pixel `col` of sprite row `row` is set and lands on the grid.
pub open spec fn pixel_drawn(m: Machine, opcode: u16, row: int, col: int) -> bool {
    &&& sprite_bit(m.memory[m.index + row], col)
    &&& draw_left(m, opcode) + col < VIDEO_WIDTH
    &&& draw_top(m, opcode) + row < VIDEO_HEIGHT
}

/// Before the first pixel nothing is covered and nothing collides.
pub proof fn lemma_draw_start(m: Machine, opcode: u16)
    ensures
        forall|cell: int| !sprite_covers_before(m, opcode, cell, 0, 0),
        !collides_before(m, opcode, 0, 0),
{
}

/// Taking one more sprite pixel into account adds at most its own cell to
/// the covered cells, and adds it exactly when the pixel is drawn.
pub proof fn lemma_draw_pixel(m: Machine, opcode: u16, row: int, col: int, next: int)
    requires
        0 <= row < n_of(opcode),
        0 <= col < 8,
        next == col + 1,
    ensures
        0 <= draw_left(m, opcode) < VIDEO_WIDTH,
        0 <= draw_top(m, opcode) < VIDEO_HEIGHT,
        pixel_drawn(m, opcode, row, col) ==> 0 <= target_cell(m, opcode, row, col) < VIDEO_SIZE,
        !sprite_covers_before(m, opcode, target_cell(m, opcode, row, col), row, col),
        forall|cell: int|
            0 <= cell < VIDEO_SIZE ==> (#[trigger] sprite_covers_before(m, opcode, cell, row, next)
                <==> sprite_covers_before(m, opcode, cell, row, col) || (pixel_drawn(
                m,
                opcode,
                row,
                col,
            ) && cell == target_cell(m, opcode, row, col))),
        collides_before(m, opcode, row, next) <==> collides_before(m, opcode, row, col) || (
        pixel_drawn(m, opcode, row, col) && m.video[target_cell(m, opcode, row, col)]
            == PIXEL_ON),
{
    let target = target_cell(m, opcode, row, col);
    let left = draw_left(m, opcode);
    let top = draw_top(m, opcode);
    assert forall|cell: int| 0 <= cell < VIDEO_SIZE implies (#[trigger] sprite_covers_before(
        m,
        opcode,
        cell,
        row,
        next,
    ) <==> sprite_covers_before(m, opcode, cell, row, col) || (pixel_drawn(m, opcode, row, col)
        && cell == target)) by {
        let r = cell / (VIDEO_WIDTH as int) - top;
        let c = cell % (VIDEO_WIDTH as int) - left;
        if r == row && c == col {
            assert(cell == target);
        }
    }
    if collides_before(m, opcode, row, next) {
        let cell = choose|cell: int| collides_at(m, opcode, cell, row, next);
        if sprite_covers_before(m, opcode, cell, row, col) {
            assert(collides_at(m, opcode, cell, row, col));
        }
    }
    if collides_before(m, opcode, row, col) {
        let cell = choose|cell: int| collides_at(m, opcode, cell, row, col);
        assert(collides_at(m, opcode, cell, row, next));
    }
    if pixel_drawn(m, opcode, row, col) && m.video[target] == PIXEL_ON {
        assert(collides_at(m, opcode, target, row, next));
    }
}

/// Past the last pixel of a row is the same as before the first pixel of
/// the next row.
pub proof fn lemma_draw_next_row(m: Machine, opcode: u16, row: int, next: int)
    requires
        next == row + 1,
    ensures
        forall|cell: int| #[trigger]
            sprite_covers_before(m, opcode, cell, row, 8) <==> sprite_covers_before(
                m,
                opcode,
                cell,
                next,
                0,
            ),
        collides_before(m, opcode, row, 8) <==> collides_before(m, opcode, next, 0),
{
    if collides_before(m, opcode, row, 8) {
        let cell = choose|cell: int| collides_at(m, opcode, cell, row, 8);
        assert(collides_at(m, opcode, cell, next, 0));
    }
    if collides_before(m, opcode, next, 0) {
        let cell = choose|cell: int| collides_at(m, opcode, cell, next, 0);
        assert(collides_at(m, opcode, cell, row, 8));
    }
}

} // verus!
