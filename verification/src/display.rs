//! The 64x32 framebuffer, and what drawing a sprite onto it means.

use vstd::prelude::*;

verus! {

/// The width of the screen in pixels.
pub const CHIP8_WIDTH: u32 = 64;

/// The height of the screen in pixels.
pub const CHIP8_HEIGHT: u32 = 32;

/// The side of the square of window pixels that shows one screen pixel.
pub const SCALE: u32 = 10;

/// The number of cells of the framebuffer.
pub const CHIP8_PIXELS: usize = 2048;

/// The framebuffer, one byte per pixel and row by row, and the flag that
/// asks for a redraw.
#[derive(Clone, Copy, Debug, PartialEq, Eq)]
pub struct World {
    pub px: [u8; 2048],
    pub display_redraw: u8,
}

/// Bit `col` of a sprite row, counted from the left: 0 or 1.
pub open spec fn row_bit(row: u8, col: int) -> u8 {
    (row >> ((7 - col) as u8)) & 1u8
}

/// The framebuffer cell on which the sprite's pixel (`row`, `col`) lands
/// when the sprite is drawn at (`x0`, `y0`): both coordinates wrap.
pub open spec fn target_cell(x0: u8, y0: u8, row: int, col: int) -> int {
    ((y0 + row) % 32) * 64 + (x0 + col) % 64
}

/// The sprite column that lands on cell `idx` if the sprite is wide enough.
pub open spec fn sprite_col(x0: u8, idx: int) -> int {
    (idx % 64 + 64 - x0 % 64) % 64
}

/// The sprite row that lands on cell `idx` if the sprite is tall enough.
pub open spec fn sprite_row(y0: u8, idx: int) -> int {
    (idx / 64 + 32 - y0 % 32) % 32
}

/// The sprite bit that is XORed onto cell `idx` once the pixels up to
/// (`rows`, `cols`) have been drawn: all of the rows before `rows`, and the
/// first `cols` pixels of row `rows`. Cells that no such pixel reaches get 0.
pub open spec fn partial_bit(sprite: Seq<u8>, x0: u8, y0: u8, rows: int, cols: int, idx: int) -> u8 {
    let r = sprite_row(y0, idx);
    let c = sprite_col(x0, idx);
    if c < 8 && r < sprite.len() && (r < rows || (r == rows && c < cols)) {
        row_bit(sprite[r], c)
    } else {
        0u8
    }
}

/// The sprite bit that is XORed onto cell `idx` by a whole draw.
pub open spec fn sprite_bit_at(sprite: Seq<u8>, x0: u8, y0: u8, idx: int) -> u8 {
    partial_bit(sprite, x0, y0, sprite.len() as int, 0, idx)
}

/// The framebuffer after `sprite` was drawn at (`x0`, `y0`).
pub open spec fn drawn(px: Seq<u8>, sprite: Seq<u8>, x0: u8, y0: u8) -> Seq<u8> {
    Seq::new(px.len(), |idx: int| px[idx] ^ sprite_bit_at(sprite, x0, y0, idx))
}

/// A lit cell of `px` gets a set sprite bit among the pixels up to
/// (`rows`, `cols`).
pub open spec fn partial_hit(
    px: Seq<u8>,
    sprite: Seq<u8>,
    x0: u8,
    y0: u8,
    rows: int,
    cols: int,
    idx: int,
) -> bool {
    0 <= idx < px.len() && px[idx] == 1 && partial_bit(sprite, x0, y0, rows, cols, idx) == 1
}

/// Drawing `sprite` at (`x0`, `y0`) turns some lit pixel of `px` off.
pub open spec fn collides(px: Seq<u8>, sprite: Seq<u8>, x0: u8, y0: u8) -> bool {
    exists|idx: int| #[trigger] partial_hit(px, sprite, x0, y0, sprite.len() as int, 0, idx)
}

/// A sprite pixel lands on one cell of the screen, and on that cell no
/// other pixel of the same sprite lands: from the cell, `sprite_row` and
/// `sprite_col` give the pixel back.
pub proof fn lemma_target_cell(x0: u8, y0: u8, row: int, col: int)
    requires
        0 <= row < 32,
        0 <= col < 64,
    ensures
        0 <= target_cell(x0, y0, row, col) < 2048,
        sprite_row(y0, target_cell(x0, y0, row, col)) == row,
        sprite_col(x0, target_cell(x0, y0, row, col)) == col,
        forall|idx: int|
            0 <= idx < 2048 && #[trigger] sprite_row(y0, idx) == row && sprite_col(x0, idx) == col
                ==> idx == target_cell(x0, y0, row, col),
{
}

/// Drawing one more pixel of a sprite changes the bit that is XORed onto
/// the cell it lands on, from 0 to the pixel's bit, and no other.
pub proof fn lemma_draw_step(sprite: Seq<u8>, x0: u8, y0: u8, row: int, col: int, idx: int)
    requires
        0 <= row < sprite.len() <= 32,
        0 <= col < 8,
        0 <= idx < 2048,
    ensures
        idx == target_cell(x0, y0, row, col) ==> partial_bit(sprite, x0, y0, row, col, idx) == 0
            && partial_bit(sprite, x0, y0, row, col + 1, idx) == row_bit(sprite[row], col),
        idx != target_cell(x0, y0, row, col) ==> partial_bit(sprite, x0, y0, row, col + 1, idx)
            == partial_bit(sprite, x0, y0, row, col, idx),
{
    lemma_target_cell(x0, y0, row, col);
}

/// The RGBA bytes that show `px`: black for a cell that is 0, white for any
/// other, both opaque. Bytes of `frame` past the screen's 8192 stay.
pub open spec fn painted(px: Seq<u8>, frame: Seq<u8>) -> Seq<u8> {
    Seq::new(
        frame.len(),
        |j: int|
            if j < 8192 {
                if j % 4 == 3 || px[j / 4] != 0 {
                    0xffu8
                } else {
                    0x00u8
                }
            } else {
                frame[j]
            },
    )
}

/// A cleared screen with no redraw pending.
pub fn get_world() -> (world: World)
    ensures
        world.px@ == Seq::new(2048, |k: int| 0u8),
        world.display_redraw == 0,
{
    World::new()
}

impl World {
    /// A cleared screen with no redraw pending.
    pub fn new() -> (world: World)
        ensures
            world.px@ == Seq::new(2048, |k: int| 0u8),
            world.display_redraw == 0,
    {
        let world = World { px: [0u8;2048], display_redraw: 0 };
        assert(world.px@ =~= Seq::new(2048, |k: int| 0u8));
        world
    }

    /// Paints the framebuffer into `frame`, four bytes (RGBA) per pixel,
    /// and takes the redraw flag down.
    pub fn draw(&mut self, frame: &mut [u8])
        requires
            old(frame)@.len() >= 8192,
        ensures
            final(frame)@ == painted(old(self).px@, old(frame)@),
            final(self).px@ == old(self).px@,
            final(self).display_redraw == 0,
    {
        let mut i: usize = 0;
        while i < 2048
            invariant
                i <= 2048,
                frame@.len() == old(frame)@.len(),
                frame@.len() >= 8192,
                self.px@ == old(self).px@,
                forall|j: int|
                    0 <= j < frame@.len() ==> frame@[j] == (if j < 4 * i {
                        painted(self.px@, old(frame)@)[j]
                    } else {
                        old(frame)@[j]
                    }),
            decreases 2048 - i,
        {
            let shade: u8 = if self.px[i] == 0 { 0x00 } else { 0xff };
            let offset: usize = i * 4;
            frame[offset] = shade;
            frame[offset + 1] = shade;
            frame[offset + 2] = shade;
            frame[offset + 3] = 0xff;
            i += 1;
        }
        self.display_redraw = 0;
        assert(frame@ =~= painted(old(self).px@, old(frame)@));
    }
}

} // verus!
