//! What holds of the instruction set and of drawing, beyond the contract of
//! any one function.

use vstd::prelude::*;
use crate::cpu::CpuState;
use crate::decode::{op_class, op_nnn};
use crate::display::{
    collides, drawn, lemma_target_cell, partial_hit, row_bit, sprite_bit_at, sprite_col,
    sprite_row, target_cell,
};
use crate::emu8::{fault, next, recognized, MachineState};
use crate::isa;

verus! {

/// Some dark cell of `px` gets a set bit of the sprite: drawing the sprite
/// lights at least one pixel.
pub open spec fn lights(px: Seq<u8>, sprite: Seq<u8>, x0: u8, y0: u8) -> bool {
    exists|idx: int| #[trigger]
        lights_at(px, sprite, x0, y0, idx)
}

/// Cell `idx` of `px` is dark and gets a set bit of the sprite.
pub open spec fn lights_at(px: Seq<u8>, sprite: Seq<u8>, x0: u8, y0: u8, idx: int) -> bool {
    0 <= idx < px.len() && px[idx] == 0 && sprite_bit_at(sprite, x0, y0, idx) == 1
}

/// The sprite's pixel (`row`, `col`) is set and lands on a lit cell of `px`.
pub open spec fn pixel_hits(px: Seq<u8>, sprite: Seq<u8>, x0: u8, y0: u8, row: int, col: int) -> bool {
    0 <= row < sprite.len() && 0 <= col < 8 && row_bit(sprite[row], col) == 1 && px[target_cell(
        x0,
        y0,
        row,
        col,
    )] == 1
}

/// A draw XORs each pixel of the sprite onto the cell that it lands on,
/// with both coordinates wrapped.
pub proof fn law_drawn_at_target(px: Seq<u8>, sprite: Seq<u8>, x0: u8, y0: u8, row: int, col: int)
    requires
        px.len() == 2048,
        sprite.len() <= 32,
        0 <= row < sprite.len(),
        0 <= col < 8,
    ensures
        0 <= target_cell(x0, y0, row, col) < 2048,
        drawn(px, sprite, x0, y0)[target_cell(x0, y0, row, col)] == px[target_cell(
            x0,
            y0,
            row,
            col,
        )] ^ row_bit(sprite[row], col),
{
    lemma_target_cell(x0, y0, row, col);
}

/// A draw leaves a cell as it was if none of the sprite's pixels lands on it.
pub proof fn law_drawn_elsewhere(px: Seq<u8>, sprite: Seq<u8>, x0: u8, y0: u8, idx: int)
    requires
        px.len() == 2048,
        sprite.len() <= 32,
        0 <= idx < 2048,
        forall|row: int, col: int|
            0 <= row < sprite.len() && 0 <= col < 8 ==> idx != #[trigger] target_cell(
                x0,
                y0,
                row,
                col,
            ),
    ensures
        drawn(px, sprite, x0, y0)[idx] == px[idx],
{
    let row = sprite_row(y0, idx);
    let col = sprite_col(x0, idx);
    if col < 8 && row < sprite.len() {
        lemma_target_cell(x0, y0, row, col);
        assert(idx == target_cell(x0, y0, row, col));
    }
    let c = px[idx];
    assert(c ^ 0u8 == c) by (bit_vector);
}

/// A draw collides exactly if one of the sprite's set pixels lands on a
/// lit cell.
pub proof fn law_collides_iff_pixel_hits(px: Seq<u8>, sprite: Seq<u8>, x0: u8, y0: u8)
    requires
        px.len() == 2048,
        sprite.len() <= 32,
    ensures
        collides(px, sprite, x0, y0) <==> exists|row: int, col: int| #[trigger]
            pixel_hits(px, sprite, x0, y0, row, col),
{
    if collides(px, sprite, x0, y0) {
        let idx = choose|idx: int| #[trigger]
            partial_hit(px, sprite, x0, y0, sprite.len() as int, 0, idx);
        let row = sprite_row(y0, idx);
        let col = sprite_col(x0, idx);
        lemma_target_cell(x0, y0, row, col);
        assert(idx == target_cell(x0, y0, row, col));
        assert(pixel_hits(px, sprite, x0, y0, row, col));
    }
    if exists|row: int, col: int| #[trigger] pixel_hits(px, sprite, x0, y0, row, col) {
        let (row, col) = choose|row: int, col: int| #[trigger]
            pixel_hits(px, sprite, x0, y0, row, col);
        lemma_target_cell(x0, y0, row, col);
        assert(partial_hit(
            px,
            sprite,
            x0,
            y0,
            sprite.len() as int,
            0,
            target_cell(x0, y0, row, col),
        ));
    }
}

/// A call followed by a return brings the processor back to the
/// instruction after the call: the program counter is two bytes past the
/// call, and the stack and everything else are as before the call.
pub proof fn law_call_then_ret(s: CpuState, call_op: u16)
    ensures
        isa::call(s, call_op).stack.len() > 0,
        isa::ret(isa::call(s, call_op)) == s.advance(2),
{
    assert(s.stack.push(s.pc).drop_last() =~= s.stack);
}

/// The same for the machine as a whole: executing any `2NNN` and then
/// `00EE` meets no fault and leaves the machine as it was, but for the
/// program counter, which is two bytes past the call.
pub proof fn law_call_then_ret_machine(m: MachineState, call_op: u16, rnd: u8)
    requires
        op_class(call_op) == 2,
    ensures
        fault(m, call_op).is_none(),
        recognized(call_op) && recognized(0x00EE),
        fault(next(m, call_op, rnd), 0x00EE).is_none(),
        next(next(m, call_op, rnd), 0x00EE, rnd) == (MachineState { cpu: m.cpu.advance(2), ..m }),
{
    law_call_then_ret(m.cpu, call_op);
}

/// Drawing a sprite a second time at the same place brings back the
/// framebuffer as it was before the first draw.
pub proof fn law_draw_twice_restores(px: Seq<u8>, sprite: Seq<u8>, x0: u8, y0: u8)
    ensures
        drawn(drawn(px, sprite, x0, y0), sprite, x0, y0) == px,
{
    assert forall|c: u8, b: u8| #[trigger] ((c ^ b) ^ b) == c by {
        assert((c ^ b) ^ b == c) by (bit_vector);
    }
    assert(drawn(drawn(px, sprite, x0, y0), sprite, x0, y0) =~= px);
}

/// If the first draw lights at least one pixel, the second draw of the
/// same sprite at the same place turns a lit pixel off, so that it raises
/// the collision flag.
pub proof fn law_second_draw_collides(px: Seq<u8>, sprite: Seq<u8>, x0: u8, y0: u8)
    requires
        lights(px, sprite, x0, y0),
    ensures
        collides(drawn(px, sprite, x0, y0), sprite, x0, y0),
{
    let idx = choose|idx: int| #[trigger] lights_at(px, sprite, x0, y0, idx);
    assert(0u8 ^ 1u8 == 1u8) by (bit_vector);
    assert(drawn(px, sprite, x0, y0)[idx] == 1);
    assert(partial_hit(drawn(px, sprite, x0, y0), sprite, x0, y0, sprite.len() as int, 0, idx));
}

/// An instruction that jumps to its own address leaves the machine exactly
/// as it was, without a fault: such a program runs for ever.
pub proof fn law_jump_to_self(m: MachineState, opcode: u16, rnd: u8)
    requires
        op_class(opcode) == 1,
        op_nnn(opcode) == m.cpu.pc,
    ensures
        fault(m, opcode).is_none(),
        recognized(opcode),
        next(m, opcode, rnd) == m,
{
}

} // verus!
