//! The instruction set as functions on the model of the processor: what
//! each instruction does to registers, program counter, stack and memory.

use vstd::prelude::*;
use crate::cpu::{pc_after, CpuState};
use crate::decode::{op_n, op_nn, op_nnn, op_x, op_y};
use crate::display::{collides, drawn};
use crate::keyslog::{first_pressed, is_pressed};
use crate::memory::with_bytes;

verus! {

/// `1NNN`, JP: the program counter becomes `NNN`.
pub open spec fn jp(s: CpuState, opcode: u16) -> CpuState {
    s.jump(op_nnn(opcode))
}

/// `00EE`, RET: the newest return address leaves the stack, and the program
/// counter becomes the address after it. The stack is not empty.
pub open spec fn ret(s: CpuState) -> CpuState {
    CpuState { stack: s.stack.drop_last(), pc: pc_after(s.stack.last(), 2), ..s }
}

/// `2NNN`, CALL: the program counter goes onto the stack and becomes `NNN`.
pub open spec fn call(s: CpuState, opcode: u16) -> CpuState {
    CpuState { stack: s.stack.push(s.pc), pc: op_nnn(opcode), ..s }
}

/// `BNNN`, JP V0: the program counter becomes `NNN + V0`.
pub open spec fn jp_v0(s: CpuState, opcode: u16) -> CpuState {
    s.jump((op_nnn(opcode) + s.v[0]) as u16)
}

/// `3XNN`, SE: skips the next instruction if `Vx == NN`.
pub open spec fn se_byte(s: CpuState, opcode: u16) -> CpuState {
    s.skip_if(s.v[op_x(opcode) as int] == op_nn(opcode))
}

/// `4XNN`, SNE: skips the next instruction if `Vx != NN`.
pub open spec fn sne_byte(s: CpuState, opcode: u16) -> CpuState {
    s.skip_if(s.v[op_x(opcode) as int] != op_nn(opcode))
}

/// `5XY0`, SE: skips the next instruction if `Vx == Vy`.
pub open spec fn se_reg(s: CpuState, opcode: u16) -> CpuState {
    s.skip_if(s.v[op_x(opcode) as int] == s.v[op_y(opcode) as int])
}

/// `9XY0`, SNE: skips the next instruction if `Vx != Vy`.
pub open spec fn sne_reg(s: CpuState, opcode: u16) -> CpuState {
    s.skip_if(s.v[op_x(opcode) as int] != s.v[op_y(opcode) as int])
}

/// `EX9E`, SKP: skips the next instruction if key `Vx` is held down.
pub open spec fn skp(s: CpuState, opcode: u16, keys: Map<u8, u8>) -> CpuState {
    s.skip_if(is_pressed(keys, s.v[op_x(opcode) as int]))
}

/// `EXA1`, SKNP: skips the next instruction if key `Vx` is not held down.
pub open spec fn sknp(s: CpuState, opcode: u16, keys: Map<u8, u8>) -> CpuState {
    s.skip_if(!is_pressed(keys, s.v[op_x(opcode) as int]))
}

/// `6XNN`, LD: `Vx = NN`.
pub open spec fn ld_byte(s: CpuState, opcode: u16) -> CpuState {
    s.set_reg(op_x(opcode) as int, op_nn(opcode)).advance(2)
}

/// `7XNN`, ADD: `Vx = Vx + NN` modulo 256; no flag is touched.
pub open spec fn add_byte(s: CpuState, opcode: u16) -> CpuState {
    let x = op_x(opcode) as int;
    s.set_reg(x, ((s.v[x] + op_nn(opcode)) % 256) as u8).advance(2)
}

/// `8XY0`, LD: `Vx = Vy`.
pub open spec fn ld_reg(s: CpuState, opcode: u16) -> CpuState {
    s.set_reg(op_x(opcode) as int, s.v[op_y(opcode) as int]).advance(2)
}

/// `8XY1`, OR: `Vx = Vx | Vy`.
pub open spec fn or(s: CpuState, opcode: u16) -> CpuState {
    let x = op_x(opcode) as int;
    s.set_reg(x, s.v[x] | s.v[op_y(opcode) as int]).advance(2)
}

/// `8XY2`, AND: `Vx = Vx & Vy`.
pub open spec fn and(s: CpuState, opcode: u16) -> CpuState {
    let x = op_x(opcode) as int;
    s.set_reg(x, s.v[x] & s.v[op_y(opcode) as int]).advance(2)
}

/// `8XY3`, XOR: `Vx = Vx ^ Vy`.
pub open spec fn xor(s: CpuState, opcode: u16) -> CpuState {
    let x = op_x(opcode) as int;
    s.set_reg(x, s.v[x] ^ s.v[op_y(opcode) as int]).advance(2)
}

/// `8XY4`, ADD: `Vx` gets the low eight bits of `Vx + Vy`, then `VF` gets 1
/// if the sum is above 255 and 0 if not. With `X = F` the flag is what stays.
pub open spec fn add_reg(s: CpuState, opcode: u16) -> CpuState {
    let x = op_x(opcode) as int;
    let sum = s.v[x] + s.v[op_y(opcode) as int];
    s.set_reg(x, (sum % 256) as u8).set_reg(0xF, if sum > 255 { 1u8 } else { 0u8 }).advance(2)
}

/// `8XY5`, SUB: `Vx` gets `Vx - Vy` modulo 256, then `VF` gets 1 if nothing
/// was borrowed (`Vx >= Vy`) and 0 if not. With `X = F` the flag is what stays.
pub open spec fn sub_reg(s: CpuState, opcode: u16) -> CpuState {
    let x = op_x(opcode) as int;
    let y = op_y(opcode) as int;
    s.set_reg(x, ((s.v[x] - s.v[y]) % 256) as u8).set_reg(
        0xF,
        if s.v[x] >= s.v[y] { 1u8 } else { 0u8 },
    ).advance(2)
}

/// `8XY7`, SUBN: `Vx` gets `Vy - Vx` modulo 256, then `VF` gets 1 if `Vy`
/// was greater than `Vx` and 0 if not. With `X = F` the flag is what stays.
pub open spec fn subn_reg(s: CpuState, opcode: u16) -> CpuState {
    let x = op_x(opcode) as int;
    let y = op_y(opcode) as int;
    s.set_reg(x, ((s.v[y] - s.v[x]) % 256) as u8).set_reg(
        0xF,
        if s.v[y] > s.v[x] { 1u8 } else { 0u8 },
    ).advance(2)
}

/// `8XY6`, SHR: `VF` gets the lowest bit of `Vx`, then `Vx` is halved.
/// With `X = F` the halved value is what stays.
pub open spec fn shr(s: CpuState, opcode: u16) -> CpuState {
    let x = op_x(opcode) as int;
    s.set_reg(0xF, s.v[x] % 2).set_reg(x, s.v[x] / 2).advance(2)
}

/// `8XYE`, SHL: `VF` gets the highest bit of `Vx`, then `Vx` is doubled
/// modulo 256. With `X = F` the doubled value is what stays.
pub open spec fn shl(s: CpuState, opcode: u16) -> CpuState {
    let x = op_x(opcode) as int;
    s.set_reg(0xF, s.v[x] / 128).set_reg(x, ((s.v[x] * 2) % 256) as u8).advance(2)
}

/// `ANNN`, LD I: `I = NNN`.
pub open spec fn ld_i_addr(s: CpuState, opcode: u16) -> CpuState {
    s.set_i(op_nnn(opcode)).advance(2)
}

/// `CXNN`, RND: `Vx` gets the byte `byte` that was drawn, masked by `NN`.
pub open spec fn rnd(s: CpuState, opcode: u16, byte: u8) -> CpuState {
    s.set_reg(op_x(opcode) as int, byte & op_nn(opcode)).advance(2)
}

/// `FX07`, LD Vx, DT: `Vx` gets the delay timer.
pub open spec fn ld_vx_dt(s: CpuState, opcode: u16) -> CpuState {
    s.set_reg(op_x(opcode) as int, s.dt).advance(2)
}

/// `FX0A`, LD Vx, K: with a key held down, `Vx` gets the lowest such key
/// code and the program goes on; with none, nothing changes, so that the
/// instruction is tried again at the next tick.
pub open spec fn ld_vx_key(s: CpuState, opcode: u16, keys: Map<u8, u8>) -> CpuState {
    match first_pressed(keys) {
        Some(k) => s.set_reg(op_x(opcode) as int, k).advance(2),
        None => s,
    }
}

/// `FX15`, LD DT, Vx: the delay timer gets `Vx`.
pub open spec fn ld_dt_vx(s: CpuState, opcode: u16) -> CpuState {
    CpuState { dt: s.v[op_x(opcode) as int], ..s }.advance(2)
}

/// `FX18`, LD ST, Vx: the sound timer gets `Vx`.
pub open spec fn ld_st_vx(s: CpuState, opcode: u16) -> CpuState {
    CpuState { st: s.v[op_x(opcode) as int], ..s }.advance(2)
}

/// `FX1E`, ADD I, Vx: `I = I + Vx` modulo 65536; no mask to twelve bits.
pub open spec fn add_i(s: CpuState, opcode: u16) -> CpuState {
    s.set_i(((s.i + s.v[op_x(opcode) as int]) % 0x10000) as u16).advance(2)
}

/// `FX29`, LD F, Vx: `I` gets `0x50 + 5 * Vx`, where the glyph of `Vx` is.
pub open spec fn ld_font(s: CpuState, opcode: u16) -> CpuState {
    s.set_i((0x50 + 5 * s.v[op_x(opcode) as int]) as u16).advance(2)
}

/// The hundreds, tens and units of `val`.
pub open spec fn decimal_digits(val: u8) -> Seq<u8> {
    seq![val / 100, (val % 100) / 10, val % 10]
}

/// `FX33`, LD B, Vx: the memory after the three decimal digits of `Vx`
/// were stored at `I`, `I + 1` and `I + 2`.
pub open spec fn bcd_memory(s: CpuState, opcode: u16, mem: Seq<u8>) -> Seq<u8> {
    with_bytes(mem, s.i as int, decimal_digits(s.v[op_x(opcode) as int]))
}

/// `FX55`, LD [I], Vx: the memory after `V0`..`Vx` were stored from `I` on.
pub open spec fn stored_memory(s: CpuState, opcode: u16, mem: Seq<u8>) -> Seq<u8> {
    with_bytes(mem, s.i as int, s.v.take(op_x(opcode) as int + 1))
}

/// `FX65`, LD Vx, [I]: `V0`..`Vx` get the bytes of memory from `I` on.
pub open spec fn ld_regs(s: CpuState, opcode: u16, mem: Seq<u8>) -> CpuState {
    CpuState {
        v: Seq::new(
            16,
            |k: int|
                if k <= op_x(opcode) {
                    mem[s.i + k]
                } else {
                    s.v[k]
                },
        ),
        ..s
    }.advance(2)
}

/// The rows of the sprite that `DXYN` draws: `N` bytes of memory from `I` on.
pub open spec fn sprite_rows(s: CpuState, opcode: u16, mem: Seq<u8>) -> Seq<u8> {
    mem.subrange(s.i as int, s.i + op_n(opcode))
}

/// `DXYN`, DRW: the framebuffer after the sprite was XORed onto it at
/// (`Vx`, `Vy`).
pub open spec fn drw_pixels(s: CpuState, opcode: u16, mem: Seq<u8>, px: Seq<u8>) -> Seq<u8> {
    drawn(px, sprite_rows(s, opcode, mem), s.v[op_x(opcode) as int], s.v[op_y(opcode) as int])
}

/// `DXYN`, DRW: `VF` gets 1 if the draw turned a lit pixel off, and 0 if not.
pub open spec fn drw(s: CpuState, opcode: u16, mem: Seq<u8>, px: Seq<u8>) -> CpuState {
    let hit = collides(
        px,
        sprite_rows(s, opcode, mem),
        s.v[op_x(opcode) as int],
        s.v[op_y(opcode) as int],
    );
    s.set_reg(0xF, if hit { 1u8 } else { 0u8 }).advance(2)
}

} // verus!
