//! The instruction handlers, one per instruction. A handler takes the
//! instruction word, reads its own fields from it, and makes one step of
//! the machine; its contract names the function of the instruction set that
//! the step is.

use vstd::prelude::*;
use rand::Rng;
use std::collections::HashMap;
use crate::cpu::{advance_pc, get_reg_val, pc_after, set_reg_val, CPU};
use crate::decode::{n_of, nn_of, nnn_of, op_n, op_nn, op_x, op_y, x_of, y_of};
use crate::display::{lemma_draw_step, partial_bit, partial_hit, target_cell, World};
use crate::error::EmuError;
use crate::isa;
use crate::keyslog::{key_down, lowest_pressed};
use crate::memory::with_bytes;

verus! {

/// Draws a byte from the thread-local generator of `rand` (`rand::rng()`,
/// then `Rng::random_range` over `0..=255`). The range is not empty, so the
/// call returns; nothing is claimed of the byte that comes back.
#[verifier::external_body]
pub(crate) fn random_byte() -> (byte: u8) {
    let mut rng = rand::rng();
    rng.random_range(0..=255)
}

/// `1NNN`, JP addr.
pub fn jump_inst(cpu: &mut CPU, opcode: u16)
    ensures
        final(cpu)@ == isa::jp(old(cpu)@, opcode),
{
    cpu.pc = nnn_of(opcode);
}

/// `00EE`, RET. With an empty stack it reports the underflow and changes
/// nothing.
pub fn ret(cpu: &mut CPU, opcode: u16) -> (r: Result<(), EmuError>)
    ensures
        old(cpu)@.stack.len() > 0 ==> r.is_ok() && final(cpu)@ == isa::ret(old(cpu)@),
        old(cpu)@.stack.len() == 0 ==> r == Err::<(), EmuError>(EmuError::StackUnderflow)
            && final(cpu)@ == old(cpu)@,
{
    match cpu.sp.pop() {
        Some(addr) => {
            cpu.pc = addr.wrapping_add(2);
            assert(cpu@.stack =~= old(cpu)@.stack.drop_last());
            Ok(())
        },
        None => Err(EmuError::StackUnderflow),
    }
}

/// `BNNN`, JP V0, addr.
pub fn jump_to_loc(cpu: &mut CPU, opcode: u16)
    ensures
        final(cpu)@ == isa::jp_v0(old(cpu)@, opcode),
{
    let base: u16 = nnn_of(opcode);
    let v0: u8 = get_reg_val(cpu, 0);
    cpu.pc = base + v0 as u16;
}

/// `CXNN`, RND Vx, byte, for the random byte `byte`.
pub fn rand_op_with(cpu: &mut CPU, opcode: u16, byte: u8)
    ensures
        final(cpu)@ == isa::rnd(old(cpu)@, opcode, byte),
{
    let reg_byte: u8 = x_of(opcode);
    let low_byte: u8 = nn_of(opcode);
    set_reg_val(cpu, byte & low_byte, reg_byte);
    advance_pc(cpu, 2);
}

/// `CXNN`, RND Vx, byte: draws a random byte and stores it, masked by `NN`.
pub fn rand_op(cpu: &mut CPU, opcode: u16)
    ensures
        exists|byte: u8| final(cpu)@ == isa::rnd(old(cpu)@, opcode, byte),
{
    let val: u8 = random_byte();
    rand_op_with(cpu, opcode, val);
}

/// `EX9E`, SKP Vx. The keyboard map holds the key that `Vx` names.
pub fn skp_op(cpu: &mut CPU, opcode: u16, keyboard: &mut HashMap<u8, u8>)
    requires
        old(keyboard)@.contains_key(old(cpu)@.v[op_x(opcode) as int]),
    ensures
        final(cpu)@ == isa::skp(old(cpu)@, opcode, old(keyboard)@),
        final(keyboard)@ == old(keyboard)@,
{
    let reg_byte: u8 = x_of(opcode);
    let reg_x_val: u8 = get_reg_val(cpu, reg_byte);
    if key_down(keyboard, reg_x_val) {
        advance_pc(cpu, 4);
    } else {
        advance_pc(cpu, 2);
    }
}

/// `EXA1`, SKNP Vx. The keyboard map holds the key that `Vx` names.
pub fn sknp_op(cpu: &mut CPU, opcode: u16, keyboard: &mut HashMap<u8, u8>)
    requires
        old(keyboard)@.contains_key(old(cpu)@.v[op_x(opcode) as int]),
    ensures
        final(cpu)@ == isa::sknp(old(cpu)@, opcode, old(keyboard)@),
        final(keyboard)@ == old(keyboard)@,
{
    let reg_byte: u8 = x_of(opcode);
    let reg_x_val: u8 = get_reg_val(cpu, reg_byte);
    if !key_down(keyboard, reg_x_val) {
        advance_pc(cpu, 4);
    } else {
        advance_pc(cpu, 2);
    }
}

/// `6XNN`, LD Vx, byte: afterwards `Vx` reads `NN`, whichever register it
/// is, and the program counter is two bytes further.
pub fn ld_to_reg(cpu: &mut CPU, opcode: u16)
    ensures
        final(cpu)@ == isa::ld_byte(old(cpu)@, opcode),
        final(cpu)@.v[op_x(opcode) as int] == op_nn(opcode),
        final(cpu)@.pc == pc_after(old(cpu)@.pc, 2),
{
    let reg_byte: u8 = x_of(opcode);
    let low_byte: u8 = nn_of(opcode);
    set_reg_val(cpu, low_byte, reg_byte);
    advance_pc(cpu, 2);
}

/// `FX07`, LD Vx, DT.
pub fn ld_dt(cpu: &mut CPU, opcode: u16)
    ensures
        final(cpu)@ == isa::ld_vx_dt(old(cpu)@, opcode),
{
    let reg_byte: u8 = x_of(opcode);
    let dt: u8 = cpu.dt;
    set_reg_val(cpu, dt, reg_byte);
    advance_pc(cpu, 2);
}

/// `FX15`, LD DT, Vx.
pub fn dt_ld(cpu: &mut CPU, opcode: u16)
    ensures
        final(cpu)@ == isa::ld_dt_vx(old(cpu)@, opcode),
{
    let reg_byte: u8 = x_of(opcode);
    let reg_x_val: u8 = get_reg_val(cpu, reg_byte);
    cpu.dt = reg_x_val;
    advance_pc(cpu, 2);
}

/// `FX18`, LD ST, Vx.
pub fn st_ld(cpu: &mut CPU, opcode: u16)
    ensures
        final(cpu)@ == isa::ld_st_vx(old(cpu)@, opcode),
{
    let reg_byte: u8 = x_of(opcode);
    let reg_x_val: u8 = get_reg_val(cpu, reg_byte);
    cpu.st = reg_x_val;
    advance_pc(cpu, 2);
}

/// `8XY0`, LD Vx, Vy.
pub fn ld_reg_to_reg(cpu: &mut CPU, opcode: u16)
    ensures
        final(cpu)@ == isa::ld_reg(old(cpu)@, opcode),
{
    let y_reg: u8 = y_of(opcode);
    let x_reg: u8 = x_of(opcode);
    let y_reg_val: u8 = get_reg_val(cpu, y_reg);
    set_reg_val(cpu, y_reg_val, x_reg);
    advance_pc(cpu, 2);
}

/// `ANNN`, LD I, addr.
pub fn ld_mem_to_i(cpu: &mut CPU, opcode: u16)
    ensures
        final(cpu)@ == isa::ld_i_addr(old(cpu)@, opcode),
{
    let val: u16 = nnn_of(opcode);
    cpu.regs.i.value = val;
    advance_pc(cpu, 2);
}

/// `7XNN`, ADD Vx, byte.
pub fn add_byte_to_reg(cpu: &mut CPU, opcode: u16)
    ensures
        final(cpu)@ == isa::add_byte(old(cpu)@, opcode),
{
    let reg_byte: u8 = x_of(opcode);
    let low_byte: u8 = nn_of(opcode);
    let val_to_write: u8 = get_reg_val(cpu, reg_byte).wrapping_add(low_byte);
    set_reg_val(cpu, val_to_write, reg_byte);
    advance_pc(cpu, 2);
}

/// `FX1E`, ADD I, Vx.
pub fn add_to_i(cpu: &mut CPU, opcode: u16)
    ensures
        final(cpu)@ == isa::add_i(old(cpu)@, opcode),
{
    let reg_byte: u8 = x_of(opcode);
    let reg_x_val: u8 = get_reg_val(cpu, reg_byte);
    cpu.regs.i.value = cpu.regs.i.value.wrapping_add(reg_x_val as u16);
    advance_pc(cpu, 2);
}

/// `FX29`, LD F, Vx.
pub fn ld_f(cpu: &mut CPU, opcode: u16)
    ensures
        final(cpu)@ == isa::ld_font(old(cpu)@, opcode),
{
    let reg_byte: u8 = x_of(opcode);
    let reg_x_val: u8 = get_reg_val(cpu, reg_byte);
    cpu.regs.i.value = 0x50 + (reg_x_val as u16) * 5;
    advance_pc(cpu, 2);
}

/// `FX33`, LD B, Vx. If one of `I`, `I + 1`, `I + 2` is past the end of
/// memory it reports that and changes nothing.
pub fn ld_b(mem_arr: &mut [u8; 4096], cpu: &mut CPU, opcode: u16) -> (r: Result<(), EmuError>)
    ensures
        old(cpu)@.i + 2 < 4096 ==> r.is_ok() && final(cpu)@ == old(cpu)@.advance(2)
            && final(mem_arr)@ == isa::bcd_memory(old(cpu)@, opcode, old(mem_arr)@),
        old(cpu)@.i + 2 >= 4096 ==> r == Err::<(), EmuError>(EmuError::AddressOutOfRange)
            && final(cpu)@ == old(cpu)@ && final(mem_arr)@ == old(mem_arr)@,
{
    let reg_byte: u8 = x_of(opcode);
    let reg_x_val: u8 = get_reg_val(cpu, reg_byte);
    let first_digit: u8 = reg_x_val / 100;
    let second_digit: u8 = (reg_x_val % 100) / 10;
    let third_digit: u8 = reg_x_val % 10;
    let base: usize = cpu.regs.i.value as usize;
    if base + 2 >= 4096 {
        return Err(EmuError::AddressOutOfRange);
    }
    mem_arr[base] = first_digit;
    mem_arr[base + 1] = second_digit;
    mem_arr[base + 2] = third_digit;
    advance_pc(cpu, 2);
    assert(mem_arr@ =~= isa::bcd_memory(old(cpu)@, opcode, old(mem_arr)@));
    Ok(())
}

/// `FX55`, LD [I], Vx. If `I + X` is past the end of memory it reports that
/// and changes nothing.
pub fn ld_i(mem_arr: &mut [u8; 4096], cpu: &mut CPU, opcode: u16) -> (r: Result<(), EmuError>)
    ensures
        old(cpu)@.i + op_x(opcode) < 4096 ==> r.is_ok() && final(cpu)@ == old(cpu)@.advance(2)
            && final(mem_arr)@ == isa::stored_memory(old(cpu)@, opcode, old(mem_arr)@),
        old(cpu)@.i + op_x(opcode) >= 4096 ==> r == Err::<(), EmuError>(
            EmuError::AddressOutOfRange,
        ) && final(cpu)@ == old(cpu)@ && final(mem_arr)@ == old(mem_arr)@,
{
    let reg_byte: u8 = x_of(opcode);
    let base: usize = cpu.regs.i.value as usize;
    if base + reg_byte as usize >= 4096 {
        return Err(EmuError::AddressOutOfRange);
    }
    let mut i: u8 = 0;
    while i <= reg_byte
        invariant
            reg_byte < 16,
            i <= reg_byte + 1,
            base + reg_byte < 4096,
            base == old(cpu)@.i,
            *cpu == *old(cpu),
            mem_arr@ == with_bytes(old(mem_arr)@, base as int, cpu@.v.take(i as int)),
        decreases reg_byte + 1 - i,
    {
        let val: u8 = get_reg_val(cpu, i);
        mem_arr[base + i as usize] = val;
        i += 1;
        assert(mem_arr@ =~= with_bytes(old(mem_arr)@, base as int, cpu@.v.take(i as int)));
    }
    advance_pc(cpu, 2);
    Ok(())
}

/// `FX65`, LD Vx, [I]. If `I + X` is past the end of memory it reports that
/// and changes nothing.
pub fn ld_v(mem_arr: &mut [u8; 4096], cpu: &mut CPU, opcode: u16) -> (r: Result<(), EmuError>)
    ensures
        final(mem_arr)@ == old(mem_arr)@,
        old(cpu)@.i + op_x(opcode) < 4096 ==> r.is_ok() && final(cpu)@ == isa::ld_regs(
            old(cpu)@,
            opcode,
            old(mem_arr)@,
        ),
        old(cpu)@.i + op_x(opcode) >= 4096 ==> r == Err::<(), EmuError>(
            EmuError::AddressOutOfRange,
        ) && final(cpu)@ == old(cpu)@,
{
    let reg_byte: u8 = x_of(opcode);
    let base: usize = cpu.regs.i.value as usize;
    if base + reg_byte as usize >= 4096 {
        return Err(EmuError::AddressOutOfRange);
    }
    let mut i: u8 = 0;
    while i <= reg_byte
        invariant
            reg_byte < 16,
            i <= reg_byte + 1,
            base + reg_byte < 4096,
            base == old(cpu)@.i,
            cpu@.i == old(cpu)@.i,
            cpu@.pc == old(cpu)@.pc,
            cpu@.stack == old(cpu)@.stack,
            cpu@.dt == old(cpu)@.dt,
            cpu@.st == old(cpu)@.st,
            forall|k: int|
                0 <= k < 16 ==> cpu@.v[k] == (if k < i {
                    mem_arr@[base + k]
                } else {
                    old(cpu)@.v[k]
                }),
        decreases reg_byte + 1 - i,
    {
        let val: u8 = mem_arr[base + i as usize];
        set_reg_val(cpu, val, i);
        i += 1;
    }
    advance_pc(cpu, 2);
    assert(cpu@.v =~= isa::ld_regs(old(cpu)@, opcode, mem_arr@).v);
    Ok(())
}

/// `FX0A`, LD Vx, K.
pub fn ld_vx_k(cpu: &mut CPU, opcode: u16, keyboard: &mut HashMap<u8, u8>)
    ensures
        final(cpu)@ == isa::ld_vx_key(old(cpu)@, opcode, old(keyboard)@),
        final(keyboard)@ == old(keyboard)@,
{
    let reg_byte: u8 = x_of(opcode);
    match lowest_pressed(keyboard) {
        Some(key) => {
            set_reg_val(cpu, key, reg_byte);
            advance_pc(cpu, 2);
        },
        None => {},
    }
}

/// `00E0`, CLS: every pixel goes dark and a redraw is asked for.
pub fn clear_screen(world: &mut World, cpu: &mut CPU, opcode: u16)
    ensures
        final(world).px@ == Seq::new(2048, |k: int| 0u8),
        final(world).display_redraw == 1,
        final(cpu)@ == old(cpu)@.advance(2),
{
    world.px = [0u8;2048];
    world.display_redraw = 1;
    advance_pc(cpu, 2);
    assert(world.px@ =~= Seq::new(2048, |k: int| 0u8));
}

/// `DXYN`, DRW Vx, Vy, nibble. If the sprite's `N` rows do not all lie in
/// `mem_arr` it reports that and changes nothing.
pub fn draw_sprite(cpu: &mut CPU, mem_arr: &[u8], world: &mut World, opcode: u16) -> (r: Result<
    (),
    EmuError,
>)
    ensures
        old(cpu)@.i + op_n(opcode) <= mem_arr@.len() ==> r.is_ok(),
        r.is_ok() ==> final(world).px@ == isa::drw_pixels(
            old(cpu)@,
            opcode,
            mem_arr@,
            old(world).px@,
        ),
        r.is_ok() ==> final(world).display_redraw == 1,
        r.is_ok() ==> final(cpu)@ == isa::drw(old(cpu)@, opcode, mem_arr@, old(world).px@),
        old(cpu)@.i + op_n(opcode) > mem_arr@.len() ==> r == Err::<(), EmuError>(
            EmuError::AddressOutOfRange,
        ) && final(cpu)@ == old(cpu)@ && *final(world) == *old(world),
{
    let bytes_to_read: usize = n_of(opcode) as usize;
    let y_reg: u8 = y_of(opcode);
    let x_reg: u8 = x_of(opcode);
    let x_reg_val: u8 = get_reg_val(cpu, x_reg);
    let y_reg_val: u8 = get_reg_val(cpu, y_reg);
    let i_reg_val: usize = cpu.regs.i.value as usize;
    if i_reg_val + bytes_to_read > mem_arr.len() {
        return Err(EmuError::AddressOutOfRange);
    }
    let ghost sprite = isa::sprite_rows(old(cpu)@, opcode, mem_arr@);
    let ghost px0 = old(world).px@;
    let mut flag: u8 = 0;
    let mut rows: usize = 0;
    proof {
        assert forall|idx: int| 0 <= idx < 2048 implies world.px@[idx] == px0[idx] ^ partial_bit(
            sprite,
            x_reg_val,
            y_reg_val,
            0,
            0,
            idx,
        ) by {
            let c = px0[idx];
            assert(c ^ 0u8 == c) by (bit_vector);
        }
    }
    while rows < bytes_to_read
        invariant
            rows <= bytes_to_read <= 15,
            i_reg_val <= 0xFFFF,
            i_reg_val + bytes_to_read <= mem_arr@.len(),
            sprite == mem_arr@.subrange(i_reg_val as int, i_reg_val + bytes_to_read),
            px0.len() == 2048,
            flag == 0 || flag == 1,
            world.display_redraw == old(world).display_redraw,
            forall|idx: int|
                0 <= idx < 2048 ==> #[trigger] world.px@[idx] == px0[idx] ^ partial_bit(
                    sprite,
                    x_reg_val,
                    y_reg_val,
                    rows as int,
                    0,
                    idx,
                ),
            flag == 1 <==> exists|idx: int| #[trigger]
                partial_hit(px0, sprite, x_reg_val, y_reg_val, rows as int, 0, idx),
        decreases bytes_to_read - rows,
    {
        let byte: u8 = mem_arr[i_reg_val + rows];
        let mut bit: u8 = 0;
        while bit < 8
            invariant
                rows < bytes_to_read <= 15,
                bit <= 8,
                sprite.len() == bytes_to_read,
                byte == sprite[rows as int],
                px0.len() == 2048,
                flag == 0 || flag == 1,
                world.display_redraw == old(world).display_redraw,
                forall|idx: int|
                    0 <= idx < 2048 ==> #[trigger] world.px@[idx] == px0[idx] ^ partial_bit(
                        sprite,
                        x_reg_val,
                        y_reg_val,
                        rows as int,
                        bit as int,
                        idx,
                    ),
                flag == 1 <==> exists|idx: int| #[trigger]
                    partial_hit(px0, sprite, x_reg_val, y_reg_val, rows as int, bit as int, idx),
            decreases 8 - bit,
        {
            let pixel: u8 = (byte >> (7 - bit)) & 1;
            let x: usize = (x_reg_val as usize + bit as usize) % 64;
            let y: usize = (y_reg_val as usize + rows) % 32;
            let idx: usize = y * 64 + x;
            let old_px: u8 = world.px[idx];
            let ghost before = world.px@;
            world.px[idx] = old_px ^ pixel;
            if old_px == 1 && world.px[idx] == 0 {
                flag = 1;
            }
            proof {
                let shifted = byte >> (7 - bit);
                assert(shifted & 1u8 == 0u8 || shifted & 1u8 == 1u8) by (bit_vector);
                assert(idx == target_cell(x_reg_val, y_reg_val, rows as int, bit as int));
                lemma_draw_step(sprite, x_reg_val, y_reg_val, rows as int, bit as int, idx as int);
                let cell = px0[idx as int];
                assert(cell ^ 0u8 == cell) by (bit_vector);
                assert(old_px == cell);
                assert((old_px == 1u8 && old_px ^ pixel == 0u8) <==> (old_px == 1u8 && pixel
                    == 1u8)) by (bit_vector)
                    requires
                        pixel == 0u8 || pixel == 1u8,
                ;
                assert forall|j: int| 0 <= j < 2048 implies #[trigger] world.px@[j] == px0[j]
                    ^ partial_bit(sprite, x_reg_val, y_reg_val, rows as int, bit + 1, j) by {
                    lemma_draw_step(sprite, x_reg_val, y_reg_val, rows as int, bit as int, j);
                    if j != idx {
                        assert(world.px@[j] == before[j]);
                    }
                }
                assert forall|j: int| #[trigger]
                    partial_hit(px0, sprite, x_reg_val, y_reg_val, rows as int, bit as int, j)
                    implies partial_hit(
                    px0,
                    sprite,
                    x_reg_val,
                    y_reg_val,
                    rows as int,
                    bit + 1,
                    j,
                ) by {
                    lemma_draw_step(sprite, x_reg_val, y_reg_val, rows as int, bit as int, j);
                }
                assert forall|j: int| #[trigger]
                    partial_hit(px0, sprite, x_reg_val, y_reg_val, rows as int, bit + 1, j)
                    implies partial_hit(
                    px0,
                    sprite,
                    x_reg_val,
                    y_reg_val,
                    rows as int,
                    bit as int,
                    j,
                ) || (j == idx && old_px == 1 && pixel == 1) by {
                    lemma_draw_step(sprite, x_reg_val, y_reg_val, rows as int, bit as int, j);
                }
                if old_px == 1 && pixel == 1 {
                    assert(partial_hit(
                        px0,
                        sprite,
                        x_reg_val,
                        y_reg_val,
                        rows as int,
                        bit + 1,
                        idx as int,
                    ));
                }
            }
            bit += 1;
        }
        proof {
            assert forall|j: int|
                partial_bit(sprite, x_reg_val, y_reg_val, rows as int, 8, j) == partial_bit(
                    sprite,
                    x_reg_val,
                    y_reg_val,
                    rows + 1,
                    0,
                    j,
                ) by {}
            assert forall|j: int|
                #![trigger partial_hit(px0, sprite, x_reg_val, y_reg_val, rows as int, 8, j)]
                #![trigger partial_hit(px0, sprite, x_reg_val, y_reg_val, rows + 1, 0, j)]
                partial_hit(px0, sprite, x_reg_val, y_reg_val, rows as int, 8, j) == partial_hit(
                    px0,
                    sprite,
                    x_reg_val,
                    y_reg_val,
                    rows + 1,
                    0,
                    j,
                ) by {}
        }
        rows += 1;
    }
    set_reg_val(cpu, flag, 0xF);
    world.display_redraw = 1;
    advance_pc(cpu, 2);
    assert(world.px@ =~= isa::drw_pixels(old(cpu)@, opcode, mem_arr@, old(world).px@));
    Ok(())
}

/// `2NNN`, CALL addr. The stack grows without a limit of its own.
pub fn call_addr(cpu: &mut CPU, opcode: u16)
    ensures
        final(cpu)@ == isa::call(old(cpu)@, opcode),
{
    let addr: u16 = nnn_of(opcode);
    let here: u16 = cpu.pc;
    cpu.sp.push(here);
    cpu.pc = addr;
}

/// `3XNN`, SE Vx, byte.
pub fn skip_next_eq(cpu: &mut CPU, opcode: u16)
    ensures
        final(cpu)@ == isa::se_byte(old(cpu)@, opcode),
{
    let reg_byte: u8 = x_of(opcode);
    let val_to_compare: u8 = get_reg_val(cpu, reg_byte);
    let low_byte: u8 = nn_of(opcode);
    if val_to_compare == low_byte {
        advance_pc(cpu, 4);
    } else {
        advance_pc(cpu, 2);
    }
}

/// `4XNN`, SNE Vx, byte.
pub fn skip_next_not_eq(cpu: &mut CPU, opcode: u16)
    ensures
        final(cpu)@ == isa::sne_byte(old(cpu)@, opcode),
{
    let reg_byte: u8 = x_of(opcode);
    let val_to_compare: u8 = get_reg_val(cpu, reg_byte);
    let low_byte: u8 = nn_of(opcode);
    if val_to_compare != low_byte {
        advance_pc(cpu, 4);
    } else {
        advance_pc(cpu, 2);
    }
}

/// `5XY0`, SE Vx, Vy.
pub fn skip_next_eq_regs(cpu: &mut CPU, opcode: u16)
    ensures
        final(cpu)@ == isa::se_reg(old(cpu)@, opcode),
{
    let y_reg: u8 = y_of(opcode);
    let x_reg: u8 = x_of(opcode);
    let x_reg_val: u8 = get_reg_val(cpu, x_reg);
    let y_reg_val: u8 = get_reg_val(cpu, y_reg);
    if x_reg_val == y_reg_val {
        advance_pc(cpu, 4);
    } else {
        advance_pc(cpu, 2);
    }
}

/// `8XY1`, OR Vx, Vy.
pub fn or_op(cpu: &mut CPU, opcode: u16)
    ensures
        final(cpu)@ == isa::or(old(cpu)@, opcode),
{
    let y_reg: u8 = y_of(opcode);
    let x_reg: u8 = x_of(opcode);
    let x_reg_val: u8 = get_reg_val(cpu, x_reg);
    let y_reg_val: u8 = get_reg_val(cpu, y_reg);
    let val: u8 = x_reg_val | y_reg_val;
    set_reg_val(cpu, val, x_reg);
    advance_pc(cpu, 2);
}

/// `8XY2`, AND Vx, Vy.
pub fn and_op(cpu: &mut CPU, opcode: u16)
    ensures
        final(cpu)@ == isa::and(old(cpu)@, opcode),
{
    let y_reg: u8 = y_of(opcode);
    let x_reg: u8 = x_of(opcode);
    let x_reg_val: u8 = get_reg_val(cpu, x_reg);
    let y_reg_val: u8 = get_reg_val(cpu, y_reg);
    let val: u8 = x_reg_val & y_reg_val;
    set_reg_val(cpu, val, x_reg);
    advance_pc(cpu, 2);
}

/// `8XY3`, XOR Vx, Vy.
pub fn xor_op(cpu: &mut CPU, opcode: u16)
    ensures
        final(cpu)@ == isa::xor(old(cpu)@, opcode),
{
    let y_reg: u8 = y_of(opcode);
    let x_reg: u8 = x_of(opcode);
    let x_reg_val: u8 = get_reg_val(cpu, x_reg);
    let y_reg_val: u8 = get_reg_val(cpu, y_reg);
    let val: u8 = x_reg_val ^ y_reg_val;
    set_reg_val(cpu, val, x_reg);
    advance_pc(cpu, 2);
}

/// `8XY4`, ADD Vx, Vy. `VF` ends as 1 exactly if the sum is above 255;
/// `Vx`, unless it is `VF` itself, ends as the low eight bits of the sum.
pub fn add_op(cpu: &mut CPU, opcode: u16)
    ensures
        final(cpu)@ == isa::add_reg(old(cpu)@, opcode),
        final(cpu)@.v[0xF] == 1 <==> old(cpu)@.v[op_x(opcode) as int] + old(cpu)@.v[op_y(
            opcode,
        ) as int] > 255,
        final(cpu)@.v[0xF] == 0 || final(cpu)@.v[0xF] == 1,
        op_x(opcode) != 0xF ==> final(cpu)@.v[op_x(opcode) as int] == (old(cpu)@.v[op_x(
            opcode,
        ) as int] + old(cpu)@.v[op_y(opcode) as int]) % 256,
{
    let y_reg: u8 = y_of(opcode);
    let x_reg: u8 = x_of(opcode);
    let x_reg_val: u8 = get_reg_val(cpu, x_reg);
    let y_reg_val: u8 = get_reg_val(cpu, y_reg);
    let result: u8 = x_reg_val.wrapping_add(y_reg_val);
    let carry: bool = x_reg_val as u16 + y_reg_val as u16 > 255;
    set_reg_val(cpu, result, x_reg);
    set_reg_val(cpu, if carry { 1 } else { 0 }, 0xF);
    advance_pc(cpu, 2);
}

/// `8XY5`, SUB Vx, Vy. `VF` ends as 1 exactly if `Vx >= Vy`; `Vx`, unless
/// it is `VF` itself, ends as `Vx - Vy` modulo 256.
pub fn sub_op(cpu: &mut CPU, opcode: u16)
    ensures
        final(cpu)@ == isa::sub_reg(old(cpu)@, opcode),
        final(cpu)@.v[0xF] == 1 <==> old(cpu)@.v[op_x(opcode) as int] >= old(cpu)@.v[op_y(
            opcode,
        ) as int],
        final(cpu)@.v[0xF] == 0 || final(cpu)@.v[0xF] == 1,
        op_x(opcode) != 0xF ==> final(cpu)@.v[op_x(opcode) as int] == (old(cpu)@.v[op_x(
            opcode,
        ) as int] - old(cpu)@.v[op_y(opcode) as int]) % 256,
{
    let y_reg: u8 = y_of(opcode);
    let x_reg: u8 = x_of(opcode);
    let x_reg_val: u8 = get_reg_val(cpu, x_reg);
    let y_reg_val: u8 = get_reg_val(cpu, y_reg);
    let result: u8 = x_reg_val.wrapping_sub(y_reg_val);
    let no_borrow: bool = x_reg_val >= y_reg_val;
    set_reg_val(cpu, result, x_reg);
    set_reg_val(cpu, if no_borrow { 1 } else { 0 }, 0xF);
    advance_pc(cpu, 2);
}

/// `8XY7`, SUBN Vx, Vy.
pub fn subn_op(cpu: &mut CPU, opcode: u16)
    ensures
        final(cpu)@ == isa::subn_reg(old(cpu)@, opcode),
{
    let y_reg: u8 = y_of(opcode);
    let x_reg: u8 = x_of(opcode);
    let x_reg_val: u8 = get_reg_val(cpu, x_reg);
    let y_reg_val: u8 = get_reg_val(cpu, y_reg);
    let val: u8 = y_reg_val.wrapping_sub(x_reg_val);
    let greater: bool = y_reg_val > x_reg_val;
    set_reg_val(cpu, val, x_reg);
    set_reg_val(cpu, if greater { 1 } else { 0 }, 0xF);
    advance_pc(cpu, 2);
}

/// `8XY6`, SHR Vx. The bit that is shifted out is taken into `VF` first;
/// `Vx`, unless it is `VF` itself, then ends as half of what it was.
pub fn shr_op(cpu: &mut CPU, opcode: u16)
    ensures
        final(cpu)@ == isa::shr(old(cpu)@, opcode),
        op_x(opcode) != 0xF ==> final(cpu)@.v[0xF] == old(cpu)@.v[op_x(opcode) as int] % 2
            && final(cpu)@.v[op_x(opcode) as int] == old(cpu)@.v[op_x(opcode) as int] / 2,
{
    let x_reg: u8 = x_of(opcode);
    let x_reg_val: u8 = get_reg_val(cpu, x_reg);
    let flag: u8 = x_reg_val & 0x1;
    let val: u8 = x_reg_val >> 1;
    assert(x_reg_val & 0x1u8 == x_reg_val % 2u8 && x_reg_val >> 1u8 == x_reg_val / 2u8)
        by (bit_vector);
    set_reg_val(cpu, flag, 0xF);
    set_reg_val(cpu, val, x_reg);
    advance_pc(cpu, 2);
}

/// `8XYE`, SHL Vx. The bit that is shifted out is taken into `VF` first;
/// `Vx`, unless it is `VF` itself, then ends as twice what it was, modulo 256.
pub fn shl_op(cpu: &mut CPU, opcode: u16)
    ensures
        final(cpu)@ == isa::shl(old(cpu)@, opcode),
        op_x(opcode) != 0xF ==> final(cpu)@.v[0xF] == old(cpu)@.v[op_x(opcode) as int] / 128
            && final(cpu)@.v[op_x(opcode) as int] == (old(cpu)@.v[op_x(opcode) as int] * 2)
            % 256,
{
    let x_reg: u8 = x_of(opcode);
    let x_reg_val: u8 = get_reg_val(cpu, x_reg);
    let flag: u8 = (x_reg_val & 0x80) >> 7;
    let val: u8 = x_reg_val << 1;
    assert((x_reg_val & 0x80u8) >> 7u8 == x_reg_val / 128u8 && x_reg_val << 1u8 == (x_reg_val
        * 2) % 256) by (bit_vector);
    set_reg_val(cpu, flag, 0xF);
    set_reg_val(cpu, val, x_reg);
    advance_pc(cpu, 2);
}

/// `9XY0`, SNE Vx, Vy.
pub fn sne_op(cpu: &mut CPU, opcode: u16)
    ensures
        final(cpu)@ == isa::sne_reg(old(cpu)@, opcode),
{
    let y_reg: u8 = y_of(opcode);
    let x_reg: u8 = x_of(opcode);
    let x_reg_val: u8 = get_reg_val(cpu, x_reg);
    let y_reg_val: u8 = get_reg_val(cpu, y_reg);
    if x_reg_val != y_reg_val {
        advance_pc(cpu, 4);
    } else {
        advance_pc(cpu, 2);
    }
}

} // verus!
