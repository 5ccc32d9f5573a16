use emu8::cpu::{get_cpu, get_reg_val, set_reg_val, Bytes, Reg16, CPU};
use emu8::display::{get_world, World};
use emu8::error::EmuError;
use emu8::instructions::{
    add_byte_to_reg, add_op, add_to_i, and_op, call_addr, clear_screen, draw_sprite, dt_ld,
    jump_inst, jump_to_loc, ld_b, ld_dt, ld_f, ld_i, ld_mem_to_i, ld_reg_to_reg, ld_to_reg, ld_v,
    ld_vx_k, or_op, rand_op, rand_op_with, ret, shl_op, shr_op, skip_next_eq, skip_next_eq_regs,
    skip_next_not_eq, sknp_op, skp_op, sne_op, st_ld, sub_op, subn_op, xor_op,
};
use emu8::keyslog::{get_keyboard_map, key_down, lowest_pressed, set_key};
use emu8::memory::{get_font_arr, get_mem, init_fonts, load_program, read_memory, write_memory};

fn cpu_with(regs: &[(u8, u8)]) -> CPU {
    let mut cpu = get_cpu();
    for &(r, v) in regs {
        set_reg_val(&mut cpu, v, r);
    }
    cpu
}

#[test]
fn fresh_cpu_is_reset() {
    let mut cpu = get_cpu();
    assert_eq!(cpu.pc, 0x200);
    assert!(cpu.sp.is_empty());
    assert_eq!(cpu.regs.i.value, 0);
    assert_eq!(cpu.dt, 0);
    assert_eq!(cpu.st, 0);
    for r in 0..16u8 {
        assert_eq!(get_reg_val(&mut cpu, r), 0);
    }
}

#[test]
fn set_reg_touches_one_register() {
    let mut cpu = get_cpu();
    set_reg_val(&mut cpu, 0x5A, 0x7);
    for r in 0..16u8 {
        assert_eq!(get_reg_val(&mut cpu, r), if r == 7 { 0x5A } else { 0 });
    }
    assert_eq!(cpu.pc, 0x200);
}

#[test]
fn index_register_splits_into_bytes() {
    let r = Reg16 { value: 0x12AB };
    assert_eq!(r.bytes(), Bytes { hi: 0x12, lo: 0xAB });
    assert_eq!(Reg16::from_bytes(Bytes { hi: 0x12, lo: 0xAB }).value, 0x12AB);
}

#[test]
fn ld_byte_sets_every_register() {
    for x in 0..16u16 {
        let mut cpu = get_cpu();
        ld_to_reg(&mut cpu, 0x6000 | (x << 8) | 0x42);
        assert_eq!(get_reg_val(&mut cpu, x as u8), 0x42);
        assert_eq!(cpu.pc, 0x202);
    }
}

#[test]
fn add_reg_sets_carry() {
    let mut cpu = cpu_with(&[(1, 200), (2, 100)]);
    add_op(&mut cpu, 0x8124);
    assert_eq!(get_reg_val(&mut cpu, 1), 44);
    assert_eq!(get_reg_val(&mut cpu, 0xF), 1);
    assert_eq!(cpu.pc, 0x202);

    let mut cpu = cpu_with(&[(1, 200), (2, 55)]);
    add_op(&mut cpu, 0x8124);
    assert_eq!(get_reg_val(&mut cpu, 1), 255);
    assert_eq!(get_reg_val(&mut cpu, 0xF), 0);
}

#[test]
fn add_reg_into_flag_register_keeps_flag() {
    let mut cpu = cpu_with(&[(0xF, 200), (2, 100)]);
    add_op(&mut cpu, 0x8F24);
    assert_eq!(get_reg_val(&mut cpu, 0xF), 1);
}

#[test]
fn sub_reg_sets_no_borrow() {
    let mut cpu = cpu_with(&[(1, 10), (2, 3)]);
    sub_op(&mut cpu, 0x8125);
    assert_eq!(get_reg_val(&mut cpu, 1), 7);
    assert_eq!(get_reg_val(&mut cpu, 0xF), 1);

    let mut cpu = cpu_with(&[(1, 3), (2, 10)]);
    sub_op(&mut cpu, 0x8125);
    assert_eq!(get_reg_val(&mut cpu, 1), 249);
    assert_eq!(get_reg_val(&mut cpu, 0xF), 0);

    let mut cpu = cpu_with(&[(1, 9), (2, 9)]);
    sub_op(&mut cpu, 0x8125);
    assert_eq!(get_reg_val(&mut cpu, 1), 0);
    assert_eq!(get_reg_val(&mut cpu, 0xF), 1);
}

#[test]
fn subn_reg_wraps_and_flags() {
    let mut cpu = cpu_with(&[(1, 3), (2, 10)]);
    subn_op(&mut cpu, 0x8127);
    assert_eq!(get_reg_val(&mut cpu, 1), 7);
    assert_eq!(get_reg_val(&mut cpu, 0xF), 1);

    let mut cpu = cpu_with(&[(1, 10), (2, 3)]);
    subn_op(&mut cpu, 0x8127);
    assert_eq!(get_reg_val(&mut cpu, 1), 249);
    assert_eq!(get_reg_val(&mut cpu, 0xF), 0);

    let mut cpu = cpu_with(&[(1, 5), (2, 5)]);
    subn_op(&mut cpu, 0x8127);
    assert_eq!(get_reg_val(&mut cpu, 1), 0);
    assert_eq!(get_reg_val(&mut cpu, 0xF), 0);
}

#[test]
fn shifts_capture_the_bit_shifted_out() {
    let mut cpu = cpu_with(&[(3, 0b1000_0101)]);
    shr_op(&mut cpu, 0x8306);
    assert_eq!(get_reg_val(&mut cpu, 0xF), 1);
    assert_eq!(get_reg_val(&mut cpu, 3), 0b0100_0010);

    let mut cpu = cpu_with(&[(3, 0b1000_0101)]);
    shl_op(&mut cpu, 0x830E);
    assert_eq!(get_reg_val(&mut cpu, 0xF), 1);
    assert_eq!(get_reg_val(&mut cpu, 3), 0b0000_1010);

    let mut cpu = cpu_with(&[(3, 0b0100_0100)]);
    shr_op(&mut cpu, 0x8306);
    assert_eq!(get_reg_val(&mut cpu, 0xF), 0);
    assert_eq!(get_reg_val(&mut cpu, 3), 0b0010_0010);
    shl_op(&mut cpu, 0x830E);
    assert_eq!(get_reg_val(&mut cpu, 0xF), 0);
    assert_eq!(get_reg_val(&mut cpu, 3), 0b0100_0100);
    assert_eq!(cpu.pc, 0x204);
}

#[test]
fn logic_ops() {
    let mut cpu = cpu_with(&[(1, 0b1100), (2, 0b1010)]);
    or_op(&mut cpu, 0x8121);
    assert_eq!(get_reg_val(&mut cpu, 1), 0b1110);
    let mut cpu = cpu_with(&[(1, 0b1100), (2, 0b1010)]);
    and_op(&mut cpu, 0x8122);
    assert_eq!(get_reg_val(&mut cpu, 1), 0b1000);
    let mut cpu = cpu_with(&[(1, 0b1100), (2, 0b1010)]);
    xor_op(&mut cpu, 0x8123);
    assert_eq!(get_reg_val(&mut cpu, 1), 0b0110);
    assert_eq!(get_reg_val(&mut cpu, 2), 0b1010);
    assert_eq!(cpu.pc, 0x202);
}

#[test]
fn call_then_ret_comes_back_after_the_call() {
    let mut cpu = get_cpu();
    cpu.pc = 0x2A0;
    call_addr(&mut cpu, 0x2456);
    assert_eq!(cpu.pc, 0x456);
    assert_eq!(cpu.sp, vec![0x2A0]);
    assert_eq!(ret(&mut cpu, 0x00EE), Ok(()));
    assert_eq!(cpu.pc, 0x2A2);
    assert!(cpu.sp.is_empty());
}

#[test]
fn ret_on_empty_stack_is_an_underflow() {
    let mut cpu = get_cpu();
    let before = cpu.clone();
    assert_eq!(ret(&mut cpu, 0x00EE), Err(EmuError::StackUnderflow));
    assert_eq!(cpu, before);
}

#[test]
fn jumps() {
    let mut cpu = get_cpu();
    jump_inst(&mut cpu, 0x1ABC);
    assert_eq!(cpu.pc, 0xABC);
    let mut cpu = cpu_with(&[(0, 0x10)]);
    jump_to_loc(&mut cpu, 0xB300);
    assert_eq!(cpu.pc, 0x310);
    let mut cpu = cpu_with(&[(0, 0xFF)]);
    jump_to_loc(&mut cpu, 0xBFFF);
    assert_eq!(cpu.pc, 0x10FE);
}

#[test]
fn skips() {
    let mut cpu = cpu_with(&[(1, 7), (2, 7), (3, 8)]);
    skip_next_eq(&mut cpu, 0x3107);
    assert_eq!(cpu.pc, 0x204);
    skip_next_eq(&mut cpu, 0x3108);
    assert_eq!(cpu.pc, 0x206);
    skip_next_not_eq(&mut cpu, 0x4108);
    assert_eq!(cpu.pc, 0x20A);
    skip_next_not_eq(&mut cpu, 0x4107);
    assert_eq!(cpu.pc, 0x20C);
    skip_next_eq_regs(&mut cpu, 0x5120);
    assert_eq!(cpu.pc, 0x210);
    skip_next_eq_regs(&mut cpu, 0x5130);
    assert_eq!(cpu.pc, 0x212);
    sne_op(&mut cpu, 0x9130);
    assert_eq!(cpu.pc, 0x216);
    sne_op(&mut cpu, 0x9120);
    assert_eq!(cpu.pc, 0x218);
}

#[test]
fn key_skips() {
    let mut keyboard = get_keyboard_map();
    set_key(&mut keyboard, 5, true);
    let mut cpu = cpu_with(&[(1, 5), (2, 6)]);
    skp_op(&mut cpu, 0xE19E, &mut keyboard);
    assert_eq!(cpu.pc, 0x204);
    skp_op(&mut cpu, 0xE29E, &mut keyboard);
    assert_eq!(cpu.pc, 0x206);
    sknp_op(&mut cpu, 0xE1A1, &mut keyboard);
    assert_eq!(cpu.pc, 0x208);
    sknp_op(&mut cpu, 0xE2A1, &mut keyboard);
    assert_eq!(cpu.pc, 0x20C);
}

#[test]
fn keyboard_starts_released() {
    let mut keyboard = get_keyboard_map();
    assert_eq!(keyboard.len(), 16);
    for k in 0..16u8 {
        assert_eq!(keyboard[&k], 0);
        assert!(!key_down(&keyboard, k));
    }
    assert!(!key_down(&keyboard, 16));
    assert_eq!(lowest_pressed(&keyboard), None);
    set_key(&mut keyboard, 0xC, true);
    set_key(&mut keyboard, 0x4, true);
    assert_eq!(lowest_pressed(&keyboard), Some(4));
    set_key(&mut keyboard, 0x4, false);
    assert_eq!(lowest_pressed(&keyboard), Some(0xC));
}

#[test]
fn wait_for_key_blocks_until_a_key_is_down() {
    let mut keyboard = get_keyboard_map();
    let mut cpu = get_cpu();
    ld_vx_k(&mut cpu, 0xF30A, &mut keyboard);
    assert_eq!(cpu, get_cpu());
    set_key(&mut keyboard, 0xB, true);
    ld_vx_k(&mut cpu, 0xF30A, &mut keyboard);
    assert_eq!(get_reg_val(&mut cpu, 3), 0xB);
    assert_eq!(cpu.pc, 0x202);
}

#[test]
fn timers_load_and_store() {
    let mut cpu = cpu_with(&[(4, 33)]);
    dt_ld(&mut cpu, 0xF415);
    assert_eq!(cpu.dt, 33);
    st_ld(&mut cpu, 0xF418);
    assert_eq!(cpu.st, 33);
    ld_dt(&mut cpu, 0xF907);
    assert_eq!(get_reg_val(&mut cpu, 9), 33);
    assert_eq!(cpu.pc, 0x206);
}

#[test]
fn register_moves_and_adds() {
    let mut cpu = cpu_with(&[(1, 250), (2, 9)]);
    ld_reg_to_reg(&mut cpu, 0x8320);
    assert_eq!(get_reg_val(&mut cpu, 3), 9);
    add_byte_to_reg(&mut cpu, 0x710A);
    assert_eq!(get_reg_val(&mut cpu, 1), 4);
    assert_eq!(get_reg_val(&mut cpu, 0xF), 0);
    ld_mem_to_i(&mut cpu, 0xA123);
    assert_eq!(cpu.regs.i.value, 0x123);
    add_to_i(&mut cpu, 0xF21E);
    assert_eq!(cpu.regs.i.value, 0x12C);
    assert_eq!(cpu.pc, 0x208);
}

#[test]
fn add_to_i_is_not_masked_and_wraps_at_16_bits() {
    let mut cpu = cpu_with(&[(2, 0x10)]);
    cpu.regs.i.value = 0xFFF;
    add_to_i(&mut cpu, 0xF21E);
    assert_eq!(cpu.regs.i.value, 0x100F);
    cpu.regs.i.value = 0xFFFF;
    add_to_i(&mut cpu, 0xF21E);
    assert_eq!(cpu.regs.i.value, 0x000F);
}

#[test]
fn font_address_of_glyph_a() {
    let mut cpu = cpu_with(&[(6, 0xA)]);
    ld_f(&mut cpu, 0xF629);
    assert_eq!(cpu.regs.i.value, 0x82);
    assert_eq!(cpu.pc, 0x202);
    let mut cpu = cpu_with(&[(6, 0xFF)]);
    ld_f(&mut cpu, 0xF629);
    assert_eq!(cpu.regs.i.value, 0x50 + 1275);
}

#[test]
fn bcd_of_234() {
    let mut mem = get_mem();
    let mut cpu = cpu_with(&[(5, 234)]);
    cpu.regs.i.value = 0x300;
    assert_eq!(ld_b(&mut mem, &mut cpu, 0xF533), Ok(()));
    assert_eq!(&mem[0x300..0x303], &[2, 3, 4]);
    assert_eq!(mem[0x2FF], 0);
    assert_eq!(mem[0x303], 0);
    assert_eq!(cpu.pc, 0x202);
}

#[test]
fn bcd_past_the_end_of_memory_is_refused() {
    let mut mem = get_mem();
    let mut cpu = cpu_with(&[(5, 234)]);
    cpu.regs.i.value = 0xFFE;
    assert_eq!(ld_b(&mut mem, &mut cpu, 0xF533), Err(EmuError::AddressOutOfRange));
    assert_eq!(mem, get_mem());
    assert_eq!(cpu.pc, 0x200);
    cpu.regs.i.value = 0xFFD;
    assert_eq!(ld_b(&mut mem, &mut cpu, 0xF533), Ok(()));
    assert_eq!(&mem[0xFFD..], &[2, 3, 4]);
}

#[test]
fn store_and_load_registers() {
    let mut mem = get_mem();
    let mut cpu = cpu_with(&[(0, 10), (1, 11), (2, 12), (3, 13)]);
    cpu.regs.i.value = 0x400;
    assert_eq!(ld_i(&mut mem, &mut cpu, 0xF255), Ok(()));
    assert_eq!(&mem[0x400..0x404], &[10, 11, 12, 0]);
    assert_eq!(cpu.regs.i.value, 0x400);

    let mut other = get_cpu();
    other.regs.i.value = 0x400;
    set_reg_val(&mut other, 99, 3);
    assert_eq!(ld_v(&mut mem, &mut other, 0xF265), Ok(()));
    assert_eq!(get_reg_val(&mut other, 0), 10);
    assert_eq!(get_reg_val(&mut other, 1), 11);
    assert_eq!(get_reg_val(&mut other, 2), 12);
    assert_eq!(get_reg_val(&mut other, 3), 99);
    assert_eq!(other.pc, 0x202);

    other.regs.i.value = 0xFFF;
    assert_eq!(ld_v(&mut mem, &mut other, 0xF165), Err(EmuError::AddressOutOfRange));
    assert_eq!(ld_i(&mut mem, &mut other, 0xF155), Err(EmuError::AddressOutOfRange));
    assert_eq!(ld_v(&mut mem, &mut other, 0xF065), Ok(()));
}

#[test]
fn random_byte_is_masked() {
    for _ in 0..200 {
        let mut cpu = cpu_with(&[(3, 0xFF)]);
        rand_op(&mut cpu, 0xC30F);
        assert!(get_reg_val(&mut cpu, 3) <= 0x0F);
        assert_eq!(cpu.pc, 0x202);
        rand_op(&mut cpu, 0xC300);
        assert_eq!(get_reg_val(&mut cpu, 3), 0);
    }
    let mut cpu = get_cpu();
    rand_op_with(&mut cpu, 0xC43C, 0xA5);
    assert_eq!(get_reg_val(&mut cpu, 4), 0x24);
}

#[test]
fn random_bytes_vary() {
    let mut seen = [false; 256];
    for _ in 0..4000 {
        let mut cpu = get_cpu();
        rand_op(&mut cpu, 0xC0FF);
        seen[get_reg_val(&mut cpu, 0) as usize] = true;
    }
    assert!(seen.iter().filter(|s| **s).count() > 100);
}

#[test]
fn memory_reads_and_writes() {
    let mut mem = get_mem();
    assert_eq!(write_memory(&mut mem, 0xFFF, 7), Ok(()));
    assert_eq!(read_memory(&mem, 0xFFF), Ok(7));
    assert_eq!(read_memory(&mem, 0x1000), Err(EmuError::AddressOutOfRange));
    assert_eq!(write_memory(&mut mem, 0x1000, 1), Err(EmuError::AddressOutOfRange));
    assert_eq!(read_memory(&mem, 0), Ok(0));
}

#[test]
fn fonts_sit_at_0x50() {
    let mut mem = get_mem();
    let fonts = get_font_arr();
    init_fonts(&mut mem, &fonts);
    assert_eq!(&mem[0x50..0x55], &[0xF0, 0x90, 0x90, 0x90, 0xF0]);
    assert_eq!(&mem[0x50 + 75..0x50 + 80], &[0xF0, 0x80, 0xF0, 0x80, 0x80]);
    assert_eq!(mem[0x4F], 0);
    assert_eq!(mem[0xA0], 0);
}

#[test]
fn program_loads_at_0x200() {
    let mut mem = get_mem();
    assert_eq!(load_program(&mut mem, &vec![1, 2, 3]), Ok(()));
    assert_eq!(&mem[0x1FF..0x204], &[0, 1, 2, 3, 0]);
    let full = vec![9u8; 3584];
    assert_eq!(load_program(&mut mem, &full), Ok(()));
    assert_eq!(mem[0xFFF], 9);
    let too_long = vec![9u8; 3585];
    let before = mem;
    assert_eq!(load_program(&mut mem, &too_long), Err(EmuError::ProgramTooLarge));
    assert_eq!(mem, before);
}

fn lit(world: &World, x: usize, y: usize) -> u8 {
    world.px[y * 64 + x]
}

#[test]
fn drawing_a_glyph() {
    let mut mem = get_mem();
    init_fonts(&mut mem, &get_font_arr());
    let mut world = get_world();
    let mut cpu = cpu_with(&[(1, 3), (2, 4)]);
    cpu.regs.i.value = 0x50;
    assert_eq!(draw_sprite(&mut cpu, &mem, &mut world, 0xD125), Ok(()));
    let rows: [u8; 5] = [0xF0, 0x90, 0x90, 0x90, 0xF0];
    for y in 0..32 {
        for x in 0..64 {
            let want = if (3..11).contains(&x) && (4..9).contains(&y) {
                (rows[y - 4] >> (7 - (x - 3))) & 1
            } else {
                0
            };
            assert_eq!(lit(&world, x, y), want);
        }
    }
    assert_eq!(get_reg_val(&mut cpu, 0xF), 0);
    assert_eq!(world.display_redraw, 1);
    assert_eq!(cpu.pc, 0x202);
}

#[test]
fn drawing_twice_erases_and_collides() {
    let mut mem = get_mem();
    init_fonts(&mut mem, &get_font_arr());
    let mut world = get_world();
    world.px[5 * 64 + 20] = 1;
    let before = world;
    let mut cpu = cpu_with(&[(1, 60), (2, 30)]);
    cpu.regs.i.value = 0x50 + 5 * 8;
    assert_eq!(draw_sprite(&mut cpu, &mem, &mut world, 0xD125), Ok(()));
    assert_eq!(get_reg_val(&mut cpu, 0xF), 0);
    assert_ne!(world.px, before.px);
    assert_eq!(draw_sprite(&mut cpu, &mem, &mut world, 0xD125), Ok(()));
    assert_eq!(get_reg_val(&mut cpu, 0xF), 1);
    assert_eq!(world.px, before.px);
}

#[test]
fn drawing_wraps_each_pixel() {
    let mut mem = get_mem();
    mem[0x300] = 0xFF;
    mem[0x301] = 0x81;
    let mut world = get_world();
    let mut cpu = cpu_with(&[(1, 62 + 64), (2, 31 + 32)]);
    cpu.regs.i.value = 0x300;
    assert_eq!(draw_sprite(&mut cpu, &mem, &mut world, 0xD122), Ok(()));
    for x in 0..64 {
        let top = if x >= 62 || x < 6 { 1 } else { 0 };
        let wrapped = if x == 62 || x == 5 { 1 } else { 0 };
        assert_eq!(lit(&world, x, 31), top);
        assert_eq!(lit(&world, x, 0), wrapped);
        assert_eq!(lit(&world, x, 1), 0);
    }
}

#[test]
fn drawing_past_the_end_of_memory_is_refused() {
    let mem = get_mem();
    let mut world = get_world();
    let mut cpu = get_cpu();
    cpu.regs.i.value = 0xFFE;
    assert_eq!(draw_sprite(&mut cpu, &mem, &mut world, 0xD003), Err(EmuError::AddressOutOfRange));
    assert_eq!(world, get_world());
    assert_eq!(cpu.pc, 0x200);
    assert_eq!(draw_sprite(&mut cpu, &mem, &mut world, 0xD002), Ok(()));
    assert_eq!(cpu.pc, 0x202);
}

#[test]
fn clearing_the_screen() {
    let mut world = get_world();
    world.px[17] = 1;
    let mut cpu = get_cpu();
    clear_screen(&mut world, &mut cpu, 0x00E0);
    assert_eq!(world.px, [0u8; 2048]);
    assert_eq!(world.display_redraw, 1);
    assert_eq!(cpu.pc, 0x202);
}

#[test]
fn painting_the_frame() {
    let mut world = get_world();
    world.px[0] = 1;
    world.px[2047] = 1;
    world.display_redraw = 1;
    let mut frame = vec![7u8; 8192 + 4];
    world.draw(&mut frame);
    assert_eq!(&frame[0..8], &[0xff, 0xff, 0xff, 0xff, 0, 0, 0, 0xff]);
    assert_eq!(&frame[8188..8196], &[0xff, 0xff, 0xff, 0xff, 7, 7, 7, 7]);
    assert_eq!(world.display_redraw, 0);
    assert_eq!(world.px[0], 1);
}

#[test]
fn program_counter_wraps_at_16_bits() {
    let mut cpu = get_cpu();
    cpu.pc = 0xFFFF;
    ld_to_reg(&mut cpu, 0x6001);
    assert_eq!(cpu.pc, 1);
}
