use emu8::cpu::get_reg_val;
use emu8::decode::{class_of, join_word, n_of, nn_of, nnn_of, x_of, y_of};
use emu8::emu8::{count_down, execute, fetch, init, step, step_with, tick, tick_with, Tick};
use emu8::error::EmuError;

#[test]
fn decoding_fields() {
    assert_eq!(class_of(0xD125), 0xD);
    assert_eq!(x_of(0xD125), 1);
    assert_eq!(y_of(0xD125), 2);
    assert_eq!(n_of(0xD125), 5);
    assert_eq!(nn_of(0xD125), 0x25);
    assert_eq!(nnn_of(0xD125), 0x125);
    assert_eq!(join_word(0x6A, 0x02), 0x6A02);
}

#[test]
fn booted_machine() {
    let m = init(&mut vec![0x12, 0x00]).unwrap();
    assert_eq!(m.cpu.pc, 0x200);
    assert_eq!(m.mem[0x200], 0x12);
    assert_eq!(m.mem[0x201], 0x00);
    assert_eq!(m.mem[0x50], 0xF0);
    assert_eq!(m.world.px, [0u8; 2048]);
    assert_eq!(m.world.display_redraw, 0);
    assert_eq!(m.keyboard.len(), 16);
    assert_eq!(fetch(&m), Ok(0x1200));
}

#[test]
fn program_that_is_too_large() {
    assert_eq!(init(&mut vec![0u8; 3585]).err(), Some(EmuError::ProgramTooLarge));
    assert!(init(&mut vec![0u8; 3584]).is_ok());
    assert!(init(&mut Vec::new()).is_ok());
}

#[test]
fn load_then_return_reports_stack_underflow() {
    let mut m = init(&mut vec![0x6A, 0x02, 0x00, 0xEE]).unwrap();
    assert_eq!(tick(&mut m), Ok(Tick { tone: false, recognized: true }));
    assert_eq!(get_reg_val(&mut m.cpu, 0xA), 2);
    assert_eq!(m.cpu.pc, 0x202);
    let before = m.cpu.clone();
    assert_eq!(tick(&mut m), Err(EmuError::StackUnderflow));
    assert_eq!(m.cpu, before);
    assert_eq!(tick(&mut m), Err(EmuError::StackUnderflow));
}

#[test]
fn jump_to_self_runs_on() {
    let mut m = init(&mut vec![0x12, 0x00]).unwrap();
    for _ in 0..5000 {
        assert_eq!(tick(&mut m), Ok(Tick { tone: false, recognized: true }));
        assert_eq!(m.cpu.pc, 0x200);
    }
    assert!(m.cpu.sp.is_empty());
}

#[test]
fn unrecognized_opcodes_move_on() {
    for op in [0x0123u16, 0x8AB8, 0x8ABF, 0xE100, 0xF1FF, 0x0000] {
        let mut m = init(&mut Vec::new()).unwrap();
        let mem = m.mem;
        assert_eq!(execute(&mut m, op, 0), Ok(false));
        assert_eq!(m.cpu.pc, 0x202);
        assert_eq!(m.mem, mem);
        assert_eq!(m.world.px, [0u8; 2048]);
        assert!(m.cpu.sp.is_empty());
    }
}

#[test]
fn empty_memory_is_unrecognized_but_advances() {
    let mut m = init(&mut Vec::new()).unwrap();
    assert_eq!(step(&mut m), Ok(false));
    assert_eq!(m.cpu.pc, 0x202);
}

#[test]
fn fetch_past_the_end_of_memory() {
    let mut m = init(&mut Vec::new()).unwrap();
    m.cpu.pc = 0xFFF;
    assert_eq!(fetch(&m), Err(EmuError::AddressOutOfRange));
    assert_eq!(step_with(&mut m, 0), Err(EmuError::AddressOutOfRange));
    assert_eq!(m.cpu.pc, 0xFFF);
    m.cpu.pc = 0xFFE;
    m.mem[0xFFE] = 0x12;
    m.mem[0xFFF] = 0x34;
    assert_eq!(fetch(&m), Ok(0x1234));
}

#[test]
fn key_instruction_for_an_unknown_key() {
    let mut m = init(&mut Vec::new()).unwrap();
    m.cpu.regs.v[1].value = 0x10;
    assert_eq!(execute(&mut m, 0xE19E, 0), Err(EmuError::UnknownKey));
    assert_eq!(execute(&mut m, 0xE1A1, 0), Err(EmuError::UnknownKey));
    assert_eq!(m.cpu.pc, 0x200);
    m.cpu.regs.v[1].value = 0xF;
    assert_eq!(execute(&mut m, 0xE1A1, 0), Ok(true));
    assert_eq!(m.cpu.pc, 0x204);
}

#[test]
fn timers_count_down_and_drive_the_tone() {
    let mut m = init(&mut vec![0x12, 0x00]).unwrap();
    m.cpu.st = 2;
    m.cpu.dt = 1;
    assert_eq!(tick_with(&mut m, 0), Ok(Tick { tone: true, recognized: true }));
    assert_eq!((m.cpu.dt, m.cpu.st), (0, 1));
    assert_eq!(tick_with(&mut m, 0), Ok(Tick { tone: false, recognized: true }));
    assert_eq!((m.cpu.dt, m.cpu.st), (0, 0));
    assert_eq!(tick_with(&mut m, 0), Ok(Tick { tone: false, recognized: true }));
    assert_eq!((m.cpu.dt, m.cpu.st), (0, 0));
    m.cpu.st = 1;
    assert!(!count_down(&mut m.cpu));
}

#[test]
fn delay_timer_is_read_after_the_tick_counted_it_down() {
    let mut m = init(&mut vec![0xF3, 0x07]).unwrap();
    m.cpu.dt = 10;
    assert_eq!(tick_with(&mut m, 0), Ok(Tick { tone: false, recognized: true }));
    assert_eq!(get_reg_val(&mut m.cpu, 3), 9);
}

#[test]
fn a_small_program() {
    // LD V1, 0xFA; ADD V1, 0x0A; LD I, 0x300; LD B, V1; CALL 0x20C; JP 0x20A; RET
    let mut program = vec![
        0x61, 0xFA, 0x71, 0x0A, 0xA3, 0x00, 0xF1, 0x33, 0x22, 0x0C, 0x12, 0x0A, 0x00, 0xEE,
    ];
    let mut m = init(&mut program).unwrap();
    for _ in 0..6 {
        assert_eq!(step_with(&mut m, 0).map(|_| ()), Ok(()));
    }
    assert_eq!(get_reg_val(&mut m.cpu, 1), 4);
    assert_eq!(&m.mem[0x300..0x303], &[0, 0, 4]);
    assert_eq!(m.cpu.pc, 0x20A);
    assert!(m.cpu.sp.is_empty());
    assert_eq!(step_with(&mut m, 0), Ok(true));
    assert_eq!(m.cpu.pc, 0x20A);
}

#[test]
fn execute_draws_and_clears() {
    let mut m = init(&mut Vec::new()).unwrap();
    m.cpu.regs.i.value = 0x50;
    assert_eq!(execute(&mut m, 0xD005, 0), Ok(true));
    assert_eq!(m.world.display_redraw, 1);
    assert_eq!(&m.world.px[0..8], &[1, 1, 1, 1, 0, 0, 0, 0]);
    assert_eq!(execute(&mut m, 0x00E0, 0), Ok(true));
    assert_eq!(m.world.px, [0u8; 2048]);
    assert_eq!(execute(&mut m, 0xC1F0, 0xAB), Ok(true));
    assert_eq!(get_reg_val(&mut m.cpu, 1), 0xA0);
    m.cpu.regs.i.value = 0xFFF;
    assert_eq!(execute(&mut m, 0xD002, 0), Err(EmuError::AddressOutOfRange));
}
