//! The machine as a whole: start-up, the dispatch of an instruction word to
//! its handler, and the tick that the driver calls sixty times a second.

use vstd::prelude::*;
use std::collections::HashMap;
use crate::cpu::{advance_pc, get_cpu, get_reg_val, CpuState, CPU};
use crate::decode::{class_of, join_word, n_of, nn_of, op_class, op_n, op_nn, op_x, word, x_of};
use crate::display::{get_world, World};
use crate::error::EmuError;
use crate::instructions::{
    add_byte_to_reg, add_op, add_to_i, and_op, call_addr, clear_screen, draw_sprite, dt_ld,
    jump_inst, jump_to_loc, ld_b, ld_dt, ld_f, ld_i, ld_mem_to_i, ld_reg_to_reg, ld_to_reg, ld_v,
    ld_vx_k, or_op, rand_op_with, random_byte, ret, shl_op, shr_op, skip_next_eq,
    skip_next_eq_regs, skip_next_not_eq, sknp_op, skp_op, sne_op, st_ld, sub_op, subn_op, xor_op,
};
use crate::isa;
use crate::keyslog::{get_keyboard_map, released_keyboard};
use crate::memory::{
    booted_memory, get_font_arr, get_mem, init_fonts, load_program, read_memory,
};

verus! {

/// The whole machine: memory, processor, screen and keyboard.
#[derive(Clone, Debug)]
pub struct Machine {
    pub mem: [u8; 4096],
    pub cpu: CPU,
    pub world: World,
    pub keyboard: HashMap<u8, u8>,
}

/// The mathematical model of a `Machine`.
pub struct MachineState {
    /// The processor.
    pub cpu: CpuState,
    /// The 4096 bytes of memory.
    pub mem: Seq<u8>,
    /// The 2048 cells of the framebuffer, row by row.
    pub px: Seq<u8>,
    /// The redraw flag.
    pub redraw: u8,
    /// The keyboard: key code to 0 (released) or another value (held down).
    pub keys: Map<u8, u8>,
}

impl View for Machine {
    type V = MachineState;

    open spec fn view(&self) -> MachineState {
        MachineState {
            cpu: self.cpu@,
            mem: self.mem@,
            px: self.world.px@,
            redraw: self.world.display_redraw,
            keys: self.keyboard@,
        }
    }
}

/// What one tick reports to the driver.
#[derive(Clone, Copy, Debug, PartialEq, Eq)]
pub struct Tick {
    /// Whether the tone is to sound: the sound timer is above 0.
    pub tone: bool,
    /// Whether the instruction was one of the instruction set. One that was
    /// not has had no effect but to move the program counter on.
    pub recognized: bool,
}

/// The machine as it is before its first tick, with `program` loaded.
pub open spec fn booted(program: Seq<u8>) -> MachineState {
    MachineState {
        cpu: CpuState::reset(),
        mem: booted_memory(program),
        px: Seq::new(2048, |k: int| 0u8),
        redraw: 0,
        keys: released_keyboard(),
    }
}

/// Whether `opcode` is one of the instructions of the instruction set.
/// The class is looked up by the high nibble; the classes `0`, `8`, `E` and
/// `F` then by the whole word, the low nibble, or the low byte.
pub open spec fn recognized(opcode: u16) -> bool {
    let c = op_class(opcode);
    let n = op_n(opcode);
    let nn = op_nn(opcode);
    if c == 0 {
        opcode == 0x00E0 || opcode == 0x00EE
    } else if c == 8 {
        n <= 7 || n == 0xE
    } else if c == 0xE {
        nn == 0x9E || nn == 0xA1
    } else if c == 0xF {
        nn == 0x07 || nn == 0x0A || nn == 0x15 || nn == 0x18 || nn == 0x1E || nn == 0x29 || nn
            == 0x33 || nn == 0x55 || nn == 0x65
    } else {
        true
    }
}

/// The fatal condition, if there is one, on which `opcode` stops in state
/// `m`: a return with an empty stack, a memory access past the end of
/// memory, or a key instruction for a key that the keyboard lacks.
pub open spec fn fault(m: MachineState, opcode: u16) -> Option<EmuError> {
    let c = op_class(opcode);
    let nn = op_nn(opcode);
    let x = op_x(opcode) as int;
    if opcode == 0x00EE {
        if m.cpu.stack.len() == 0 {
            Some(EmuError::StackUnderflow)
        } else {
            None
        }
    } else if c == 0xD {
        if m.cpu.i + op_n(opcode) > 4096 {
            Some(EmuError::AddressOutOfRange)
        } else {
            None
        }
    } else if c == 0xE && (nn == 0x9E || nn == 0xA1) {
        if !m.keys.contains_key(m.cpu.v[x]) {
            Some(EmuError::UnknownKey)
        } else {
            None
        }
    } else if c == 0xF && nn == 0x33 {
        if m.cpu.i + 2 >= 4096 {
            Some(EmuError::AddressOutOfRange)
        } else {
            None
        }
    } else if c == 0xF && (nn == 0x55 || nn == 0x65) {
        if m.cpu.i + x >= 4096 {
            Some(EmuError::AddressOutOfRange)
        } else {
            None
        }
    } else {
        None
    }
}

/// The processor after `opcode` was executed in state `m` without a fault;
/// `rnd` is the byte that was drawn for `CXNN`. An instruction that is not
/// recognized only moves the program counter on.
pub open spec fn next_cpu(m: MachineState, opcode: u16, rnd: u8) -> CpuState {
    let c = op_class(opcode);
    let n = op_n(opcode);
    let nn = op_nn(opcode);
    let s = m.cpu;
    if !recognized(opcode) {
        s.advance(2)
    } else if c == 0 {
        if opcode == 0x00E0 {
            s.advance(2)
        } else {
            isa::ret(s)
        }
    } else if c == 1 {
        isa::jp(s, opcode)
    } else if c == 2 {
        isa::call(s, opcode)
    } else if c == 3 {
        isa::se_byte(s, opcode)
    } else if c == 4 {
        isa::sne_byte(s, opcode)
    } else if c == 5 {
        isa::se_reg(s, opcode)
    } else if c == 6 {
        isa::ld_byte(s, opcode)
    } else if c == 7 {
        isa::add_byte(s, opcode)
    } else if c == 8 {
        if n == 0 {
            isa::ld_reg(s, opcode)
        } else if n == 1 {
            isa::or(s, opcode)
        } else if n == 2 {
            isa::and(s, opcode)
        } else if n == 3 {
            isa::xor(s, opcode)
        } else if n == 4 {
            isa::add_reg(s, opcode)
        } else if n == 5 {
            isa::sub_reg(s, opcode)
        } else if n == 6 {
            isa::shr(s, opcode)
        } else if n == 7 {
            isa::subn_reg(s, opcode)
        } else {
            isa::shl(s, opcode)
        }
    } else if c == 9 {
        isa::sne_reg(s, opcode)
    } else if c == 0xA {
        isa::ld_i_addr(s, opcode)
    } else if c == 0xB {
        isa::jp_v0(s, opcode)
    } else if c == 0xC {
        isa::rnd(s, opcode, rnd)
    } else if c == 0xD {
        isa::drw(s, opcode, m.mem, m.px)
    } else if c == 0xE {
        if nn == 0x9E {
            isa::skp(s, opcode, m.keys)
        } else {
            isa::sknp(s, opcode, m.keys)
        }
    } else {
        if nn == 0x07 {
            isa::ld_vx_dt(s, opcode)
        } else if nn == 0x0A {
            isa::ld_vx_key(s, opcode, m.keys)
        } else if nn == 0x15 {
            isa::ld_dt_vx(s, opcode)
        } else if nn == 0x18 {
            isa::ld_st_vx(s, opcode)
        } else if nn == 0x1E {
            isa::add_i(s, opcode)
        } else if nn == 0x29 {
            isa::ld_font(s, opcode)
        } else if nn == 0x65 {
            isa::ld_regs(s, opcode, m.mem)
        } else {
            s.advance(2)
        }
    }
}

/// The memory after `opcode` was executed in state `m` without a fault.
pub open spec fn next_mem(m: MachineState, opcode: u16) -> Seq<u8> {
    if op_class(opcode) == 0xF && op_nn(opcode) == 0x33 {
        isa::bcd_memory(m.cpu, opcode, m.mem)
    } else if op_class(opcode) == 0xF && op_nn(opcode) == 0x55 {
        isa::stored_memory(m.cpu, opcode, m.mem)
    } else {
        m.mem
    }
}

/// The framebuffer after `opcode` was executed in state `m` without a fault.
pub open spec fn next_px(m: MachineState, opcode: u16) -> Seq<u8> {
    if opcode == 0x00E0 {
        Seq::new(2048, |k: int| 0u8)
    } else if op_class(opcode) == 0xD {
        isa::drw_pixels(m.cpu, opcode, m.mem, m.px)
    } else {
        m.px
    }
}

/// The machine after `opcode` was executed in state `m` without a fault.
/// Clearing the screen and drawing raise the redraw flag.
pub open spec fn next(m: MachineState, opcode: u16, rnd: u8) -> MachineState {
    MachineState {
        cpu: next_cpu(m, opcode, rnd),
        mem: next_mem(m, opcode),
        px: next_px(m, opcode),
        redraw: if opcode == 0x00E0 || op_class(opcode) == 0xD {
            1u8
        } else {
            m.redraw
        },
        keys: m.keys,
    }
}

/// Executing `opcode` in state `pre`, with `rnd` the random byte, gives the
/// result `r` and the state `post`: on a fault the error and no change,
/// else the next state, and whether the instruction was recognized.
pub open spec fn executes(
    pre: MachineState,
    opcode: u16,
    rnd: u8,
    r: Result<bool, EmuError>,
    post: MachineState,
) -> bool {
    match fault(pre, opcode) {
        Some(e) => r == Err::<bool, EmuError>(e) && post == pre,
        None => r == Ok::<bool, EmuError>(recognized(opcode)) && post == next(pre, opcode, rnd),
    }
}

/// The instruction word at the program counter, high byte first, if both
/// of its bytes lie in memory.
pub open spec fn fetched(m: MachineState) -> Option<u16> {
    if m.cpu.pc + 1 < 4096 {
        Some(word(m.mem[m.cpu.pc as int], m.mem[m.cpu.pc + 1]))
    } else {
        None
    }
}

/// One fetch, decode and execute from state `pre`, with `rnd` the random
/// byte, gives the result `r` and the state `post`.
pub open spec fn steps(pre: MachineState, rnd: u8, r: Result<bool, EmuError>, post: MachineState) -> bool {
    match fetched(pre) {
        Some(opcode) => executes(pre, opcode, rnd, r, post),
        None => r == Err::<bool, EmuError>(EmuError::AddressOutOfRange) && post == pre,
    }
}

/// The processor after both timers have counted down by one, not below 0.
pub open spec fn counted_down(s: CpuState) -> CpuState {
    CpuState {
        dt: if s.dt > 0 { (s.dt - 1) as u8 } else { 0u8 },
        st: if s.st > 0 { (s.st - 1) as u8 } else { 0u8 },
        ..s
    }
}

/// One tick from state `pre`, with `rnd` the random byte, gives the result
/// `r` and the state `post`: first the timers count down, then one
/// instruction runs from the state so reached. The tone is to sound if the
/// sound timer is above 0 once it has counted down.
pub open spec fn ticks(pre: MachineState, rnd: u8, r: Result<Tick, EmuError>, post: MachineState) -> bool {
    let mid = MachineState { cpu: counted_down(pre.cpu), ..pre };
    match r {
        Ok(t) => t.tone == (mid.cpu.st > 0) && steps(
            mid,
            rnd,
            Ok::<bool, EmuError>(t.recognized),
            post,
        ),
        Err(e) => steps(mid, rnd, Err::<bool, EmuError>(e), post),
    }
}

/// Builds the machine: zeroed memory with the fonts installed and
/// `contents` loaded at `0x200`, a reset processor, a dark screen and a
/// keyboard with no key held down. A program that does not fit is refused.
pub fn init(contents: &mut Vec<u8>) -> (r: Result<Machine, EmuError>)
    ensures
        final(contents)@ == old(contents)@,
        match r {
            Ok(machine) => old(contents)@.len() <= 3584 && machine@ == booted(old(contents)@),
            Err(e) => old(contents)@.len() > 3584 && e == EmuError::ProgramTooLarge,
        },
{
    let mut mem_arr = get_mem();
    let fonts_arr = get_font_arr();
    init_fonts(&mut mem_arr, &fonts_arr);
    let cpu = get_cpu();
    match load_program(&mut mem_arr, contents) {
        Ok(()) => {},
        Err(e) => {
            return Err(e);
        },
    }
    let world = get_world();
    let keyboard = get_keyboard_map();
    Ok(Machine { mem: mem_arr, cpu: cpu, world: world, keyboard: keyboard })
}

/// Counts both timers down by one, not below 0, and says whether the tone
/// is to sound afterwards.
pub fn count_down(cpu: &mut CPU) -> (tone: bool)
    ensures
        final(cpu)@ == counted_down(old(cpu)@),
        tone == (final(cpu)@.st > 0),
{
    if cpu.dt > 0 {
        cpu.dt -= 1;
    }
    if cpu.st > 0 {
        cpu.st -= 1;
    }
    cpu.st > 0
}

/// Reads the instruction word at the program counter.
pub fn fetch(machine: &Machine) -> (r: Result<u16, EmuError>)
    ensures
        match fetched(machine@) {
            Some(opcode) => r == Ok::<u16, EmuError>(opcode),
            None => r == Err::<u16, EmuError>(EmuError::AddressOutOfRange),
        },
{
    let hi: u8 = match read_memory(&machine.mem, machine.cpu.pc) {
        Ok(byte) => byte,
        Err(e) => {
            return Err(e);
        },
    };
    let lo: u8 = match read_memory(&machine.mem, machine.cpu.pc + 1) {
        Ok(byte) => byte,
        Err(e) => {
            return Err(e);
        },
    };
    Ok(join_word(hi, lo))
}

/// Executes `opcode` on the machine; `rnd` is the byte that `CXNN` stores.
/// On a fault the machine is left as it was and the error says which; else
/// the result says whether the instruction was recognized.
pub fn execute(machine: &mut Machine, opcode: u16, rnd: u8) -> (r: Result<bool, EmuError>)
    ensures
        executes(old(machine)@, opcode, rnd, r, final(machine)@),
{
    let class: u8 = class_of(opcode);
    let low_nibble: u8 = n_of(opcode);
    let low_byte: u8 = nn_of(opcode);
    let x_reg: u8 = x_of(opcode);
    match class {
        0x0 => {
            if opcode == 0x00E0 {
                clear_screen(&mut machine.world, &mut machine.cpu, opcode);
            } else if opcode == 0x00EE {
                match ret(&mut machine.cpu, opcode) {
                    Ok(()) => {},
                    Err(e) => {
                        return Err(e);
                    },
                }
            } else {
                advance_pc(&mut machine.cpu, 2);
                return Ok(false);
            }
        },
        0x1 => jump_inst(&mut machine.cpu, opcode),
        0x2 => call_addr(&mut machine.cpu, opcode),
        0x3 => skip_next_eq(&mut machine.cpu, opcode),
        0x4 => skip_next_not_eq(&mut machine.cpu, opcode),
        0x5 => skip_next_eq_regs(&mut machine.cpu, opcode),
        0x6 => ld_to_reg(&mut machine.cpu, opcode),
        0x7 => add_byte_to_reg(&mut machine.cpu, opcode),
        0x8 => {
            match low_nibble {
                0x0 => ld_reg_to_reg(&mut machine.cpu, opcode),
                0x1 => or_op(&mut machine.cpu, opcode),
                0x2 => and_op(&mut machine.cpu, opcode),
                0x3 => xor_op(&mut machine.cpu, opcode),
                0x4 => add_op(&mut machine.cpu, opcode),
                0x5 => sub_op(&mut machine.cpu, opcode),
                0x6 => shr_op(&mut machine.cpu, opcode),
                0x7 => subn_op(&mut machine.cpu, opcode),
                0xE => shl_op(&mut machine.cpu, opcode),
                _ => {
                    advance_pc(&mut machine.cpu, 2);
                    return Ok(false);
                },
            }
        },
        0x9 => sne_op(&mut machine.cpu, opcode),
        0xA => ld_mem_to_i(&mut machine.cpu, opcode),
        0xB => jump_to_loc(&mut machine.cpu, opcode),
        0xC => rand_op_with(&mut machine.cpu, opcode, rnd),
        0xD => {
            match draw_sprite(&mut machine.cpu, machine.mem.as_slice(), &mut machine.world, opcode) {
                Ok(()) => {},
                Err(e) => {
                    return Err(e);
                },
            }
        },
        0xE => {
            if low_byte == 0x9E || low_byte == 0xA1 {
                let key: u8 = get_reg_val(&mut machine.cpu, x_reg);
                if !machine.keyboard.contains_key(&key) {
                    return Err(EmuError::UnknownKey);
                }
                if low_byte == 0x9E {
                    skp_op(&mut machine.cpu, opcode, &mut machine.keyboard);
                } else {
                    sknp_op(&mut machine.cpu, opcode, &mut machine.keyboard);
                }
            } else {
                advance_pc(&mut machine.cpu, 2);
                return Ok(false);
            }
        },
        _ => {
            match low_byte {
                0x07 => ld_dt(&mut machine.cpu, opcode),
                0x0A => ld_vx_k(&mut machine.cpu, opcode, &mut machine.keyboard),
                0x15 => dt_ld(&mut machine.cpu, opcode),
                0x18 => st_ld(&mut machine.cpu, opcode),
                0x1E => add_to_i(&mut machine.cpu, opcode),
                0x29 => ld_f(&mut machine.cpu, opcode),
                0x33 => {
                    match ld_b(&mut machine.mem, &mut machine.cpu, opcode) {
                        Ok(()) => {},
                        Err(e) => {
                            return Err(e);
                        },
                    }
                },
                0x55 => {
                    match ld_i(&mut machine.mem, &mut machine.cpu, opcode) {
                        Ok(()) => {},
                        Err(e) => {
                            return Err(e);
                        },
                    }
                },
                0x65 => {
                    match ld_v(&mut machine.mem, &mut machine.cpu, opcode) {
                        Ok(()) => {},
                        Err(e) => {
                            return Err(e);
                        },
                    }
                },
                _ => {
                    advance_pc(&mut machine.cpu, 2);
                    return Ok(false);
                },
            }
        },
    }
    Ok(true)
}

/// One fetch, decode and execute; `rnd` is the byte that `CXNN` stores.
pub fn step_with(machine: &mut Machine, rnd: u8) -> (r: Result<bool, EmuError>)
    ensures
        steps(old(machine)@, rnd, r, final(machine)@),
{
    match fetch(machine) {
        Ok(opcode) => execute(machine, opcode, rnd),
        Err(e) => Err(e),
    }
}

/// One fetch, decode and execute. A random byte is drawn if the
/// instruction is a `CXNN`, and only then.
pub fn step(machine: &mut Machine) -> (r: Result<bool, EmuError>)
    ensures
        exists|rnd: u8| steps(old(machine)@, rnd, r, final(machine)@),
{
    match fetch(machine) {
        Ok(opcode) => {
            let rnd: u8 = if class_of(opcode) == 0xC {
                random_byte()
            } else {
                0
            };
            let r = execute(machine, opcode, rnd);
            assert(steps(old(machine)@, rnd, r, machine@));
            r
        },
        Err(e) => {
            assert(steps(old(machine)@, 0u8, Err::<bool, EmuError>(e), machine@));
            Err(e)
        },
    }
}

/// One tick of the driver for the random byte `rnd`: the timers count
/// down, the tone follows the sound timer, and one instruction runs.
pub fn tick_with(machine: &mut Machine, rnd: u8) -> (r: Result<Tick, EmuError>)
    ensures
        ticks(old(machine)@, rnd, r, final(machine)@),
{
    let tone: bool = count_down(&mut machine.cpu);
    match step_with(machine, rnd) {
        Ok(recognized) => Ok(Tick { tone: tone, recognized: recognized }),
        Err(e) => Err(e),
    }
}

/// One tick of the driver: the timers count down, the tone follows the
/// sound timer, and one instruction runs. A random byte is drawn if the
/// instruction is a `CXNN`, and only then.
pub fn tick(machine: &mut Machine) -> (r: Result<Tick, EmuError>)
    ensures
        exists|rnd: u8| ticks(old(machine)@, rnd, r, final(machine)@),
{
    let tone: bool = count_down(&mut machine.cpu);
    let ghost mid = machine@;
    let stepped = step(machine);
    let r = match stepped {
        Ok(recognized) => Ok(Tick { tone: tone, recognized: recognized }),
        Err(e) => Err(e),
    };
    proof {
        let rnd = choose|rnd: u8| steps(mid, rnd, stepped, machine@);
        assert(ticks(old(machine)@, rnd, r, machine@));
    }
    r
}

} // verus!
