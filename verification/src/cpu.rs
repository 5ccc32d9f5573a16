//! The processor: register file, program counter, call stack and timers,
//! and the model that the contracts of the instructions are stated over.

use vstd::prelude::*;

verus! {

/// One 8-bit general-purpose register.
#[derive(Clone, Copy, Debug, PartialEq, Eq)]
pub struct Reg8 {
    pub value: u8,
}

/// The two halves of a 16-bit register.
#[derive(Clone, Copy, Debug, PartialEq, Eq)]
pub struct Bytes {
    pub hi: u8,
    pub lo: u8,
}

/// The 16-bit index register.
#[derive(Clone, Copy, Debug, PartialEq, Eq)]
pub struct Reg16 {
    pub value: u16,
}

impl Reg16 {
    /// Splits the register into its high and low byte.
    pub fn bytes(&self) -> (b: Bytes)
        ensures
            b.hi as int == self.value as int / 256,
            b.lo as int == self.value as int % 256,
    {
        Bytes { hi: (self.value / 256) as u8, lo: (self.value % 256) as u8 }
    }

    /// Joins a high and a low byte into a register.
    pub fn from_bytes(b: Bytes) -> (r: Reg16)
        ensures
            r.value as int == b.hi as int * 256 + b.lo as int,
    {
        Reg16 { value: (b.hi as u16) * 256 + (b.lo as u16) }
    }
}

/// The register file: `V0`..`VF` by index, and the index register `I`.
#[derive(Clone, Copy, Debug, PartialEq, Eq)]
pub struct REGS {
    pub v: [Reg8; 16],
    pub i: Reg16,
}

/// Registers, program counter, call stack and the two timers.
#[derive(Clone, Debug, PartialEq, Eq)]
pub struct CPU {
    pub pc: u16,
    pub sp: Vec<u16>,
    pub regs: REGS,
    pub dt: u8,
    pub st: u8,
}

/// The mathematical model of a `CPU`.
pub struct CpuState {
    /// The sixteen general-purpose registers.
    pub v: Seq<u8>,
    /// The index register.
    pub i: u16,
    /// The program counter.
    pub pc: u16,
    /// The call stack, oldest return address first.
    pub stack: Seq<u16>,
    /// The delay timer.
    pub dt: u8,
    /// The sound timer.
    pub st: u8,
}

/// The address `by` bytes after `pc`, wrapping at 16 bits.
pub open spec fn pc_after(pc: u16, by: u16) -> u16 {
    if pc + by > 0xFFFF {
        (pc + by - 0x10000) as u16
    } else {
        (pc + by) as u16
    }
}

impl CpuState {
    /// The state of a machine that has just been switched on.
    pub open spec fn reset() -> CpuState {
        CpuState { v: Seq::new(16, |k: int| 0u8), i: 0, pc: 0x200, stack: Seq::empty(), dt: 0, st: 0 }
    }

    /// The same state with register `r` holding `val`.
    pub open spec fn set_reg(self, r: int, val: u8) -> CpuState {
        CpuState { v: self.v.update(r, val), ..self }
    }

    /// The same state with the index register holding `i`.
    pub open spec fn set_i(self, i: u16) -> CpuState {
        CpuState { i: i, ..self }
    }

    /// The same state with the program counter at `pc`.
    pub open spec fn jump(self, pc: u16) -> CpuState {
        CpuState { pc: pc, ..self }
    }

    /// The same state with the program counter moved on by `by` bytes.
    pub open spec fn advance(self, by: u16) -> CpuState {
        CpuState { pc: pc_after(self.pc, by), ..self }
    }

    /// The same state with the program counter moved past the next
    /// instruction if `skip` holds, and onto it otherwise.
    pub open spec fn skip_if(self, skip: bool) -> CpuState {
        self.advance(if skip { 4u16 } else { 2u16 })
    }
}

impl View for CPU {
    type V = CpuState;

    open spec fn view(&self) -> CpuState {
        CpuState {
            v: Seq::new(16, |k: int| self.regs.v@[k].value),
            i: self.regs.i.value,
            pc: self.pc,
            stack: self.sp@,
            dt: self.dt,
            st: self.st,
        }
    }
}

/// A CPU with every register and timer at zero, an empty call stack, and
/// the program counter at `0x200`.
pub fn get_cpu() -> (cpu: CPU)
    ensures
        cpu@ == CpuState::reset(),
{
    let init_regs = REGS { v: [Reg8 { value: 0 };16], i: Reg16 { value: 0 } };
    let cpu = CPU { pc: 0x200, sp: Vec::new(), regs: init_regs, dt: 0, st: 0 };
    assert(cpu@.v =~= CpuState::reset().v);
    cpu
}

/// Reads register `V[reg_byte]`. The processor is left as it was.
pub fn get_reg_val(cpu: &mut CPU, reg_byte: u8) -> (val: u8)
    requires
        reg_byte < 16,
    ensures
        val == old(cpu)@.v[reg_byte as int],
        *final(cpu) == *old(cpu),
{
    cpu.regs.v[reg_byte as usize].value
}

/// Writes `val` to register `V[reg_byte]` and leaves everything else as it was.
pub fn set_reg_val(cpu: &mut CPU, val: u8, reg_byte: u8)
    requires
        reg_byte < 16,
    ensures
        final(cpu)@ == old(cpu)@.set_reg(reg_byte as int, val),
{
    cpu.regs.v[reg_byte as usize] = Reg8 { value: val };
    assert(cpu@.v =~= old(cpu)@.v.update(reg_byte as int, val));
}

/// Moves the program counter on by `by` bytes, wrapping at 16 bits.
pub fn advance_pc(cpu: &mut CPU, by: u16)
    ensures
        final(cpu)@ == old(cpu)@.advance(by),
{
    cpu.pc = cpu.pc.wrapping_add(by);
}

} // verus!
