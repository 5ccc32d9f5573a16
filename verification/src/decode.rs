//! The fields of a 16-bit instruction word.

use vstd::prelude::*;

verus! {

/// The class of an instruction: bits 12 to 15.
pub open spec fn op_class(opcode: u16) -> u8 {
    (opcode / 0x1000) as u8
}

/// The field `X`: bits 8 to 11.
pub open spec fn op_x(opcode: u16) -> u8 {
    ((opcode / 0x100) % 16) as u8
}

/// The field `Y`: bits 4 to 7.
pub open spec fn op_y(opcode: u16) -> u8 {
    ((opcode / 0x10) % 16) as u8
}

/// The field `N`: bits 0 to 3.
pub open spec fn op_n(opcode: u16) -> u8 {
    (opcode % 16) as u8
}

/// The field `NN`: bits 0 to 7.
pub open spec fn op_nn(opcode: u16) -> u8 {
    (opcode % 0x100) as u8
}

/// The field `NNN`: bits 0 to 11.
pub open spec fn op_nnn(opcode: u16) -> u16 {
    opcode % 0x1000
}

/// The instruction word made of two bytes, the first one the high byte.
pub open spec fn word(hi: u8, lo: u8) -> u16 {
    (hi as int * 256 + lo as int) as u16
}

/// Extracts the class of an instruction, its high nibble.
pub fn class_of(opcode: u16) -> (c: u8)
    ensures
        c == op_class(opcode),
        c < 16,
{
    let c: u8 = ((opcode & 0xF000) >> 12) as u8;
    assert(((opcode & 0xF000u16) >> 12u16) as u8 == (opcode / 0x1000u16) as u8
        && (opcode / 0x1000u16) < 16u16) by (bit_vector);
    c
}

/// Extracts the field `X`, the register that most instructions work on.
pub fn x_of(opcode: u16) -> (x: u8)
    ensures
        x == op_x(opcode),
        x < 16,
{
    let x: u8 = ((opcode & 0x0F00) >> 8) as u8;
    assert(((opcode & 0x0F00u16) >> 8u16) as u8 == ((opcode / 0x100u16) % 16u16) as u8) by (bit_vector);
    x
}

/// Extracts the field `Y`, the second register of an instruction.
pub fn y_of(opcode: u16) -> (y: u8)
    ensures
        y == op_y(opcode),
        y < 16,
{
    let y: u8 = ((opcode & 0x00F0) >> 4) as u8;
    assert(((opcode & 0x00F0u16) >> 4u16) as u8 == ((opcode / 0x10u16) % 16u16) as u8) by (bit_vector);
    y
}

/// Extracts the field `N`, the low nibble.
pub fn n_of(opcode: u16) -> (n: u8)
    ensures
        n == op_n(opcode),
        n < 16,
{
    let n: u8 = (opcode & 0x000F) as u8;
    assert((opcode & 0x000Fu16) as u8 == (opcode % 16u16) as u8) by (bit_vector);
    n
}

/// Extracts the field `NN`, the low byte.
pub fn nn_of(opcode: u16) -> (nn: u8)
    ensures
        nn == op_nn(opcode),
{
    let nn: u8 = (opcode & 0x00FF) as u8;
    assert((opcode & 0x00FFu16) as u8 == (opcode % 0x100u16) as u8) by (bit_vector);
    nn
}

/// Extracts the field `NNN`, a twelve-bit address.
pub fn nnn_of(opcode: u16) -> (nnn: u16)
    ensures
        nnn == op_nnn(opcode),
        nnn < 0x1000,
{
    let nnn: u16 = opcode & 0x0FFF;
    assert(opcode & 0x0FFFu16 == opcode % 0x1000u16) by (bit_vector);
    nnn
}

/// Joins two bytes, the first one the high byte, into an instruction word.
pub fn join_word(hi: u8, lo: u8) -> (w: u16)
    ensures
        w == word(hi, lo),
{
    let w: u16 = ((hi as u16) << 8) | (lo as u16);
    assert((((hi as u16) << 8u16) | (lo as u16)) == (hi as u16) * 256u16 + (lo as u16)) by (bit_vector);
    w
}

} // verus!
