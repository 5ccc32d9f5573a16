//! The 4096 bytes of memory, the font glyphs and the loading of a program.

use vstd::prelude::*;
use crate::error::EmuError;

verus! {

/// The number of bytes of memory.
pub const MEM_SIZE: usize = 4096;

/// The address of the first font glyph.
pub const FONT_BASE: u16 = 0x50;

/// The address at which a program is loaded and starts.
pub const PROGRAM_BASE: u16 = 0x200;

/// The sixteen glyphs `0`..`F`, five rows each, one byte per row.
pub open spec fn font_table() -> Seq<u8> {
    seq![
        0xF0u8, 0x90u8, 0x90u8, 0x90u8, 0xF0u8,
        0x20u8, 0x60u8, 0x20u8, 0x20u8, 0x70u8,
        0xF0u8, 0x10u8, 0xF0u8, 0x80u8, 0xF0u8,
        0xF0u8, 0x10u8, 0xF0u8, 0x10u8, 0xF0u8,
        0x90u8, 0x90u8, 0xF0u8, 0x10u8, 0x10u8,
        0xF0u8, 0x80u8, 0xF0u8, 0x10u8, 0xF0u8,
        0xF0u8, 0x80u8, 0xF0u8, 0x90u8, 0xF0u8,
        0xF0u8, 0x10u8, 0x20u8, 0x40u8, 0x40u8,
        0xF0u8, 0x90u8, 0xF0u8, 0x90u8, 0xF0u8,
        0xF0u8, 0x90u8, 0xF0u8, 0x10u8, 0xF0u8,
        0xF0u8, 0x90u8, 0xF0u8, 0x90u8, 0x90u8,
        0xE0u8, 0x90u8, 0xE0u8, 0x90u8, 0xE0u8,
        0xF0u8, 0x80u8, 0x80u8, 0x80u8, 0xF0u8,
        0xE0u8, 0x90u8, 0x90u8, 0x90u8, 0xE0u8,
        0xF0u8, 0x80u8, 0xF0u8, 0x80u8, 0xF0u8,
        0xF0u8, 0x80u8, 0xF0u8, 0x80u8, 0x80u8,
    ]
}

/// `mem` with `bytes` written from address `base` on; the rest is untouched.
pub open spec fn with_bytes(mem: Seq<u8>, base: int, bytes: Seq<u8>) -> Seq<u8> {
    Seq::new(
        mem.len(),
        |a: int|
            if base <= a < base + bytes.len() {
                bytes[a - base]
            } else {
                mem[a]
            },
    )
}

/// The memory of a machine that was switched on, had the fonts installed
/// and `program` loaded.
pub open spec fn booted_memory(program: Seq<u8>) -> Seq<u8> {
    with_bytes(
        with_bytes(Seq::new(4096, |a: int| 0u8), 0x50, font_table()),
        0x200,
        program,
    )
}

/// A zeroed memory of 4096 bytes.
pub fn get_mem() -> (mem: [u8; 4096])
    ensures
        mem@ == Seq::new(4096, |a: int| 0u8),
{
    let mem: [u8; 4096] = [0u8;4096];
    assert(mem@ =~= Seq::new(4096, |a: int| 0u8));
    mem
}

/// The font glyphs, in the order `0`..`F`.
pub fn get_font_arr() -> (fonts: [u8; 80])
    ensures
        fonts@ == font_table(),
{
    let fonts: [u8; 80] = [
        0xF0, 0x90, 0x90, 0x90, 0xF0,
        0x20, 0x60, 0x20, 0x20, 0x70,
        0xF0, 0x10, 0xF0, 0x80, 0xF0,
        0xF0, 0x10, 0xF0, 0x10, 0xF0,
        0x90, 0x90, 0xF0, 0x10, 0x10,
        0xF0, 0x80, 0xF0, 0x10, 0xF0,
        0xF0, 0x80, 0xF0, 0x90, 0xF0,
        0xF0, 0x10, 0x20, 0x40, 0x40,
        0xF0, 0x90, 0xF0, 0x90, 0xF0,
        0xF0, 0x90, 0xF0, 0x10, 0xF0,
        0xF0, 0x90, 0xF0, 0x90, 0x90,
        0xE0, 0x90, 0xE0, 0x90, 0xE0,
        0xF0, 0x80, 0x80, 0x80, 0xF0,
        0xE0, 0x90, 0x90, 0x90, 0xE0,
        0xF0, 0x80, 0xF0, 0x80, 0xF0,
        0xF0, 0x80, 0xF0, 0x80, 0x80,
    ];
    assert(fonts@ =~= font_table());
    fonts
}

/// Reads the byte at `addr`; an address above `0xFFF` is an error.
pub fn read_memory(mem_arr: &[u8; 4096], addr: u16) -> (r: Result<u8, EmuError>)
    ensures
        addr < 4096 ==> r == Ok::<u8, EmuError>(mem_arr@[addr as int]),
        addr >= 4096 ==> r == Err::<u8, EmuError>(EmuError::AddressOutOfRange),
{
    if addr as usize >= MEM_SIZE {
        return Err(EmuError::AddressOutOfRange);
    }
    Ok(mem_arr[addr as usize])
}

/// Writes `val` at `addr`; an address above `0xFFF` is an error and leaves
/// the memory as it was.
pub fn write_memory(mem_arr: &mut [u8; 4096], addr: u16, val: u8) -> (r: Result<(), EmuError>)
    ensures
        addr < 4096 ==> r.is_ok() && final(mem_arr)@ == old(mem_arr)@.update(addr as int, val),
        addr >= 4096 ==> r == Err::<(), EmuError>(EmuError::AddressOutOfRange) && final(mem_arr)@
            == old(mem_arr)@,
{
    if addr as usize >= MEM_SIZE {
        return Err(EmuError::AddressOutOfRange);
    }
    mem_arr[addr as usize] = val;
    Ok(())
}

/// Writes `bytes` into memory from `base` on. The caller shows that they fit.
fn copy_into(mem_arr: &mut [u8; 4096], base: usize, bytes: &[u8])
    requires
        base + bytes@.len() <= 4096,
    ensures
        final(mem_arr)@ == with_bytes(old(mem_arr)@, base as int, bytes@),
{
    let n: usize = bytes.len();
    let mut k: usize = 0;
    while k < n
        invariant
            n == bytes@.len(),
            base + n <= 4096,
            k <= n,
            mem_arr@ == with_bytes(old(mem_arr)@, base as int, bytes@.take(k as int)),
        decreases n - k,
    {
        mem_arr[base + k] = bytes[k];
        k += 1;
        assert(mem_arr@ =~= with_bytes(old(mem_arr)@, base as int, bytes@.take(k as int)));
    }
    assert(bytes@.take(n as int) =~= bytes@);
}

/// Installs the font glyphs at `0x050`..`0x09F`.
pub fn init_fonts(mem_arr: &mut [u8; 4096], fonts_arr: &[u8; 80])
    ensures
        final(mem_arr)@ == with_bytes(old(mem_arr)@, 0x50, fonts_arr@),
{
    copy_into(mem_arr, 0x50, fonts_arr.as_slice());
}

/// Loads a program at `0x200`. A program of more than 3584 bytes does not
/// fit: it is refused and the memory is left as it was.
pub fn load_program(mem_arr: &mut [u8; 4096], contents: &Vec<u8>) -> (r: Result<(), EmuError>)
    ensures
        contents@.len() <= 4096 - 0x200 ==> r.is_ok() && final(mem_arr)@ == with_bytes(
            old(mem_arr)@,
            0x200,
            contents@,
        ),
        contents@.len() > 4096 - 0x200 ==> r == Err::<(), EmuError>(EmuError::ProgramTooLarge)
            && final(mem_arr)@ == old(mem_arr)@,
{
    if contents.len() > MEM_SIZE - 0x200 {
        return Err(EmuError::ProgramTooLarge);
    }
    copy_into(mem_arr, 0x200, contents.as_slice());
    Ok(())
}

} // verus!
