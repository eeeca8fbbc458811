//! Bounded reads from the instruction stream.
//!
//! A decode looks at no more than the first fifteen bytes of its input, the
//! longest instruction the processor accepts, and at none past the end of the
//! slice. A position outside that window reads as zero.

use vstd::prelude::*;

verus! {

/// The longest instruction the processor accepts, in bytes.
pub const MAX_INSTRUCTION_LEN: usize = 15;

/// The number of leading bytes of `s` that a decode may look at.
pub open spec fn window(s: Seq<u8>) -> int {
    if s.len() < 15 {
        s.len() as int
    } else {
        15
    }
}

/// The byte at position `i`, or zero where `i` lies outside the window.
pub open spec fn byte_at(s: Seq<u8>, i: int) -> u8 {
    if 0 <= i < window(s) {
        s[i]
    } else {
        0
    }
}

/// The little-endian 16-bit value at position `i`.
pub open spec fn word_at(s: Seq<u8>, i: int) -> int {
    byte_at(s, i) + 0x100 * byte_at(s, i + 1)
}

/// The little-endian 32-bit value at position `i`.
pub open spec fn dword_at(s: Seq<u8>, i: int) -> int {
    word_at(s, i) + 0x1_0000 * word_at(s, i + 2)
}

/// The little-endian 64-bit value at position `i`.
pub open spec fn qword_at(s: Seq<u8>, i: int) -> int {
    dword_at(s, i) + 0x1_0000_0000 * dword_at(s, i + 4)
}

/// The little-endian value of the `n` bytes at position `i`, for a width of
/// one, two, four or eight bytes; zero for any other width.
pub open spec fn value_at(s: Seq<u8>, i: int, n: int) -> int {
    if n == 1 {
        byte_at(s, i) as int
    } else if n == 2 {
        word_at(s, i)
    } else if n == 4 {
        dword_at(s, i)
    } else if n == 8 {
        qword_at(s, i)
    } else {
        0
    }
}

/// The size of the window of `code`.
pub fn window_len(code: &[u8]) -> (n: usize)
    ensures
        n == window(code@),
{
    if code.len() < MAX_INSTRUCTION_LEN {
        code.len()
    } else {
        MAX_INSTRUCTION_LEN
    }
}

/// Reads the byte at position `i` without leaving the window.
pub fn read_byte(code: &[u8], i: usize) -> (b: u8)
    ensures
        b == byte_at(code@, i as int),
{
    if i < code.len() && i < MAX_INSTRUCTION_LEN {
        code[i]
    } else {
        0
    }
}

/// Reads a little-endian 16-bit value at position `i`.
pub fn read_word(code: &[u8], i: usize) -> (v: u16)
    ensures
        v == word_at(code@, i as int),
{
    if i >= MAX_INSTRUCTION_LEN {
        return 0;
    }
    let lo: u16 = read_byte(code, i) as u16;
    let hi: u16 = read_byte(code, i + 1) as u16;
    lo + 0x100 * hi
}

/// Reads a little-endian 32-bit value at position `i`.
pub fn read_dword(code: &[u8], i: usize) -> (v: u32)
    ensures
        v == dword_at(code@, i as int),
{
    if i >= MAX_INSTRUCTION_LEN {
        return 0;
    }
    let lo: u32 = read_word(code, i) as u32;
    let hi: u32 = read_word(code, i + 2) as u32;
    lo + 0x1_0000 * hi
}

/// Reads a little-endian 64-bit value at position `i`.
pub fn read_qword(code: &[u8], i: usize) -> (v: u64)
    ensures
        v == qword_at(code@, i as int),
{
    if i >= MAX_INSTRUCTION_LEN {
        return 0;
    }
    let lo: u64 = read_dword(code, i) as u64;
    let hi: u64 = read_dword(code, i + 4) as u64;
    lo + 0x1_0000_0000 * hi
}

/// Reads the little-endian value of `n` bytes at position `i`, for a width of
/// one, two, four or eight bytes; gives zero for any other width.
pub fn read_value(code: &[u8], i: usize, n: usize) -> (v: u64)
    ensures
        v == value_at(code@, i as int, n as int),
{
    if n == 1 {
        read_byte(code, i) as u64
    } else if n == 2 {
        read_word(code, i) as u64
    } else if n == 4 {
        read_dword(code, i) as u64
    } else if n == 8 {
        read_qword(code, i)
    } else {
        0
    }
}

} // verus!
