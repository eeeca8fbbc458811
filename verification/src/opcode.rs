//! The opcode classifier: what follows each opcode.
//!
//! Each opcode has a rule that says whether a ModR/M byte follows and which
//! immediate the instruction carries. The rules stand in tables indexed by the
//! opcode byte, one for each mode and one for the opcodes behind the `0x0f`
//! escape. Further tables say which encodings of a defined opcode are
//! rejected: by the reg field of a group opcode, by the prefixes of a two-byte
//! opcode, by the operand of an x87 opcode.

use crate::prefix::{Mode, Prefixes};
use vstd::prelude::*;

verus! {

/// The first opcode byte of every two-byte opcode.
pub const ESCAPE: u8 = 0x0f;

/// What follows an opcode. The immediates are named as the processor manuals
/// name them.
#[derive(Clone, Copy, PartialEq, Eq, Structural, Debug)]
pub enum Rule {
    /// The opcode is not defined.
    Undefined,
    /// Nothing follows.
    Bare,
    /// A ModR/M byte.
    ModRm,
    /// An 8-bit immediate.
    Ib,
    /// A ModR/M byte and an 8-bit immediate.
    ModRmIb,
    /// A 16-bit immediate.
    Iw,
    /// An immediate of the operand size: 32 bits, or 16 behind an operand-size
    /// override.
    Iz,
    /// A ModR/M byte and an immediate of the operand size.
    ModRmIz,
    /// An immediate of the operand size that REX.W widens to 64 bits.
    Iv,
    /// A memory offset of the address size: in 32-bit code 32 bits, or 16
    /// behind an address-size override; in 64-bit code 64 bits, or 32 behind
    /// one.
    Moffs,
    /// A 16-bit immediate and then an 8-bit one.
    IwIb,
    /// A far pointer: an offset of the operand size and then a 16-bit
    /// selector. Only 32-bit code has it.
    Far,
    /// An 8-bit branch offset.
    Jb,
    /// A branch offset of the operand size.
    Jz,
    /// A ModR/M byte; an 8-bit immediate where the reg field is 0 or 1.
    UnaryIb,
    /// A ModR/M byte; an immediate of the operand size where the reg field is
    /// 0 or 1.
    UnaryIz,
}

/// The rule of each one-byte opcode in 32-bit code. A line holds four opcodes
/// and ends with the first of them.
pub const ONE_BYTE_PROTECTED: [Rule; 256] = [
    Rule::ModRm, Rule::ModRm, Rule::ModRm, Rule::ModRm,  // 00
    Rule::Ib, Rule::Iz, Rule::Bare, Rule::Bare,  // 04
    Rule::ModRm, Rule::ModRm, Rule::ModRm, Rule::ModRm,  // 08
    Rule::Ib, Rule::Iz, Rule::Bare, Rule::Undefined,  // 0c
    Rule::ModRm, Rule::ModRm, Rule::ModRm, Rule::ModRm,  // 10
    Rule::Ib, Rule::Iz, Rule::Bare, Rule::Bare,  // 14
    Rule::ModRm, Rule::ModRm, Rule::ModRm, Rule::ModRm,  // 18
    Rule::Ib, Rule::Iz, Rule::Bare, Rule::Bare,  // 1c
    Rule::ModRm, Rule::ModRm, Rule::ModRm, Rule::ModRm,  // 20
    Rule::Ib, Rule::Iz, Rule::Bare, Rule::Bare,  // 24
    Rule::ModRm, Rule::ModRm, Rule::ModRm, Rule::ModRm,  // 28
    Rule::Ib, Rule::Iz, Rule::Bare, Rule::Bare,  // 2c
    Rule::ModRm, Rule::ModRm, Rule::ModRm, Rule::ModRm,  // 30
    Rule::Ib, Rule::Iz, Rule::Bare, Rule::Bare,  // 34
    Rule::ModRm, Rule::ModRm, Rule::ModRm, Rule::ModRm,  // 38
    Rule::Ib, Rule::Iz, Rule::Bare, Rule::Bare,  // 3c
    Rule::Bare, Rule::Bare, Rule::Bare, Rule::Bare,  // 40
    Rule::Bare, Rule::Bare, Rule::Bare, Rule::Bare,  // 44
    Rule::Bare, Rule::Bare, Rule::Bare, Rule::Bare,  // 48
    Rule::Bare, Rule::Bare, Rule::Bare, Rule::Bare,  // 4c
    Rule::Bare, Rule::Bare, Rule::Bare, Rule::Bare,  // 50
    Rule::Bare, Rule::Bare, Rule::Bare, Rule::Bare,  // 54
    Rule::Bare, Rule::Bare, Rule::Bare, Rule::Bare,  // 58
    Rule::Bare, Rule::Bare, Rule::Bare, Rule::Bare,  // 5c
    Rule::Bare, Rule::Bare, Rule::ModRm, Rule::ModRm,  // 60
    Rule::Bare, Rule::Bare, Rule::Bare, Rule::Bare,  // 64
    Rule::Iz, Rule::ModRmIz, Rule::Ib, Rule::ModRmIb,  // 68
    Rule::Bare, Rule::Bare, Rule::Bare, Rule::Bare,  // 6c
    Rule::Jb, Rule::Jb, Rule::Jb, Rule::Jb,  // 70
    Rule::Jb, Rule::Jb, Rule::Jb, Rule::Jb,  // 74
    Rule::Jb, Rule::Jb, Rule::Jb, Rule::Jb,  // 78
    Rule::Jb, Rule::Jb, Rule::Jb, Rule::Jb,  // 7c
    Rule::ModRmIb, Rule::ModRmIz, Rule::ModRmIb, Rule::ModRmIb,  // 80
    Rule::ModRm, Rule::ModRm, Rule::ModRm, Rule::ModRm,  // 84
    Rule::ModRm, Rule::ModRm, Rule::ModRm, Rule::ModRm,  // 88
    Rule::ModRm, Rule::ModRm, Rule::ModRm, Rule::ModRm,  // 8c
    Rule::Bare, Rule::Bare, Rule::Bare, Rule::Bare,  // 90
    Rule::Bare, Rule::Bare, Rule::Bare, Rule::Bare,  // 94
    Rule::Bare, Rule::Bare, Rule::Far, Rule::Bare,  // 98
    Rule::Bare, Rule::Bare, Rule::Bare, Rule::Bare,  // 9c
    Rule::Moffs, Rule::Moffs, Rule::Moffs, Rule::Moffs,  // a0
    Rule::Bare, Rule::Bare, Rule::Bare, Rule::Bare,  // a4
    Rule::Ib, Rule::Iz, Rule::Bare, Rule::Bare,  // a8
    Rule::Bare, Rule::Bare, Rule::Bare, Rule::Bare,  // ac
    Rule::Ib, Rule::Ib, Rule::Ib, Rule::Ib,  // b0
    Rule::Ib, Rule::Ib, Rule::Ib, Rule::Ib,  // b4
    Rule::Iv, Rule::Iv, Rule::Iv, Rule::Iv,  // b8
    Rule::Iv, Rule::Iv, Rule::Iv, Rule::Iv,  // bc
    Rule::ModRmIb, Rule::ModRmIb, Rule::Iw, Rule::Bare,  // c0
    Rule::ModRm, Rule::ModRm, Rule::ModRmIb, Rule::ModRmIz,  // c4
    Rule::IwIb, Rule::Bare, Rule::Iw, Rule::Bare,  // c8
    Rule::Bare, Rule::Ib, Rule::Bare, Rule::Bare,  // cc
    Rule::ModRm, Rule::ModRm, Rule::ModRm, Rule::ModRm,  // d0
    Rule::Ib, Rule::Ib, Rule::Bare, Rule::Bare,  // d4
    Rule::ModRm, Rule::ModRm, Rule::ModRm, Rule::ModRm,  // d8
    Rule::ModRm, Rule::ModRm, Rule::ModRm, Rule::ModRm,  // dc
    Rule::Jb, Rule::Jb, Rule::Jb, Rule::Jb,  // e0
    Rule::Ib, Rule::Ib, Rule::Ib, Rule::Ib,  // e4
    Rule::Jz, Rule::Jz, Rule::Far, Rule::Jb,  // e8
    Rule::Bare, Rule::Bare, Rule::Bare, Rule::Bare,  // ec
    Rule::Bare, Rule::Bare, Rule::Bare, Rule::Bare,  // f0
    Rule::Bare, Rule::Bare, Rule::UnaryIb, Rule::UnaryIz,  // f4
    Rule::Bare, Rule::Bare, Rule::Bare, Rule::Bare,  // f8
    Rule::Bare, Rule::Bare, Rule::ModRm, Rule::ModRm,  // fc
];

/// The rule of each one-byte opcode in 64-bit code. A line holds four opcodes
/// and ends with the first of them.
pub const ONE_BYTE_LONG: [Rule; 256] = [
    Rule::ModRm, Rule::ModRm, Rule::ModRm, Rule::ModRm,  // 00
    Rule::Ib, Rule::Iz, Rule::Undefined, Rule::Undefined,  // 04
    Rule::ModRm, Rule::ModRm, Rule::ModRm, Rule::ModRm,  // 08
    Rule::Ib, Rule::Iz, Rule::Undefined, Rule::Undefined,  // 0c
    Rule::ModRm, Rule::ModRm, Rule::ModRm, Rule::ModRm,  // 10
    Rule::Ib, Rule::Iz, Rule::Undefined, Rule::Undefined,  // 14
    Rule::ModRm, Rule::ModRm, Rule::ModRm, Rule::ModRm,  // 18
    Rule::Ib, Rule::Iz, Rule::Undefined, Rule::Undefined,  // 1c
    Rule::ModRm, Rule::ModRm, Rule::ModRm, Rule::ModRm,  // 20
    Rule::Ib, Rule::Iz, Rule::Bare, Rule::Undefined,  // 24
    Rule::ModRm, Rule::ModRm, Rule::ModRm, Rule::ModRm,  // 28
    Rule::Ib, Rule::Iz, Rule::Bare, Rule::Undefined,  // 2c
    Rule::ModRm, Rule::ModRm, Rule::ModRm, Rule::ModRm,  // 30
    Rule::Ib, Rule::Iz, Rule::Bare, Rule::Undefined,  // 34
    Rule::ModRm, Rule::ModRm, Rule::ModRm, Rule::ModRm,  // 38
    Rule::Ib, Rule::Iz, Rule::Bare, Rule::Undefined,  // 3c
    Rule::Bare, Rule::Bare, Rule::Bare, Rule::Bare,  // 40
    Rule::Bare, Rule::Bare, Rule::Bare, Rule::Bare,  // 44
    Rule::Bare, Rule::Bare, Rule::Bare, Rule::Bare,  // 48
    Rule::Bare, Rule::Bare, Rule::Bare, Rule::Bare,  // 4c
    Rule::Bare, Rule::Bare, Rule::Bare, Rule::Bare,  // 50
    Rule::Bare, Rule::Bare, Rule::Bare, Rule::Bare,  // 54
    Rule::Bare, Rule::Bare, Rule::Bare, Rule::Bare,  // 58
    Rule::Bare, Rule::Bare, Rule::Bare, Rule::Bare,  // 5c
    Rule::Undefined, Rule::Undefined, Rule::Undefined, Rule::ModRm,  // 60
    Rule::Bare, Rule::Bare, Rule::Bare, Rule::Bare,  // 64
    Rule::Iz, Rule::ModRmIz, Rule::Ib, Rule::ModRmIb,  // 68
    Rule::Bare, Rule::Bare, Rule::Bare, Rule::Bare,  // 6c
    Rule::Jb, Rule::Jb, Rule::Jb, Rule::Jb,  // 70
    Rule::Jb, Rule::Jb, Rule::Jb, Rule::Jb,  // 74
    Rule::Jb, Rule::Jb, Rule::Jb, Rule::Jb,  // 78
    Rule::Jb, Rule::Jb, Rule::Jb, Rule::Jb,  // 7c
    Rule::ModRmIb, Rule::ModRmIz, Rule::Undefined, Rule::ModRmIb,  // 80
    Rule::ModRm, Rule::ModRm, Rule::ModRm, Rule::ModRm,  // 84
    Rule::ModRm, Rule::ModRm, Rule::ModRm, Rule::ModRm,  // 88
    Rule::ModRm, Rule::ModRm, Rule::ModRm, Rule::ModRm,  // 8c
    Rule::Bare, Rule::Bare, Rule::Bare, Rule::Bare,  // 90
    Rule::Bare, Rule::Bare, Rule::Bare, Rule::Bare,  // 94
    Rule::Bare, Rule::Bare, Rule::Undefined, Rule::Bare,  // 98
    Rule::Bare, Rule::Bare, Rule::Undefined, Rule::Undefined,  // 9c
    Rule::Moffs, Rule::Moffs, Rule::Moffs, Rule::Moffs,  // a0
    Rule::Bare, Rule::Bare, Rule::Bare, Rule::Bare,  // a4
    Rule::Ib, Rule::Iz, Rule::Bare, Rule::Bare,  // a8
    Rule::Bare, Rule::Bare, Rule::Bare, Rule::Bare,  // ac
    Rule::Ib, Rule::Ib, Rule::Ib, Rule::Ib,  // b0
    Rule::Ib, Rule::Ib, Rule::Ib, Rule::Ib,  // b4
    Rule::Iv, Rule::Iv, Rule::Iv, Rule::Iv,  // b8
    Rule::Iv, Rule::Iv, Rule::Iv, Rule::Iv,  // bc
    Rule::ModRmIb, Rule::ModRmIb, Rule::Iw, Rule::Bare,  // c0
    Rule::Undefined, Rule::Undefined, Rule::ModRmIb, Rule::ModRmIz,  // c4
    Rule::IwIb, Rule::Bare, Rule::Iw, Rule::Bare,  // c8
    Rule::Bare, Rule::Ib, Rule::Undefined, Rule::Bare,  // cc
    Rule::ModRm, Rule::ModRm, Rule::ModRm, Rule::ModRm,  // d0
    Rule::Undefined, Rule::Undefined, Rule::Undefined, Rule::Bare,  // d4
    Rule::ModRm, Rule::ModRm, Rule::ModRm, Rule::ModRm,  // d8
    Rule::ModRm, Rule::ModRm, Rule::ModRm, Rule::ModRm,  // dc
    Rule::Jb, Rule::Jb, Rule::Jb, Rule::Jb,  // e0
    Rule::Ib, Rule::Ib, Rule::Ib, Rule::Ib,  // e4
    Rule::Jz, Rule::Jz, Rule::Undefined, Rule::Jb,  // e8
    Rule::Bare, Rule::Bare, Rule::Bare, Rule::Bare,  // ec
    Rule::Bare, Rule::Bare, Rule::Bare, Rule::Bare,  // f0
    Rule::Bare, Rule::Bare, Rule::UnaryIb, Rule::UnaryIz,  // f4
    Rule::Bare, Rule::Bare, Rule::Bare, Rule::Bare,  // f8
    Rule::Bare, Rule::Bare, Rule::ModRm, Rule::ModRm,  // fc
];

/// The rule of each opcode behind the escape byte, in either mode. A line
/// holds four opcodes and ends with the first of them.
pub const TWO_BYTE: [Rule; 256] = [
    Rule::ModRm, Rule::ModRm, Rule::ModRm, Rule::ModRm,  // 00
    Rule::Undefined, Rule::Bare, Rule::Bare, Rule::Bare,  // 04
    Rule::Bare, Rule::Bare, Rule::Undefined, Rule::Undefined,  // 08
    Rule::Undefined, Rule::ModRm, Rule::Bare, Rule::ModRmIb,  // 0c
    Rule::ModRm, Rule::ModRm, Rule::ModRm, Rule::ModRm,  // 10
    Rule::ModRm, Rule::ModRm, Rule::ModRm, Rule::ModRm,  // 14
    Rule::ModRm, Rule::ModRm, Rule::ModRm, Rule::ModRm,  // 18
    Rule::ModRm, Rule::ModRm, Rule::ModRm, Rule::ModRm,  // 1c
    Rule::ModRm, Rule::ModRm, Rule::ModRm, Rule::ModRm,  // 20
    Rule::Undefined, Rule::Undefined, Rule::Undefined, Rule::Undefined,  // 24
    Rule::ModRm, Rule::ModRm, Rule::ModRm, Rule::ModRm,  // 28
    Rule::ModRm, Rule::ModRm, Rule::ModRm, Rule::ModRm,  // 2c
    Rule::Bare, Rule::Bare, Rule::Bare, Rule::Bare,  // 30
    Rule::Bare, Rule::Bare, Rule::Undefined, Rule::Undefined,  // 34
    Rule::Undefined, Rule::Undefined, Rule::Undefined, Rule::Undefined,  // 38
    Rule::Undefined, Rule::Undefined, Rule::Undefined, Rule::Undefined,  // 3c
    Rule::ModRm, Rule::ModRm, Rule::ModRm, Rule::ModRm,  // 40
    Rule::ModRm, Rule::ModRm, Rule::ModRm, Rule::ModRm,  // 44
    Rule::ModRm, Rule::ModRm, Rule::ModRm, Rule::ModRm,  // 48
    Rule::ModRm, Rule::ModRm, Rule::ModRm, Rule::ModRm,  // 4c
    Rule::ModRm, Rule::ModRm, Rule::ModRm, Rule::ModRm,  // 50
    Rule::ModRm, Rule::ModRm, Rule::ModRm, Rule::ModRm,  // 54
    Rule::ModRm, Rule::ModRm, Rule::ModRm, Rule::ModRm,  // 58
    Rule::ModRm, Rule::ModRm, Rule::ModRm, Rule::ModRm,  // 5c
    Rule::ModRm, Rule::ModRm, Rule::ModRm, Rule::ModRm,  // 60
    Rule::ModRm, Rule::ModRm, Rule::ModRm, Rule::ModRm,  // 64
    Rule::ModRm, Rule::ModRm, Rule::ModRm, Rule::ModRm,  // 68
    Rule::ModRm, Rule::ModRm, Rule::ModRm, Rule::ModRm,  // 6c
    Rule::ModRmIb, Rule::ModRmIb, Rule::ModRmIb, Rule::ModRmIb,  // 70
    Rule::ModRm, Rule::ModRm, Rule::ModRm, Rule::Bare,  // 74
    Rule::ModRm, Rule::ModRm, Rule::Undefined, Rule::Undefined,  // 78
    Rule::ModRm, Rule::ModRm, Rule::ModRm, Rule::ModRm,  // 7c
    Rule::Jz, Rule::Jz, Rule::Jz, Rule::Jz,  // 80
    Rule::Jz, Rule::Jz, Rule::Jz, Rule::Jz,  // 84
    Rule::Jz, Rule::Jz, Rule::Jz, Rule::Jz,  // 88
    Rule::Jz, Rule::Jz, Rule::Jz, Rule::Jz,  // 8c
    Rule::ModRm, Rule::ModRm, Rule::ModRm, Rule::ModRm,  // 90
    Rule::ModRm, Rule::ModRm, Rule::ModRm, Rule::ModRm,  // 94
    Rule::ModRm, Rule::ModRm, Rule::ModRm, Rule::ModRm,  // 98
    Rule::ModRm, Rule::ModRm, Rule::ModRm, Rule::ModRm,  // 9c
    Rule::Bare, Rule::Bare, Rule::Bare, Rule::ModRm,  // a0
    Rule::ModRmIb, Rule::ModRm, Rule::Undefined, Rule::Undefined,  // a4
    Rule::Bare, Rule::Bare, Rule::Bare, Rule::ModRm,  // a8
    Rule::ModRmIb, Rule::ModRm, Rule::ModRm, Rule::ModRm,  // ac
    Rule::ModRm, Rule::ModRm, Rule::ModRm, Rule::ModRm,  // b0
    Rule::ModRm, Rule::ModRm, Rule::ModRm, Rule::ModRm,  // b4
    Rule::ModRm, Rule::Undefined, Rule::ModRmIb, Rule::ModRm,  // b8
    Rule::ModRm, Rule::ModRm, Rule::ModRm, Rule::ModRm,  // bc
    Rule::ModRm, Rule::ModRm, Rule::ModRmIb, Rule::ModRm,  // c0
    Rule::ModRmIb, Rule::ModRmIb, Rule::ModRmIb, Rule::ModRm,  // c4
    Rule::Bare, Rule::Bare, Rule::Bare, Rule::Bare,  // c8
    Rule::Bare, Rule::Bare, Rule::Bare, Rule::Bare,  // cc
    Rule::ModRm, Rule::ModRm, Rule::ModRm, Rule::ModRm,  // d0
    Rule::ModRm, Rule::ModRm, Rule::ModRm, Rule::ModRm,  // d4
    Rule::ModRm, Rule::ModRm, Rule::ModRm, Rule::ModRm,  // d8
    Rule::ModRm, Rule::ModRm, Rule::ModRm, Rule::ModRm,  // dc
    Rule::ModRm, Rule::ModRm, Rule::ModRm, Rule::ModRm,  // e0
    Rule::ModRm, Rule::ModRm, Rule::ModRm, Rule::ModRm,  // e4
    Rule::ModRm, Rule::ModRm, Rule::ModRm, Rule::ModRm,  // e8
    Rule::ModRm, Rule::ModRm, Rule::ModRm, Rule::ModRm,  // ec
    Rule::ModRm, Rule::ModRm, Rule::ModRm, Rule::ModRm,  // f0
    Rule::ModRm, Rule::ModRm, Rule::ModRm, Rule::ModRm,  // f4
    Rule::ModRm, Rule::ModRm, Rule::ModRm, Rule::ModRm,  // f8
    Rule::ModRm, Rule::ModRm, Rule::ModRm, Rule::Undefined,  // fc
];

/// For each opcode behind the escape byte, the prefix situations in which it
/// is not defined, as a mask over `WITHOUT_PREFIX`, `WITH_REPNZ`, `WITH_REPX` and
/// `WITH_OPERAND_SIZE`. A line holds eight opcodes and ends with the first of
/// them.
pub const TWO_BYTE_EXCLUDED: [u8; 256] = [
    0x00, 0x00, 0x00, 0x00, 0x00, 0x00, 0x00, 0x00,  // 00
    0x00, 0x00, 0x00, 0x00, 0x00, 0x00, 0x00, 0x00,  // 08
    0x00, 0x00, 0x00, 0x06, 0x06, 0x06, 0x02, 0x06,  // 10
    0x00, 0x00, 0x00, 0x00, 0x00, 0x00, 0x00, 0x00,  // 18
    0x00, 0x00, 0x00, 0x00, 0x00, 0x00, 0x00, 0x00,  // 20
    0x06, 0x06, 0x00, 0x06, 0x00, 0x00, 0x06, 0x06,  // 28
    0x00, 0x00, 0x00, 0x00, 0x00, 0x00, 0x00, 0x00,  // 30
    0x00, 0x00, 0x00, 0x00, 0x00, 0x00, 0x00, 0x00,  // 38
    0x00, 0x00, 0x00, 0x00, 0x00, 0x00, 0x00, 0x00,  // 40
    0x00, 0x00, 0x00, 0x00, 0x00, 0x00, 0x00, 0x00,  // 48
    0x06, 0x00, 0x0a, 0x0a, 0x06, 0x06, 0x06, 0x06,  // 50
    0x00, 0x00, 0x00, 0x02, 0x00, 0x00, 0x00, 0x00,  // 58
    0x00, 0x00, 0x00, 0x00, 0x00, 0x00, 0x00, 0x00,  // 60
    0x06, 0x06, 0x06, 0x06, 0x07, 0x07, 0x06, 0x02,  // 68
    0x00, 0x06, 0x06, 0x06, 0x06, 0x06, 0x06, 0x0e,  // 70
    0x0e, 0x0e, 0x00, 0x00, 0x05, 0x05, 0x02, 0x02,  // 78
    0x00, 0x00, 0x00, 0x00, 0x00, 0x00, 0x00, 0x00,  // 80
    0x00, 0x00, 0x00, 0x00, 0x00, 0x00, 0x00, 0x00,  // 88
    0x00, 0x00, 0x00, 0x00, 0x00, 0x00, 0x00, 0x00,  // 90
    0x00, 0x00, 0x00, 0x00, 0x00, 0x00, 0x00, 0x00,  // 98
    0x00, 0x00, 0x00, 0x00, 0x00, 0x00, 0x00, 0x00,  // a0
    0x00, 0x00, 0x00, 0x00, 0x00, 0x00, 0x00, 0x00,  // a8
    0x00, 0x00, 0x00, 0x00, 0x00, 0x00, 0x00, 0x00,  // b0
    0x0b, 0x00, 0x04, 0x04, 0x04, 0x04, 0x04, 0x04,  // b8
    0x00, 0x00, 0x00, 0x0e, 0x06, 0x06, 0x06, 0x00,  // c0
    0x00, 0x00, 0x00, 0x00, 0x00, 0x00, 0x00, 0x00,  // c8
    0x05, 0x06, 0x06, 0x06, 0x06, 0x06, 0x01, 0x06,  // d0
    0x00, 0x00, 0x00, 0x00, 0x00, 0x00, 0x00, 0x00,  // d8
    0x06, 0x06, 0x06, 0x06, 0x06, 0x06, 0x01, 0x06,  // e0
    0x00, 0x00, 0x00, 0x00, 0x00, 0x00, 0x00, 0x00,  // e8
    0x0d, 0x06, 0x06, 0x06, 0x06, 0x06, 0x06, 0x06,  // f0
    0x00, 0x00, 0x00, 0x00, 0x00, 0x00, 0x00, 0x00,  // f8
];

/// For each of the opcodes `0xd9` to `0xdf` with a memory operand, the values
/// of the reg field that are not defined: bit 7 stands for reg 0, bit 0 for
/// reg 7.
pub const X87_MEMORY: [u8; 7] = [
    0x40, 0x00, 0x0a, 0x00, 0x04, 0x00, 0x00,
];

/// For each of the opcodes `0xd9` to `0xdf` with a register operand, a line of
/// eight masks, one for each value of the reg field. A mask holds the values of
/// the r/m field that are not defined: bit 7 stands for r/m 0, bit 0 for r/m 7.
/// A line ends with its opcode.
pub const X87_REGISTER: [u8; 56] = [
    0x00, 0x00, 0x7f, 0x00, 0x33, 0x01, 0x00, 0x00,  // d9
    0x00, 0x00, 0x00, 0x00, 0xff, 0xbf, 0xff, 0xff,  // da
    0x00, 0x00, 0x00, 0x00, 0x07, 0x00, 0x00, 0xff,  // db
    0x00, 0x00, 0x00, 0x00, 0x00, 0x00, 0x00, 0x00,  // dc
    0x00, 0x00, 0x00, 0x00, 0x00, 0x00, 0xff, 0xff,  // dd
    0x00, 0x00, 0x00, 0xbf, 0x00, 0x00, 0x00, 0x00,  // de
    0x00, 0x00, 0x00, 0x00, 0x7f, 0x00, 0x00, 0xff,  // df
];

/// Set in a prefix situation where the instruction has no legacy prefix.
pub const WITHOUT_PREFIX: u8 = 0x01;

/// Set in a prefix situation where `0xf2` stands among the prefixes.
pub const WITH_REPNZ: u8 = 0x02;

/// Set in a prefix situation where `0xf3` stands among the prefixes.
pub const WITH_REPX: u8 = 0x04;

/// Set in a prefix situation where `0x66` stands among the prefixes.
pub const WITH_OPERAND_SIZE: u8 = 0x08;

/// An instruction without a legacy prefix, or with an operand-size override.
pub const PLAIN_OR_OPERAND_SIZE: u8 = 0x09;

/// An instruction with either repeat prefix.
pub const WITH_REPEAT: u8 = 0x06;

/// The prefix situation of an instruction, as the tables test it: which of
/// the prefixes that select among the forms of a two-byte opcode are there.
pub open spec fn situation(p: Prefixes) -> u8 {
    (if p.rep == 0 && p.lock == 0 && p.seg == 0 && p.opsize == 0 && p.addrsize == 0 {
        WITHOUT_PREFIX
    } else {
        0
    }) | (if p.repnz {
        WITH_REPNZ
    } else {
        0
    }) | (if p.repx {
        WITH_REPX
    } else {
        0
    }) | (if p.opsize != 0 {
        WITH_OPERAND_SIZE
    } else {
        0
    })
}

/// Whether the mask `m` holds the field value `i`: bit 7 stands for 0, bit 0
/// for 7.
pub open spec fn holds(m: u8, i: u8) -> bool {
    (m >> ((7 - i) as u8)) & 1 == 1
}

/// The entry for the opcode `code` in the table for two-byte opcodes or in
/// the one-byte table of the mode.
pub open spec fn table_entry(mode: Mode, two_byte: bool, code: u8) -> Rule {
    if two_byte {
        TWO_BYTE[code as int]
    } else if mode == Mode::Long {
        ONE_BYTE_LONG[code as int]
    } else {
        ONE_BYTE_PROTECTED[code as int]
    }
}

/// The rule of the opcode `code`: its table entry, but that 64-bit code has
/// no far pointers, so that an opcode that takes one is not defined there.
pub open spec fn rule_of(mode: Mode, two_byte: bool, code: u8) -> Rule {
    let entry = table_entry(mode, two_byte, code);
    if mode == Mode::Long && entry == Rule::Far {
        Rule::Undefined
    } else {
        entry
    }
}

/// Whether a ModR/M byte follows an opcode of this rule.
pub open spec fn has_modrm(rule: Rule) -> bool {
    rule == Rule::ModRm || rule == Rule::ModRmIb || rule == Rule::ModRmIz || rule == Rule::UnaryIb
        || rule == Rule::UnaryIz
}

/// Whether the two-byte opcode `code` is not defined in the prefix situation
/// `sit`.
pub open spec fn prefix_excluded(code: u8, sit: u8) -> bool {
    TWO_BYTE_EXCLUDED[code as int] & sit != 0
}

/// Whether a group opcode has no instruction for the value `reg` of the reg
/// field. False of every opcode that is no group.
pub open spec fn group_undefined(two_byte: bool, code: u8, reg: u8) -> bool {
    if two_byte {
        match code {
            0x00 => reg >= 6,
            0x01 => reg == 5,
            0x71 | 0x72 => reg != 2 && reg != 4 && reg != 6,
            0x73 => reg != 2 && reg != 3 && reg != 6 && reg != 7,
            0xba => reg < 4,
            0xc7 => reg != 1 && reg != 6 && reg != 7,
            _ => false,
        }
    } else {
        match code {
            0x8f | 0xc6 | 0xc7 => reg != 0,
            0xfe => reg >= 2,
            0xff => reg == 7,
            _ => false,
        }
    }
}

/// Whether an x87 opcode (`0xd9` to `0xdf`) has no instruction for these
/// ModR/M fields. False of every other opcode.
pub open spec fn x87_undefined(code: u8, modrm_mod: u8, reg: u8, rm: u8) -> bool {
    if 0xd9 <= code <= 0xdf && reg < 8 && rm < 8 {
        if modrm_mod == 3 {
            holds(X87_REGISTER[(code - 0xd9) * 8 + reg], rm)
        } else {
            holds(X87_MEMORY[code - 0xd9], reg)
        }
    } else {
        false
    }
}

/// Whether a lock prefix may stand before the opcode with this reg field,
/// given that its operand is in memory.
pub open spec fn lock_allowed(two_byte: bool, code: u8, reg: u8) -> bool {
    if two_byte {
        match code {
            0xab | 0xb0 | 0xb1 | 0xb3 | 0xbb | 0xc0 | 0xc1 => true,
            0xba => reg >= 5,
            0xc7 => reg == 1,
            _ => false,
        }
    } else {
        match code {
            0x00 | 0x01 | 0x08 | 0x09 | 0x10 | 0x11 | 0x18 | 0x19 => true,
            0x20 | 0x21 | 0x28 | 0x29 | 0x30 | 0x31 | 0x86 | 0x87 => true,
            0x80 | 0x81 | 0x82 | 0x83 => reg != 7,
            0xf6 | 0xf7 => reg == 2 || reg == 3,
            0xfe | 0xff => reg <= 1,
            _ => false,
        }
    }
}

/// Whether the opcode moves to or from a control or debug register. Its
/// ModR/M byte names two registers whatever its mod field says.
pub open spec fn moves_special_register(two_byte: bool, code: u8) -> bool {
    two_byte && 0x20 <= code <= 0x23
}

/// Whether the opcode takes only a memory operand, so that the register form
/// of its ModR/M byte is rejected.
pub open spec fn needs_memory(two_byte: bool, code: u8, reg: u8, sit: u8) -> bool {
    if two_byte {
        match code {
            0x01 => reg < 4 || reg == 7,
            0x12 | 0x16 | 0xe7 => sit & WITH_OPERAND_SIZE != 0,
            0x13 | 0x17 | 0x2b => sit & PLAIN_OR_OPERAND_SIZE != 0,
            0xae => reg < 5,
            0xb2 | 0xb4 | 0xb5 => true,
            0xc3 => sit & WITHOUT_PREFIX != 0,
            0xc7 => reg == 1,
            0xf0 => sit & WITH_REPNZ != 0,
            _ => false,
        }
    } else {
        match code {
            0x62 | 0x8d | 0xc4 | 0xc5 => true,
            0xff => reg == 3 || reg == 5,
            _ => false,
        }
    }
}

/// Whether the two-byte opcode takes only a register operand, so that the
/// memory forms of its ModR/M byte are rejected.
pub open spec fn needs_register(code: u8, sit: u8) -> bool {
    match code {
        0x50 | 0xd7 | 0xf7 => sit & PLAIN_OR_OPERAND_SIZE != 0,
        0xd6 => sit & WITH_REPEAT != 0,
        0xc5 => true,
        _ => false,
    }
}

/// Whether the operand that the ModR/M byte names is one that the opcode does
/// not take.
pub open spec fn operand_rejected(
    two_byte: bool,
    code: u8,
    modrm_mod: u8,
    reg: u8,
    sit: u8,
) -> bool {
    if two_byte && (code == 0x20 || code == 0x22) {
        reg > 4 || reg == 1
    } else if two_byte && (code == 0x21 || code == 0x23) {
        reg == 4 || reg == 5
    } else if !two_byte && code == 0x8c {
        reg > 5
    } else if !two_byte && code == 0x8e {
        reg == 1 || reg > 5
    } else if modrm_mod == 3 {
        needs_memory(two_byte, code, reg, sit)
    } else {
        two_byte && needs_register(code, sit)
    }
}

/// Computes the prefix situation of an instruction.
pub fn prefix_situation(p: &Prefixes) -> (sit: u8)
    ensures
        sit == situation(*p),
{
    (if p.rep == 0 && p.lock == 0 && p.seg == 0 && p.opsize == 0 && p.addrsize == 0 {
        WITHOUT_PREFIX
    } else {
        0
    }) | (if p.repnz {
        WITH_REPNZ
    } else {
        0
    }) | (if p.repx {
        WITH_REPX
    } else {
        0
    }) | (if p.opsize != 0 {
        WITH_OPERAND_SIZE
    } else {
        0
    })
}

/// Tests whether the mask `m` holds the field value `i`.
pub fn mask_holds(m: u8, i: u8) -> (r: bool)
    requires
        i < 8,
    ensures
        r == holds(m, i),
{
    (m >> (7 - i)) & 1 == 1
}

/// Looks up the rule of an opcode.
pub fn lookup_rule(mode: Mode, two_byte: bool, code: u8) -> (rule: Rule)
    ensures
        rule == rule_of(mode, two_byte, code),
{
    let entry = if two_byte {
        TWO_BYTE[code as usize]
    } else if mode == Mode::Long {
        ONE_BYTE_LONG[code as usize]
    } else {
        ONE_BYTE_PROTECTED[code as usize]
    };
    if mode == Mode::Long && entry == Rule::Far {
        Rule::Undefined
    } else {
        entry
    }
}

/// Tests whether a ModR/M byte follows an opcode of this rule.
pub fn rule_has_modrm(rule: Rule) -> (r: bool)
    ensures
        r == has_modrm(rule),
{
    rule == Rule::ModRm || rule == Rule::ModRmIb || rule == Rule::ModRmIz || rule == Rule::UnaryIb
        || rule == Rule::UnaryIz
}

/// Tests whether a two-byte opcode is not defined in a prefix situation.
pub fn is_prefix_excluded(code: u8, sit: u8) -> (r: bool)
    ensures
        r == prefix_excluded(code, sit),
{
    TWO_BYTE_EXCLUDED[code as usize] & sit != 0
}

/// Tests whether a group opcode has no instruction for a reg field.
pub fn is_group_undefined(two_byte: bool, code: u8, reg: u8) -> (r: bool)
    ensures
        r == group_undefined(two_byte, code, reg),
{
    if two_byte {
        match code {
            0x00 => reg >= 6,
            0x01 => reg == 5,
            0x71 | 0x72 => reg != 2 && reg != 4 && reg != 6,
            0x73 => reg != 2 && reg != 3 && reg != 6 && reg != 7,
            0xba => reg < 4,
            0xc7 => reg != 1 && reg != 6 && reg != 7,
            _ => false,
        }
    } else {
        match code {
            0x8f | 0xc6 | 0xc7 => reg != 0,
            0xfe => reg >= 2,
            0xff => reg == 7,
            _ => false,
        }
    }
}

/// Tests whether an x87 opcode has no instruction for these ModR/M fields.
pub fn is_x87_undefined(code: u8, modrm_mod: u8, reg: u8, rm: u8) -> (r: bool)
    ensures
        r == x87_undefined(code, modrm_mod, reg, rm),
{
    if 0xd9 <= code && code <= 0xdf && reg < 8 && rm < 8 {
        let row: usize = (code - 0xd9) as usize;
        if modrm_mod == 3 {
            mask_holds(X87_REGISTER[row * 8 + reg as usize], rm)
        } else {
            mask_holds(X87_MEMORY[row], reg)
        }
    } else {
        false
    }
}

/// Tests whether a lock prefix may stand before an opcode.
pub fn is_lock_allowed(two_byte: bool, code: u8, reg: u8) -> (r: bool)
    ensures
        r == lock_allowed(two_byte, code, reg),
{
    if two_byte {
        match code {
            0xab | 0xb0 | 0xb1 | 0xb3 | 0xbb | 0xc0 | 0xc1 => true,
            0xba => reg >= 5,
            0xc7 => reg == 1,
            _ => false,
        }
    } else {
        match code {
            0x00 | 0x01 | 0x08 | 0x09 | 0x10 | 0x11 | 0x18 | 0x19 => true,
            0x20 | 0x21 | 0x28 | 0x29 | 0x30 | 0x31 | 0x86 | 0x87 => true,
            0x80 | 0x81 | 0x82 | 0x83 => reg != 7,
            0xf6 | 0xf7 => reg == 2 || reg == 3,
            0xfe | 0xff => reg <= 1,
            _ => false,
        }
    }
}

/// Tests whether an opcode moves to or from a control or debug register.
pub fn is_special_register_move(two_byte: bool, code: u8) -> (r: bool)
    ensures
        r == moves_special_register(two_byte, code),
{
    two_byte && 0x20 <= code && code <= 0x23
}

/// Tests whether an opcode takes only a memory operand.
pub fn is_memory_only(two_byte: bool, code: u8, reg: u8, sit: u8) -> (r: bool)
    ensures
        r == needs_memory(two_byte, code, reg, sit),
{
    if two_byte {
        match code {
            0x01 => reg < 4 || reg == 7,
            0x12 | 0x16 | 0xe7 => sit & WITH_OPERAND_SIZE != 0,
            0x13 | 0x17 | 0x2b => sit & PLAIN_OR_OPERAND_SIZE != 0,
            0xae => reg < 5,
            0xb2 | 0xb4 | 0xb5 => true,
            0xc3 => sit & WITHOUT_PREFIX != 0,
            0xc7 => reg == 1,
            0xf0 => sit & WITH_REPNZ != 0,
            _ => false,
        }
    } else {
        match code {
            0x62 | 0x8d | 0xc4 | 0xc5 => true,
            0xff => reg == 3 || reg == 5,
            _ => false,
        }
    }
}

/// Tests whether a two-byte opcode takes only a register operand.
pub fn is_register_only(code: u8, sit: u8) -> (r: bool)
    ensures
        r == needs_register(code, sit),
{
    match code {
        0x50 | 0xd7 | 0xf7 => sit & PLAIN_OR_OPERAND_SIZE != 0,
        0xd6 => sit & WITH_REPEAT != 0,
        0xc5 => true,
        _ => false,
    }
}

/// Tests whether the ModR/M byte names an operand that the opcode does not
/// take.
pub fn is_operand_rejected(two_byte: bool, code: u8, modrm_mod: u8, reg: u8, sit: u8) -> (r: bool)
    ensures
        r == operand_rejected(two_byte, code, modrm_mod, reg, sit),
{
    if two_byte && (code == 0x20 || code == 0x22) {
        reg > 4 || reg == 1
    } else if two_byte && (code == 0x21 || code == 0x23) {
        reg == 4 || reg == 5
    } else if !two_byte && code == 0x8c {
        reg > 5
    } else if !two_byte && code == 0x8e {
        reg == 1 || reg > 5
    } else if modrm_mod == 3 {
        is_memory_only(two_byte, code, reg, sit)
    } else {
        two_byte && is_register_only(code, sit)
    }
}

} // verus!
