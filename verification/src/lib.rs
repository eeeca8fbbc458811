//! Length decoding of x86 machine instructions.
//!
//! Given raw bytes, the decoder finds where one instruction ends and splits it
//! into prefixes, opcode, ModR/M, SIB, displacement and immediate. It names no
//! mnemonic and prints no operand. There are two entry points, one for 32-bit
//! code ([`hde32::hde32_disasm`]) and one for 64-bit code
//! ([`hde64::hde64_disasm`]).
//!
//! Every function is total: malformed input is reported through error bits in
//! the result, never by a panic, and no read goes past the slice it was given.

pub mod bytes;
pub mod decode;
pub mod hde32;
pub mod hde64;
pub mod laws;
pub mod opcode;
pub mod prefix;
pub mod stream;
