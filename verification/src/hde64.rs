//! The decoder for 64-bit code.

use crate::decode::{decode, decode_instruction, flag, flag_if, Addressing, Decoded, Immediate};
use crate::laws::{
    lemma_decode_deterministic, lemma_fields_fit, lemma_length_bounds, lemma_prefix_fields,
};
use crate::opcode::Rule;
use crate::prefix::{rex_byte, segment_override, Mode, Prefixes};
use vstd::prelude::*;

pub use crate::prefix::{
    PREFIX_ADDRESS_SIZE, PREFIX_LOCK, PREFIX_OPERAND_SIZE, PREFIX_REPNZ, PREFIX_REPX,
    PREFIX_SEGMENT_CS, PREFIX_SEGMENT_DS, PREFIX_SEGMENT_ES, PREFIX_SEGMENT_FS, PREFIX_SEGMENT_GS,
    PREFIX_SEGMENT_SS,
};

verus! {

/// A ModR/M byte is there.
pub const F_MODRM: u32 = 0x00000001;

/// A SIB byte is there.
pub const F_SIB: u32 = 0x00000002;

/// An 8-bit immediate is there.
pub const F_IMM8: u32 = 0x00000004;

/// A 16-bit immediate is there.
pub const F_IMM16: u32 = 0x00000008;

/// A 32-bit immediate is there.
pub const F_IMM32: u32 = 0x00000010;

/// A 64-bit immediate is there.
pub const F_IMM64: u32 = 0x00000020;

/// An 8-bit displacement is there.
pub const F_DISP8: u32 = 0x00000040;

/// A 16-bit displacement is there.
pub const F_DISP16: u32 = 0x00000080;

/// A 32-bit displacement is there.
pub const F_DISP32: u32 = 0x00000100;

/// The immediate is a branch offset.
pub const F_RELATIVE: u32 = 0x00000200;

/// One of the four errors below was found.
pub const F_ERROR: u32 = 0x00001000;

/// The opcode is not defined.
pub const F_ERROR_OPCODE: u32 = 0x00002000;

/// The instruction needs more bytes than may be read.
pub const F_ERROR_LENGTH: u32 = 0x00004000;

/// A lock prefix stands where none is allowed.
pub const F_ERROR_LOCK: u32 = 0x00008000;

/// The operand is one that the opcode does not take.
pub const F_ERROR_OPERAND: u32 = 0x00010000;

/// The prefix `0xf2` is there.
pub const F_PREFIX_REPNZ: u32 = 0x01000000;

/// The prefix `0xf3` is there.
pub const F_PREFIX_REPX: u32 = 0x02000000;

/// The two repeat prefixes together.
pub const F_PREFIX_REP: u32 = 0x03000000;

/// The operand-size override is there.
pub const F_PREFIX_66: u32 = 0x04000000;

/// The address-size override is there.
pub const F_PREFIX_67: u32 = 0x08000000;

/// The lock prefix is there.
pub const F_PREFIX_LOCK: u32 = 0x10000000;

/// A segment override is there.
pub const F_PREFIX_SEG: u32 = 0x20000000;

/// A REX prefix is there.
pub const F_PREFIX_REX: u32 = 0x40000000;

/// All the prefix flags together.
pub const F_PREFIX_ANY: u32 = 0x7f000000;

/// The immediate of an instruction: one field, read at the width that the
/// flags name.
#[allow(non_camel_case_types)]
#[derive(Clone, Copy, PartialEq, Eq, Debug)]
pub struct imm_union {
    /// The immediate, extended with zeros to 64 bits.
    pub bits: u64,
}

/// The displacement of an instruction: one field, read at the width that the
/// flags name.
#[allow(non_camel_case_types)]
#[derive(Clone, Copy, PartialEq, Eq, Debug)]
pub struct disp_union {
    /// The displacement, extended with zeros to 32 bits.
    pub bits: u32,
}

impl imm_union {
    /// The low 8 bits of the immediate.
    pub fn imm8(&self) -> (v: u8)
        ensures
            v == self.bits % 0x100,
    {
        (self.bits % 0x100) as u8
    }

    /// The low 16 bits of the immediate.
    pub fn imm16(&self) -> (v: u16)
        ensures
            v == self.bits % 0x1_0000,
    {
        (self.bits % 0x1_0000) as u16
    }

    /// The low 32 bits of the immediate.
    pub fn imm32(&self) -> (v: u32)
        ensures
            v == self.bits % 0x1_0000_0000,
    {
        (self.bits % 0x1_0000_0000) as u32
    }

    /// All 64 bits of the immediate.
    pub fn imm64(&self) -> (v: u64)
        ensures
            v == self.bits,
    {
        self.bits
    }
}

impl disp_union {
    /// The low 8 bits of the displacement.
    pub fn disp8(&self) -> (v: u8)
        ensures
            v == self.bits % 0x100,
    {
        (self.bits % 0x100) as u8
    }

    /// The low 16 bits of the displacement.
    pub fn disp16(&self) -> (v: u16)
        ensures
            v == self.bits % 0x1_0000,
    {
        (self.bits % 0x1_0000) as u16
    }

    /// All 32 bits of the displacement.
    pub fn disp32(&self) -> (v: u32)
        ensures
            v == self.bits,
    {
        self.bits
    }
}

/// One decoded instruction of 64-bit code.
#[allow(non_camel_case_types)]
#[derive(Clone, Copy, PartialEq, Eq, Debug)]
pub struct hde64s {
    /// The length of the instruction in bytes.
    pub len: u8,
    /// The last repeat prefix, `0xf3` or `0xf2`, or zero.
    pub p_rep: u8,
    /// The lock prefix, `0xf0`, or zero.
    pub p_lock: u8,
    /// The last segment override, or zero.
    pub p_seg: u8,
    /// The operand-size override, `0x66`, or zero.
    pub p_66: u8,
    /// The address-size override, `0x67`, or zero.
    pub p_67: u8,
    /// The REX prefix, or zero.
    pub rex: u8,
    /// Bit 3 of the REX prefix.
    pub rex_w: u8,
    /// Bit 2 of the REX prefix.
    pub rex_r: u8,
    /// Bit 1 of the REX prefix.
    pub rex_x: u8,
    /// Bit 0 of the REX prefix.
    pub rex_b: u8,
    /// The first opcode byte.
    pub opcode: u8,
    /// The second opcode byte where the first is `0x0f`, else zero.
    pub opcode2: u8,
    /// The ModR/M byte.
    pub modrm: u8,
    /// Bits 7 and 6 of the ModR/M byte.
    pub modrm_mod: u8,
    /// Bits 5 to 3 of the ModR/M byte.
    pub modrm_reg: u8,
    /// Bits 2 to 0 of the ModR/M byte.
    pub modrm_rm: u8,
    /// The SIB byte.
    pub sib: u8,
    /// Bits 7 and 6 of the SIB byte.
    pub sib_scale: u8,
    /// Bits 5 to 3 of the SIB byte.
    pub sib_index: u8,
    /// Bits 2 to 0 of the SIB byte.
    pub sib_base: u8,
    /// The immediate.
    pub imm: imm_union,
    /// The displacement.
    pub disp: disp_union,
    /// What is there and what is wrong, as a union of the `F_` constants.
    pub flags: u32,
}

/// The flags for the ModR/M byte, the SIB byte and the displacement.
#[verifier::opaque]
pub open spec fn addressing_flags(x: Addressing) -> u32 {
    flag(x.present, F_MODRM) | flag(x.has_sib, F_SIB) | flag(x.disp_size == 1, F_DISP8)
        | flag(x.disp_size == 2, F_DISP16) | flag(x.disp_size == 4, F_DISP32)
}

/// The flags for the immediate.
#[verifier::opaque]
pub open spec fn immediate_flags(i: Immediate) -> u32 {
    flag(i.imm8, F_IMM8) | flag(i.imm16, F_IMM16) | flag(i.imm32, F_IMM32)
        | flag(i.imm64, F_IMM64) | flag(i.relative, F_RELATIVE)
}

/// The flags for the errors. `F_ERROR` is set where any of the other four
/// is.
#[verifier::opaque]
pub open spec fn error_flags(d: Decoded) -> u32 {
    flag(d.undefined || d.too_long || d.lock_rejected || d.operand_rejected, F_ERROR)
        | flag(d.undefined, F_ERROR_OPCODE) | flag(d.too_long, F_ERROR_LENGTH)
        | flag(d.lock_rejected, F_ERROR_LOCK) | flag(d.operand_rejected, F_ERROR_OPERAND)
}

/// The flags for the prefixes.
#[verifier::opaque]
pub open spec fn prefix_flags(p: Prefixes) -> u32 {
    flag(p.repnz, F_PREFIX_REPNZ) | flag(p.repx, F_PREFIX_REPX)
        | flag(p.opsize != 0, F_PREFIX_66) | flag(p.addrsize != 0, F_PREFIX_67)
        | flag(p.lock != 0, F_PREFIX_LOCK) | flag(p.seg != 0, F_PREFIX_SEG)
        | flag(p.rex != 0, F_PREFIX_REX)
}

/// The flags of a decoded instruction.
pub open spec fn flags_of(d: Decoded) -> u32 {
    addressing_flags(d.addressing) | immediate_flags(d.immediate) | error_flags(d)
        | prefix_flags(d.prefixes)
}

/// The record that stands for a decoded instruction.
pub open spec fn record_of(d: Decoded) -> hde64s {
    hde64s {
        len: d.len,
        p_rep: d.prefixes.rep,
        p_lock: d.prefixes.lock,
        p_seg: d.prefixes.seg,
        p_66: d.prefixes.opsize,
        p_67: d.prefixes.addrsize,
        rex: d.prefixes.rex,
        rex_w: (d.prefixes.rex / 8) % 2,
        rex_r: (d.prefixes.rex / 4) % 2,
        rex_x: (d.prefixes.rex / 2) % 2,
        rex_b: d.prefixes.rex % 2,
        opcode: d.opcode.first,
        opcode2: d.opcode.second,
        modrm: d.addressing.modrm,
        modrm_mod: d.addressing.modrm_mod,
        modrm_reg: d.addressing.modrm_reg,
        modrm_rm: d.addressing.modrm_rm,
        sib: d.addressing.sib,
        sib_scale: d.addressing.sib_scale,
        sib_index: d.addressing.sib_index,
        sib_base: d.addressing.sib_base,
        imm: imm_union { bits: d.immediate.value },
        disp: disp_union { bits: d.addressing.disp },
        flags: flags_of(d),
    }
}

/// The instruction of 64-bit code at the start of `s`.
pub open spec fn decode64(s: Seq<u8>) -> hde64s {
    record_of(decode(s, Mode::Long))
}

/// The record with every field zero.
pub open spec fn zero() -> hde64s {
    hde64s {
        len: 0,
        p_rep: 0,
        p_lock: 0,
        p_seg: 0,
        p_66: 0,
        p_67: 0,
        rex: 0,
        rex_w: 0,
        rex_r: 0,
        rex_x: 0,
        rex_b: 0,
        opcode: 0,
        opcode2: 0,
        modrm: 0,
        modrm_mod: 0,
        modrm_reg: 0,
        modrm_rm: 0,
        sib: 0,
        sib_scale: 0,
        sib_index: 0,
        sib_base: 0,
        imm: imm_union { bits: 0 },
        disp: disp_union { bits: 0 },
        flags: 0,
    }
}

/// Computes the flags of a decoded instruction.
fn pack_flags(d: &Decoded) -> (flags: u32)
    ensures
        flags == flags_of(*d),
{
    proof {
        reveal(addressing_flags);
        reveal(immediate_flags);
        reveal(error_flags);
        reveal(prefix_flags);
    }
    let x = &d.addressing;
    let i = &d.immediate;
    let p = &d.prefixes;
    let addressing: u32 = flag_if(x.present, F_MODRM) | flag_if(x.has_sib, F_SIB)
        | flag_if(x.disp_size == 1, F_DISP8)
        | flag_if(x.disp_size == 2, F_DISP16)
        | flag_if(x.disp_size == 4, F_DISP32);
    let immediate: u32 = flag_if(i.imm8, F_IMM8) | flag_if(i.imm16, F_IMM16)
        | flag_if(i.imm32, F_IMM32) | flag_if(i.imm64, F_IMM64)
        | flag_if(i.relative, F_RELATIVE);
    let error: u32 = flag_if(
        d.undefined || d.too_long || d.lock_rejected || d.operand_rejected,
        F_ERROR,
    ) | flag_if(d.undefined, F_ERROR_OPCODE) | flag_if(d.too_long, F_ERROR_LENGTH)
        | flag_if(d.lock_rejected, F_ERROR_LOCK) | flag_if(d.operand_rejected, F_ERROR_OPERAND);
    let prefix: u32 = flag_if(p.repnz, F_PREFIX_REPNZ) | flag_if(p.repx, F_PREFIX_REPX)
        | flag_if(p.opsize != 0, F_PREFIX_66)
        | flag_if(p.addrsize != 0, F_PREFIX_67)
        | flag_if(p.lock != 0, F_PREFIX_LOCK)
        | flag_if(p.seg != 0, F_PREFIX_SEG)
        | flag_if(p.rex != 0, F_PREFIX_REX);
    addressing | immediate | error | prefix
}

impl hde64s {
    /// A record with every field zero.
    pub fn new() -> (hs: hde64s)
        ensures
            hs == zero(),
    {
        hde64s {
            len: 0,
            p_rep: 0,
            p_lock: 0,
            p_seg: 0,
            p_66: 0,
            p_67: 0,
            rex: 0,
            rex_w: 0,
            rex_r: 0,
            rex_x: 0,
            rex_b: 0,
            opcode: 0,
            opcode2: 0,
            modrm: 0,
            modrm_mod: 0,
            modrm_reg: 0,
            modrm_rm: 0,
            sib: 0,
            sib_scale: 0,
            sib_index: 0,
            sib_base: 0,
            imm: imm_union { bits: 0 },
            disp: disp_union { bits: 0 },
            flags: 0,
        }
    }

    /// Whether any of the flags in `mask` is set.
    pub open spec fn has(&self, mask: u32) -> bool {
        self.flags & mask != 0
    }

    /// Whether the fields and the flags of the record fit together, as they
    /// do in every record that the decoder gives.
    ///
    /// The length is at most fifteen, and at least one unless the
    /// instruction is cut off. Each prefix field holds a byte of its
    /// category or zero, and its flag says which. The parts of the ModR/M
    /// and SIB bytes are cut from those bytes. What a flag marks absent is
    /// zero; what it marks present fits the width that it names.
    pub open spec fn well_formed(&self) -> bool {
        &&& self.len <= 15
        &&& self.len >= 1 || self.has(F_ERROR_LENGTH)
        &&& self.flags & !0x7f01f3ffu32 == 0
        &&& self.p_rep == 0 || self.p_rep == PREFIX_REPNZ || self.p_rep == PREFIX_REPX
        &&& self.p_lock == 0 || self.p_lock == PREFIX_LOCK
        &&& self.p_seg == 0 || segment_override(self.p_seg)
        &&& self.p_66 == 0 || self.p_66 == PREFIX_OPERAND_SIZE
        &&& self.p_67 == 0 || self.p_67 == PREFIX_ADDRESS_SIZE
        &&& self.has(F_PREFIX_REPNZ) || self.has(F_PREFIX_REPX) <==> self.p_rep != 0
        &&& self.has(F_PREFIX_LOCK) <==> self.p_lock != 0
        &&& self.has(F_PREFIX_SEG) <==> self.p_seg != 0
        &&& self.has(F_PREFIX_66) <==> self.p_66 != 0
        &&& self.has(F_PREFIX_67) <==> self.p_67 != 0
        &&& self.rex == 0 || rex_byte(self.rex)
        &&& self.has(F_PREFIX_REX) <==> self.rex != 0
        &&& self.rex_w == (self.rex / 8) % 2
        &&& self.rex_r == (self.rex / 4) % 2
        &&& self.rex_x == (self.rex / 2) % 2
        &&& self.rex_b == self.rex % 2
        &&& self.opcode2 != 0 ==> self.opcode == 0x0f
        &&& self.modrm_mod == self.modrm / 64
        &&& self.modrm_reg == (self.modrm / 8) % 8
        &&& self.modrm_rm == self.modrm % 8
        &&& self.sib_scale == self.sib / 64
        &&& self.sib_index == (self.sib / 8) % 8
        &&& self.sib_base == self.sib % 8
        &&& self.has(F_MODRM) || self.modrm == 0
        &&& self.has(F_SIB) || self.sib == 0
        &&& self.has(F_SIB) ==> self.has(F_MODRM) && self.modrm_mod != 3 && self.modrm_rm == 4
        &&& !(self.has(F_DISP8) && self.has(F_DISP16))
        &&& !(self.has(F_DISP8) && self.has(F_DISP32))
        &&& !(self.has(F_DISP16) && self.has(F_DISP32))
        &&& self.has(F_DISP8) ==> self.has(F_MODRM) && self.disp.bits < 0x100
        &&& self.has(F_DISP16) ==> self.has(F_MODRM) && self.disp.bits < 0x1_0000
        &&& self.has(F_DISP32) ==> self.has(F_MODRM)
        &&& !self.has(F_DISP16)
        &&& self.has(F_DISP8) || self.has(F_DISP32) || self.disp.bits == 0
        &&& self.has(F_IMM8) || self.has(F_IMM16) || self.has(F_IMM32) || self.has(F_IMM64)
            || self.imm.bits == 0
        &&& self.has(F_IMM8) && !self.has(F_IMM16) ==> self.imm.bits < 0x100
        &&& self.has(F_IMM16) ==> self.imm.bits < 0x1_0000
        &&& self.has(F_IMM32) ==> self.imm.bits < 0x1_0000_0000
        &&& self.has(F_IMM64) ==> !self.has(F_IMM8) && !self.has(F_IMM16) && !self.has(F_IMM32)
        &&& self.has(F_IMM32) ==> !self.has(F_IMM8) && !self.has(F_IMM16)
        &&& self.has(F_RELATIVE) ==> self.has(F_IMM8) || self.has(F_IMM16) || self.has(F_IMM32)
        &&& self.has(F_ERROR) <==> self.has(F_ERROR_OPCODE) || self.has(F_ERROR_LENGTH)
            || self.has(F_ERROR_LOCK) || self.has(F_ERROR_OPERAND)
    }

    /// Tests whether any of the flags in `mask` is set.
    pub fn has_flag(&self, mask: u32) -> (r: bool)
        ensures
            r == self.has(mask),
    {
        self.flags & mask != 0
    }
}

impl Default for hde64s {
    /// A record with every field zero.
    fn default() -> (hs: hde64s)
        ensures
            hs == zero(),
    {
        hde64s::new()
    }
}

/// Decodes the instruction of 64-bit code at the start of `code` into `hs` and
/// returns its length.
///
/// Every field of `hs` is written. The decoder reads the first fifteen bytes
/// of `code` at most. Where the instruction does not end within them, or
/// `code` ends before the instruction does, the length is the number of
/// bytes that could be read and `F_ERROR_LENGTH` is set; the bytes that
/// could not be read count as zero. An error never stops the decoder: the
/// length says in every case how far to move on.
pub fn hde64_disasm(code: &[u8], hs: &mut hde64s) -> (len: u32)
    ensures
        *final(hs) == decode64(code@),
        final(hs).well_formed(),
        len == final(hs).len,
        len <= 15,
        len <= code@.len(),
        code@.len() > 0 ==> len >= 1,
{
    proof {
        lemma_length_in_range(code@);
        lemma_well_formed(code@);
    }
    let d = decode_instruction(code, Mode::Long);
    let rex = d.prefixes.rex;
    *hs = hde64s {
        len: d.len,
        p_rep: d.prefixes.rep,
        p_lock: d.prefixes.lock,
        p_seg: d.prefixes.seg,
        p_66: d.prefixes.opsize,
        p_67: d.prefixes.addrsize,
        rex,
        rex_w: (rex / 8) % 2,
        rex_r: (rex / 4) % 2,
        rex_x: (rex / 2) % 2,
        rex_b: rex % 2,
        opcode: d.opcode.first,
        opcode2: d.opcode.second,
        modrm: d.addressing.modrm,
        modrm_mod: d.addressing.modrm_mod,
        modrm_reg: d.addressing.modrm_reg,
        modrm_rm: d.addressing.modrm_rm,
        sib: d.addressing.sib,
        sib_scale: d.addressing.sib_scale,
        sib_index: d.addressing.sib_index,
        sib_base: d.addressing.sib_base,
        imm: imm_union { bits: d.immediate.value },
        disp: disp_union { bits: d.addressing.disp },
        flags: pack_flags(&d),
    };
    d.len as u32
}

/// Each of the flags for the ModR/M byte, the SIB byte and the displacement
/// can be read back from their union, which holds no other bit.
proof fn lemma_addressing_flags_bits(b0: bool, b1: bool, b2: bool, b3: bool, b4: bool)
    by (bit_vector)
    ensures
        ({
            let w = flag(b0, F_MODRM) | flag(b1, F_SIB) | flag(b2, F_DISP8) | flag(b3, F_DISP16)
                | flag(b4, F_DISP32);
            &&& w & !0x000001c3u32 == 0
            &&& (w & F_MODRM != 0) == b0
            &&& (w & F_SIB != 0) == b1
            &&& (w & F_DISP8 != 0) == b2
            &&& (w & F_DISP16 != 0) == b3
            &&& (w & F_DISP32 != 0) == b4
        }),
{
}

/// Each of the flags for the ModR/M byte, the SIB byte and the displacement
/// is set exactly where its condition holds.
proof fn lemma_addressing_flags_say(x: Addressing)
    ensures
        addressing_flags(x) & !0x000001c3u32 == 0,
        (addressing_flags(x) & F_MODRM != 0) == x.present,
        (addressing_flags(x) & F_SIB != 0) == x.has_sib,
        (addressing_flags(x) & F_DISP8 != 0) == (x.disp_size == 1),
        (addressing_flags(x) & F_DISP16 != 0) == (x.disp_size == 2),
        (addressing_flags(x) & F_DISP32 != 0) == (x.disp_size == 4),
{
    reveal(addressing_flags);
    lemma_addressing_flags_bits(
        x.present,
        x.has_sib,
        x.disp_size == 1,
        x.disp_size == 2,
        x.disp_size == 4,
    );
}

/// Each of the flags for the immediate can be read back from their union,
/// which holds no other bit.
proof fn lemma_immediate_flags_bits(b0: bool, b1: bool, b2: bool, b3: bool, b4: bool)
    by (bit_vector)
    ensures
        ({
            let w = flag(b0, F_IMM8) | flag(b1, F_IMM16) | flag(b2, F_IMM32) | flag(b3, F_IMM64)
                | flag(b4, F_RELATIVE);
            &&& w & !0x0000023cu32 == 0
            &&& (w & F_IMM8 != 0) == b0
            &&& (w & F_IMM16 != 0) == b1
            &&& (w & F_IMM32 != 0) == b2
            &&& (w & F_IMM64 != 0) == b3
            &&& (w & F_RELATIVE != 0) == b4
        }),
{
}

/// Each of the flags for the immediate is set exactly where its condition
/// holds.
proof fn lemma_immediate_flags_say(i: Immediate)
    ensures
        immediate_flags(i) & !0x0000023cu32 == 0,
        (immediate_flags(i) & F_IMM8 != 0) == i.imm8,
        (immediate_flags(i) & F_IMM16 != 0) == i.imm16,
        (immediate_flags(i) & F_IMM32 != 0) == i.imm32,
        (immediate_flags(i) & F_IMM64 != 0) == i.imm64,
        (immediate_flags(i) & F_RELATIVE != 0) == i.relative,
{
    reveal(immediate_flags);
    lemma_immediate_flags_bits(i.imm8, i.imm16, i.imm32, i.imm64, i.relative);
}

/// Each of the flags for the errors can be read back from their union,
/// which holds no other bit.
proof fn lemma_error_flags_bits(b0: bool, b1: bool, b2: bool, b3: bool, b4: bool)
    by (bit_vector)
    ensures
        ({
            let w = flag(b0, F_ERROR) | flag(b1, F_ERROR_OPCODE) | flag(b2, F_ERROR_LENGTH)
                | flag(b3, F_ERROR_LOCK) | flag(b4, F_ERROR_OPERAND);
            &&& w & !0x0001f000u32 == 0
            &&& (w & F_ERROR != 0) == b0
            &&& (w & F_ERROR_OPCODE != 0) == b1
            &&& (w & F_ERROR_LENGTH != 0) == b2
            &&& (w & F_ERROR_LOCK != 0) == b3
            &&& (w & F_ERROR_OPERAND != 0) == b4
        }),
{
}

/// Each of the flags for the errors is set exactly where its condition
/// holds.
proof fn lemma_error_flags_say(d: Decoded)
    ensures
        error_flags(d) & !0x0001f000u32 == 0,
        (error_flags(d) & F_ERROR != 0) == (d.undefined || d.too_long || d.lock_rejected
            || d.operand_rejected),
        (error_flags(d) & F_ERROR_OPCODE != 0) == d.undefined,
        (error_flags(d) & F_ERROR_LENGTH != 0) == d.too_long,
        (error_flags(d) & F_ERROR_LOCK != 0) == d.lock_rejected,
        (error_flags(d) & F_ERROR_OPERAND != 0) == d.operand_rejected,
{
    reveal(error_flags);
    lemma_error_flags_bits(
        d.undefined || d.too_long || d.lock_rejected || d.operand_rejected,
        d.undefined,
        d.too_long,
        d.lock_rejected,
        d.operand_rejected,
    );
}

/// Each of the flags for the prefixes can be read back from their union,
/// which holds no other bit.
proof fn lemma_prefix_flags_bits(
    b0: bool,
    b1: bool,
    b2: bool,
    b3: bool,
    b4: bool,
    b5: bool,
    b6: bool,
)
    by (bit_vector)
    ensures
        ({
            let w = flag(b0, F_PREFIX_REPNZ) | flag(b1, F_PREFIX_REPX) | flag(b2, F_PREFIX_66)
                | flag(b3, F_PREFIX_67) | flag(b4, F_PREFIX_LOCK)
                | flag(b5, F_PREFIX_SEG) | flag(b6, F_PREFIX_REX);
            &&& w & !0x7f000000u32 == 0
            &&& (w & F_PREFIX_REPNZ != 0) == b0
            &&& (w & F_PREFIX_REPX != 0) == b1
            &&& (w & F_PREFIX_66 != 0) == b2
            &&& (w & F_PREFIX_67 != 0) == b3
            &&& (w & F_PREFIX_LOCK != 0) == b4
            &&& (w & F_PREFIX_SEG != 0) == b5
            &&& (w & F_PREFIX_REX != 0) == b6
        }),
{
}

/// Each of the flags for the prefixes is set exactly where its condition
/// holds.
proof fn lemma_prefix_flags_say(p: Prefixes)
    ensures
        prefix_flags(p) & !0x7f000000u32 == 0,
        (prefix_flags(p) & F_PREFIX_REPNZ != 0) == p.repnz,
        (prefix_flags(p) & F_PREFIX_REPX != 0) == p.repx,
        (prefix_flags(p) & F_PREFIX_66 != 0) == (p.opsize != 0),
        (prefix_flags(p) & F_PREFIX_67 != 0) == (p.addrsize != 0),
        (prefix_flags(p) & F_PREFIX_LOCK != 0) == (p.lock != 0),
        (prefix_flags(p) & F_PREFIX_SEG != 0) == (p.seg != 0),
        (prefix_flags(p) & F_PREFIX_REX != 0) == (p.rex != 0),
{
    reveal(prefix_flags);
    lemma_prefix_flags_bits(
        p.repnz,
        p.repx,
        p.opsize != 0,
        p.addrsize != 0,
        p.lock != 0,
        p.seg != 0,
        p.rex != 0,
    );
}

/// A flag of one group can be read back from the union of the four groups.
proof fn lemma_union_bits(g0: u32, g1: u32, g2: u32, g3: u32)
    by (bit_vector)
    requires
        g0 & !0x000001c3u32 == 0,
        g1 & !0x0000023cu32 == 0,
        g2 & !0x0001f000u32 == 0,
        g3 & !0x7f000000u32 == 0,
    ensures
        ({
            let w = g0 | g1 | g2 | g3;
            &&& w & !0x7f01f3ffu32 == 0
            &&& (w & F_MODRM != 0) == (g0 & F_MODRM != 0)
            &&& (w & F_SIB != 0) == (g0 & F_SIB != 0)
            &&& (w & F_DISP8 != 0) == (g0 & F_DISP8 != 0)
            &&& (w & F_DISP16 != 0) == (g0 & F_DISP16 != 0)
            &&& (w & F_DISP32 != 0) == (g0 & F_DISP32 != 0)
            &&& (w & F_IMM8 != 0) == (g1 & F_IMM8 != 0)
            &&& (w & F_IMM16 != 0) == (g1 & F_IMM16 != 0)
            &&& (w & F_IMM32 != 0) == (g1 & F_IMM32 != 0)
            &&& (w & F_IMM64 != 0) == (g1 & F_IMM64 != 0)
            &&& (w & F_RELATIVE != 0) == (g1 & F_RELATIVE != 0)
            &&& (w & F_ERROR != 0) == (g2 & F_ERROR != 0)
            &&& (w & F_ERROR_OPCODE != 0) == (g2 & F_ERROR_OPCODE != 0)
            &&& (w & F_ERROR_LENGTH != 0) == (g2 & F_ERROR_LENGTH != 0)
            &&& (w & F_ERROR_LOCK != 0) == (g2 & F_ERROR_LOCK != 0)
            &&& (w & F_ERROR_OPERAND != 0) == (g2 & F_ERROR_OPERAND != 0)
            &&& (w & F_PREFIX_REPNZ != 0) == (g3 & F_PREFIX_REPNZ != 0)
            &&& (w & F_PREFIX_REPX != 0) == (g3 & F_PREFIX_REPX != 0)
            &&& (w & F_PREFIX_66 != 0) == (g3 & F_PREFIX_66 != 0)
            &&& (w & F_PREFIX_67 != 0) == (g3 & F_PREFIX_67 != 0)
            &&& (w & F_PREFIX_LOCK != 0) == (g3 & F_PREFIX_LOCK != 0)
            &&& (w & F_PREFIX_SEG != 0) == (g3 & F_PREFIX_SEG != 0)
            &&& (w & F_PREFIX_REX != 0) == (g3 & F_PREFIX_REX != 0)
        }),
{
}

/// Each flag of a record is set exactly where the decoded instruction has
/// what the flag stands for, and no other bit is set.
pub proof fn lemma_flags_say(d: Decoded)
    ensures
        ({
            let hs = record_of(d);
            &&& hs.flags & !0x7f01f3ffu32 == 0
            &&& hs.has(F_MODRM) == d.addressing.present
            &&& hs.has(F_SIB) == d.addressing.has_sib
            &&& hs.has(F_DISP8) == (d.addressing.disp_size == 1)
            &&& hs.has(F_DISP16) == (d.addressing.disp_size == 2)
            &&& hs.has(F_DISP32) == (d.addressing.disp_size == 4)
            &&& hs.has(F_IMM8) == d.immediate.imm8
            &&& hs.has(F_IMM16) == d.immediate.imm16
            &&& hs.has(F_IMM32) == d.immediate.imm32
            &&& hs.has(F_IMM64) == d.immediate.imm64
            &&& hs.has(F_RELATIVE) == d.immediate.relative
            &&& hs.has(F_ERROR) == (d.undefined || d.too_long || d.lock_rejected
                || d.operand_rejected)
            &&& hs.has(F_ERROR_OPCODE) == d.undefined
            &&& hs.has(F_ERROR_LENGTH) == d.too_long
            &&& hs.has(F_ERROR_LOCK) == d.lock_rejected
            &&& hs.has(F_ERROR_OPERAND) == d.operand_rejected
            &&& hs.has(F_PREFIX_REPNZ) == d.prefixes.repnz
            &&& hs.has(F_PREFIX_REPX) == d.prefixes.repx
            &&& hs.has(F_PREFIX_66) == (d.prefixes.opsize != 0)
            &&& hs.has(F_PREFIX_67) == (d.prefixes.addrsize != 0)
            &&& hs.has(F_PREFIX_LOCK) == (d.prefixes.lock != 0)
            &&& hs.has(F_PREFIX_SEG) == (d.prefixes.seg != 0)
            &&& hs.has(F_PREFIX_REX) == (d.prefixes.rex != 0)
        }),
{
    lemma_addressing_flags_say(d.addressing);
    lemma_immediate_flags_say(d.immediate);
    lemma_error_flags_say(d);
    lemma_prefix_flags_say(d.prefixes);
    lemma_union_bits(
        addressing_flags(d.addressing),
        immediate_flags(d.immediate),
        error_flags(d),
        prefix_flags(d.prefixes),
    );
}

/// The flags and the fields of a record agree.
///
/// Without the ModR/M flag the ModR/M byte and its three fields are zero,
/// and without the SIB flag the SIB byte and its three fields. Of the
/// displacement flags at most one is set, and with none set the displacement
/// is zero. With no immediate flag set the immediate is zero. Of the
/// immediate flags at most one is set, unless the opcode takes a 16-bit
/// immediate and then an 8-bit one: then the flags of these two are set.
pub proof fn lemma_flags_consistent(s: Seq<u8>)
    ensures
        ({
            let hs = decode64(s);
            &&& !hs.has(F_MODRM) ==> hs.modrm == 0 && hs.modrm_mod == 0 && hs.modrm_reg == 0
                && hs.modrm_rm == 0
            &&& !hs.has(F_SIB) ==> hs.sib == 0 && hs.sib_scale == 0 && hs.sib_index == 0
                && hs.sib_base == 0
            &&& hs.has(F_SIB) ==> hs.has(F_MODRM)
            &&& !(hs.has(F_DISP8) && hs.has(F_DISP16))
            &&& !(hs.has(F_DISP8) && hs.has(F_DISP32))
            &&& !(hs.has(F_DISP16) && hs.has(F_DISP32))
            &&& !hs.has(F_DISP8) && !hs.has(F_DISP16) && !hs.has(F_DISP32) ==> hs.disp.bits == 0
            &&& !hs.has(F_IMM8) && !hs.has(F_IMM16) && !hs.has(F_IMM32) && !hs.has(F_IMM64)
                ==> hs.imm.bits == 0
            &&& !(hs.has(F_IMM8) && hs.has(F_IMM32))
            &&& !(hs.has(F_IMM8) && hs.has(F_IMM64))
            &&& !(hs.has(F_IMM16) && hs.has(F_IMM32))
            &&& !(hs.has(F_IMM16) && hs.has(F_IMM64))
            &&& !(hs.has(F_IMM32) && hs.has(F_IMM64))
            &&& hs.has(F_IMM8) && hs.has(F_IMM16) <==> decode(s, Mode::Long).opcode.rule
                == Rule::IwIb
        }),
{
    let d = decode(s, Mode::Long);
    lemma_flags_say(d);
    lemma_fields_fit(s, Mode::Long);
}

/// Every record that the decoder gives is well formed.
pub proof fn lemma_well_formed(s: Seq<u8>)
    ensures
        decode64(s).well_formed(),
{
    let d = decode(s, Mode::Long);
    lemma_flags_say(d);
    lemma_fields_fit(s, Mode::Long);
    lemma_prefix_fields(s, Mode::Long);
    lemma_length_bounds(s, Mode::Long);
}

/// Decoding is a function of the bytes from the offset on: two buffers that
/// hold the same bytes from their offsets on give the same record, bit for
/// bit.
pub proof fn lemma_deterministic(a: Seq<u8>, i: int, b: Seq<u8>, j: int)
    requires
        0 <= i <= a.len(),
        0 <= j <= b.len(),
        a.skip(i) =~= b.skip(j),
    ensures
        decode64(a.skip(i)) == decode64(b.skip(j)),
{
    lemma_decode_deterministic(a, i, b, j, Mode::Long);
}

/// The length of an instruction is at most fifteen and at most the size of
/// the input, and at least one unless the input is empty.
pub proof fn lemma_length_in_range(s: Seq<u8>)
    ensures
        decode64(s).len <= 15,
        decode64(s).len <= s.len(),
        s.len() > 0 ==> decode64(s).len >= 1,
{
    lemma_length_bounds(s, Mode::Long);
}

} // verus!
