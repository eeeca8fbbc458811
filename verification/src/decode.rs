//! The decoder proper: opcode, ModR/M and SIB, displacement, immediate, the
//! error conditions and the length, for either mode.
//!
//! The stages run in a fixed order and each hands the next the position at
//! which it stopped. No stage fails: what is wrong with an instruction is
//! recorded beside what was decoded of it.

use crate::bytes::{byte_at, read_byte, read_value, value_at, window, window_len};
use crate::opcode::{
    group_undefined, has_modrm, is_group_undefined, is_lock_allowed, is_operand_rejected,
    is_prefix_excluded, is_special_register_move, is_x87_undefined, lock_allowed, lookup_rule,
    moves_special_register, operand_rejected, prefix_excluded, prefix_situation, rule_has_modrm,
    rule_of, situation, x87_undefined, Rule, ESCAPE,
};
use crate::prefix::{prefixes, scan_prefixes, Mode, Prefixes};
use vstd::prelude::*;

verus! {

/// The opcode of an instruction.
#[derive(Clone, Copy, PartialEq, Eq, Debug)]
pub struct Opcode {
    /// The first opcode byte.
    pub first: u8,
    /// The second opcode byte where the first is the escape byte, else zero.
    pub second: u8,
    /// Whether the first opcode byte is the escape byte.
    pub two_byte: bool,
    /// The byte that selects the instruction: the second where there are two.
    pub code: u8,
    /// The rule of the opcode.
    pub rule: Rule,
    /// The position behind the opcode bytes.
    pub end: usize,
}

/// The ModR/M and SIB bytes of an instruction and its displacement.
#[derive(Clone, Copy, PartialEq, Eq, Debug)]
pub struct Addressing {
    /// Whether the instruction has a ModR/M byte. Where it has none, every
    /// other field but `end` is zero or false.
    pub present: bool,
    /// The ModR/M byte.
    pub modrm: u8,
    /// Bits 7 and 6 of the ModR/M byte.
    pub modrm_mod: u8,
    /// Bits 5 to 3 of the ModR/M byte.
    pub modrm_reg: u8,
    /// Bits 2 to 0 of the ModR/M byte.
    pub modrm_rm: u8,
    /// Whether the instruction has a SIB byte. Where it has none, the four
    /// fields that follow are zero.
    pub has_sib: bool,
    /// The SIB byte.
    pub sib: u8,
    /// Bits 7 and 6 of the SIB byte.
    pub sib_scale: u8,
    /// Bits 5 to 3 of the SIB byte.
    pub sib_index: u8,
    /// Bits 2 to 0 of the SIB byte.
    pub sib_base: u8,
    /// The width of the displacement in bytes: 0, 1, 2 or 4.
    pub disp_size: usize,
    /// The displacement, zero where there is none.
    pub disp: u32,
    /// The position behind the last of these bytes.
    pub end: usize,
}

/// The immediate of an instruction.
#[derive(Clone, Copy, PartialEq, Eq, Debug)]
pub struct Immediate {
    /// Whether the instruction has an 8-bit immediate.
    pub imm8: bool,
    /// Whether the instruction has a 16-bit immediate.
    pub imm16: bool,
    /// Whether the instruction has a 32-bit immediate.
    pub imm32: bool,
    /// Whether the instruction has a 64-bit immediate.
    pub imm64: bool,
    /// Whether the instruction has two 16-bit immediates.
    pub second16: bool,
    /// Whether the immediate is a branch offset.
    pub relative: bool,
    /// The immediate. Where a 16-bit and an 8-bit immediate are both there,
    /// the 8-bit one takes the place of the low byte.
    pub value: u64,
    /// The selector of a far pointer, zero where there is none.
    pub selector: u16,
    /// The position behind the immediate.
    pub end: usize,
}

/// One decoded instruction, in a form that both modes share.
#[derive(Clone, Copy, PartialEq, Eq, Debug)]
pub struct Decoded {
    pub prefixes: Prefixes,
    pub opcode: Opcode,
    pub addressing: Addressing,
    pub immediate: Immediate,
    /// The opcode is not defined, or not with these prefixes or this operand.
    pub undefined: bool,
    /// A lock prefix stands before an instruction that does not take one.
    pub lock_rejected: bool,
    /// The ModR/M byte names an operand that the opcode does not take.
    pub operand_rejected: bool,
    /// The instruction needs more bytes than the window holds.
    pub too_long: bool,
    /// The number of bytes that the instruction needs.
    pub needed: usize,
    /// The number of bytes consumed: `needed`, cut to the window.
    pub len: u8,
}

/// The flag `f` where `on` holds, else no flag.
pub open spec fn flag(on: bool, f: u32) -> u32 {
    if on {
        f
    } else {
        0
    }
}

/// The opcode that stands behind the prefixes `p` of `s`.
pub open spec fn opcode_of(s: Seq<u8>, mode: Mode, p: Prefixes) -> Opcode {
    let first = byte_at(s, p.len as int);
    let two_byte = first == ESCAPE;
    let second = if two_byte {
        byte_at(s, p.len + 1)
    } else {
        0
    };
    let code = if two_byte {
        second
    } else {
        first
    };
    Opcode {
        first,
        second,
        two_byte,
        code,
        rule: rule_of(mode, two_byte, code),
        end: if two_byte {
            (p.len + 2) as usize
        } else {
            (p.len + 1) as usize
        },
    }
}

/// The width of the displacement that a ModR/M byte asks for.
///
/// `direct` says that the byte names a register, `narrow` that 16-bit
/// addressing is in force, `base` is the base field of the SIB byte where
/// there is one.
pub open spec fn displacement_size(
    modrm_mod: u8,
    modrm_rm: u8,
    direct: bool,
    narrow: bool,
    has_sib: bool,
    base: u8,
) -> int {
    if direct {
        0
    } else if modrm_mod == 1 {
        1
    } else if narrow {
        if modrm_mod == 2 || modrm_rm == 6 {
            2
        } else {
            0
        }
    } else {
        if modrm_mod == 2 || modrm_rm == 5 || (has_sib && base == 5) {
            4
        } else {
            0
        }
    }
}

/// The addressing of an instruction whose opcode has no ModR/M byte.
pub open spec fn no_addressing(end: usize) -> Addressing {
    Addressing {
        present: false,
        modrm: 0,
        modrm_mod: 0,
        modrm_reg: 0,
        modrm_rm: 0,
        has_sib: false,
        sib: 0,
        sib_scale: 0,
        sib_index: 0,
        sib_base: 0,
        disp_size: 0,
        disp: 0,
        end,
    }
}

/// The ModR/M byte, SIB byte and displacement behind the opcode `o` of `s`.
///
/// A SIB byte follows where the ModR/M byte names memory with r/m 4, but not
/// under 16-bit addressing, which only 32-bit code reaches, by an
/// address-size override.
pub open spec fn addressing_of(s: Seq<u8>, mode: Mode, p: Prefixes, o: Opcode) -> Addressing {
    if !has_modrm(o.rule) {
        no_addressing(o.end)
    } else {
        let modrm = byte_at(s, o.end as int);
        let modrm_mod = modrm / 64;
        let modrm_rm = modrm % 8;
        let direct = modrm_mod == 3 || moves_special_register(o.two_byte, o.code);
        let narrow = mode == Mode::Protected && p.addrsize != 0;
        let has_sib = !direct && !narrow && modrm_rm == 4;
        let sib = if has_sib {
            byte_at(s, o.end + 1)
        } else {
            0
        };
        let at = if has_sib {
            o.end + 2
        } else {
            o.end + 1
        };
        let disp_size = displacement_size(modrm_mod, modrm_rm, direct, narrow, has_sib, sib % 8);
        Addressing {
            present: true,
            modrm,
            modrm_mod,
            modrm_reg: (modrm / 8) % 8,
            modrm_rm,
            has_sib,
            sib,
            sib_scale: sib / 64,
            sib_index: (sib / 8) % 8,
            sib_base: sib % 8,
            disp_size: disp_size as usize,
            disp: value_at(s, at, disp_size) as u32,
            end: (at + disp_size) as usize,
        }
    }
}

/// No immediate, at position `at`.
pub open spec fn no_immediate(at: usize) -> Immediate {
    Immediate {
        imm8: false,
        imm16: false,
        imm32: false,
        imm64: false,
        second16: false,
        relative: false,
        value: 0,
        selector: 0,
        end: at,
    }
}

/// One immediate of `n` bytes at position `at`; `n` is 1, 2, 4 or 8.
pub open spec fn one_immediate(s: Seq<u8>, at: usize, n: int, relative: bool) -> Immediate {
    Immediate {
        imm8: n == 1,
        imm16: n == 2,
        imm32: n == 4,
        imm64: n == 8,
        second16: false,
        relative,
        value: value_at(s, at as int, n) as u64,
        selector: 0,
        end: (at + n) as usize,
    }
}

/// The width in bytes of an immediate of the operand size.
pub open spec fn operand_width(p: Prefixes) -> int {
    if p.opsize != 0 {
        2
    } else {
        4
    }
}

/// The width in bytes of a memory offset.
pub open spec fn offset_width(mode: Mode, p: Prefixes) -> int {
    if mode == Mode::Long {
        if p.addrsize != 0 {
            4
        } else {
            8
        }
    } else {
        if p.addrsize != 0 {
            2
        } else {
            4
        }
    }
}

/// Whether the W bit of the REX prefix is set.
pub open spec fn rex_w(p: Prefixes) -> bool {
    (p.rex / 8) % 2 == 1
}

/// The immediate behind the addressing `a` of `s`, as the rule of the opcode
/// sizes it.
pub open spec fn immediate_of(
    s: Seq<u8>,
    mode: Mode,
    p: Prefixes,
    o: Opcode,
    a: Addressing,
) -> Immediate {
    let at = a.end;
    let z = operand_width(p);
    match o.rule {
        Rule::Undefined | Rule::Bare | Rule::ModRm => no_immediate(at),
        Rule::Ib | Rule::ModRmIb => one_immediate(s, at, 1, false),
        Rule::Iw => one_immediate(s, at, 2, false),
        Rule::Iz | Rule::ModRmIz => one_immediate(s, at, z, false),
        Rule::Iv => one_immediate(
            s,
            at,
            if rex_w(p) {
                8
            } else {
                z
            },
            false,
        ),
        Rule::Moffs => one_immediate(s, at, offset_width(mode, p), false),
        Rule::IwIb => Immediate {
            imm8: true,
            imm16: true,
            imm32: false,
            imm64: false,
            second16: false,
            relative: false,
            value: (value_at(s, at as int, 2) - byte_at(s, at as int) + byte_at(s, at + 2)) as u64,
            selector: 0,
            end: (at + 3) as usize,
        },
        Rule::Far => Immediate {
            imm8: false,
            imm16: true,
            imm32: z == 4,
            imm64: false,
            second16: z == 2,
            relative: false,
            value: value_at(s, at as int, z) as u64,
            selector: value_at(s, at + z, 2) as u16,
            end: (at + z + 2) as usize,
        },
        Rule::Jb => one_immediate(s, at, 1, true),
        Rule::Jz => one_immediate(s, at, z, true),
        Rule::UnaryIb => if a.modrm_reg <= 1 {
            one_immediate(s, at, 1, false)
        } else {
            no_immediate(at)
        },
        Rule::UnaryIz => if a.modrm_reg <= 1 {
            one_immediate(s, at, z, false)
        } else {
            no_immediate(at)
        },
    }
}

/// Whether the opcode is rejected: it is not in the table, or it is not
/// defined with these prefixes, with this reg field or with this operand.
pub open spec fn opcode_error(p: Prefixes, o: Opcode, a: Addressing) -> bool {
    ||| o.rule == Rule::Undefined
    ||| o.two_byte && prefix_excluded(o.code, situation(p))
    ||| a.present && group_undefined(o.two_byte, o.code, a.modrm_reg)
    ||| a.present && !o.two_byte && x87_undefined(o.code, a.modrm_mod, a.modrm_reg, a.modrm_rm)
}

/// Whether the instruction has a lock prefix that it does not take. It takes
/// one only with a memory operand, and only where the opcode allows it.
pub open spec fn lock_error(p: Prefixes, o: Opcode, a: Addressing) -> bool {
    p.lock != 0 && (!a.present || a.modrm_mod == 3 || !lock_allowed(
        o.two_byte,
        o.code,
        a.modrm_reg,
    ))
}

/// Whether the ModR/M byte names an operand that the opcode does not take.
pub open spec fn operand_error(p: Prefixes, o: Opcode, a: Addressing) -> bool {
    a.present && operand_rejected(o.two_byte, o.code, a.modrm_mod, a.modrm_reg, situation(p))
}

/// The number of bytes that the instruction at the start of `s` needs: its
/// prefixes, opcode, ModR/M, SIB, displacement and immediate together.
pub open spec fn needed(s: Seq<u8>, mode: Mode) -> int {
    decode(s, mode).needed as int
}

/// The instruction at the start of `s`.
///
/// The instruction is cut to the window: where it needs more bytes than the
/// first fifteen of `s`, or more than `s` has, it is marked too long and its
/// length is the size of the window. The missing bytes read as zero.
#[verifier::opaque]
pub open spec fn decode(s: Seq<u8>, mode: Mode) -> Decoded {
    let p = prefixes(s, mode);
    let o = opcode_of(s, mode, p);
    let a = addressing_of(s, mode, p, o);
    let i = immediate_of(s, mode, p, o, a);
    Decoded {
        prefixes: p,
        opcode: o,
        addressing: a,
        immediate: i,
        undefined: opcode_error(p, o, a),
        lock_rejected: lock_error(p, o, a),
        operand_rejected: operand_error(p, o, a),
        too_long: i.end > window(s),
        needed: i.end,
        len: if i.end > window(s) {
            window(s) as u8
        } else {
            i.end as u8
        },
    }
}

/// Gives the flag `f` where `on` holds, else no flag.
pub fn flag_if(on: bool, f: u32) -> (r: u32)
    ensures
        r == flag(on, f),
{
    if on {
        f
    } else {
        0
    }
}

/// Reads the opcode behind the prefixes.
pub fn read_opcode(code: &[u8], mode: Mode, p: &Prefixes) -> (o: Opcode)
    requires
        p.len <= 15,
    ensures
        o == opcode_of(code@, mode, *p),
        p.len < o.end <= p.len + 2,
{
    let first = read_byte(code, p.len);
    let two_byte = first == ESCAPE;
    let second = if two_byte {
        read_byte(code, p.len + 1)
    } else {
        0
    };
    let selector = if two_byte {
        second
    } else {
        first
    };
    Opcode {
        first,
        second,
        two_byte,
        code: selector,
        rule: lookup_rule(mode, two_byte, selector),
        end: if two_byte {
            p.len + 2
        } else {
            p.len + 1
        },
    }
}

/// Computes the width of the displacement that a ModR/M byte asks for.
pub fn size_displacement(
    modrm_mod: u8,
    modrm_rm: u8,
    direct: bool,
    narrow: bool,
    has_sib: bool,
    base: u8,
) -> (n: usize)
    ensures
        n == displacement_size(modrm_mod, modrm_rm, direct, narrow, has_sib, base),
        n == 0 || n == 1 || n == 2 || n == 4,
{
    if direct {
        0
    } else if modrm_mod == 1 {
        1
    } else if narrow {
        if modrm_mod == 2 || modrm_rm == 6 {
            2
        } else {
            0
        }
    } else {
        if modrm_mod == 2 || modrm_rm == 5 || (has_sib && base == 5) {
            4
        } else {
            0
        }
    }
}

/// Reads the ModR/M byte, the SIB byte and the displacement.
pub fn read_addressing(code: &[u8], mode: Mode, p: &Prefixes, o: &Opcode) -> (a: Addressing)
    requires
        o.end <= 17,
    ensures
        a == addressing_of(code@, mode, *p, *o),
        o.end <= a.end <= o.end + 6,
        a.modrm_mod < 4,
        a.modrm_reg < 8,
        a.modrm_rm < 8,
{
    if !rule_has_modrm(o.rule) {
        return Addressing {
            present: false,
            modrm: 0,
            modrm_mod: 0,
            modrm_reg: 0,
            modrm_rm: 0,
            has_sib: false,
            sib: 0,
            sib_scale: 0,
            sib_index: 0,
            sib_base: 0,
            disp_size: 0,
            disp: 0,
            end: o.end,
        };
    }
    let modrm = read_byte(code, o.end);
    let modrm_mod = modrm / 64;
    let modrm_rm = modrm % 8;
    let direct = modrm_mod == 3 || is_special_register_move(o.two_byte, o.code);
    let narrow = mode == Mode::Protected && p.addrsize != 0;
    let has_sib = !direct && !narrow && modrm_rm == 4;
    let sib = if has_sib {
        read_byte(code, o.end + 1)
    } else {
        0
    };
    let at = if has_sib {
        o.end + 2
    } else {
        o.end + 1
    };
    let disp_size = size_displacement(modrm_mod, modrm_rm, direct, narrow, has_sib, sib % 8);
    let disp = read_value(code, at, disp_size);
    Addressing {
        present: true,
        modrm,
        modrm_mod,
        modrm_reg: (modrm / 8) % 8,
        modrm_rm,
        has_sib,
        sib,
        sib_scale: sib / 64,
        sib_index: (sib / 8) % 8,
        sib_base: sib % 8,
        disp_size,
        disp: disp as u32,
        end: at + disp_size,
    }
}

/// Reads one immediate of `n` bytes at position `at`.
pub fn read_one_immediate(code: &[u8], at: usize, n: usize, relative: bool) -> (i: Immediate)
    requires
        at <= 23,
        n == 1 || n == 2 || n == 4 || n == 8,
    ensures
        i == one_immediate(code@, at, n as int, relative),
        i.end == at + n,
{
    Immediate {
        imm8: n == 1,
        imm16: n == 2,
        imm32: n == 4,
        imm64: n == 8,
        second16: false,
        relative,
        value: read_value(code, at, n),
        selector: 0,
        end: at + n,
    }
}

/// Reads the immediate that the rule of the opcode asks for.
pub fn read_immediate(code: &[u8], mode: Mode, p: &Prefixes, o: &Opcode, a: &Addressing) -> (i:
    Immediate)
    requires
        a.end <= 23,
    ensures
        i == immediate_of(code@, mode, *p, *o, *a),
        a.end <= i.end <= a.end + 8,
{
    let at = a.end;
    let none = Immediate {
        imm8: false,
        imm16: false,
        imm32: false,
        imm64: false,
        second16: false,
        relative: false,
        value: 0,
        selector: 0,
        end: at,
    };
    let z: usize = if p.opsize != 0 {
        2
    } else {
        4
    };
    match o.rule {
        Rule::Undefined | Rule::Bare | Rule::ModRm => none,
        Rule::Ib | Rule::ModRmIb => read_one_immediate(code, at, 1, false),
        Rule::Iw => read_one_immediate(code, at, 2, false),
        Rule::Iz | Rule::ModRmIz => read_one_immediate(code, at, z, false),
        Rule::Iv => {
            let wide = (p.rex / 8) % 2 == 1;
            read_one_immediate(
                code,
                at,
                if wide {
                    8
                } else {
                    z
                },
                false,
            )
        },
        Rule::Moffs => {
            let n: usize = if mode == Mode::Long {
                if p.addrsize != 0 {
                    4
                } else {
                    8
                }
            } else {
                if p.addrsize != 0 {
                    2
                } else {
                    4
                }
            };
            read_one_immediate(code, at, n, false)
        },
        Rule::IwIb => {
            let word = read_value(code, at, 2);
            let low = read_byte(code, at);
            let byte = read_byte(code, at + 2);
            Immediate {
                imm8: true,
                imm16: true,
                imm32: false,
                imm64: false,
                second16: false,
                relative: false,
                value: word - low as u64 + byte as u64,
                selector: 0,
                end: at + 3,
            }
        },
        Rule::Far => {
            let offset = read_value(code, at, z);
            let selector = read_value(code, at + z, 2);
            Immediate {
                imm8: false,
                imm16: true,
                imm32: z == 4,
                imm64: false,
                second16: z == 2,
                relative: false,
                value: offset,
                selector: selector as u16,
                end: at + z + 2,
            }
        },
        Rule::Jb => read_one_immediate(code, at, 1, true),
        Rule::Jz => read_one_immediate(code, at, z, true),
        Rule::UnaryIb => if a.modrm_reg <= 1 {
            read_one_immediate(code, at, 1, false)
        } else {
            none
        },
        Rule::UnaryIz => if a.modrm_reg <= 1 {
            read_one_immediate(code, at, z, false)
        } else {
            none
        },
    }
}

/// Finds out whether the opcode is rejected.
pub fn find_opcode_error(p: &Prefixes, o: &Opcode, a: &Addressing) -> (r: bool)
    ensures
        r == opcode_error(*p, *o, *a),
{
    o.rule == Rule::Undefined || (o.two_byte && is_prefix_excluded(o.code, prefix_situation(p)))
        || (a.present && is_group_undefined(o.two_byte, o.code, a.modrm_reg)) || (a.present
        && !o.two_byte && is_x87_undefined(o.code, a.modrm_mod, a.modrm_reg, a.modrm_rm))
}

/// Finds out whether the instruction has a lock prefix that it does not
/// take.
pub fn find_lock_error(p: &Prefixes, o: &Opcode, a: &Addressing) -> (r: bool)
    ensures
        r == lock_error(*p, *o, *a),
{
    p.lock != 0 && (!a.present || a.modrm_mod == 3 || !is_lock_allowed(
        o.two_byte,
        o.code,
        a.modrm_reg,
    ))
}

/// Finds out whether the ModR/M byte names an operand that the opcode does
/// not take.
pub fn find_operand_error(p: &Prefixes, o: &Opcode, a: &Addressing) -> (r: bool)
    ensures
        r == operand_error(*p, *o, *a),
{
    a.present && is_operand_rejected(
        o.two_byte,
        o.code,
        a.modrm_mod,
        a.modrm_reg,
        prefix_situation(p),
    )
}

/// Decodes the instruction at the start of `code`.
///
/// The result says what was found and how many bytes it takes. Nothing is
/// read outside the first fifteen bytes of `code`.
pub fn decode_instruction(code: &[u8], mode: Mode) -> (d: Decoded)
    ensures
        d == decode(code@, mode),
{
    let p = scan_prefixes(code, mode);
    let o = read_opcode(code, mode, &p);
    let a = read_addressing(code, mode, &p, &o);
    let i = read_immediate(code, mode, &p, &o, &a);
    let undefined = find_opcode_error(&p, &o, &a);
    let lock_rejected = find_lock_error(&p, &o, &a);
    let operand_rejected = find_operand_error(&p, &o, &a);
    let end = window_len(code);
    proof {
        reveal(decode);
    }
    Decoded {
        prefixes: p,
        opcode: o,
        addressing: a,
        immediate: i,
        undefined,
        lock_rejected,
        operand_rejected,
        too_long: i.end > end,
        needed: i.end,
        len: if i.end > end {
            end as u8
        } else {
            i.end as u8
        },
    }
}

} // verus!
