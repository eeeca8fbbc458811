//! What holds of every decode, whatever the input and the mode.

use crate::bytes::{byte_at, value_at, window};
use crate::decode::{
    addressing_of, decode, immediate_of, needed, offset_width, opcode_of, operand_width, rex_w,
    Addressing, Opcode,
};
use crate::opcode::{has_modrm, Rule, ESCAPE};
use crate::prefix::{
    in_class, last_in_class, lemma_prefix_end_bounds, prefix_byte, prefix_end, prefixes, rex_byte,
    segment_override, Mode, PrefixClass, Prefixes, PREFIX_ADDRESS_SIZE, PREFIX_LOCK,
    PREFIX_OPERAND_SIZE, PREFIX_REPNZ, PREFIX_REPX,
};
use vstd::prelude::*;

verus! {

/// Each stage stops behind the one before it, and within a fixed distance.
pub proof fn lemma_stage_ends(s: Seq<u8>, mode: Mode)
    ensures
        ({
            let d = decode(s, mode);
            &&& 0 <= d.prefixes.len <= window(s)
            &&& d.prefixes.len == prefix_end(s, mode, 0)
            &&& d.prefixes.len < d.opcode.end <= d.prefixes.len + 2
            &&& d.opcode.end <= d.addressing.end <= d.opcode.end + 6
            &&& d.addressing.end <= d.immediate.end <= d.addressing.end + 8
            &&& d.needed == d.immediate.end
        }),
{
    reveal(decode);
    lemma_prefix_end_bounds(s, mode, 0);
}

/// The length of an instruction is at most fifteen bytes and at most the
/// size of the input, and at least one byte unless the input is empty.
pub proof fn lemma_length_bounds(s: Seq<u8>, mode: Mode)
    ensures
        decode(s, mode).len <= 15,
        decode(s, mode).len <= s.len(),
        s.len() > 0 ==> decode(s, mode).len >= 1,
        decode(s, mode).len == if decode(s, mode).too_long {
            window(s)
        } else {
            needed(s, mode)
        },
{
    reveal(decode);
    lemma_stage_ends(s, mode);
}

/// The last byte of a category is a byte of that category, or zero.
proof fn lemma_last_in_class_is_in_class(s: Seq<u8>, n: int, c: PrefixClass)
    ensures
        last_in_class(s, n, c) == 0 || in_class(c, last_in_class(s, n, c)),
    decreases n,
{
    if n > 0 {
        lemma_last_in_class_is_in_class(s, n - 1, c);
    }
}

/// There is a last repeat prefix exactly where one of the two repeat bytes
/// occurs.
proof fn lemma_last_repeat(s: Seq<u8>, n: int)
    ensures
        last_in_class(s, n, PrefixClass::Repeat) != 0 <==> last_in_class(s, n, PrefixClass::Repnz)
            != 0 || last_in_class(s, n, PrefixClass::Repx) != 0,
    decreases n,
{
    if n > 0 {
        lemma_last_repeat(s, n - 1);
    }
}

/// Each prefix field holds a byte of its category or zero, and the two
/// repeat marks say which repeat bytes occur.
pub proof fn lemma_prefix_fields(s: Seq<u8>, mode: Mode)
    ensures
        ({
            let p = prefixes(s, mode);
            &&& p.rep == 0 || p.rep == PREFIX_REPNZ || p.rep == PREFIX_REPX
            &&& p.rep != 0 <==> p.repnz || p.repx
            &&& p.lock == 0 || p.lock == PREFIX_LOCK
            &&& p.seg == 0 || segment_override(p.seg)
            &&& p.opsize == 0 || p.opsize == PREFIX_OPERAND_SIZE
            &&& p.addrsize == 0 || p.addrsize == PREFIX_ADDRESS_SIZE
            &&& p.rex == 0 || rex_byte(p.rex)
            &&& mode == Mode::Protected ==> p.rex == 0
        }),
{
    let n = prefix_end(s, mode, 0);
    lemma_last_in_class_is_in_class(s, n, PrefixClass::Repeat);
    lemma_last_in_class_is_in_class(s, n, PrefixClass::Lock);
    lemma_last_in_class_is_in_class(s, n, PrefixClass::Segment);
    lemma_last_in_class_is_in_class(s, n, PrefixClass::OperandSize);
    lemma_last_in_class_is_in_class(s, n, PrefixClass::AddressSize);
    lemma_last_repeat(s, n);
}

/// The fields of a decoded instruction fit together.
///
/// What is marked absent is zero. The parts of the ModR/M and SIB bytes are
/// cut from those bytes, a second opcode byte stands only behind the escape
/// byte, and a SIB byte only behind a ModR/M byte that asks for one. There
/// is one displacement at most, and it fits its width; it is 16 bits wide
/// only in 32-bit code behind an address-size override, where no SIB byte
/// and no 32-bit displacement occur. There is one immediate at most, and it
/// fits its width, unless the opcode takes two: a 16-bit one and then an
/// 8-bit one, or a far pointer.
pub proof fn lemma_fields_fit(s: Seq<u8>, mode: Mode)
    ensures
        ({
            let d = decode(s, mode);
            let x = d.addressing;
            let i = d.immediate;
            &&& d.needed >= 1
            &&& d.prefixes == prefixes(s, mode)
            &&& d.opcode.second != 0 ==> d.opcode.first == ESCAPE
            &&& !x.present ==> x.modrm == 0 && !x.has_sib && x.disp_size == 0
            &&& !x.has_sib ==> x.sib == 0
            &&& x.has_sib ==> x.modrm_mod != 3 && x.modrm_rm == 4
            &&& x.modrm_mod == x.modrm / 64
            &&& x.modrm_reg == (x.modrm / 8) % 8
            &&& x.modrm_rm == x.modrm % 8
            &&& x.sib_scale == x.sib / 64
            &&& x.sib_index == (x.sib / 8) % 8
            &&& x.sib_base == x.sib % 8
            &&& x.disp_size == 0 || x.disp_size == 1 || x.disp_size == 2 || x.disp_size == 4
            &&& x.disp_size == 0 ==> x.disp == 0
            &&& x.disp_size == 1 ==> x.disp < 0x100
            &&& x.disp_size == 2 ==> x.disp < 0x1_0000
            &&& x.disp_size == 2 ==> mode == Mode::Protected && d.prefixes.addrsize != 0
            &&& x.disp_size == 4 || x.has_sib ==> mode == Mode::Long || d.prefixes.addrsize == 0
            &&& !i.imm8 && !i.imm16 && !i.imm32 && !i.imm64 ==> i.value == 0 && !i.relative
            &&& i.imm8 && !i.imm16 ==> i.value < 0x100
            &&& i.imm16 && !i.imm32 ==> i.value < 0x1_0000
            &&& i.imm32 ==> i.value < 0x1_0000_0000
            &&& i.imm64 ==> !i.imm8 && !i.imm16 && !i.imm32
            &&& i.imm32 ==> !i.imm8
            &&& i.imm8 && i.imm16 <==> d.opcode.rule == Rule::IwIb
            &&& i.relative ==> !i.imm64 && !(i.imm8 && i.imm16)
            &&& d.opcode.rule == Rule::Far ==> mode == Mode::Protected && !x.present && i.imm16
            &&& d.opcode.rule == Rule::Far <==> i.second16 || (i.imm16 && i.imm32)
            &&& i.second16 ==> !i.imm32
            &&& i.selector != 0 ==> d.opcode.rule == Rule::Far
        }),
{
    reveal(decode);
    lemma_stage_ends(s, mode);
}

/// In 32-bit code no byte is a REX prefix, and the immediate fits in 32
/// bits.
pub proof fn lemma_protected_immediate(s: Seq<u8>)
    ensures
        decode(s, Mode::Protected).prefixes.rex == 0,
        !decode(s, Mode::Protected).immediate.imm64,
        decode(s, Mode::Protected).immediate.value <= 0xffff_ffff,
{
    reveal(decode);
}

/// Two inputs whose remaining bytes are the same decode to the same result,
/// whatever buffers they are part of and wherever in them they start.
pub proof fn lemma_decode_deterministic(a: Seq<u8>, i: int, b: Seq<u8>, j: int, mode: Mode)
    requires
        0 <= i <= a.len(),
        0 <= j <= b.len(),
        a.skip(i) =~= b.skip(j),
    ensures
        decode(a.skip(i), mode) == decode(b.skip(j), mode),
{
}

/// The scan for prefixes stops at the same place in two inputs with the same
/// window.
proof fn lemma_prefix_end_window(a: Seq<u8>, b: Seq<u8>, mode: Mode, i: int)
    requires
        window(a) == window(b),
        forall|k: int| 0 <= k < window(a) ==> a[k] == b[k],
    ensures
        prefix_end(b, mode, i) == prefix_end(a, mode, i),
    decreases window(a) - i,
{
    if 0 <= i < window(a) && prefix_byte(mode, a[i]) {
        lemma_prefix_end_window(a, b, mode, i + 1);
    }
}

/// Nothing outside the window has any effect: two inputs that agree on
/// their first fifteen bytes, or that are equal where they are shorter,
/// decode to the same result.
pub proof fn lemma_decode_window(a: Seq<u8>, b: Seq<u8>, mode: Mode)
    requires
        window(a) == window(b),
        forall|k: int| 0 <= k < window(a) ==> a[k] == b[k],
    ensures
        decode(b, mode) == decode(a, mode),
{
    reveal(decode);
    lemma_stage_ends(a, mode);
    lemma_prefix_end_window(a, b, mode, 0);
    let m = prefix_end(a, mode, 0);
    lemma_last_in_class_local(a, b, m, PrefixClass::Repeat);
    lemma_last_in_class_local(a, b, m, PrefixClass::Repnz);
    lemma_last_in_class_local(a, b, m, PrefixClass::Repx);
    lemma_last_in_class_local(a, b, m, PrefixClass::Lock);
    lemma_last_in_class_local(a, b, m, PrefixClass::Segment);
    lemma_last_in_class_local(a, b, m, PrefixClass::OperandSize);
    lemma_last_in_class_local(a, b, m, PrefixClass::AddressSize);
    let p = prefixes(a, mode);
    assert(prefixes(b, mode) == p);
    let n = decode(a, mode).needed as int;
    assert forall|k: int| 0 <= k < n implies byte_at(a, k) == byte_at(b, k) by {}
    lemma_opcode_local(a, b, mode, p, n);
    let o = opcode_of(a, mode, p);
    lemma_addressing_local(a, b, mode, p, o, n);
    let x = addressing_of(a, mode, p, o);
    lemma_immediate_local(a, b, mode, p, o, x, n);
}

/// The scan for prefixes stops at the same place in two inputs that agree up
/// to and including the byte at which it stops in the first.
proof fn lemma_prefix_end_local(a: Seq<u8>, b: Seq<u8>, mode: Mode, i: int, n: int)
    requires
        0 <= i <= n,
        prefix_end(a, mode, i) < n,
        n <= window(a),
        n <= window(b),
        forall|k: int| 0 <= k < n ==> a[k] == b[k],
    ensures
        prefix_end(b, mode, i) == prefix_end(a, mode, i),
    decreases n - i,
{
    lemma_prefix_end_bounds(a, mode, i);
    if prefix_byte(mode, a[i]) {
        lemma_prefix_end_local(a, b, mode, i + 1, n);
    }
}

/// The last prefix of a category is the same in two inputs that agree on
/// their first `n` bytes.
proof fn lemma_last_in_class_local(a: Seq<u8>, b: Seq<u8>, n: int, c: PrefixClass)
    requires
        n <= a.len(),
        n <= b.len(),
        forall|k: int| 0 <= k < n ==> a[k] == b[k],
    ensures
        last_in_class(b, n, c) == last_in_class(a, n, c),
    decreases n,
{
    if n > 0 {
        lemma_last_in_class_local(a, b, n - 1, c);
    }
}

/// The prefixes are the same in two inputs that agree up to and including
/// the byte at which the scan stops in the first.
proof fn lemma_prefixes_local(a: Seq<u8>, b: Seq<u8>, mode: Mode, n: int)
    requires
        prefix_end(a, mode, 0) < n,
        n <= window(a),
        n <= window(b),
        forall|k: int| 0 <= k < n ==> a[k] == b[k],
    ensures
        prefixes(b, mode) == prefixes(a, mode),
{
    lemma_prefix_end_bounds(a, mode, 0);
    lemma_prefix_end_local(a, b, mode, 0, n);
    let m = prefix_end(a, mode, 0);
    lemma_last_in_class_local(a, b, m, PrefixClass::Repeat);
    lemma_last_in_class_local(a, b, m, PrefixClass::Repnz);
    lemma_last_in_class_local(a, b, m, PrefixClass::Repx);
    lemma_last_in_class_local(a, b, m, PrefixClass::Lock);
    lemma_last_in_class_local(a, b, m, PrefixClass::Segment);
    lemma_last_in_class_local(a, b, m, PrefixClass::OperandSize);
    lemma_last_in_class_local(a, b, m, PrefixClass::AddressSize);
}

/// The opcode is the same in two inputs that agree on the bytes before the
/// position where it ends in the first.
proof fn lemma_opcode_local(a: Seq<u8>, b: Seq<u8>, mode: Mode, p: Prefixes, n: int)
    requires
        p.len <= 15,
        opcode_of(a, mode, p).end <= n,
        forall|k: int| 0 <= k < n ==> byte_at(a, k) == byte_at(b, k),
    ensures
        opcode_of(b, mode, p) == opcode_of(a, mode, p),
{
    assert(byte_at(a, p.len as int) == byte_at(b, p.len as int));
    if byte_at(a, p.len as int) == ESCAPE {
        assert(byte_at(a, p.len + 1) == byte_at(b, p.len + 1));
    }
}

/// The addressing is the same in two inputs that agree on the bytes before
/// the position where it ends in the first.
proof fn lemma_addressing_local(
    a: Seq<u8>,
    b: Seq<u8>,
    mode: Mode,
    p: Prefixes,
    o: Opcode,
    n: int,
)
    requires
        o.end <= 17,
        addressing_of(a, mode, p, o).end <= n,
        forall|k: int| 0 <= k < n ==> byte_at(a, k) == byte_at(b, k),
    ensures
        addressing_of(b, mode, p, o) == addressing_of(a, mode, p, o),
{
    if has_modrm(o.rule) {
        let x = addressing_of(a, mode, p, o);
        assert(byte_at(a, o.end as int) == byte_at(b, o.end as int));
        let at = if x.has_sib {
            o.end + 2
        } else {
            o.end + 1
        };
        assert(x.end == at + x.disp_size);
        if x.has_sib {
            assert(byte_at(a, o.end + 1) == byte_at(b, o.end + 1));
        }
        lemma_value_local(a, b, at, x.disp_size as int, n);
    }
}

/// A value is the same in two inputs that agree on the bytes before the
/// position where it ends.
proof fn lemma_value_local(a: Seq<u8>, b: Seq<u8>, at: int, size: int, n: int)
    requires
        0 <= at,
        0 <= size,
        at + size <= n,
        forall|k: int| 0 <= k < n ==> byte_at(a, k) == byte_at(b, k),
    ensures
        value_at(b, at, size) == value_at(a, at, size),
{
    if size == 1 || size == 2 || size == 4 || size == 8 {
        assert(byte_at(a, at) == byte_at(b, at));
    }
    if size == 2 || size == 4 || size == 8 {
        assert(byte_at(a, at + 1) == byte_at(b, at + 1));
    }
    if size == 4 || size == 8 {
        assert(byte_at(a, at + 2) == byte_at(b, at + 2));
        assert(byte_at(a, at + 3) == byte_at(b, at + 3));
    }
    if size == 8 {
        assert(byte_at(a, at + 4) == byte_at(b, at + 4));
        assert(byte_at(a, at + 5) == byte_at(b, at + 5));
        assert(byte_at(a, at + 6) == byte_at(b, at + 6));
        assert(byte_at(a, at + 7) == byte_at(b, at + 7));
    }
}

/// The immediate is the same in two inputs that agree on the bytes before
/// the position where it ends in the first.
proof fn lemma_immediate_local(
    a: Seq<u8>,
    b: Seq<u8>,
    mode: Mode,
    p: Prefixes,
    o: Opcode,
    x: Addressing,
    n: int,
)
    requires
        x.end <= 23,
        immediate_of(a, mode, p, o, x).end <= n,
        forall|k: int| 0 <= k < n ==> byte_at(a, k) == byte_at(b, k),
    ensures
        immediate_of(b, mode, p, o, x) == immediate_of(a, mode, p, o, x),
{
    let at = x.end as int;
    let z = operand_width(p);
    match o.rule {
        Rule::Undefined | Rule::Bare | Rule::ModRm => {},
        Rule::Ib | Rule::ModRmIb | Rule::Jb => {
            lemma_value_local(a, b, at, 1, n);
        },
        Rule::Iw => {
            lemma_value_local(a, b, at, 2, n);
        },
        Rule::Iz | Rule::ModRmIz | Rule::Jz => {
            lemma_value_local(a, b, at, z, n);
        },
        Rule::Iv => {
            lemma_value_local(
                a,
                b,
                at,
                if rex_w(p) {
                    8
                } else {
                    z
                },
                n,
            );
        },
        Rule::Moffs => {
            lemma_value_local(a, b, at, offset_width(mode, p), n);
        },
        Rule::IwIb => {
            lemma_value_local(a, b, at, 2, n);
            lemma_value_local(a, b, at, 1, n);
            lemma_value_local(a, b, at + 2, 1, n);
        },
        Rule::Far => {
            lemma_value_local(a, b, at, z, n);
            lemma_value_local(a, b, at + z, 2, n);
        },
        Rule::UnaryIb => {
            if x.modrm_reg <= 1 {
                lemma_value_local(a, b, at, 1, n);
            }
        },
        Rule::UnaryIz => {
            if x.modrm_reg <= 1 {
                lemma_value_local(a, b, at, z, n);
            }
        },
    }
}

/// An instruction is decoded from its own bytes alone: where the first input
/// holds all the bytes that its instruction needs and the second input starts
/// with the same bytes, both decode to the same result.
pub proof fn lemma_decode_local(a: Seq<u8>, b: Seq<u8>, mode: Mode)
    requires
        needed(a, mode) <= window(a),
        needed(a, mode) <= window(b),
        forall|k: int| 0 <= k < needed(a, mode) ==> a[k] == b[k],
    ensures
        decode(b, mode) == decode(a, mode),
{
    reveal(decode);
    let n = needed(a, mode);
    lemma_stage_ends(a, mode);
    lemma_prefixes_local(a, b, mode, n);
    let p = prefixes(a, mode);
    assert forall|k: int| 0 <= k < n implies byte_at(a, k) == byte_at(b, k) by {}
    lemma_opcode_local(a, b, mode, p, n);
    let o = opcode_of(a, mode, p);
    lemma_addressing_local(a, b, mode, p, o, n);
    let x = addressing_of(a, mode, p, o);
    lemma_immediate_local(a, b, mode, p, o, x, n);
}

} // verus!
