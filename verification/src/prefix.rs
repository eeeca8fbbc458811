//! The prefix scanner: the bytes that stand before the opcode.

use crate::bytes::{byte_at, window, window_len};
use vstd::prelude::*;

verus! {

/// The processor mode that the decoded code is meant for.
#[derive(Clone, Copy, PartialEq, Eq, Structural, Debug)]
pub enum Mode {
    /// 32-bit code: no REX prefix, 16-bit addressing behind an address-size
    /// override.
    Protected,
    /// 64-bit code: the bytes `0x40` to `0x4f` are REX prefixes.
    Long,
}

/// The CS segment override.
pub const PREFIX_SEGMENT_CS: u8 = 0x2e;

/// The SS segment override.
pub const PREFIX_SEGMENT_SS: u8 = 0x36;

/// The DS segment override.
pub const PREFIX_SEGMENT_DS: u8 = 0x3e;

/// The ES segment override.
pub const PREFIX_SEGMENT_ES: u8 = 0x26;

/// The FS segment override.
pub const PREFIX_SEGMENT_FS: u8 = 0x64;

/// The GS segment override.
pub const PREFIX_SEGMENT_GS: u8 = 0x65;

/// The lock prefix.
pub const PREFIX_LOCK: u8 = 0xf0;

/// The repeat prefix REPNZ.
pub const PREFIX_REPNZ: u8 = 0xf2;

/// The repeat prefix REP, or REPZ.
pub const PREFIX_REPX: u8 = 0xf3;

/// The operand-size override.
pub const PREFIX_OPERAND_SIZE: u8 = 0x66;

/// The address-size override.
pub const PREFIX_ADDRESS_SIZE: u8 = 0x67;

/// The categories of legacy prefix. `Repeat` holds both repeat bytes; `Repnz`
/// and `Repx` hold one each.
#[derive(Clone, Copy, PartialEq, Eq, Structural, Debug)]
pub enum PrefixClass {
    /// `0xf2` and `0xf3`.
    Repeat,
    /// `0xf2`.
    Repnz,
    /// `0xf3`.
    Repx,
    /// `0xf0`.
    Lock,
    /// The six segment overrides.
    Segment,
    /// `0x66`.
    OperandSize,
    /// `0x67`.
    AddressSize,
}

/// Whether `b` is one of the six segment-override bytes.
pub open spec fn segment_override(b: u8) -> bool {
    b == PREFIX_SEGMENT_ES || b == PREFIX_SEGMENT_CS || b == PREFIX_SEGMENT_SS || b
        == PREFIX_SEGMENT_DS || b == PREFIX_SEGMENT_FS || b == PREFIX_SEGMENT_GS
}

/// Whether the byte `b` belongs to the prefix category `c`.
pub open spec fn in_class(c: PrefixClass, b: u8) -> bool {
    match c {
        PrefixClass::Repeat => b == PREFIX_REPNZ || b == PREFIX_REPX,
        PrefixClass::Repnz => b == PREFIX_REPNZ,
        PrefixClass::Repx => b == PREFIX_REPX,
        PrefixClass::Lock => b == PREFIX_LOCK,
        PrefixClass::Segment => segment_override(b),
        PrefixClass::OperandSize => b == PREFIX_OPERAND_SIZE,
        PrefixClass::AddressSize => b == PREFIX_ADDRESS_SIZE,
    }
}

/// Whether `b` is a legacy prefix byte of any category.
pub open spec fn legacy_prefix(b: u8) -> bool {
    b == PREFIX_LOCK || b == PREFIX_REPNZ || b == PREFIX_REPX || b == PREFIX_OPERAND_SIZE || b
        == PREFIX_ADDRESS_SIZE || segment_override(b)
}

/// Whether `b` lies in the REX range, `0x40` to `0x4f`.
pub open spec fn rex_byte(b: u8) -> bool {
    0x40 <= b <= 0x4f
}

/// Whether the scanner consumes `b` as a prefix byte in the given mode.
pub open spec fn prefix_byte(mode: Mode, b: u8) -> bool {
    legacy_prefix(b) || (mode == Mode::Long && rex_byte(b))
}

/// The position of the first byte at or after `i` that is no prefix, or the
/// end of the window where every byte from `i` on is one.
pub open spec fn prefix_end(s: Seq<u8>, mode: Mode, i: int) -> int
    decreases window(s) - i,
{
    if 0 <= i < window(s) && prefix_byte(mode, s[i]) {
        prefix_end(s, mode, i + 1)
    } else {
        i
    }
}

/// The last byte of category `c` among the first `n` bytes of `s`, or zero
/// where there is none.
pub open spec fn last_in_class(s: Seq<u8>, n: int, c: PrefixClass) -> u8
    decreases n,
{
    if n <= 0 {
        0
    } else if in_class(c, s[n - 1]) {
        s[n - 1]
    } else {
        last_in_class(s, n - 1, c)
    }
}

/// What the prefix scanner found.
#[derive(Clone, Copy, PartialEq, Eq, Debug)]
pub struct Prefixes {
    /// The number of bytes consumed as prefixes.
    pub len: usize,
    /// The last repeat prefix (`0xf2` or `0xf3`), or zero.
    pub rep: u8,
    /// The lock prefix (`0xf0`), or zero.
    pub lock: u8,
    /// The last segment override, or zero.
    pub seg: u8,
    /// The operand-size override (`0x66`), or zero.
    pub opsize: u8,
    /// The address-size override (`0x67`), or zero.
    pub addrsize: u8,
    /// Whether `0xf2` occurs among the prefixes.
    pub repnz: bool,
    /// Whether `0xf3` occurs among the prefixes.
    pub repx: bool,
    /// The REX prefix, or zero. Only the byte that stands directly before the
    /// opcode counts as one.
    pub rex: u8,
}

/// The prefixes of the instruction at the start of `s`.
///
/// The scanner consumes bytes for as long as each is a legacy prefix or, in
/// long mode, lies in the REX range. Of each category the last byte wins. A
/// byte in the REX range is the REX prefix only where it is the last byte
/// consumed; one that another prefix follows is consumed and has no effect.
pub open spec fn prefixes(s: Seq<u8>, mode: Mode) -> Prefixes {
    let n = prefix_end(s, mode, 0);
    Prefixes {
        len: n as usize,
        rep: last_in_class(s, n, PrefixClass::Repeat),
        lock: last_in_class(s, n, PrefixClass::Lock),
        seg: last_in_class(s, n, PrefixClass::Segment),
        opsize: last_in_class(s, n, PrefixClass::OperandSize),
        addrsize: last_in_class(s, n, PrefixClass::AddressSize),
        repnz: last_in_class(s, n, PrefixClass::Repnz) != 0,
        repx: last_in_class(s, n, PrefixClass::Repx) != 0,
        rex: if mode == Mode::Long && n > 0 && rex_byte(s[n - 1]) {
            s[n - 1]
        } else {
            0
        },
    }
}

/// Whether `b` is one of the six segment-override bytes.
pub fn is_segment_override(b: u8) -> (r: bool)
    ensures
        r == segment_override(b),
{
    b == PREFIX_SEGMENT_ES || b == PREFIX_SEGMENT_CS || b == PREFIX_SEGMENT_SS || b
        == PREFIX_SEGMENT_DS || b == PREFIX_SEGMENT_FS || b == PREFIX_SEGMENT_GS
}

/// Whether `b` is a legacy prefix byte of any category.
pub fn is_legacy_prefix(b: u8) -> (r: bool)
    ensures
        r == legacy_prefix(b),
{
    b == PREFIX_LOCK || b == PREFIX_REPNZ || b == PREFIX_REPX || b == PREFIX_OPERAND_SIZE || b
        == PREFIX_ADDRESS_SIZE || is_segment_override(b)
}

/// Whether `b` lies in the REX range.
pub fn is_rex_byte(b: u8) -> (r: bool)
    ensures
        r == rex_byte(b),
{
    0x40 <= b && b <= 0x4f
}

/// Whether the scanner consumes `b` as a prefix byte in the given mode.
pub fn is_prefix_byte(mode: Mode, b: u8) -> (r: bool)
    ensures
        r == prefix_byte(mode, b),
{
    is_legacy_prefix(b) || (mode == Mode::Long && is_rex_byte(b))
}

/// Scans the prefixes of the instruction at the start of `code`.
pub fn scan_prefixes(code: &[u8], mode: Mode) -> (p: Prefixes)
    ensures
        p == prefixes(code@, mode),
        p.len <= window(code@),
{
    let end = window_len(code);
    let mut p = Prefixes {
        len: 0,
        rep: 0,
        lock: 0,
        seg: 0,
        opsize: 0,
        addrsize: 0,
        repnz: false,
        repx: false,
        rex: 0,
    };
    let mut i: usize = 0;
    while i < end && is_prefix_byte(mode, code[i])
        invariant
            end == window(code@),
            i <= end,
            prefix_end(code@, mode, 0) == prefix_end(code@, mode, i as int),
            p.len == 0,
            p.rep == last_in_class(code@, i as int, PrefixClass::Repeat),
            p.lock == last_in_class(code@, i as int, PrefixClass::Lock),
            p.seg == last_in_class(code@, i as int, PrefixClass::Segment),
            p.opsize == last_in_class(code@, i as int, PrefixClass::OperandSize),
            p.addrsize == last_in_class(code@, i as int, PrefixClass::AddressSize),
            p.repnz == (last_in_class(code@, i as int, PrefixClass::Repnz) != 0),
            p.repx == (last_in_class(code@, i as int, PrefixClass::Repx) != 0),
            p.rex == if mode == Mode::Long && i > 0 && rex_byte(code@[i - 1]) {
                code@[i - 1]
            } else {
                0
            },
        decreases end - i,
    {
        let b = code[i];
        if b == PREFIX_REPNZ {
            p.rep = b;
            p.repnz = true;
        } else if b == PREFIX_REPX {
            p.rep = b;
            p.repx = true;
        } else if b == PREFIX_LOCK {
            p.lock = b;
        } else if b == PREFIX_OPERAND_SIZE {
            p.opsize = b;
        } else if b == PREFIX_ADDRESS_SIZE {
            p.addrsize = b;
        } else if is_segment_override(b) {
            p.seg = b;
        }
        p.rex = if is_legacy_prefix(b) {
            0
        } else {
            b
        };
        i = i + 1;
    }
    p.len = i;
    p
}

/// The scan ends inside the window, and at a byte that is no prefix.
pub proof fn lemma_prefix_end_bounds(s: Seq<u8>, mode: Mode, i: int)
    requires
        0 <= i <= window(s),
    ensures
        i <= prefix_end(s, mode, i) <= window(s),
        !prefix_byte(mode, byte_at(s, prefix_end(s, mode, i))),
    decreases window(s) - i,
{
    if i < window(s) && prefix_byte(mode, s[i]) {
        lemma_prefix_end_bounds(s, mode, i + 1);
    }
}

} // verus!
