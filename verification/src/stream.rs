//! Decoding a run of instructions one after the other.
//!
//! A caller walks a buffer by decoding at an offset and moving on by the
//! length it got. The laws here say where that walk goes: it cuts the buffer
//! into pieces that leave no byte out and share none, and over a buffer made
//! of whole instructions it finds each of them.

use crate::bytes::window;
use crate::decode::{decode, needed};
use crate::laws::{lemma_decode_local, lemma_length_bounds, lemma_stage_ends};
use crate::prefix::Mode;
use vstd::prelude::*;

verus! {

/// The pieces into which a walk cuts `s`: the bytes of the instruction at the
/// start of `s`, then the pieces of what follows it.
pub open spec fn pieces(s: Seq<u8>, mode: Mode) -> Seq<Seq<u8>>
    decreases s.len(),
    via pieces_decreases
{
    if s.len() == 0 {
        Seq::empty()
    } else {
        let n = decode(s, mode).len as int;
        seq![s.take(n)] + pieces(s.skip(n), mode)
    }
}

#[via_fn]
proof fn pieces_decreases(s: Seq<u8>, mode: Mode) {
    lemma_length_bounds(s, mode);
}

/// Whether `x` holds one whole instruction and nothing else: the instruction
/// at its start needs every byte of `x`, and no more than fifteen.
pub open spec fn is_instruction(x: Seq<u8>, mode: Mode) -> bool {
    needed(x, mode) == x.len() && x.len() <= 15
}

/// A walk leaves no byte out and takes none twice: the pieces, put together
/// in order, are the buffer. Each piece is between one and fifteen bytes
/// long.
pub proof fn lemma_pieces_cover(s: Seq<u8>, mode: Mode)
    ensures
        pieces(s, mode).flatten() == s,
        forall|k: int|
            0 <= k < pieces(s, mode).len() ==> 1 <= (#[trigger] pieces(s, mode)[k]).len() <= 15,
    decreases s.len(),
{
    if s.len() == 0 {
        assert(pieces(s, mode).flatten() =~= s);
    } else {
        lemma_length_bounds(s, mode);
        let n = decode(s, mode).len as int;
        let rest = pieces(s.skip(n), mode);
        lemma_pieces_cover(s.skip(n), mode);
        let all = seq![s.take(n)] + rest;
        assert(all.first() == s.take(n));
        assert(all.drop_first() =~= rest);
        assert(all.flatten() =~= s.take(n) + s.skip(n));
        assert(s.take(n) + s.skip(n) =~= s);
        assert forall|k: int| 0 <= k < all.len() implies 1 <= (#[trigger] all[k]).len() <= 15 by {
            if k > 0 {
                assert(all[k] == rest[k - 1]);
            }
        }
    }
}

/// Over a buffer made of whole instructions, one after the other, a walk
/// finds exactly these instructions: as many pieces as there are
/// instructions, each piece one of them.
pub proof fn lemma_pieces_of_instructions(insns: Seq<Seq<u8>>, mode: Mode)
    requires
        forall|k: int| 0 <= k < insns.len() ==> is_instruction(#[trigger] insns[k], mode),
    ensures
        pieces(insns.flatten(), mode) == insns,
    decreases insns.len(),
{
    let s = insns.flatten();
    if insns.len() == 0 {
        assert(pieces(s, mode) =~= insns);
    } else {
        let x = insns.first();
        let rest = insns.drop_first();
        assert(is_instruction(x, mode));
        lemma_stage_ends(x, mode);
        lemma_length_bounds(x, mode);
        assert(s =~= x + rest.flatten());
        assert forall|k: int| 0 <= k < x.len() implies x[k] == s[k] by {}
        lemma_decode_local(x, s, mode);
        let n = decode(s, mode).len as int;
        assert(n == x.len());
        assert(s.take(n) =~= x);
        assert(s.skip(n) =~= rest.flatten());
        assert forall|k: int| 0 <= k < rest.len() implies is_instruction(
            #[trigger] rest[k],
            mode,
        ) by {
            assert(rest[k] == insns[k + 1]);
        }
        lemma_pieces_of_instructions(rest, mode);
        assert(s.len() > 0);
        assert(pieces(s.skip(n), mode) == rest);
        assert(pieces(s, mode) =~= seq![x] + rest);
        assert(seq![x] + rest =~= insns);
    }
}

} // verus!
