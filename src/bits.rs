//! Single-bit view of a register byte, shared by every bitfield record.
use vstd::prelude::*;

verus! {

/// Whether bit `i` (0 = least significant) of `b` is set.
pub open spec fn bit_of(b: u8, i: u8) -> bool {
    (b >> i) & 1u8 == 1u8
}

/// `b` with bit `i` set when `v` holds and cleared otherwise.
pub open spec fn with_bit(b: u8, i: u8, v: bool) -> u8 {
    if v {
        b | (1u8 << i)
    } else {
        b & !(1u8 << i)
    }
}

/// Writing one field changes that field to `v` and leaves every other bit of
/// the byte, and so every other field, as it was.
pub proof fn lemma_with_bit(b: u8, i: u8, v: bool)
    requires
        i < 8,
    ensures
        bit_of(with_bit(b, i, v), i) == v,
        forall|j: u8| j < 8 && j != i ==> bit_of(#[trigger] with_bit(b, i, v), j) == bit_of(b, j),
{
    assert(bit_of(b | (1u8 << i), i)) by (bit_vector)
        requires i < 8;
    assert(!bit_of(b & !(1u8 << i), i)) by (bit_vector)
        requires i < 8;
    assert forall|j: u8| j < 8 && j != i implies bit_of(#[trigger] with_bit(b, i, v), j) == bit_of(
        b,
        j,
    ) by {
        assert(bit_of(b | (1u8 << i), j) == bit_of(b, j)) by (bit_vector)
            requires i < 8, j < 8, j != i;
        assert(bit_of(b & !(1u8 << i), j) == bit_of(b, j)) by (bit_vector)
            requires i < 8, j < 8, j != i;
    }
}

/// `b` after the single-bit writes `ms`, applied in order; each write names a
/// bit and the value it gets.
pub open spec fn apply_writes(b: u8, ms: Seq<(u8, bool)>) -> u8
    decreases ms.len(),
{
    if ms.len() == 0 {
        b
    } else {
        with_bit(apply_writes(b, ms.drop_last()), ms.last().0, ms.last().1)
    }
}

/// The value of the last write to bit `i` in `ms`, or bit `i` of `b` when
/// no write names it.
pub open spec fn last_write(b: u8, ms: Seq<(u8, bool)>, i: u8) -> bool
    decreases ms.len(),
{
    if ms.len() == 0 {
        bit_of(b, i)
    } else if ms.last().0 == i {
        ms.last().1
    } else {
        last_write(b, ms.drop_last(), i)
    }
}

/// After any sequence of field writes on a record decoded from any byte,
/// every bit reads back as the last write to it left it, or as the starting
/// byte had it; re-encoding and decoding keep the byte, so they keep each
/// field's value too.
pub proof fn lemma_apply_writes_read_back(b: u8, ms: Seq<(u8, bool)>, i: u8)
    requires
        i < 8,
        forall|k: int| 0 <= k < ms.len() ==> #[trigger] ms[k].0 < 8,
    ensures
        bit_of(apply_writes(b, ms), i) == last_write(b, ms, i),
    decreases ms.len(),
{
    if ms.len() > 0 {
        let rest = ms.drop_last();
        assert forall|k: int| 0 <= k < rest.len() implies #[trigger] rest[k].0 < 8 by {
            assert(rest[k] == ms[k]);
        }
        lemma_apply_writes_read_back(b, rest, i);
        assert(ms.last() == ms[ms.len() - 1]);
        lemma_with_bit(apply_writes(b, rest), ms.last().0, ms.last().1);
    }
}

/// Sets or clears bit `i` of `b`.
pub fn set_bit(b: u8, i: u8, v: bool) -> (r: u8)
    requires
        i < 8,
    ensures
        r == with_bit(b, i, v),
{
    if v {
        b | (1u8 << i)
    } else {
        b & !(1u8 << i)
    }
}

/// Reads bit `i` of `b`.
pub fn get_bit(b: u8, i: u8) -> (r: bool)
    requires
        i < 8,
    ensures
        r == bit_of(b, i),
{
    (b >> i) & 1u8 == 1u8
}

} // verus!
