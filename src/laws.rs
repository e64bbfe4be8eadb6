//! What holds of the bit range operations on every value and every range.
use vstd::prelude::*;

use crate::{in_range, Width};

verus! {

/// Writing a range changes no bit outside it.
pub proof fn lemma_write_keeps_outside<V: Width>(v: V, lo: u32, hi: u32, x: V)
    requires
        lo <= hi < V::spec_width(),
    ensures
        forall|i: u32|
            i < V::spec_width() && !in_range(lo, hi, i) ==> #[trigger] v.spec_write(
                lo,
                hi,
                x,
            ).spec_bit(i) == v.spec_bit(i),
{
    assert forall|i: u32| i < V::spec_width() && !in_range(lo, hi, i) implies #[trigger] v.spec_write(
        lo,
        hi,
        x,
    ).spec_bit(i) == v.spec_bit(i) by {
        V::lemma_bit_ops(v, x, lo, hi, i);
    }
}

/// Reading back a range that was just written gives the low `hi - lo + 1` bits of what was
/// written, that is `x & ((1 << (hi - lo + 1)) - 1)`, and nothing of the value it was
/// written into.
pub proof fn lemma_write_read_round_trip<V: Width>(v: V, lo: u32, hi: u32, x: V)
    requires
        lo <= hi < V::spec_width(),
    ensures
        v.spec_write(lo, hi, x).spec_read(lo, hi) == x.spec_read(0, (hi - lo) as u32),
        forall|i: u32|
            i < V::spec_width() ==> #[trigger] v.spec_write(lo, hi, x).spec_read(lo, hi).spec_bit(i)
                == (i <= hi - lo && x.spec_bit(i)),
{
    V::lemma_identities(v, x, lo, hi);
    assert forall|i: u32| i < V::spec_width() implies #[trigger] v.spec_write(lo, hi, x).spec_read(
        lo,
        hi,
    ).spec_bit(i) == (i <= hi - lo && x.spec_bit(i)) by {
        V::lemma_bit_ops(x, x, 0, (hi - lo) as u32, i);
    }
}

/// Setting a range and then clearing it is clearing it; setting twice is setting once, and
/// so is clearing twice. After a set every bit of the range is one, after a clear every bit
/// of it is zero, and the bits outside the range are those of `v`.
pub proof fn lemma_set_clear<V: Width>(v: V, lo: u32, hi: u32)
    requires
        lo <= hi < V::spec_width(),
    ensures
        v.spec_set(lo, hi).spec_clr(lo, hi) == v.spec_clr(lo, hi),
        v.spec_clr(lo, hi).spec_set(lo, hi) == v.spec_set(lo, hi),
        v.spec_set(lo, hi).spec_set(lo, hi) == v.spec_set(lo, hi),
        v.spec_clr(lo, hi).spec_clr(lo, hi) == v.spec_clr(lo, hi),
        v.spec_set(lo, hi).spec_is_set(lo, hi),
        v.spec_clr(lo, hi).spec_is_clr(lo, hi),
        forall|i: u32|
            i < V::spec_width() ==> #[trigger] v.spec_set(lo, hi).spec_clr(lo, hi).spec_bit(i) == (
            !in_range(lo, hi, i) && v.spec_bit(i)),
{
    V::lemma_identities(v, v, lo, hi);
    assert forall|i: u32| i < V::spec_width() implies #[trigger] v.spec_set(lo, hi).spec_clr(
        lo,
        hi,
    ).spec_bit(i) == (!in_range(lo, hi, i) && v.spec_bit(i)) by {
        V::lemma_bit_ops(v, v, lo, hi, i);
    }
}

/// Flipping a range twice gives back the value.
pub proof fn lemma_revert_twice<V: Width>(v: V, lo: u32, hi: u32)
    requires
        lo <= hi < V::spec_width(),
    ensures
        v.spec_revert(lo, hi).spec_revert(lo, hi) == v,
{
    V::lemma_identities(v, v, lo, hi);
}

/// Walking the bits of a `u16` gives, at each index `i`, whether `v & (1 << i)` is nonzero:
/// the sequence that `v.bits(..).into_iter()` hands out is that of a loop that shifts a
/// one up and tests it.
pub proof fn lemma_iter_is_shift_test(v: u16)
    ensures
        Seq::new(16, |k: int| v.spec_bit(k as u32)) =~= Seq::new(
            16,
            |k: int| v & (1u16 << (k as u32)) != 0,
        ),
{
    assert forall|k: int| 0 <= k < 16 implies #[trigger] v.spec_bit(k as u32) == (v & (1u16 << (
    k as u32)) != 0) by {
        lemma_shift_test(v, k as u32);
    }
}

proof fn lemma_shift_test(v: u16, i: u32)
    by (bit_vector)
    requires
        i < 16,
    ensures
        ((v >> i) & 1 == 1) == (v & (1u16 << i) != 0),
{
}

} // verus!
