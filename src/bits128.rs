//! Bit ranges of `u128`.
use vstd::prelude::*;

use core::ops::Bound;

use crate::{ones_in, BitIndex, Bits, BitsOps, IntoBits, Width};

verus! {

pub open spec fn bit128(v: u128, i: u32) -> bool {
    (v >> i) & 1 == 1
}

pub open spec fn mask128(lo: u32, hi: u32) -> u128 {
    (((1u128 << hi) - (1u128 << lo)) as u128) | (1u128 << hi)
}

pub open spec fn write128(v: u128, lo: u32, hi: u32, x: u128) -> u128 {
    (v & !mask128(lo, hi)) | ((x << lo) & mask128(lo, hi))
}

pub open spec fn read128(v: u128, lo: u32, hi: u32) -> u128 {
    (v & mask128(lo, hi)) >> lo
}

#[verifier::rlimit(100)]
proof fn lemma_bits128(v: u128, x: u128, lo: u32, hi: u32, i: u32)
    by (bit_vector)
    requires
        lo <= hi < 128,
        i < 128,
    ensures
        (1u128 << lo) <= (1u128 << hi),
        bit128(mask128(lo, hi), i) == (lo <= i && i <= hi),
        bit128(v | mask128(lo, hi), i) == (lo <= i && i <= hi || bit128(v, i)),
        bit128(v & !mask128(lo, hi), i) == (!(lo <= i && i <= hi) && bit128(v, i)),
        bit128(v ^ mask128(lo, hi), i) == ((lo <= i && i <= hi) != bit128(v, i)),
        bit128(write128(v, lo, hi, x), i) == if lo <= i && i <= hi {
            bit128(x, (i - lo) as u32)
        } else {
            bit128(v, i)
        },
        bit128(read128(v, lo, hi), i) == (i + lo <= hi && bit128(v, (i + lo) as u32)),
{
}

#[verifier::rlimit(100)]
proof fn lemma_identities128(v: u128, lo: u32, hi: u32)
    by (bit_vector)
    requires
        lo <= hi < 128,
    ensures
        (v ^ mask128(lo, hi)) ^ mask128(lo, hi) == v,
        (v | mask128(lo, hi)) | mask128(lo, hi) == v | mask128(lo, hi),
        (v & !mask128(lo, hi)) & !mask128(lo, hi) == v & !mask128(lo, hi),
        (v | mask128(lo, hi)) & !mask128(lo, hi) == v & !mask128(lo, hi),
        (v & !mask128(lo, hi)) | mask128(lo, hi) == v | mask128(lo, hi),
        (v | mask128(lo, hi)) & mask128(lo, hi) == mask128(lo, hi),
        read128(v & !mask128(lo, hi), lo, hi) == 0,
        ((v & mask128(lo, lo)) == mask128(lo, lo)) == bit128(v, lo),
        (read128(v, lo, lo) == 0) == !bit128(v, lo),
{
}

#[verifier::rlimit(100)]
proof fn lemma_round_trip128(v: u128, x: u128, lo: u32, hi: u32)
    by (bit_vector)
    requires
        lo <= hi < 128,
    ensures
        read128(write128(v, lo, hi, x), lo, hi) == read128(x, 0, (hi - lo) as u32),
{
}

/// One pass of the parallel count: each group of bits receives the sum of its two halves,
/// `a` selecting the low half of each group and `b` the high half, `s` bits above.
pub open spec fn pass128(r: u128, a: u128, b: u128, s: u32) -> int {
    (r & a) + ((r & b) >> s)
}

/// The group of bits of `r` that starts at bit `p`, `m` selecting its width.
spec fn lane128(r: u128, p: int, m: u128) -> int {
    ((r >> (p as u32)) & m) as int
}

proof fn lemma_passes128(r: u128, p: u32)
    by (bit_vector)
    ensures
        (r >> p) & 1 <= 1,
        ((r >> p) & 1 == 1) == bit128(r, p),
        pass128(r, 0x5555_5555_5555_5555_5555_5555_5555_5555, 0xaaaa_aaaa_aaaa_aaaa_aaaa_aaaa_aaaa_aaaa, 1) <= 0xffff_ffff_ffff_ffff_ffff_ffff_ffff_ffff,
        pass128(r, 0x3333_3333_3333_3333_3333_3333_3333_3333, 0xcccc_cccc_cccc_cccc_cccc_cccc_cccc_cccc, 2) <= 0xffff_ffff_ffff_ffff_ffff_ffff_ffff_ffff,
        pass128(r, 0x0f0f_0f0f_0f0f_0f0f_0f0f_0f0f_0f0f_0f0f, 0xf0f0_f0f0_f0f0_f0f0_f0f0_f0f0_f0f0_f0f0, 4) <= 0xffff_ffff_ffff_ffff_ffff_ffff_ffff_ffff,
        pass128(r, 0x00ff_00ff_00ff_00ff_00ff_00ff_00ff_00ff, 0xff00_ff00_ff00_ff00_ff00_ff00_ff00_ff00, 8) <= 0xffff_ffff_ffff_ffff_ffff_ffff_ffff_ffff,
        pass128(r, 0x0000_ffff_0000_ffff_0000_ffff_0000_ffff, 0xffff_0000_ffff_0000_ffff_0000_ffff_0000, 16) <= 0xffff_ffff_ffff_ffff_ffff_ffff_ffff_ffff,
        pass128(r, 0x0000_0000_ffff_ffff_0000_0000_ffff_ffff, 0xffff_ffff_0000_0000_ffff_ffff_0000_0000, 32) <= 0xffff_ffff_ffff_ffff_ffff_ffff_ffff_ffff,
        pass128(r, 0x0000_0000_0000_0000_ffff_ffff_ffff_ffff, 0xffff_ffff_ffff_ffff_0000_0000_0000_0000, 64) <= 0xffff_ffff_ffff_ffff_ffff_ffff_ffff_ffff,
        p < 128 && p % 2 == 0 ==> ((pass128(r, 0x5555_5555_5555_5555_5555_5555_5555_5555, 0xaaaa_aaaa_aaaa_aaaa_aaaa_aaaa_aaaa_aaaa, 1) as u128) >> p) & 0x0000_0000_0000_0000_0000_0000_0000_0003
            == ((r >> p) & 0x0000_0000_0000_0000_0000_0000_0000_0001) + ((r >> (p + 1)) & 0x0000_0000_0000_0000_0000_0000_0000_0001),
        p < 128 && p % 4 == 0 ==> ((pass128(r, 0x3333_3333_3333_3333_3333_3333_3333_3333, 0xcccc_cccc_cccc_cccc_cccc_cccc_cccc_cccc, 2) as u128) >> p) & 0x0000_0000_0000_0000_0000_0000_0000_000f
            == ((r >> p) & 0x0000_0000_0000_0000_0000_0000_0000_0003) + ((r >> (p + 2)) & 0x0000_0000_0000_0000_0000_0000_0000_0003),
        p < 128 && p % 8 == 0 ==> ((pass128(r, 0x0f0f_0f0f_0f0f_0f0f_0f0f_0f0f_0f0f_0f0f, 0xf0f0_f0f0_f0f0_f0f0_f0f0_f0f0_f0f0_f0f0, 4) as u128) >> p) & 0x0000_0000_0000_0000_0000_0000_0000_00ff
            == ((r >> p) & 0x0000_0000_0000_0000_0000_0000_0000_000f) + ((r >> (p + 4)) & 0x0000_0000_0000_0000_0000_0000_0000_000f),
        p < 128 && p % 16 == 0 ==> ((pass128(r, 0x00ff_00ff_00ff_00ff_00ff_00ff_00ff_00ff, 0xff00_ff00_ff00_ff00_ff00_ff00_ff00_ff00, 8) as u128) >> p) & 0x0000_0000_0000_0000_0000_0000_0000_ffff
            == ((r >> p) & 0x0000_0000_0000_0000_0000_0000_0000_00ff) + ((r >> (p + 8)) & 0x0000_0000_0000_0000_0000_0000_0000_00ff),
        p < 128 && p % 32 == 0 ==> ((pass128(r, 0x0000_ffff_0000_ffff_0000_ffff_0000_ffff, 0xffff_0000_ffff_0000_ffff_0000_ffff_0000, 16) as u128) >> p) & 0x0000_0000_0000_0000_0000_0000_ffff_ffff
            == ((r >> p) & 0x0000_0000_0000_0000_0000_0000_0000_ffff) + ((r >> (p + 16)) & 0x0000_0000_0000_0000_0000_0000_0000_ffff),
        p < 128 && p % 64 == 0 ==> ((pass128(r, 0x0000_0000_ffff_ffff_0000_0000_ffff_ffff, 0xffff_ffff_0000_0000_ffff_ffff_0000_0000, 32) as u128) >> p) & 0x0000_0000_0000_0000_ffff_ffff_ffff_ffff
            == ((r >> p) & 0x0000_0000_0000_0000_0000_0000_ffff_ffff) + ((r >> (p + 32)) & 0x0000_0000_0000_0000_0000_0000_ffff_ffff),
        pass128(r, 0x0000_0000_0000_0000_ffff_ffff_ffff_ffff, 0xffff_ffff_ffff_ffff_0000_0000_0000_0000, 64) == ((r >> 0u32) & 0x0000_0000_0000_0000_ffff_ffff_ffff_ffff) + ((r >> 64u32) & 0x0000_0000_0000_0000_ffff_ffff_ffff_ffff),
{
}

/// The parallel count of the one bits of `x`: 7 passes, from groups of one bit to
/// one group of 128.
pub(crate) proof fn lemma_swar128(x: u128)
    ensures
        pass128(x, 0x5555_5555_5555_5555_5555_5555_5555_5555, 0xaaaa_aaaa_aaaa_aaaa_aaaa_aaaa_aaaa_aaaa, 1) <= 0xffff_ffff_ffff_ffff_ffff_ffff_ffff_ffff,
        pass128(pass128(x, 0x5555_5555_5555_5555_5555_5555_5555_5555, 0xaaaa_aaaa_aaaa_aaaa_aaaa_aaaa_aaaa_aaaa, 1) as u128, 0x3333_3333_3333_3333_3333_3333_3333_3333, 0xcccc_cccc_cccc_cccc_cccc_cccc_cccc_cccc, 2) <= 0xffff_ffff_ffff_ffff_ffff_ffff_ffff_ffff,
        pass128(pass128(pass128(x, 0x5555_5555_5555_5555_5555_5555_5555_5555, 0xaaaa_aaaa_aaaa_aaaa_aaaa_aaaa_aaaa_aaaa, 1) as u128, 0x3333_3333_3333_3333_3333_3333_3333_3333, 0xcccc_cccc_cccc_cccc_cccc_cccc_cccc_cccc, 2) as u128, 0x0f0f_0f0f_0f0f_0f0f_0f0f_0f0f_0f0f_0f0f, 0xf0f0_f0f0_f0f0_f0f0_f0f0_f0f0_f0f0_f0f0, 4) <= 0xffff_ffff_ffff_ffff_ffff_ffff_ffff_ffff,
        pass128(pass128(pass128(pass128(x, 0x5555_5555_5555_5555_5555_5555_5555_5555, 0xaaaa_aaaa_aaaa_aaaa_aaaa_aaaa_aaaa_aaaa, 1) as u128, 0x3333_3333_3333_3333_3333_3333_3333_3333, 0xcccc_cccc_cccc_cccc_cccc_cccc_cccc_cccc, 2) as u128, 0x0f0f_0f0f_0f0f_0f0f_0f0f_0f0f_0f0f_0f0f, 0xf0f0_f0f0_f0f0_f0f0_f0f0_f0f0_f0f0_f0f0, 4) as u128, 0x00ff_00ff_00ff_00ff_00ff_00ff_00ff_00ff, 0xff00_ff00_ff00_ff00_ff00_ff00_ff00_ff00, 8) <= 0xffff_ffff_ffff_ffff_ffff_ffff_ffff_ffff,
        pass128(pass128(pass128(pass128(pass128(x, 0x5555_5555_5555_5555_5555_5555_5555_5555, 0xaaaa_aaaa_aaaa_aaaa_aaaa_aaaa_aaaa_aaaa, 1) as u128, 0x3333_3333_3333_3333_3333_3333_3333_3333, 0xcccc_cccc_cccc_cccc_cccc_cccc_cccc_cccc, 2) as u128, 0x0f0f_0f0f_0f0f_0f0f_0f0f_0f0f_0f0f_0f0f, 0xf0f0_f0f0_f0f0_f0f0_f0f0_f0f0_f0f0_f0f0, 4) as u128, 0x00ff_00ff_00ff_00ff_00ff_00ff_00ff_00ff, 0xff00_ff00_ff00_ff00_ff00_ff00_ff00_ff00, 8) as u128, 0x0000_ffff_0000_ffff_0000_ffff_0000_ffff, 0xffff_0000_ffff_0000_ffff_0000_ffff_0000, 16) <= 0xffff_ffff_ffff_ffff_ffff_ffff_ffff_ffff,
        pass128(pass128(pass128(pass128(pass128(pass128(x, 0x5555_5555_5555_5555_5555_5555_5555_5555, 0xaaaa_aaaa_aaaa_aaaa_aaaa_aaaa_aaaa_aaaa, 1) as u128, 0x3333_3333_3333_3333_3333_3333_3333_3333, 0xcccc_cccc_cccc_cccc_cccc_cccc_cccc_cccc, 2) as u128, 0x0f0f_0f0f_0f0f_0f0f_0f0f_0f0f_0f0f_0f0f, 0xf0f0_f0f0_f0f0_f0f0_f0f0_f0f0_f0f0_f0f0, 4) as u128, 0x00ff_00ff_00ff_00ff_00ff_00ff_00ff_00ff, 0xff00_ff00_ff00_ff00_ff00_ff00_ff00_ff00, 8) as u128, 0x0000_ffff_0000_ffff_0000_ffff_0000_ffff, 0xffff_0000_ffff_0000_ffff_0000_ffff_0000, 16) as u128, 0x0000_0000_ffff_ffff_0000_0000_ffff_ffff, 0xffff_ffff_0000_0000_ffff_ffff_0000_0000, 32) <= 0xffff_ffff_ffff_ffff_ffff_ffff_ffff_ffff,
        pass128(pass128(pass128(pass128(pass128(pass128(pass128(x, 0x5555_5555_5555_5555_5555_5555_5555_5555, 0xaaaa_aaaa_aaaa_aaaa_aaaa_aaaa_aaaa_aaaa, 1) as u128, 0x3333_3333_3333_3333_3333_3333_3333_3333, 0xcccc_cccc_cccc_cccc_cccc_cccc_cccc_cccc, 2) as u128, 0x0f0f_0f0f_0f0f_0f0f_0f0f_0f0f_0f0f_0f0f, 0xf0f0_f0f0_f0f0_f0f0_f0f0_f0f0_f0f0_f0f0, 4) as u128, 0x00ff_00ff_00ff_00ff_00ff_00ff_00ff_00ff, 0xff00_ff00_ff00_ff00_ff00_ff00_ff00_ff00, 8) as u128, 0x0000_ffff_0000_ffff_0000_ffff_0000_ffff, 0xffff_0000_ffff_0000_ffff_0000_ffff_0000, 16) as u128, 0x0000_0000_ffff_ffff_0000_0000_ffff_ffff, 0xffff_ffff_0000_0000_ffff_ffff_0000_0000, 32) as u128, 0x0000_0000_0000_0000_ffff_ffff_ffff_ffff, 0xffff_ffff_ffff_ffff_0000_0000_0000_0000, 64) <= 0xffff_ffff_ffff_ffff_ffff_ffff_ffff_ffff,
        pass128(pass128(pass128(pass128(pass128(pass128(pass128(x, 0x5555_5555_5555_5555_5555_5555_5555_5555, 0xaaaa_aaaa_aaaa_aaaa_aaaa_aaaa_aaaa_aaaa, 1) as u128, 0x3333_3333_3333_3333_3333_3333_3333_3333, 0xcccc_cccc_cccc_cccc_cccc_cccc_cccc_cccc, 2) as u128, 0x0f0f_0f0f_0f0f_0f0f_0f0f_0f0f_0f0f_0f0f, 0xf0f0_f0f0_f0f0_f0f0_f0f0_f0f0_f0f0_f0f0, 4) as u128, 0x00ff_00ff_00ff_00ff_00ff_00ff_00ff_00ff, 0xff00_ff00_ff00_ff00_ff00_ff00_ff00_ff00, 8) as u128, 0x0000_ffff_0000_ffff_0000_ffff_0000_ffff, 0xffff_0000_ffff_0000_ffff_0000_ffff_0000, 16) as u128, 0x0000_0000_ffff_ffff_0000_0000_ffff_ffff, 0xffff_ffff_0000_0000_ffff_ffff_0000_0000, 32) as u128, 0x0000_0000_0000_0000_ffff_ffff_ffff_ffff, 0xffff_ffff_ffff_ffff_0000_0000_0000_0000, 64) == ones_in(x, 0, 128),
{
    lemma_passes128(x, 0);
    let r1 = pass128(x, 0x5555_5555_5555_5555_5555_5555_5555_5555, 0xaaaa_aaaa_aaaa_aaaa_aaaa_aaaa_aaaa_aaaa, 1) as u128;
    lemma_passes128(r1, 0);
    let r2 = pass128(r1, 0x3333_3333_3333_3333_3333_3333_3333_3333, 0xcccc_cccc_cccc_cccc_cccc_cccc_cccc_cccc, 2) as u128;
    lemma_passes128(r2, 0);
    let r3 = pass128(r2, 0x0f0f_0f0f_0f0f_0f0f_0f0f_0f0f_0f0f_0f0f, 0xf0f0_f0f0_f0f0_f0f0_f0f0_f0f0_f0f0_f0f0, 4) as u128;
    lemma_passes128(r3, 0);
    let r4 = pass128(r3, 0x00ff_00ff_00ff_00ff_00ff_00ff_00ff_00ff, 0xff00_ff00_ff00_ff00_ff00_ff00_ff00_ff00, 8) as u128;
    lemma_passes128(r4, 0);
    let r5 = pass128(r4, 0x0000_ffff_0000_ffff_0000_ffff_0000_ffff, 0xffff_0000_ffff_0000_ffff_0000_ffff_0000, 16) as u128;
    lemma_passes128(r5, 0);
    let r6 = pass128(r5, 0x0000_0000_ffff_ffff_0000_0000_ffff_ffff, 0xffff_ffff_0000_0000_ffff_ffff_0000_0000, 32) as u128;
    lemma_passes128(r6, 0);
    assert forall|p: int| 0 <= p < 128 implies #[trigger] lane128(x, p, 1) == ones_in(x, p, p + 1) by {
        lemma_passes128(x, p as u32);
        reveal_with_fuel(ones_in, 2);
    }
    assert forall|p: int| 0 <= p < 128 && p % 2 == 0 implies #[trigger] lane128(r1, p, 0x0000_0000_0000_0000_0000_0000_0000_0003)
        == ones_in(x, p, p + 2) by {
        lemma_passes128(x, p as u32);
        assert(lane128(x, p, 0x0000_0000_0000_0000_0000_0000_0000_0001) == ones_in(x, p, p + 1));
        assert(lane128(x, p + 1, 0x0000_0000_0000_0000_0000_0000_0000_0001) == ones_in(x, p + 1, p + 2));
        crate::lemma_ones_in_split(x, p, p + 1, p + 2);
    }
    assert forall|p: int| 0 <= p < 128 && p % 4 == 0 implies #[trigger] lane128(r2, p, 0x0000_0000_0000_0000_0000_0000_0000_000f)
        == ones_in(x, p, p + 4) by {
        lemma_passes128(r1, p as u32);
        assert(lane128(r1, p, 0x0000_0000_0000_0000_0000_0000_0000_0003) == ones_in(x, p, p + 2));
        assert(lane128(r1, p + 2, 0x0000_0000_0000_0000_0000_0000_0000_0003) == ones_in(x, p + 2, p + 4));
        crate::lemma_ones_in_split(x, p, p + 2, p + 4);
    }
    assert forall|p: int| 0 <= p < 128 && p % 8 == 0 implies #[trigger] lane128(r3, p, 0x0000_0000_0000_0000_0000_0000_0000_00ff)
        == ones_in(x, p, p + 8) by {
        lemma_passes128(r2, p as u32);
        assert(lane128(r2, p, 0x0000_0000_0000_0000_0000_0000_0000_000f) == ones_in(x, p, p + 4));
        assert(lane128(r2, p + 4, 0x0000_0000_0000_0000_0000_0000_0000_000f) == ones_in(x, p + 4, p + 8));
        crate::lemma_ones_in_split(x, p, p + 4, p + 8);
    }
    assert forall|p: int| 0 <= p < 128 && p % 16 == 0 implies #[trigger] lane128(r4, p, 0x0000_0000_0000_0000_0000_0000_0000_ffff)
        == ones_in(x, p, p + 16) by {
        lemma_passes128(r3, p as u32);
        assert(lane128(r3, p, 0x0000_0000_0000_0000_0000_0000_0000_00ff) == ones_in(x, p, p + 8));
        assert(lane128(r3, p + 8, 0x0000_0000_0000_0000_0000_0000_0000_00ff) == ones_in(x, p + 8, p + 16));
        crate::lemma_ones_in_split(x, p, p + 8, p + 16);
    }
    assert forall|p: int| 0 <= p < 128 && p % 32 == 0 implies #[trigger] lane128(r5, p, 0x0000_0000_0000_0000_0000_0000_ffff_ffff)
        == ones_in(x, p, p + 32) by {
        lemma_passes128(r4, p as u32);
        assert(lane128(r4, p, 0x0000_0000_0000_0000_0000_0000_0000_ffff) == ones_in(x, p, p + 16));
        assert(lane128(r4, p + 16, 0x0000_0000_0000_0000_0000_0000_0000_ffff) == ones_in(x, p + 16, p + 32));
        crate::lemma_ones_in_split(x, p, p + 16, p + 32);
    }
    assert forall|p: int| 0 <= p < 128 && p % 64 == 0 implies #[trigger] lane128(r6, p, 0x0000_0000_0000_0000_ffff_ffff_ffff_ffff)
        == ones_in(x, p, p + 64) by {
        lemma_passes128(r5, p as u32);
        assert(lane128(r5, p, 0x0000_0000_0000_0000_0000_0000_ffff_ffff) == ones_in(x, p, p + 32));
        assert(lane128(r5, p + 32, 0x0000_0000_0000_0000_0000_0000_ffff_ffff) == ones_in(x, p + 32, p + 64));
        crate::lemma_ones_in_split(x, p, p + 32, p + 64);
    }
    assert(lane128(r6, 0, 0x0000_0000_0000_0000_ffff_ffff_ffff_ffff) == ones_in(x, 0, 64));
    assert(lane128(r6, 64, 0x0000_0000_0000_0000_ffff_ffff_ffff_ffff) == ones_in(x, 64, 128));
    crate::lemma_ones_in_split(x, 0, 64, 128);
}

fn mask(lo: u32, hi: u32) -> (r: u128)
    requires
        lo <= hi < 128,
    ensures
        r == mask128(lo, hi),
{
    proof {
        lemma_bits128(0, 0, lo, hi, 0);
    }
    ((1u128 << hi) - (1u128 << lo)) | (1u128 << hi)
}

impl Width for u128 {
    open spec fn spec_width() -> u32 {
        128
    }

    open spec fn spec_bit(self, i: u32) -> bool {
        bit128(self, i)
    }

    open spec fn spec_mask(lo: u32, hi: u32) -> u128 {
        mask128(lo, hi)
    }

    open spec fn spec_set(self, lo: u32, hi: u32) -> u128 {
        self | mask128(lo, hi)
    }

    open spec fn spec_clr(self, lo: u32, hi: u32) -> u128 {
        self & !mask128(lo, hi)
    }

    open spec fn spec_revert(self, lo: u32, hi: u32) -> u128 {
        self ^ mask128(lo, hi)
    }

    open spec fn spec_write(self, lo: u32, hi: u32, x: u128) -> u128 {
        write128(self, lo, hi, x)
    }

    open spec fn spec_read(self, lo: u32, hi: u32) -> u128 {
        read128(self, lo, hi)
    }

    open spec fn spec_is_set(self, lo: u32, hi: u32) -> bool {
        self & mask128(lo, hi) == mask128(lo, hi)
    }

    open spec fn spec_is_clr(self, lo: u32, hi: u32) -> bool {
        read128(self, lo, hi) == 0
    }

    proof fn lemma_width() {
    }

    proof fn lemma_bit_ops(v: u128, x: u128, lo: u32, hi: u32, i: u32) {
        lemma_bits128(v, x, lo, hi, i);
    }

    proof fn lemma_identities(v: u128, x: u128, lo: u32, hi: u32) {
        lemma_identities128(v, lo, hi);
        lemma_round_trip128(v, x, lo, hi);
    }
}

impl IntoBits for u128 {
    type Output = Bits<u128>;

    fn bits<T: BitIndex>(self, range: T) -> (r: Bits<u128>) {
        let upper = match range.upper() {
            Bound::Unbounded => 127,
            Bound::Included(v) => *v,
            Bound::Excluded(v) => *v - 1,
        };
        let low = match range.low() {
            Bound::Unbounded => 0,
            Bound::Included(v) => *v,
            Bound::Excluded(v) => *v,
        };
        Bits { low, upper, value: self }
    }
}

impl BitsOps<u128> for Bits<u128> {
    open spec fn spec_value(&self) -> u128 {
        self@.0
    }

    open spec fn spec_low(&self) -> u32 {
        self@.1
    }

    open spec fn spec_upper(&self) -> u32 {
        self@.2
    }

    fn set(&self) -> (r: u128) {
        proof {
            use_type_invariant(self);
        }
        let mask = mask(self.low, self.upper);
        self.value | mask
    }

    fn clr(&self) -> (r: u128) {
        proof {
            use_type_invariant(self);
        }
        let mask = mask(self.low, self.upper);
        self.value & !mask
    }

    fn revert(&self) -> (r: u128) {
        proof {
            use_type_invariant(self);
        }
        let mask = mask(self.low, self.upper);
        self.value ^ mask
    }

    fn write(&self, value: u128) -> (r: u128) {
        proof {
            use_type_invariant(self);
        }
        let mask = mask(self.low, self.upper);
        (self.value & !mask) | ((value << self.low) & mask)
    }

    fn read(&self) -> (r: u128) {
        proof {
            use_type_invariant(self);
        }
        let mask = mask(self.low, self.upper);
        (self.value & mask) >> self.low
    }

    fn is_clr(&self) -> (r: bool) {
        self.read() == 0
    }

    fn is_set(&self) -> (r: bool) {
        proof {
            use_type_invariant(self);
        }
        let mask = mask(self.low, self.upper);
        (self.value & mask) == mask
    }

    /// Counts in parallel: the bits are summed in pairs, the pairs in groups of four, and so
    /// on until one group spans the whole value.
    fn count_ones(&self) -> (r: u32) {
        let x = self.read();
        proof {
            use_type_invariant(self);
            lemma_swar128(x);
            crate::lemma_ones_in_bound(x, 0, 128);
            crate::lemma_ones_in_read(self.value, self.low, self.upper);
        }
        let r1 = (x & 0x5555_5555_5555_5555_5555_5555_5555_5555) + ((x & 0xaaaa_aaaa_aaaa_aaaa_aaaa_aaaa_aaaa_aaaa) >> 1u32);
        let r2 = (r1 & 0x3333_3333_3333_3333_3333_3333_3333_3333) + ((r1 & 0xcccc_cccc_cccc_cccc_cccc_cccc_cccc_cccc) >> 2u32);
        let r3 = (r2 & 0x0f0f_0f0f_0f0f_0f0f_0f0f_0f0f_0f0f_0f0f) + ((r2 & 0xf0f0_f0f0_f0f0_f0f0_f0f0_f0f0_f0f0_f0f0) >> 4u32);
        let r4 = (r3 & 0x00ff_00ff_00ff_00ff_00ff_00ff_00ff_00ff) + ((r3 & 0xff00_ff00_ff00_ff00_ff00_ff00_ff00_ff00) >> 8u32);
        let r5 = (r4 & 0x0000_ffff_0000_ffff_0000_ffff_0000_ffff) + ((r4 & 0xffff_0000_ffff_0000_ffff_0000_ffff_0000) >> 16u32);
        let r6 = (r5 & 0x0000_0000_ffff_ffff_0000_0000_ffff_ffff) + ((r5 & 0xffff_ffff_0000_0000_ffff_ffff_0000_0000) >> 32u32);
        let r7 = (r6 & 0x0000_0000_0000_0000_ffff_ffff_ffff_ffff) + ((r6 & 0xffff_ffff_ffff_ffff_0000_0000_0000_0000) >> 64u32);
        r7 as u32
    }
}

} // verus!
