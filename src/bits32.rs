//! Bit ranges of `u32`.
use vstd::prelude::*;

use core::ops::Bound;

use crate::{ones_in, BitIndex, Bits, BitsOps, IntoBits, Width};

verus! {

pub open spec fn bit32(v: u32, i: u32) -> bool {
    (v >> i) & 1 == 1
}

pub open spec fn mask32(lo: u32, hi: u32) -> u32 {
    (((1u32 << hi) - (1u32 << lo)) as u32) | (1u32 << hi)
}

pub open spec fn write32(v: u32, lo: u32, hi: u32, x: u32) -> u32 {
    (v & !mask32(lo, hi)) | ((x << lo) & mask32(lo, hi))
}

pub open spec fn read32(v: u32, lo: u32, hi: u32) -> u32 {
    (v & mask32(lo, hi)) >> lo
}

proof fn lemma_bits32(v: u32, x: u32, lo: u32, hi: u32, i: u32)
    by (bit_vector)
    requires
        lo <= hi < 32,
        i < 32,
    ensures
        (1u32 << lo) <= (1u32 << hi),
        bit32(mask32(lo, hi), i) == (lo <= i && i <= hi),
        bit32(v | mask32(lo, hi), i) == (lo <= i && i <= hi || bit32(v, i)),
        bit32(v & !mask32(lo, hi), i) == (!(lo <= i && i <= hi) && bit32(v, i)),
        bit32(v ^ mask32(lo, hi), i) == ((lo <= i && i <= hi) != bit32(v, i)),
        bit32(write32(v, lo, hi, x), i) == if lo <= i && i <= hi {
            bit32(x, (i - lo) as u32)
        } else {
            bit32(v, i)
        },
        bit32(read32(v, lo, hi), i) == (i + lo <= hi && bit32(v, (i + lo) as u32)),
{
}

proof fn lemma_identities32(v: u32, lo: u32, hi: u32)
    by (bit_vector)
    requires
        lo <= hi < 32,
    ensures
        (v ^ mask32(lo, hi)) ^ mask32(lo, hi) == v,
        (v | mask32(lo, hi)) | mask32(lo, hi) == v | mask32(lo, hi),
        (v & !mask32(lo, hi)) & !mask32(lo, hi) == v & !mask32(lo, hi),
        (v | mask32(lo, hi)) & !mask32(lo, hi) == v & !mask32(lo, hi),
        (v & !mask32(lo, hi)) | mask32(lo, hi) == v | mask32(lo, hi),
        (v | mask32(lo, hi)) & mask32(lo, hi) == mask32(lo, hi),
        read32(v & !mask32(lo, hi), lo, hi) == 0,
        ((v & mask32(lo, lo)) == mask32(lo, lo)) == bit32(v, lo),
        (read32(v, lo, lo) == 0) == !bit32(v, lo),
{
}

proof fn lemma_round_trip32(v: u32, x: u32, lo: u32, hi: u32)
    by (bit_vector)
    requires
        lo <= hi < 32,
    ensures
        read32(write32(v, lo, hi, x), lo, hi) == read32(x, 0, (hi - lo) as u32),
{
}

/// One pass of the parallel count: each group of bits receives the sum of its two halves,
/// `a` selecting the low half of each group and `b` the high half, `s` bits above.
pub open spec fn pass32(r: u32, a: u32, b: u32, s: u32) -> int {
    (r & a) + ((r & b) >> s)
}

/// The group of bits of `r` that starts at bit `p`, `m` selecting its width.
spec fn lane32(r: u32, p: int, m: u32) -> int {
    ((r >> (p as u32)) & m) as int
}

proof fn lemma_passes32(r: u32, p: u32)
    by (bit_vector)
    ensures
        (r >> p) & 1 <= 1,
        ((r >> p) & 1 == 1) == bit32(r, p),
        pass32(r, 0x5555_5555, 0xaaaa_aaaa, 1) <= 0xffff_ffff,
        pass32(r, 0x3333_3333, 0xcccc_cccc, 2) <= 0xffff_ffff,
        pass32(r, 0x0f0f_0f0f, 0xf0f0_f0f0, 4) <= 0xffff_ffff,
        pass32(r, 0x00ff_00ff, 0xff00_ff00, 8) <= 0xffff_ffff,
        pass32(r, 0x0000_ffff, 0xffff_0000, 16) <= 0xffff_ffff,
        p < 32 && p % 2 == 0 ==> ((pass32(r, 0x5555_5555, 0xaaaa_aaaa, 1) as u32) >> p) & 0x0000_0003
            == ((r >> p) & 0x0000_0001) + ((r >> (p + 1)) & 0x0000_0001),
        p < 32 && p % 4 == 0 ==> ((pass32(r, 0x3333_3333, 0xcccc_cccc, 2) as u32) >> p) & 0x0000_000f
            == ((r >> p) & 0x0000_0003) + ((r >> (p + 2)) & 0x0000_0003),
        p < 32 && p % 8 == 0 ==> ((pass32(r, 0x0f0f_0f0f, 0xf0f0_f0f0, 4) as u32) >> p) & 0x0000_00ff
            == ((r >> p) & 0x0000_000f) + ((r >> (p + 4)) & 0x0000_000f),
        p < 32 && p % 16 == 0 ==> ((pass32(r, 0x00ff_00ff, 0xff00_ff00, 8) as u32) >> p) & 0x0000_ffff
            == ((r >> p) & 0x0000_00ff) + ((r >> (p + 8)) & 0x0000_00ff),
        pass32(r, 0x0000_ffff, 0xffff_0000, 16) == ((r >> 0u32) & 0x0000_ffff) + ((r >> 16u32) & 0x0000_ffff),
{
}

/// The parallel count of the one bits of `x`: 5 passes, from groups of one bit to
/// one group of 32.
pub(crate) proof fn lemma_swar32(x: u32)
    ensures
        pass32(x, 0x5555_5555, 0xaaaa_aaaa, 1) <= 0xffff_ffff,
        pass32(pass32(x, 0x5555_5555, 0xaaaa_aaaa, 1) as u32, 0x3333_3333, 0xcccc_cccc, 2) <= 0xffff_ffff,
        pass32(pass32(pass32(x, 0x5555_5555, 0xaaaa_aaaa, 1) as u32, 0x3333_3333, 0xcccc_cccc, 2) as u32, 0x0f0f_0f0f, 0xf0f0_f0f0, 4) <= 0xffff_ffff,
        pass32(pass32(pass32(pass32(x, 0x5555_5555, 0xaaaa_aaaa, 1) as u32, 0x3333_3333, 0xcccc_cccc, 2) as u32, 0x0f0f_0f0f, 0xf0f0_f0f0, 4) as u32, 0x00ff_00ff, 0xff00_ff00, 8) <= 0xffff_ffff,
        pass32(pass32(pass32(pass32(pass32(x, 0x5555_5555, 0xaaaa_aaaa, 1) as u32, 0x3333_3333, 0xcccc_cccc, 2) as u32, 0x0f0f_0f0f, 0xf0f0_f0f0, 4) as u32, 0x00ff_00ff, 0xff00_ff00, 8) as u32, 0x0000_ffff, 0xffff_0000, 16) <= 0xffff_ffff,
        pass32(pass32(pass32(pass32(pass32(x, 0x5555_5555, 0xaaaa_aaaa, 1) as u32, 0x3333_3333, 0xcccc_cccc, 2) as u32, 0x0f0f_0f0f, 0xf0f0_f0f0, 4) as u32, 0x00ff_00ff, 0xff00_ff00, 8) as u32, 0x0000_ffff, 0xffff_0000, 16) == ones_in(x, 0, 32),
{
    lemma_passes32(x, 0);
    let r1 = pass32(x, 0x5555_5555, 0xaaaa_aaaa, 1) as u32;
    lemma_passes32(r1, 0);
    let r2 = pass32(r1, 0x3333_3333, 0xcccc_cccc, 2) as u32;
    lemma_passes32(r2, 0);
    let r3 = pass32(r2, 0x0f0f_0f0f, 0xf0f0_f0f0, 4) as u32;
    lemma_passes32(r3, 0);
    let r4 = pass32(r3, 0x00ff_00ff, 0xff00_ff00, 8) as u32;
    lemma_passes32(r4, 0);
    assert forall|p: int| 0 <= p < 32 implies #[trigger] lane32(x, p, 1) == ones_in(x, p, p + 1) by {
        lemma_passes32(x, p as u32);
        reveal_with_fuel(ones_in, 2);
    }
    assert forall|p: int| 0 <= p < 32 && p % 2 == 0 implies #[trigger] lane32(r1, p, 0x0000_0003)
        == ones_in(x, p, p + 2) by {
        lemma_passes32(x, p as u32);
        assert(lane32(x, p, 0x0000_0001) == ones_in(x, p, p + 1));
        assert(lane32(x, p + 1, 0x0000_0001) == ones_in(x, p + 1, p + 2));
        crate::lemma_ones_in_split(x, p, p + 1, p + 2);
    }
    assert forall|p: int| 0 <= p < 32 && p % 4 == 0 implies #[trigger] lane32(r2, p, 0x0000_000f)
        == ones_in(x, p, p + 4) by {
        lemma_passes32(r1, p as u32);
        assert(lane32(r1, p, 0x0000_0003) == ones_in(x, p, p + 2));
        assert(lane32(r1, p + 2, 0x0000_0003) == ones_in(x, p + 2, p + 4));
        crate::lemma_ones_in_split(x, p, p + 2, p + 4);
    }
    assert forall|p: int| 0 <= p < 32 && p % 8 == 0 implies #[trigger] lane32(r3, p, 0x0000_00ff)
        == ones_in(x, p, p + 8) by {
        lemma_passes32(r2, p as u32);
        assert(lane32(r2, p, 0x0000_000f) == ones_in(x, p, p + 4));
        assert(lane32(r2, p + 4, 0x0000_000f) == ones_in(x, p + 4, p + 8));
        crate::lemma_ones_in_split(x, p, p + 4, p + 8);
    }
    assert forall|p: int| 0 <= p < 32 && p % 16 == 0 implies #[trigger] lane32(r4, p, 0x0000_ffff)
        == ones_in(x, p, p + 16) by {
        lemma_passes32(r3, p as u32);
        assert(lane32(r3, p, 0x0000_00ff) == ones_in(x, p, p + 8));
        assert(lane32(r3, p + 8, 0x0000_00ff) == ones_in(x, p + 8, p + 16));
        crate::lemma_ones_in_split(x, p, p + 8, p + 16);
    }
    assert(lane32(r4, 0, 0x0000_ffff) == ones_in(x, 0, 16));
    assert(lane32(r4, 16, 0x0000_ffff) == ones_in(x, 16, 32));
    crate::lemma_ones_in_split(x, 0, 16, 32);
}

fn mask(lo: u32, hi: u32) -> (r: u32)
    requires
        lo <= hi < 32,
    ensures
        r == mask32(lo, hi),
{
    proof {
        lemma_bits32(0, 0, lo, hi, 0);
    }
    ((1u32 << hi) - (1u32 << lo)) | (1u32 << hi)
}

impl Width for u32 {
    open spec fn spec_width() -> u32 {
        32
    }

    open spec fn spec_bit(self, i: u32) -> bool {
        bit32(self, i)
    }

    open spec fn spec_mask(lo: u32, hi: u32) -> u32 {
        mask32(lo, hi)
    }

    open spec fn spec_set(self, lo: u32, hi: u32) -> u32 {
        self | mask32(lo, hi)
    }

    open spec fn spec_clr(self, lo: u32, hi: u32) -> u32 {
        self & !mask32(lo, hi)
    }

    open spec fn spec_revert(self, lo: u32, hi: u32) -> u32 {
        self ^ mask32(lo, hi)
    }

    open spec fn spec_write(self, lo: u32, hi: u32, x: u32) -> u32 {
        write32(self, lo, hi, x)
    }

    open spec fn spec_read(self, lo: u32, hi: u32) -> u32 {
        read32(self, lo, hi)
    }

    open spec fn spec_is_set(self, lo: u32, hi: u32) -> bool {
        self & mask32(lo, hi) == mask32(lo, hi)
    }

    open spec fn spec_is_clr(self, lo: u32, hi: u32) -> bool {
        read32(self, lo, hi) == 0
    }

    proof fn lemma_width() {
    }

    proof fn lemma_bit_ops(v: u32, x: u32, lo: u32, hi: u32, i: u32) {
        lemma_bits32(v, x, lo, hi, i);
    }

    proof fn lemma_identities(v: u32, x: u32, lo: u32, hi: u32) {
        lemma_identities32(v, lo, hi);
        lemma_round_trip32(v, x, lo, hi);
    }
}

impl IntoBits for u32 {
    type Output = Bits<u32>;

    fn bits<T: BitIndex>(self, range: T) -> (r: Bits<u32>) {
        let upper = match range.upper() {
            Bound::Unbounded => 31,
            Bound::Included(v) => *v,
            Bound::Excluded(v) => *v - 1,
        };
        let low = match range.low() {
            Bound::Unbounded => 0,
            Bound::Included(v) => *v,
            Bound::Excluded(v) => *v,
        };
        Bits { low, upper, value: self }
    }
}

impl BitsOps<u32> for Bits<u32> {
    open spec fn spec_value(&self) -> u32 {
        self@.0
    }

    open spec fn spec_low(&self) -> u32 {
        self@.1
    }

    open spec fn spec_upper(&self) -> u32 {
        self@.2
    }

    fn set(&self) -> (r: u32) {
        proof {
            use_type_invariant(self);
        }
        let mask = mask(self.low, self.upper);
        self.value | mask
    }

    fn clr(&self) -> (r: u32) {
        proof {
            use_type_invariant(self);
        }
        let mask = mask(self.low, self.upper);
        self.value & !mask
    }

    fn revert(&self) -> (r: u32) {
        proof {
            use_type_invariant(self);
        }
        let mask = mask(self.low, self.upper);
        self.value ^ mask
    }

    fn write(&self, value: u32) -> (r: u32) {
        proof {
            use_type_invariant(self);
        }
        let mask = mask(self.low, self.upper);
        (self.value & !mask) | ((value << self.low) & mask)
    }

    fn read(&self) -> (r: u32) {
        proof {
            use_type_invariant(self);
        }
        let mask = mask(self.low, self.upper);
        (self.value & mask) >> self.low
    }

    fn is_clr(&self) -> (r: bool) {
        self.read() == 0
    }

    fn is_set(&self) -> (r: bool) {
        proof {
            use_type_invariant(self);
        }
        let mask = mask(self.low, self.upper);
        (self.value & mask) == mask
    }

    /// Counts in parallel: the bits are summed in pairs, the pairs in groups of four, and so
    /// on until one group spans the whole value.
    fn count_ones(&self) -> (r: u32) {
        let x = self.read();
        proof {
            use_type_invariant(self);
            lemma_swar32(x);
            crate::lemma_ones_in_bound(x, 0, 32);
            crate::lemma_ones_in_read(self.value, self.low, self.upper);
        }
        let r1 = (x & 0x5555_5555) + ((x & 0xaaaa_aaaa) >> 1u32);
        let r2 = (r1 & 0x3333_3333) + ((r1 & 0xcccc_cccc) >> 2u32);
        let r3 = (r2 & 0x0f0f_0f0f) + ((r2 & 0xf0f0_f0f0) >> 4u32);
        let r4 = (r3 & 0x00ff_00ff) + ((r3 & 0xff00_ff00) >> 8u32);
        let r5 = (r4 & 0x0000_ffff) + ((r4 & 0xffff_0000) >> 16u32);
        r5 as u32
    }
}

} // verus!
