//! Bit ranges of `u16`.
use vstd::prelude::*;

use core::ops::Bound;

use crate::{ones_in, BitIndex, Bits, BitsOps, IntoBits, Width};

verus! {

pub open spec fn bit16(v: u16, i: u32) -> bool {
    (v >> i) & 1 == 1
}

pub open spec fn mask16(lo: u32, hi: u32) -> u16 {
    (((1u16 << hi) - (1u16 << lo)) as u16) | (1u16 << hi)
}

pub open spec fn write16(v: u16, lo: u32, hi: u32, x: u16) -> u16 {
    (v & !mask16(lo, hi)) | ((x << lo) & mask16(lo, hi))
}

pub open spec fn read16(v: u16, lo: u32, hi: u32) -> u16 {
    (v & mask16(lo, hi)) >> lo
}

proof fn lemma_bits16(v: u16, x: u16, lo: u32, hi: u32, i: u32)
    by (bit_vector)
    requires
        lo <= hi < 16,
        i < 16,
    ensures
        (1u16 << lo) <= (1u16 << hi),
        bit16(mask16(lo, hi), i) == (lo <= i && i <= hi),
        bit16(v | mask16(lo, hi), i) == (lo <= i && i <= hi || bit16(v, i)),
        bit16(v & !mask16(lo, hi), i) == (!(lo <= i && i <= hi) && bit16(v, i)),
        bit16(v ^ mask16(lo, hi), i) == ((lo <= i && i <= hi) != bit16(v, i)),
        bit16(write16(v, lo, hi, x), i) == if lo <= i && i <= hi {
            bit16(x, (i - lo) as u32)
        } else {
            bit16(v, i)
        },
        bit16(read16(v, lo, hi), i) == (i + lo <= hi && bit16(v, (i + lo) as u32)),
{
}

proof fn lemma_identities16(v: u16, lo: u32, hi: u32)
    by (bit_vector)
    requires
        lo <= hi < 16,
    ensures
        (v ^ mask16(lo, hi)) ^ mask16(lo, hi) == v,
        (v | mask16(lo, hi)) | mask16(lo, hi) == v | mask16(lo, hi),
        (v & !mask16(lo, hi)) & !mask16(lo, hi) == v & !mask16(lo, hi),
        (v | mask16(lo, hi)) & !mask16(lo, hi) == v & !mask16(lo, hi),
        (v & !mask16(lo, hi)) | mask16(lo, hi) == v | mask16(lo, hi),
        (v | mask16(lo, hi)) & mask16(lo, hi) == mask16(lo, hi),
        read16(v & !mask16(lo, hi), lo, hi) == 0,
        ((v & mask16(lo, lo)) == mask16(lo, lo)) == bit16(v, lo),
        (read16(v, lo, lo) == 0) == !bit16(v, lo),
{
}

proof fn lemma_round_trip16(v: u16, x: u16, lo: u32, hi: u32)
    by (bit_vector)
    requires
        lo <= hi < 16,
    ensures
        read16(write16(v, lo, hi, x), lo, hi) == read16(x, 0, (hi - lo) as u32),
{
}

/// One pass of the parallel count: each group of bits receives the sum of its two halves,
/// `a` selecting the low half of each group and `b` the high half, `s` bits above.
pub open spec fn pass16(r: u16, a: u16, b: u16, s: u32) -> int {
    (r & a) + ((r & b) >> s)
}

/// The group of bits of `r` that starts at bit `p`, `m` selecting its width.
spec fn lane16(r: u16, p: int, m: u16) -> int {
    ((r >> (p as u32)) & m) as int
}

proof fn lemma_passes16(r: u16, p: u32)
    by (bit_vector)
    ensures
        (r >> p) & 1 <= 1,
        ((r >> p) & 1 == 1) == bit16(r, p),
        pass16(r, 0x5555, 0xaaaa, 1) <= 0xffff,
        pass16(r, 0x3333, 0xcccc, 2) <= 0xffff,
        pass16(r, 0x0f0f, 0xf0f0, 4) <= 0xffff,
        pass16(r, 0x00ff, 0xff00, 8) <= 0xffff,
        p < 16 && p % 2 == 0 ==> ((pass16(r, 0x5555, 0xaaaa, 1) as u16) >> p) & 0x0003
            == ((r >> p) & 0x0001) + ((r >> (p + 1)) & 0x0001),
        p < 16 && p % 4 == 0 ==> ((pass16(r, 0x3333, 0xcccc, 2) as u16) >> p) & 0x000f
            == ((r >> p) & 0x0003) + ((r >> (p + 2)) & 0x0003),
        p < 16 && p % 8 == 0 ==> ((pass16(r, 0x0f0f, 0xf0f0, 4) as u16) >> p) & 0x00ff
            == ((r >> p) & 0x000f) + ((r >> (p + 4)) & 0x000f),
        pass16(r, 0x00ff, 0xff00, 8) == ((r >> 0u32) & 0x00ff) + ((r >> 8u32) & 0x00ff),
{
}

/// The parallel count of the one bits of `x`: 4 passes, from groups of one bit to
/// one group of 16.
pub(crate) proof fn lemma_swar16(x: u16)
    ensures
        pass16(x, 0x5555, 0xaaaa, 1) <= 0xffff,
        pass16(pass16(x, 0x5555, 0xaaaa, 1) as u16, 0x3333, 0xcccc, 2) <= 0xffff,
        pass16(pass16(pass16(x, 0x5555, 0xaaaa, 1) as u16, 0x3333, 0xcccc, 2) as u16, 0x0f0f, 0xf0f0, 4) <= 0xffff,
        pass16(pass16(pass16(pass16(x, 0x5555, 0xaaaa, 1) as u16, 0x3333, 0xcccc, 2) as u16, 0x0f0f, 0xf0f0, 4) as u16, 0x00ff, 0xff00, 8) <= 0xffff,
        pass16(pass16(pass16(pass16(x, 0x5555, 0xaaaa, 1) as u16, 0x3333, 0xcccc, 2) as u16, 0x0f0f, 0xf0f0, 4) as u16, 0x00ff, 0xff00, 8) == ones_in(x, 0, 16),
{
    lemma_passes16(x, 0);
    let r1 = pass16(x, 0x5555, 0xaaaa, 1) as u16;
    lemma_passes16(r1, 0);
    let r2 = pass16(r1, 0x3333, 0xcccc, 2) as u16;
    lemma_passes16(r2, 0);
    let r3 = pass16(r2, 0x0f0f, 0xf0f0, 4) as u16;
    lemma_passes16(r3, 0);
    assert forall|p: int| 0 <= p < 16 implies #[trigger] lane16(x, p, 1) == ones_in(x, p, p + 1) by {
        lemma_passes16(x, p as u32);
        reveal_with_fuel(ones_in, 2);
    }
    assert forall|p: int| 0 <= p < 16 && p % 2 == 0 implies #[trigger] lane16(r1, p, 0x0003)
        == ones_in(x, p, p + 2) by {
        lemma_passes16(x, p as u32);
        assert(lane16(x, p, 0x0001) == ones_in(x, p, p + 1));
        assert(lane16(x, p + 1, 0x0001) == ones_in(x, p + 1, p + 2));
        crate::lemma_ones_in_split(x, p, p + 1, p + 2);
    }
    assert forall|p: int| 0 <= p < 16 && p % 4 == 0 implies #[trigger] lane16(r2, p, 0x000f)
        == ones_in(x, p, p + 4) by {
        lemma_passes16(r1, p as u32);
        assert(lane16(r1, p, 0x0003) == ones_in(x, p, p + 2));
        assert(lane16(r1, p + 2, 0x0003) == ones_in(x, p + 2, p + 4));
        crate::lemma_ones_in_split(x, p, p + 2, p + 4);
    }
    assert forall|p: int| 0 <= p < 16 && p % 8 == 0 implies #[trigger] lane16(r3, p, 0x00ff)
        == ones_in(x, p, p + 8) by {
        lemma_passes16(r2, p as u32);
        assert(lane16(r2, p, 0x000f) == ones_in(x, p, p + 4));
        assert(lane16(r2, p + 4, 0x000f) == ones_in(x, p + 4, p + 8));
        crate::lemma_ones_in_split(x, p, p + 4, p + 8);
    }
    assert(lane16(r3, 0, 0x00ff) == ones_in(x, 0, 8));
    assert(lane16(r3, 8, 0x00ff) == ones_in(x, 8, 16));
    crate::lemma_ones_in_split(x, 0, 8, 16);
}

fn mask(lo: u32, hi: u32) -> (r: u16)
    requires
        lo <= hi < 16,
    ensures
        r == mask16(lo, hi),
{
    proof {
        lemma_bits16(0, 0, lo, hi, 0);
    }
    ((1u16 << hi) - (1u16 << lo)) | (1u16 << hi)
}

impl Width for u16 {
    open spec fn spec_width() -> u32 {
        16
    }

    open spec fn spec_bit(self, i: u32) -> bool {
        bit16(self, i)
    }

    open spec fn spec_mask(lo: u32, hi: u32) -> u16 {
        mask16(lo, hi)
    }

    open spec fn spec_set(self, lo: u32, hi: u32) -> u16 {
        self | mask16(lo, hi)
    }

    open spec fn spec_clr(self, lo: u32, hi: u32) -> u16 {
        self & !mask16(lo, hi)
    }

    open spec fn spec_revert(self, lo: u32, hi: u32) -> u16 {
        self ^ mask16(lo, hi)
    }

    open spec fn spec_write(self, lo: u32, hi: u32, x: u16) -> u16 {
        write16(self, lo, hi, x)
    }

    open spec fn spec_read(self, lo: u32, hi: u32) -> u16 {
        read16(self, lo, hi)
    }

    open spec fn spec_is_set(self, lo: u32, hi: u32) -> bool {
        self & mask16(lo, hi) == mask16(lo, hi)
    }

    open spec fn spec_is_clr(self, lo: u32, hi: u32) -> bool {
        read16(self, lo, hi) == 0
    }

    proof fn lemma_width() {
    }

    proof fn lemma_bit_ops(v: u16, x: u16, lo: u32, hi: u32, i: u32) {
        lemma_bits16(v, x, lo, hi, i);
    }

    proof fn lemma_identities(v: u16, x: u16, lo: u32, hi: u32) {
        lemma_identities16(v, lo, hi);
        lemma_round_trip16(v, x, lo, hi);
    }
}

impl IntoBits for u16 {
    type Output = Bits<u16>;

    fn bits<T: BitIndex>(self, range: T) -> (r: Bits<u16>) {
        let upper = match range.upper() {
            Bound::Unbounded => 15,
            Bound::Included(v) => *v,
            Bound::Excluded(v) => *v - 1,
        };
        let low = match range.low() {
            Bound::Unbounded => 0,
            Bound::Included(v) => *v,
            Bound::Excluded(v) => *v,
        };
        Bits { low, upper, value: self }
    }
}

impl BitsOps<u16> for Bits<u16> {
    open spec fn spec_value(&self) -> u16 {
        self@.0
    }

    open spec fn spec_low(&self) -> u32 {
        self@.1
    }

    open spec fn spec_upper(&self) -> u32 {
        self@.2
    }

    fn set(&self) -> (r: u16) {
        proof {
            use_type_invariant(self);
        }
        let mask = mask(self.low, self.upper);
        self.value | mask
    }

    fn clr(&self) -> (r: u16) {
        proof {
            use_type_invariant(self);
        }
        let mask = mask(self.low, self.upper);
        self.value & !mask
    }

    fn revert(&self) -> (r: u16) {
        proof {
            use_type_invariant(self);
        }
        let mask = mask(self.low, self.upper);
        self.value ^ mask
    }

    fn write(&self, value: u16) -> (r: u16) {
        proof {
            use_type_invariant(self);
        }
        let mask = mask(self.low, self.upper);
        (self.value & !mask) | ((value << self.low) & mask)
    }

    fn read(&self) -> (r: u16) {
        proof {
            use_type_invariant(self);
        }
        let mask = mask(self.low, self.upper);
        (self.value & mask) >> self.low
    }

    fn is_clr(&self) -> (r: bool) {
        self.read() == 0
    }

    fn is_set(&self) -> (r: bool) {
        proof {
            use_type_invariant(self);
        }
        let mask = mask(self.low, self.upper);
        (self.value & mask) == mask
    }

    /// Counts in parallel: the bits are summed in pairs, the pairs in groups of four, and so
    /// on until one group spans the whole value.
    fn count_ones(&self) -> (r: u32) {
        let x = self.read();
        proof {
            use_type_invariant(self);
            lemma_swar16(x);
            crate::lemma_ones_in_bound(x, 0, 16);
            crate::lemma_ones_in_read(self.value, self.low, self.upper);
        }
        let r1 = (x & 0x5555) + ((x & 0xaaaa) >> 1u32);
        let r2 = (r1 & 0x3333) + ((r1 & 0xcccc) >> 2u32);
        let r3 = (r2 & 0x0f0f) + ((r2 & 0xf0f0) >> 4u32);
        let r4 = (r3 & 0x00ff) + ((r3 & 0xff00) >> 8u32);
        r4 as u32
    }
}

} // verus!
