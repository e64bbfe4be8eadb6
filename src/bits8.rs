//! Bit ranges of `u8`.
use vstd::prelude::*;

use core::ops::Bound;

use crate::{ones_in, BitIndex, Bits, BitsOps, IntoBits, Width};

verus! {

pub open spec fn bit8(v: u8, i: u32) -> bool {
    (v >> i) & 1 == 1
}

pub open spec fn mask8(lo: u32, hi: u32) -> u8 {
    (((1u8 << hi) - (1u8 << lo)) as u8) | (1u8 << hi)
}

pub open spec fn write8(v: u8, lo: u32, hi: u32, x: u8) -> u8 {
    (v & !mask8(lo, hi)) | ((x << lo) & mask8(lo, hi))
}

pub open spec fn read8(v: u8, lo: u32, hi: u32) -> u8 {
    (v & mask8(lo, hi)) >> lo
}

proof fn lemma_bits8(v: u8, x: u8, lo: u32, hi: u32, i: u32)
    by (bit_vector)
    requires
        lo <= hi < 8,
        i < 8,
    ensures
        (1u8 << lo) <= (1u8 << hi),
        bit8(mask8(lo, hi), i) == (lo <= i && i <= hi),
        bit8(v | mask8(lo, hi), i) == (lo <= i && i <= hi || bit8(v, i)),
        bit8(v & !mask8(lo, hi), i) == (!(lo <= i && i <= hi) && bit8(v, i)),
        bit8(v ^ mask8(lo, hi), i) == ((lo <= i && i <= hi) != bit8(v, i)),
        bit8(write8(v, lo, hi, x), i) == if lo <= i && i <= hi {
            bit8(x, (i - lo) as u32)
        } else {
            bit8(v, i)
        },
        bit8(read8(v, lo, hi), i) == (i + lo <= hi && bit8(v, (i + lo) as u32)),
{
}

proof fn lemma_identities8(v: u8, lo: u32, hi: u32)
    by (bit_vector)
    requires
        lo <= hi < 8,
    ensures
        (v ^ mask8(lo, hi)) ^ mask8(lo, hi) == v,
        (v | mask8(lo, hi)) | mask8(lo, hi) == v | mask8(lo, hi),
        (v & !mask8(lo, hi)) & !mask8(lo, hi) == v & !mask8(lo, hi),
        (v | mask8(lo, hi)) & !mask8(lo, hi) == v & !mask8(lo, hi),
        (v & !mask8(lo, hi)) | mask8(lo, hi) == v | mask8(lo, hi),
        (v | mask8(lo, hi)) & mask8(lo, hi) == mask8(lo, hi),
        read8(v & !mask8(lo, hi), lo, hi) == 0,
        ((v & mask8(lo, lo)) == mask8(lo, lo)) == bit8(v, lo),
        (read8(v, lo, lo) == 0) == !bit8(v, lo),
{
}

proof fn lemma_round_trip8(v: u8, x: u8, lo: u32, hi: u32)
    by (bit_vector)
    requires
        lo <= hi < 8,
    ensures
        read8(write8(v, lo, hi, x), lo, hi) == read8(x, 0, (hi - lo) as u32),
{
}

/// One pass of the parallel count: each group of bits receives the sum of its two halves,
/// `a` selecting the low half of each group and `b` the high half, `s` bits above.
pub open spec fn pass8(r: u8, a: u8, b: u8, s: u32) -> int {
    (r & a) + ((r & b) >> s)
}

/// The group of bits of `r` that starts at bit `p`, `m` selecting its width.
spec fn lane8(r: u8, p: int, m: u8) -> int {
    ((r >> (p as u32)) & m) as int
}

proof fn lemma_passes8(r: u8, p: u32)
    by (bit_vector)
    ensures
        (r >> p) & 1 <= 1,
        ((r >> p) & 1 == 1) == bit8(r, p),
        pass8(r, 0x55, 0xaa, 1) <= 0xff,
        pass8(r, 0x33, 0xcc, 2) <= 0xff,
        pass8(r, 0x0f, 0xf0, 4) <= 0xff,
        p < 8 && p % 2 == 0 ==> ((pass8(r, 0x55, 0xaa, 1) as u8) >> p) & 0x03
            == ((r >> p) & 0x01) + ((r >> (p + 1)) & 0x01),
        p < 8 && p % 4 == 0 ==> ((pass8(r, 0x33, 0xcc, 2) as u8) >> p) & 0x0f
            == ((r >> p) & 0x03) + ((r >> (p + 2)) & 0x03),
        pass8(r, 0x0f, 0xf0, 4) == ((r >> 0u32) & 0x0f) + ((r >> 4u32) & 0x0f),
{
}

/// The parallel count of the one bits of `x`: 3 passes, from groups of one bit to
/// one group of 8.
pub(crate) proof fn lemma_swar8(x: u8)
    ensures
        pass8(x, 0x55, 0xaa, 1) <= 0xff,
        pass8(pass8(x, 0x55, 0xaa, 1) as u8, 0x33, 0xcc, 2) <= 0xff,
        pass8(pass8(pass8(x, 0x55, 0xaa, 1) as u8, 0x33, 0xcc, 2) as u8, 0x0f, 0xf0, 4) <= 0xff,
        pass8(pass8(pass8(x, 0x55, 0xaa, 1) as u8, 0x33, 0xcc, 2) as u8, 0x0f, 0xf0, 4) == ones_in(x, 0, 8),
{
    lemma_passes8(x, 0);
    let r1 = pass8(x, 0x55, 0xaa, 1) as u8;
    lemma_passes8(r1, 0);
    let r2 = pass8(r1, 0x33, 0xcc, 2) as u8;
    lemma_passes8(r2, 0);
    assert forall|p: int| 0 <= p < 8 implies #[trigger] lane8(x, p, 1) == ones_in(x, p, p + 1) by {
        lemma_passes8(x, p as u32);
        reveal_with_fuel(ones_in, 2);
    }
    assert forall|p: int| 0 <= p < 8 && p % 2 == 0 implies #[trigger] lane8(r1, p, 0x03)
        == ones_in(x, p, p + 2) by {
        lemma_passes8(x, p as u32);
        assert(lane8(x, p, 0x01) == ones_in(x, p, p + 1));
        assert(lane8(x, p + 1, 0x01) == ones_in(x, p + 1, p + 2));
        crate::lemma_ones_in_split(x, p, p + 1, p + 2);
    }
    assert forall|p: int| 0 <= p < 8 && p % 4 == 0 implies #[trigger] lane8(r2, p, 0x0f)
        == ones_in(x, p, p + 4) by {
        lemma_passes8(r1, p as u32);
        assert(lane8(r1, p, 0x03) == ones_in(x, p, p + 2));
        assert(lane8(r1, p + 2, 0x03) == ones_in(x, p + 2, p + 4));
        crate::lemma_ones_in_split(x, p, p + 2, p + 4);
    }
    assert(lane8(r2, 0, 0x0f) == ones_in(x, 0, 4));
    assert(lane8(r2, 4, 0x0f) == ones_in(x, 4, 8));
    crate::lemma_ones_in_split(x, 0, 4, 8);
}

fn mask(lo: u32, hi: u32) -> (r: u8)
    requires
        lo <= hi < 8,
    ensures
        r == mask8(lo, hi),
{
    proof {
        lemma_bits8(0, 0, lo, hi, 0);
    }
    ((1u8 << hi) - (1u8 << lo)) | (1u8 << hi)
}

impl Width for u8 {
    open spec fn spec_width() -> u32 {
        8
    }

    open spec fn spec_bit(self, i: u32) -> bool {
        bit8(self, i)
    }

    open spec fn spec_mask(lo: u32, hi: u32) -> u8 {
        mask8(lo, hi)
    }

    open spec fn spec_set(self, lo: u32, hi: u32) -> u8 {
        self | mask8(lo, hi)
    }

    open spec fn spec_clr(self, lo: u32, hi: u32) -> u8 {
        self & !mask8(lo, hi)
    }

    open spec fn spec_revert(self, lo: u32, hi: u32) -> u8 {
        self ^ mask8(lo, hi)
    }

    open spec fn spec_write(self, lo: u32, hi: u32, x: u8) -> u8 {
        write8(self, lo, hi, x)
    }

    open spec fn spec_read(self, lo: u32, hi: u32) -> u8 {
        read8(self, lo, hi)
    }

    open spec fn spec_is_set(self, lo: u32, hi: u32) -> bool {
        self & mask8(lo, hi) == mask8(lo, hi)
    }

    open spec fn spec_is_clr(self, lo: u32, hi: u32) -> bool {
        read8(self, lo, hi) == 0
    }

    proof fn lemma_width() {
    }

    proof fn lemma_bit_ops(v: u8, x: u8, lo: u32, hi: u32, i: u32) {
        lemma_bits8(v, x, lo, hi, i);
    }

    proof fn lemma_identities(v: u8, x: u8, lo: u32, hi: u32) {
        lemma_identities8(v, lo, hi);
        lemma_round_trip8(v, x, lo, hi);
    }
}

impl IntoBits for u8 {
    type Output = Bits<u8>;

    fn bits<T: BitIndex>(self, range: T) -> (r: Bits<u8>) {
        let upper = match range.upper() {
            Bound::Unbounded => 7,
            Bound::Included(v) => *v,
            Bound::Excluded(v) => *v - 1,
        };
        let low = match range.low() {
            Bound::Unbounded => 0,
            Bound::Included(v) => *v,
            Bound::Excluded(v) => *v,
        };
        Bits { low, upper, value: self }
    }
}

impl BitsOps<u8> for Bits<u8> {
    open spec fn spec_value(&self) -> u8 {
        self@.0
    }

    open spec fn spec_low(&self) -> u32 {
        self@.1
    }

    open spec fn spec_upper(&self) -> u32 {
        self@.2
    }

    fn set(&self) -> (r: u8) {
        proof {
            use_type_invariant(self);
        }
        let mask = mask(self.low, self.upper);
        self.value | mask
    }

    fn clr(&self) -> (r: u8) {
        proof {
            use_type_invariant(self);
        }
        let mask = mask(self.low, self.upper);
        self.value & !mask
    }

    fn revert(&self) -> (r: u8) {
        proof {
            use_type_invariant(self);
        }
        let mask = mask(self.low, self.upper);
        self.value ^ mask
    }

    fn write(&self, value: u8) -> (r: u8) {
        proof {
            use_type_invariant(self);
        }
        let mask = mask(self.low, self.upper);
        (self.value & !mask) | ((value << self.low) & mask)
    }

    fn read(&self) -> (r: u8) {
        proof {
            use_type_invariant(self);
        }
        let mask = mask(self.low, self.upper);
        (self.value & mask) >> self.low
    }

    fn is_clr(&self) -> (r: bool) {
        self.read() == 0
    }

    fn is_set(&self) -> (r: bool) {
        proof {
            use_type_invariant(self);
        }
        let mask = mask(self.low, self.upper);
        (self.value & mask) == mask
    }

    /// Counts in parallel: the bits are summed in pairs, the pairs in groups of four, and so
    /// on until one group spans the whole value.
    fn count_ones(&self) -> (r: u32) {
        let x = self.read();
        proof {
            use_type_invariant(self);
            lemma_swar8(x);
            crate::lemma_ones_in_bound(x, 0, 8);
            crate::lemma_ones_in_read(self.value, self.low, self.upper);
        }
        let r1 = (x & 0x55) + ((x & 0xaa) >> 1u32);
        let r2 = (r1 & 0x33) + ((r1 & 0xcc) >> 2u32);
        let r3 = (r2 & 0x0f) + ((r2 & 0xf0) >> 4u32);
        r3 as u32
    }
}

} // verus!
