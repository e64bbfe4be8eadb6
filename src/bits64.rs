//! Bit ranges of `u64`.
use vstd::prelude::*;

use core::ops::Bound;

use crate::{ones_in, BitIndex, Bits, BitsOps, IntoBits, Width};

verus! {

pub open spec fn bit64(v: u64, i: u32) -> bool {
    (v >> i) & 1 == 1
}

pub open spec fn mask64(lo: u32, hi: u32) -> u64 {
    (((1u64 << hi) - (1u64 << lo)) as u64) | (1u64 << hi)
}

pub open spec fn write64(v: u64, lo: u32, hi: u32, x: u64) -> u64 {
    (v & !mask64(lo, hi)) | ((x << lo) & mask64(lo, hi))
}

pub open spec fn read64(v: u64, lo: u32, hi: u32) -> u64 {
    (v & mask64(lo, hi)) >> lo
}

#[verifier::rlimit(100)]
proof fn lemma_bits64(v: u64, x: u64, lo: u32, hi: u32, i: u32)
    by (bit_vector)
    requires
        lo <= hi < 64,
        i < 64,
    ensures
        (1u64 << lo) <= (1u64 << hi),
        bit64(mask64(lo, hi), i) == (lo <= i && i <= hi),
        bit64(v | mask64(lo, hi), i) == (lo <= i && i <= hi || bit64(v, i)),
        bit64(v & !mask64(lo, hi), i) == (!(lo <= i && i <= hi) && bit64(v, i)),
        bit64(v ^ mask64(lo, hi), i) == ((lo <= i && i <= hi) != bit64(v, i)),
        bit64(write64(v, lo, hi, x), i) == if lo <= i && i <= hi {
            bit64(x, (i - lo) as u32)
        } else {
            bit64(v, i)
        },
        bit64(read64(v, lo, hi), i) == (i + lo <= hi && bit64(v, (i + lo) as u32)),
{
}

#[verifier::rlimit(100)]
proof fn lemma_identities64(v: u64, lo: u32, hi: u32)
    by (bit_vector)
    requires
        lo <= hi < 64,
    ensures
        (v ^ mask64(lo, hi)) ^ mask64(lo, hi) == v,
        (v | mask64(lo, hi)) | mask64(lo, hi) == v | mask64(lo, hi),
        (v & !mask64(lo, hi)) & !mask64(lo, hi) == v & !mask64(lo, hi),
        (v | mask64(lo, hi)) & !mask64(lo, hi) == v & !mask64(lo, hi),
        (v & !mask64(lo, hi)) | mask64(lo, hi) == v | mask64(lo, hi),
        (v | mask64(lo, hi)) & mask64(lo, hi) == mask64(lo, hi),
        read64(v & !mask64(lo, hi), lo, hi) == 0,
        ((v & mask64(lo, lo)) == mask64(lo, lo)) == bit64(v, lo),
        (read64(v, lo, lo) == 0) == !bit64(v, lo),
{
}

#[verifier::rlimit(100)]
proof fn lemma_round_trip64(v: u64, x: u64, lo: u32, hi: u32)
    by (bit_vector)
    requires
        lo <= hi < 64,
    ensures
        read64(write64(v, lo, hi, x), lo, hi) == read64(x, 0, (hi - lo) as u32),
{
}

/// One pass of the parallel count: each group of bits receives the sum of its two halves,
/// `a` selecting the low half of each group and `b` the high half, `s` bits above.
pub open spec fn pass64(r: u64, a: u64, b: u64, s: u32) -> int {
    (r & a) + ((r & b) >> s)
}

/// The group of bits of `r` that starts at bit `p`, `m` selecting its width.
spec fn lane64(r: u64, p: int, m: u64) -> int {
    ((r >> (p as u32)) & m) as int
}

proof fn lemma_passes64(r: u64, p: u32)
    by (bit_vector)
    ensures
        (r >> p) & 1 <= 1,
        ((r >> p) & 1 == 1) == bit64(r, p),
        pass64(r, 0x5555_5555_5555_5555, 0xaaaa_aaaa_aaaa_aaaa, 1) <= 0xffff_ffff_ffff_ffff,
        pass64(r, 0x3333_3333_3333_3333, 0xcccc_cccc_cccc_cccc, 2) <= 0xffff_ffff_ffff_ffff,
        pass64(r, 0x0f0f_0f0f_0f0f_0f0f, 0xf0f0_f0f0_f0f0_f0f0, 4) <= 0xffff_ffff_ffff_ffff,
        pass64(r, 0x00ff_00ff_00ff_00ff, 0xff00_ff00_ff00_ff00, 8) <= 0xffff_ffff_ffff_ffff,
        pass64(r, 0x0000_ffff_0000_ffff, 0xffff_0000_ffff_0000, 16) <= 0xffff_ffff_ffff_ffff,
        pass64(r, 0x0000_0000_ffff_ffff, 0xffff_ffff_0000_0000, 32) <= 0xffff_ffff_ffff_ffff,
        p < 64 && p % 2 == 0 ==> ((pass64(r, 0x5555_5555_5555_5555, 0xaaaa_aaaa_aaaa_aaaa, 1) as u64) >> p) & 0x0000_0000_0000_0003
            == ((r >> p) & 0x0000_0000_0000_0001) + ((r >> (p + 1)) & 0x0000_0000_0000_0001),
        p < 64 && p % 4 == 0 ==> ((pass64(r, 0x3333_3333_3333_3333, 0xcccc_cccc_cccc_cccc, 2) as u64) >> p) & 0x0000_0000_0000_000f
            == ((r >> p) & 0x0000_0000_0000_0003) + ((r >> (p + 2)) & 0x0000_0000_0000_0003),
        p < 64 && p % 8 == 0 ==> ((pass64(r, 0x0f0f_0f0f_0f0f_0f0f, 0xf0f0_f0f0_f0f0_f0f0, 4) as u64) >> p) & 0x0000_0000_0000_00ff
            == ((r >> p) & 0x0000_0000_0000_000f) + ((r >> (p + 4)) & 0x0000_0000_0000_000f),
        p < 64 && p % 16 == 0 ==> ((pass64(r, 0x00ff_00ff_00ff_00ff, 0xff00_ff00_ff00_ff00, 8) as u64) >> p) & 0x0000_0000_0000_ffff
            == ((r >> p) & 0x0000_0000_0000_00ff) + ((r >> (p + 8)) & 0x0000_0000_0000_00ff),
        p < 64 && p % 32 == 0 ==> ((pass64(r, 0x0000_ffff_0000_ffff, 0xffff_0000_ffff_0000, 16) as u64) >> p) & 0x0000_0000_ffff_ffff
            == ((r >> p) & 0x0000_0000_0000_ffff) + ((r >> (p + 16)) & 0x0000_0000_0000_ffff),
        pass64(r, 0x0000_0000_ffff_ffff, 0xffff_ffff_0000_0000, 32) == ((r >> 0u32) & 0x0000_0000_ffff_ffff) + ((r >> 32u32) & 0x0000_0000_ffff_ffff),
{
}

/// The parallel count of the one bits of `x`: 6 passes, from groups of one bit to
/// one group of 64.
pub(crate) proof fn lemma_swar64(x: u64)
    ensures
        pass64(x, 0x5555_5555_5555_5555, 0xaaaa_aaaa_aaaa_aaaa, 1) <= 0xffff_ffff_ffff_ffff,
        pass64(pass64(x, 0x5555_5555_5555_5555, 0xaaaa_aaaa_aaaa_aaaa, 1) as u64, 0x3333_3333_3333_3333, 0xcccc_cccc_cccc_cccc, 2) <= 0xffff_ffff_ffff_ffff,
        pass64(pass64(pass64(x, 0x5555_5555_5555_5555, 0xaaaa_aaaa_aaaa_aaaa, 1) as u64, 0x3333_3333_3333_3333, 0xcccc_cccc_cccc_cccc, 2) as u64, 0x0f0f_0f0f_0f0f_0f0f, 0xf0f0_f0f0_f0f0_f0f0, 4) <= 0xffff_ffff_ffff_ffff,
        pass64(pass64(pass64(pass64(x, 0x5555_5555_5555_5555, 0xaaaa_aaaa_aaaa_aaaa, 1) as u64, 0x3333_3333_3333_3333, 0xcccc_cccc_cccc_cccc, 2) as u64, 0x0f0f_0f0f_0f0f_0f0f, 0xf0f0_f0f0_f0f0_f0f0, 4) as u64, 0x00ff_00ff_00ff_00ff, 0xff00_ff00_ff00_ff00, 8) <= 0xffff_ffff_ffff_ffff,
        pass64(pass64(pass64(pass64(pass64(x, 0x5555_5555_5555_5555, 0xaaaa_aaaa_aaaa_aaaa, 1) as u64, 0x3333_3333_3333_3333, 0xcccc_cccc_cccc_cccc, 2) as u64, 0x0f0f_0f0f_0f0f_0f0f, 0xf0f0_f0f0_f0f0_f0f0, 4) as u64, 0x00ff_00ff_00ff_00ff, 0xff00_ff00_ff00_ff00, 8) as u64, 0x0000_ffff_0000_ffff, 0xffff_0000_ffff_0000, 16) <= 0xffff_ffff_ffff_ffff,
        pass64(pass64(pass64(pass64(pass64(pass64(x, 0x5555_5555_5555_5555, 0xaaaa_aaaa_aaaa_aaaa, 1) as u64, 0x3333_3333_3333_3333, 0xcccc_cccc_cccc_cccc, 2) as u64, 0x0f0f_0f0f_0f0f_0f0f, 0xf0f0_f0f0_f0f0_f0f0, 4) as u64, 0x00ff_00ff_00ff_00ff, 0xff00_ff00_ff00_ff00, 8) as u64, 0x0000_ffff_0000_ffff, 0xffff_0000_ffff_0000, 16) as u64, 0x0000_0000_ffff_ffff, 0xffff_ffff_0000_0000, 32) <= 0xffff_ffff_ffff_ffff,
        pass64(pass64(pass64(pass64(pass64(pass64(x, 0x5555_5555_5555_5555, 0xaaaa_aaaa_aaaa_aaaa, 1) as u64, 0x3333_3333_3333_3333, 0xcccc_cccc_cccc_cccc, 2) as u64, 0x0f0f_0f0f_0f0f_0f0f, 0xf0f0_f0f0_f0f0_f0f0, 4) as u64, 0x00ff_00ff_00ff_00ff, 0xff00_ff00_ff00_ff00, 8) as u64, 0x0000_ffff_0000_ffff, 0xffff_0000_ffff_0000, 16) as u64, 0x0000_0000_ffff_ffff, 0xffff_ffff_0000_0000, 32) == ones_in(x, 0, 64),
{
    lemma_passes64(x, 0);
    let r1 = pass64(x, 0x5555_5555_5555_5555, 0xaaaa_aaaa_aaaa_aaaa, 1) as u64;
    lemma_passes64(r1, 0);
    let r2 = pass64(r1, 0x3333_3333_3333_3333, 0xcccc_cccc_cccc_cccc, 2) as u64;
    lemma_passes64(r2, 0);
    let r3 = pass64(r2, 0x0f0f_0f0f_0f0f_0f0f, 0xf0f0_f0f0_f0f0_f0f0, 4) as u64;
    lemma_passes64(r3, 0);
    let r4 = pass64(r3, 0x00ff_00ff_00ff_00ff, 0xff00_ff00_ff00_ff00, 8) as u64;
    lemma_passes64(r4, 0);
    let r5 = pass64(r4, 0x0000_ffff_0000_ffff, 0xffff_0000_ffff_0000, 16) as u64;
    lemma_passes64(r5, 0);
    assert forall|p: int| 0 <= p < 64 implies #[trigger] lane64(x, p, 1) == ones_in(x, p, p + 1) by {
        lemma_passes64(x, p as u32);
        reveal_with_fuel(ones_in, 2);
    }
    assert forall|p: int| 0 <= p < 64 && p % 2 == 0 implies #[trigger] lane64(r1, p, 0x0000_0000_0000_0003)
        == ones_in(x, p, p + 2) by {
        lemma_passes64(x, p as u32);
        assert(lane64(x, p, 0x0000_0000_0000_0001) == ones_in(x, p, p + 1));
        assert(lane64(x, p + 1, 0x0000_0000_0000_0001) == ones_in(x, p + 1, p + 2));
        crate::lemma_ones_in_split(x, p, p + 1, p + 2);
    }
    assert forall|p: int| 0 <= p < 64 && p % 4 == 0 implies #[trigger] lane64(r2, p, 0x0000_0000_0000_000f)
        == ones_in(x, p, p + 4) by {
        lemma_passes64(r1, p as u32);
        assert(lane64(r1, p, 0x0000_0000_0000_0003) == ones_in(x, p, p + 2));
        assert(lane64(r1, p + 2, 0x0000_0000_0000_0003) == ones_in(x, p + 2, p + 4));
        crate::lemma_ones_in_split(x, p, p + 2, p + 4);
    }
    assert forall|p: int| 0 <= p < 64 && p % 8 == 0 implies #[trigger] lane64(r3, p, 0x0000_0000_0000_00ff)
        == ones_in(x, p, p + 8) by {
        lemma_passes64(r2, p as u32);
        assert(lane64(r2, p, 0x0000_0000_0000_000f) == ones_in(x, p, p + 4));
        assert(lane64(r2, p + 4, 0x0000_0000_0000_000f) == ones_in(x, p + 4, p + 8));
        crate::lemma_ones_in_split(x, p, p + 4, p + 8);
    }
    assert forall|p: int| 0 <= p < 64 && p % 16 == 0 implies #[trigger] lane64(r4, p, 0x0000_0000_0000_ffff)
        == ones_in(x, p, p + 16) by {
        lemma_passes64(r3, p as u32);
        assert(lane64(r3, p, 0x0000_0000_0000_00ff) == ones_in(x, p, p + 8));
        assert(lane64(r3, p + 8, 0x0000_0000_0000_00ff) == ones_in(x, p + 8, p + 16));
        crate::lemma_ones_in_split(x, p, p + 8, p + 16);
    }
    assert forall|p: int| 0 <= p < 64 && p % 32 == 0 implies #[trigger] lane64(r5, p, 0x0000_0000_ffff_ffff)
        == ones_in(x, p, p + 32) by {
        lemma_passes64(r4, p as u32);
        assert(lane64(r4, p, 0x0000_0000_0000_ffff) == ones_in(x, p, p + 16));
        assert(lane64(r4, p + 16, 0x0000_0000_0000_ffff) == ones_in(x, p + 16, p + 32));
        crate::lemma_ones_in_split(x, p, p + 16, p + 32);
    }
    assert(lane64(r5, 0, 0x0000_0000_ffff_ffff) == ones_in(x, 0, 32));
    assert(lane64(r5, 32, 0x0000_0000_ffff_ffff) == ones_in(x, 32, 64));
    crate::lemma_ones_in_split(x, 0, 32, 64);
}

fn mask(lo: u32, hi: u32) -> (r: u64)
    requires
        lo <= hi < 64,
    ensures
        r == mask64(lo, hi),
{
    proof {
        lemma_bits64(0, 0, lo, hi, 0);
    }
    ((1u64 << hi) - (1u64 << lo)) | (1u64 << hi)
}

impl Width for u64 {
    open spec fn spec_width() -> u32 {
        64
    }

    open spec fn spec_bit(self, i: u32) -> bool {
        bit64(self, i)
    }

    open spec fn spec_mask(lo: u32, hi: u32) -> u64 {
        mask64(lo, hi)
    }

    open spec fn spec_set(self, lo: u32, hi: u32) -> u64 {
        self | mask64(lo, hi)
    }

    open spec fn spec_clr(self, lo: u32, hi: u32) -> u64 {
        self & !mask64(lo, hi)
    }

    open spec fn spec_revert(self, lo: u32, hi: u32) -> u64 {
        self ^ mask64(lo, hi)
    }

    open spec fn spec_write(self, lo: u32, hi: u32, x: u64) -> u64 {
        write64(self, lo, hi, x)
    }

    open spec fn spec_read(self, lo: u32, hi: u32) -> u64 {
        read64(self, lo, hi)
    }

    open spec fn spec_is_set(self, lo: u32, hi: u32) -> bool {
        self & mask64(lo, hi) == mask64(lo, hi)
    }

    open spec fn spec_is_clr(self, lo: u32, hi: u32) -> bool {
        read64(self, lo, hi) == 0
    }

    proof fn lemma_width() {
    }

    proof fn lemma_bit_ops(v: u64, x: u64, lo: u32, hi: u32, i: u32) {
        lemma_bits64(v, x, lo, hi, i);
    }

    proof fn lemma_identities(v: u64, x: u64, lo: u32, hi: u32) {
        lemma_identities64(v, lo, hi);
        lemma_round_trip64(v, x, lo, hi);
    }
}

impl IntoBits for u64 {
    type Output = Bits<u64>;

    fn bits<T: BitIndex>(self, range: T) -> (r: Bits<u64>) {
        let upper = match range.upper() {
            Bound::Unbounded => 63,
            Bound::Included(v) => *v,
            Bound::Excluded(v) => *v - 1,
        };
        let low = match range.low() {
            Bound::Unbounded => 0,
            Bound::Included(v) => *v,
            Bound::Excluded(v) => *v,
        };
        Bits { low, upper, value: self }
    }
}

impl BitsOps<u64> for Bits<u64> {
    open spec fn spec_value(&self) -> u64 {
        self@.0
    }

    open spec fn spec_low(&self) -> u32 {
        self@.1
    }

    open spec fn spec_upper(&self) -> u32 {
        self@.2
    }

    fn set(&self) -> (r: u64) {
        proof {
            use_type_invariant(self);
        }
        let mask = mask(self.low, self.upper);
        self.value | mask
    }

    fn clr(&self) -> (r: u64) {
        proof {
            use_type_invariant(self);
        }
        let mask = mask(self.low, self.upper);
        self.value & !mask
    }

    fn revert(&self) -> (r: u64) {
        proof {
            use_type_invariant(self);
        }
        let mask = mask(self.low, self.upper);
        self.value ^ mask
    }

    fn write(&self, value: u64) -> (r: u64) {
        proof {
            use_type_invariant(self);
        }
        let mask = mask(self.low, self.upper);
        (self.value & !mask) | ((value << self.low) & mask)
    }

    fn read(&self) -> (r: u64) {
        proof {
            use_type_invariant(self);
        }
        let mask = mask(self.low, self.upper);
        (self.value & mask) >> self.low
    }

    fn is_clr(&self) -> (r: bool) {
        self.read() == 0
    }

    fn is_set(&self) -> (r: bool) {
        proof {
            use_type_invariant(self);
        }
        let mask = mask(self.low, self.upper);
        (self.value & mask) == mask
    }

    /// Counts in parallel: the bits are summed in pairs, the pairs in groups of four, and so
    /// on until one group spans the whole value.
    fn count_ones(&self) -> (r: u32) {
        let x = self.read();
        proof {
            use_type_invariant(self);
            lemma_swar64(x);
            crate::lemma_ones_in_bound(x, 0, 64);
            crate::lemma_ones_in_read(self.value, self.low, self.upper);
        }
        let r1 = (x & 0x5555_5555_5555_5555) + ((x & 0xaaaa_aaaa_aaaa_aaaa) >> 1u32);
        let r2 = (r1 & 0x3333_3333_3333_3333) + ((r1 & 0xcccc_cccc_cccc_cccc) >> 2u32);
        let r3 = (r2 & 0x0f0f_0f0f_0f0f_0f0f) + ((r2 & 0xf0f0_f0f0_f0f0_f0f0) >> 4u32);
        let r4 = (r3 & 0x00ff_00ff_00ff_00ff) + ((r3 & 0xff00_ff00_ff00_ff00) >> 8u32);
        let r5 = (r4 & 0x0000_ffff_0000_ffff) + ((r4 & 0xffff_0000_ffff_0000) >> 16u32);
        let r6 = (r5 & 0x0000_0000_ffff_ffff) + ((r5 & 0xffff_ffff_0000_0000) >> 32u32);
        r6 as u32
    }
}

} // verus!
