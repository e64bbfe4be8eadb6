//! Bit ranges of `usize`, whose width is that of the target: 32 or 64 bits.
use vstd::prelude::*;

use core::ops::Bound;

use crate::{BitIndex, Bits, BitsOps, IntoBits, Width};

verus! {

pub open spec fn bit_usize(v: usize, i: u32) -> bool {
    (v >> i) & 1 == 1
}

pub open spec fn mask_usize(lo: u32, hi: u32) -> usize {
    (((1usize << hi) - (1usize << lo)) as usize) | (1usize << hi)
}

pub open spec fn write_usize(v: usize, lo: u32, hi: u32, x: usize) -> usize {
    (v & !mask_usize(lo, hi)) | ((x << lo) & mask_usize(lo, hi))
}

pub open spec fn read_usize(v: usize, lo: u32, hi: u32) -> usize {
    (v & mask_usize(lo, hi)) >> lo
}

#[verifier::rlimit(100)]
proof fn lemma_bits_usize(v: usize, x: usize, lo: u32, hi: u32, i: u32)
    by (bit_vector)
    requires
        lo <= hi < usize::BITS,
        i < usize::BITS,
    ensures
        (1usize << lo) <= (1usize << hi),
        bit_usize(mask_usize(lo, hi), i) == (lo <= i && i <= hi),
        bit_usize(v | mask_usize(lo, hi), i) == (lo <= i && i <= hi || bit_usize(v, i)),
        bit_usize(v & !mask_usize(lo, hi), i) == (!(lo <= i && i <= hi) && bit_usize(v, i)),
        bit_usize(v ^ mask_usize(lo, hi), i) == ((lo <= i && i <= hi) != bit_usize(v, i)),
        bit_usize(write_usize(v, lo, hi, x), i) == if lo <= i && i <= hi {
            bit_usize(x, (i - lo) as u32)
        } else {
            bit_usize(v, i)
        },
        bit_usize(read_usize(v, lo, hi), i) == (i + lo <= hi && bit_usize(v, (i + lo) as u32)),
{
}

#[verifier::rlimit(100)]
proof fn lemma_identities_usize(v: usize, lo: u32, hi: u32)
    by (bit_vector)
    requires
        lo <= hi < usize::BITS,
    ensures
        (v ^ mask_usize(lo, hi)) ^ mask_usize(lo, hi) == v,
        (v | mask_usize(lo, hi)) | mask_usize(lo, hi) == v | mask_usize(lo, hi),
        (v & !mask_usize(lo, hi)) & !mask_usize(lo, hi) == v & !mask_usize(lo, hi),
        (v | mask_usize(lo, hi)) & !mask_usize(lo, hi) == v & !mask_usize(lo, hi),
        (v & !mask_usize(lo, hi)) | mask_usize(lo, hi) == v | mask_usize(lo, hi),
        (v | mask_usize(lo, hi)) & mask_usize(lo, hi) == mask_usize(lo, hi),
        read_usize(v & !mask_usize(lo, hi), lo, hi) == 0,
        ((v & mask_usize(lo, lo)) == mask_usize(lo, lo)) == bit_usize(v, lo),
        (read_usize(v, lo, lo) == 0) == !bit_usize(v, lo),
{
}

#[verifier::rlimit(100)]
proof fn lemma_round_trip_usize(v: usize, x: usize, lo: u32, hi: u32)
    by (bit_vector)
    requires
        lo <= hi < usize::BITS,
    ensures
        read_usize(write_usize(v, lo, hi, x), lo, hi) == read_usize(x, 0, (hi - lo) as u32),
{
}

/// Widening to `u64` keeps the bits of a `usize` and adds zeros above them.
proof fn lemma_widen(x: usize, i: u32)
    by (bit_vector)
    requires
        i < 64,
    ensures
        i < usize::BITS ==> (((x as u64) >> i) & 1 == 1) == ((x >> i) & 1 == 1),
        usize::BITS <= i ==> ((x as u64) >> i) & 1 != 1,
{
}

fn mask(lo: u32, hi: u32) -> (r: usize)
    requires
        lo <= hi < usize::BITS,
    ensures
        r == mask_usize(lo, hi),
{
    proof {
        lemma_bits_usize(0, 0, lo, hi, 0);
    }
    ((1usize << hi) - (1usize << lo)) | (1usize << hi)
}

impl Width for usize {
    open spec fn spec_width() -> u32 {
        usize::BITS
    }

    open spec fn spec_bit(self, i: u32) -> bool {
        bit_usize(self, i)
    }

    open spec fn spec_mask(lo: u32, hi: u32) -> usize {
        mask_usize(lo, hi)
    }

    open spec fn spec_set(self, lo: u32, hi: u32) -> usize {
        self | mask_usize(lo, hi)
    }

    open spec fn spec_clr(self, lo: u32, hi: u32) -> usize {
        self & !mask_usize(lo, hi)
    }

    open spec fn spec_revert(self, lo: u32, hi: u32) -> usize {
        self ^ mask_usize(lo, hi)
    }

    open spec fn spec_write(self, lo: u32, hi: u32, x: usize) -> usize {
        write_usize(self, lo, hi, x)
    }

    open spec fn spec_read(self, lo: u32, hi: u32) -> usize {
        read_usize(self, lo, hi)
    }

    open spec fn spec_is_set(self, lo: u32, hi: u32) -> bool {
        self & mask_usize(lo, hi) == mask_usize(lo, hi)
    }

    open spec fn spec_is_clr(self, lo: u32, hi: u32) -> bool {
        read_usize(self, lo, hi) == 0
    }

    proof fn lemma_width() {
    }

    proof fn lemma_bit_ops(v: usize, x: usize, lo: u32, hi: u32, i: u32) {
        lemma_bits_usize(v, x, lo, hi, i);
    }

    proof fn lemma_identities(v: usize, x: usize, lo: u32, hi: u32) {
        lemma_identities_usize(v, lo, hi);
        lemma_round_trip_usize(v, x, lo, hi);
    }
}

impl IntoBits for usize {
    type Output = Bits<usize>;

    fn bits<T: BitIndex>(self, range: T) -> (r: Bits<usize>) {
        let upper = match range.upper() {
            Bound::Unbounded => usize::BITS - 1,
            Bound::Included(v) => *v,
            Bound::Excluded(v) => *v - 1,
        };
        let low = match range.low() {
            Bound::Unbounded => 0,
            Bound::Included(v) => *v,
            Bound::Excluded(v) => *v,
        };
        Bits { low, upper, value: self }
    }
}

impl BitsOps<usize> for Bits<usize> {
    open spec fn spec_value(&self) -> usize {
        self@.0
    }

    open spec fn spec_low(&self) -> u32 {
        self@.1
    }

    open spec fn spec_upper(&self) -> u32 {
        self@.2
    }

    fn set(&self) -> (r: usize) {
        proof {
            use_type_invariant(self);
        }
        let mask = mask(self.low, self.upper);
        self.value | mask
    }

    fn clr(&self) -> (r: usize) {
        proof {
            use_type_invariant(self);
        }
        let mask = mask(self.low, self.upper);
        self.value & !mask
    }

    fn revert(&self) -> (r: usize) {
        proof {
            use_type_invariant(self);
        }
        let mask = mask(self.low, self.upper);
        self.value ^ mask
    }

    fn write(&self, value: usize) -> (r: usize) {
        proof {
            use_type_invariant(self);
        }
        let mask = mask(self.low, self.upper);
        (self.value & !mask) | ((value << self.low) & mask)
    }

    fn read(&self) -> (r: usize) {
        proof {
            use_type_invariant(self);
        }
        let mask = mask(self.low, self.upper);
        (self.value & mask) >> self.low
    }

    fn is_clr(&self) -> (r: bool) {
        self.read() == 0
    }

    fn is_set(&self) -> (r: bool) {
        proof {
            use_type_invariant(self);
        }
        let mask = mask(self.low, self.upper);
        (self.value & mask) == mask
    }

    /// Counts the bits of what `read` returns as a `u64`, whose bits above the width of
    /// `usize` are zero.
    fn count_ones(&self) -> (r: u32) {
        let x = self.read();
        let wide = x as u64;
        proof {
            use_type_invariant(self);
            assert forall|i: int| 0 <= i < usize::BITS implies #[trigger] wide.spec_bit(
                (0 + i) as u32,
            ) == x.spec_bit((0 + i) as u32) by {
                lemma_widen(x, i as u32);
            }
            crate::lemma_ones_in_same(wide, 0, x, 0, usize::BITS as int);
            assert forall|i: int| usize::BITS <= i < 64 implies !#[trigger] wide.spec_bit(i as u32) by {
                lemma_widen(x, i as u32);
            }
            crate::lemma_ones_in_none(wide, usize::BITS as int, 64);
            crate::lemma_ones_in_split(wide, 0, usize::BITS as int, 64);
            crate::lemma_ones_in_read(self.value, self.low, self.upper);
        }
        wide.bits(..).count_ones()
    }
}

} // verus!
