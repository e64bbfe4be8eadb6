//! Reading and writing bit ranges of unsigned integers.
//!
//! `0x12u8.bits(4..=7).read()` gives `0x1`; `0u8.bits(4..=7).write(0x1)` gives `0x10`.
//! Every operation returns a new value: none of them changes its input in place.
use vstd::prelude::*;

use core::ops::Bound;

pub mod anonymous;
pub mod field;
pub mod laws;
pub mod register;
pub mod wellknown;
mod index;
mod bits8;
mod bits16;
mod bits32;
mod bits64;
mod bits128;
mod bitsize;

verus! {

/// Where a bit range starts and ends, in the manner of `SliceIndex`.
pub trait BitIndex {
    spec fn spec_low(&self) -> Bound<&u32>;

    spec fn spec_upper(&self) -> Bound<&u32>;

    fn low(&self) -> (r: Bound<&u32>)
        ensures
            r == self.spec_low(),
    ;

    fn upper(&self) -> (r: Bound<&u32>)
        ensures
            r == self.spec_upper(),
    ;
}

/// The first bit that a lower bound selects.
pub open spec fn low_of(b: Bound<&u32>) -> int {
    match b {
        Bound::Unbounded => 0,
        Bound::Included(v) => *v as int,
        Bound::Excluded(v) => *v as int,
    }
}

/// The last bit that an upper bound selects, in a type of `width` bits.
pub open spec fn upper_of(b: Bound<&u32>, width: u32) -> int {
    match b {
        Bound::Unbounded => width - 1,
        Bound::Included(v) => *v as int,
        Bound::Excluded(v) => *v - 1,
    }
}

/// A range `[low, upper]` that is not empty and lies inside a type of `width` bits.
pub open spec fn valid_range(low: int, upper: int, width: u32) -> bool {
    0 <= low <= upper < width
}

/// Whether bit `i` lies in `[low, upper]`.
pub open spec fn in_range(low: u32, upper: u32, i: u32) -> bool {
    low <= i && i <= upper
}

/// The number of one bits of `v` among the bits `[p, q)`.
pub open spec fn ones_in<V: Width>(v: V, p: int, q: int) -> nat
    decreases q - p,
{
    if q <= p {
        0
    } else {
        ones_in(v, p, q - 1) + if v.spec_bit((q - 1) as u32) {
            1nat
        } else {
            0nat
        }
    }
}

/// Counting the bits `[p, r)` is counting `[p, q)` and then `[q, r)`.
pub proof fn lemma_ones_in_split<V: Width>(v: V, p: int, q: int, r: int)
    requires
        p <= q <= r,
    ensures
        ones_in(v, p, r) == ones_in(v, p, q) + ones_in(v, q, r),
    decreases r - q,
{
    if q < r {
        lemma_ones_in_split(v, p, q, r - 1);
    }
}

/// At most `q - p` bits of `[p, q)` are one.
pub proof fn lemma_ones_in_bound<V: Width>(v: V, p: int, q: int)
    ensures
        ones_in(v, p, q) <= if q <= p {
            0
        } else {
            q - p
        },
    decreases q - p,
{
    if p < q {
        lemma_ones_in_bound(v, p, q - 1);
    }
}

/// Two ranges of bits that agree bit for bit hold as many ones.
pub proof fn lemma_ones_in_same<A: Width, B: Width>(a: A, p: int, b: B, q: int, n: int)
    requires
        0 <= n,
        forall|i: int|
            0 <= i < n ==> #[trigger] a.spec_bit((p + i) as u32) == b.spec_bit((q + i) as u32),
    ensures
        ones_in(a, p, p + n) == ones_in(b, q, q + n),
    decreases n,
{
    if n > 0 {
        lemma_ones_in_same(a, p, b, q, n - 1);
        assert(a.spec_bit((p + (n - 1)) as u32) == b.spec_bit((q + (n - 1)) as u32));
    }
}

/// A range of bits none of which is one counts no ones.
pub proof fn lemma_ones_in_none<V: Width>(v: V, p: int, q: int)
    requires
        forall|i: int| p <= i < q ==> !#[trigger] v.spec_bit(i as u32),
    ensures
        ones_in(v, p, q) == 0,
    decreases q - p,
{
    if p < q {
        lemma_ones_in_none(v, p, q - 1);
    }
}

/// The ones of what `read` returns are those of the range it was read from.
pub proof fn lemma_ones_in_read<V: Width>(v: V, lo: u32, hi: u32)
    requires
        lo <= hi < V::spec_width(),
    ensures
        ones_in(v.spec_read(lo, hi), 0, V::spec_width() as int) == ones_in(v, lo as int, hi + 1),
{
    let r = v.spec_read(lo, hi);
    let n = hi - lo + 1;
    assert forall|i: int| 0 <= i < n implies #[trigger] r.spec_bit((0 + i) as u32) == v.spec_bit(
        (lo + i) as u32,
    ) by {
        V::lemma_bit_ops(v, v, lo, hi, i as u32);
    }
    lemma_ones_in_same(r, 0, v, lo as int, n);
    assert forall|i: int| n <= i < V::spec_width() implies !#[trigger] r.spec_bit(i as u32) by {
        V::lemma_bit_ops(v, v, lo, hi, i as u32);
    }
    lemma_ones_in_none(r, n, V::spec_width() as int);
    lemma_ones_in_split(r, 0, n, V::spec_width() as int);
}

/// An unsigned fixed-width integer type, as the bit range operations see it.
///
/// The spec functions give the meaning of each operation on a value `v` and a range
/// `[lo, hi]`, with `mask` the value whose ones are exactly the bits of the range:
/// `set` is `v | mask`, `clr` is `v & !mask`, `revert` is `v ^ mask`,
/// `write(x)` is `(v & !mask) | ((x << lo) & mask)` and `read` is `(v & mask) >> lo`.
pub trait Width: Sized + Copy {
    /// The number of bits of the type.
    spec fn spec_width() -> u32;

    /// Whether bit `i` of `self` is one.
    spec fn spec_bit(self, i: u32) -> bool;

    /// The value whose ones are exactly the bits `[lo, hi]`.
    spec fn spec_mask(lo: u32, hi: u32) -> Self;

    spec fn spec_set(self, lo: u32, hi: u32) -> Self;

    spec fn spec_clr(self, lo: u32, hi: u32) -> Self;

    spec fn spec_revert(self, lo: u32, hi: u32) -> Self;

    spec fn spec_write(self, lo: u32, hi: u32, x: Self) -> Self;

    spec fn spec_read(self, lo: u32, hi: u32) -> Self;

    /// All bits of the range are one.
    spec fn spec_is_set(self, lo: u32, hi: u32) -> bool;

    /// All bits of the range are zero.
    spec fn spec_is_clr(self, lo: u32, hi: u32) -> bool;

    proof fn lemma_width()
        ensures
            1 <= Self::spec_width() <= 128,
    ;

    /// What each operation does to one bit `i` of the type.
    proof fn lemma_bit_ops(v: Self, x: Self, lo: u32, hi: u32, i: u32)
        requires
            lo <= hi < Self::spec_width(),
            i < Self::spec_width(),
        ensures
            Self::spec_mask(lo, hi).spec_bit(i) == in_range(lo, hi, i),
            v.spec_set(lo, hi).spec_bit(i) == (in_range(lo, hi, i) || v.spec_bit(i)),
            v.spec_clr(lo, hi).spec_bit(i) == (!in_range(lo, hi, i) && v.spec_bit(i)),
            v.spec_revert(lo, hi).spec_bit(i) == (in_range(lo, hi, i) != v.spec_bit(i)),
            v.spec_write(lo, hi, x).spec_bit(i) == if in_range(lo, hi, i) {
                x.spec_bit((i - lo) as u32)
            } else {
                v.spec_bit(i)
            },
            v.spec_read(lo, hi).spec_bit(i) == (i + lo <= hi && v.spec_bit((i + lo) as u32)),
    ;

    /// Equalities between the operations on one range.
    proof fn lemma_identities(v: Self, x: Self, lo: u32, hi: u32)
        requires
            lo <= hi < Self::spec_width(),
        ensures
            v.spec_write(lo, hi, x).spec_read(lo, hi) == x.spec_read(0, (hi - lo) as u32),
            v.spec_revert(lo, hi).spec_revert(lo, hi) == v,
            v.spec_set(lo, hi).spec_set(lo, hi) == v.spec_set(lo, hi),
            v.spec_clr(lo, hi).spec_clr(lo, hi) == v.spec_clr(lo, hi),
            v.spec_set(lo, hi).spec_clr(lo, hi) == v.spec_clr(lo, hi),
            v.spec_clr(lo, hi).spec_set(lo, hi) == v.spec_set(lo, hi),
            v.spec_set(lo, hi).spec_is_set(lo, hi),
            v.spec_clr(lo, hi).spec_is_clr(lo, hi),
            v.spec_is_set(lo, lo) == v.spec_bit(lo),
            v.spec_is_clr(lo, lo) == !v.spec_bit(lo),
    ;
}

/// An unsigned integer type whose bit ranges can be addressed; the operations on a range
/// are those of `BitsOps`.
pub trait IntoBits: Width {
    type Output: BitsOps<Self>;

    /// Views `self` through the bit range `range`.
    ///
    /// The range must not be empty and must lie inside the type: `0u8.bits(0..=8)` and
    /// `0u8.bits(2..=1)` are refused.
    fn bits<T: BitIndex>(self, range: T) -> (r: Self::Output)
        requires
            valid_range(
                low_of(range.spec_low()),
                upper_of(range.spec_upper(), Self::spec_width()),
                Self::spec_width(),
            ),
        ensures
            r.spec_value() == self,
            r.spec_low() == low_of(range.spec_low()),
            r.spec_upper() == upper_of(range.spec_upper(), Self::spec_width()),
    ;
}

/// The operations on a value seen through a bit range.
///
/// None of them changes the value in place: each returns the new value, which the caller
/// assigns explicitly.
pub trait BitsOps<T: Width> {
    spec fn spec_value(&self) -> T;

    spec fn spec_low(&self) -> u32;

    spec fn spec_upper(&self) -> u32;

    /// Sets every bit of the range.
    fn set(&self) -> (r: T)
        ensures
            r == self.spec_value().spec_set(self.spec_low(), self.spec_upper()),
    ;

    /// Clears every bit of the range.
    fn clr(&self) -> (r: T)
        ensures
            r == self.spec_value().spec_clr(self.spec_low(), self.spec_upper()),
    ;

    /// Flips every bit of the range.
    fn revert(&self) -> (r: T)
        ensures
            r == self.spec_value().spec_revert(self.spec_low(), self.spec_upper()),
    ;

    /// Puts the low bits of `value` into the range; the bits outside it are kept.
    fn write(&self, value: T) -> (r: T)
        ensures
            r == self.spec_value().spec_write(self.spec_low(), self.spec_upper(), value),
    ;

    /// The bits of the range, moved down to bit 0.
    fn read(&self) -> (r: T)
        ensures
            r == self.spec_value().spec_read(self.spec_low(), self.spec_upper()),
    ;

    /// Whether every bit of the range is zero.
    fn is_clr(&self) -> (r: bool)
        ensures
            r == self.spec_value().spec_is_clr(self.spec_low(), self.spec_upper()),
    ;

    /// Whether every bit of the range is one.
    fn is_set(&self) -> (r: bool)
        ensures
            r == self.spec_value().spec_is_set(self.spec_low(), self.spec_upper()),
    ;

    /// The number of one bits in the range: the population count of what `read` returns.
    fn count_ones(&self) -> (r: u32)
        ensures
            r == ones_in(
                self.spec_value().spec_read(self.spec_low(), self.spec_upper()),
                0,
                T::spec_width() as int,
            ),
            r == ones_in(self.spec_value(), self.spec_low() as int, self.spec_upper() + 1),
    ;
}

/// A value seen through the bit range `[low, upper]`, built by `IntoBits::bits`.
///
/// Keeping the range apart from the value that is written avoids mixing up the two
/// arguments, which may well have the same type.
pub struct Bits<V: Width> {
    low: u32,
    upper: u32,
    value: V,
}

impl<V: Width> Bits<V> {
    #[verifier::type_invariant]
    spec fn inv(&self) -> bool {
        self.low <= self.upper < V::spec_width()
    }
}

impl<V: Width> View for Bits<V> {
    /// The value, the first bit and the last bit of the range.
    type V = (V, u32, u32);

    closed spec fn view(&self) -> (V, u32, u32) {
        (self.value, self.low, self.upper)
    }
}

/// Counts the one bits of a byte in parallel: first in pairs of bits, then in groups of
/// four, then in the whole byte.
pub fn __count_ones_u8(data: u8) -> (r: u32)
    ensures
        r == ones_in(data, 0, 8),
{
    proof {
        bits8::lemma_swar8(data);
    }
    let x1 = data & 0b0101_0101;
    let x2 = (data & 0b1010_1010) >> 1u32;

    let y = x1 + x2;
    let y1 = (y & 0b1100_1100) >> 2u32;
    let y2 = y & 0b0011_0011;

    let z = y1 + y2;
    let z1 = z & 0b0000_1111;
    let z2 = (z & 0b1111_0000) >> 4u32;

    (z2 + z1) as u32
}

/// Counts the one bits of a `u16` as the sum of the counts of its two bytes.
pub fn __count_ones_u16(data: u16) -> (r: u32)
    ensures
        r == ones_in(data, 0, 16),
{
    let high = (data >> 8u32) as u8;
    let low = data as u8;
    proof {
        assert forall|i: int| 0 <= i < 8 implies #[trigger] high.spec_bit((0 + i) as u32)
            == data.spec_bit((8 + i) as u32) by {
            lemma_bytes_of_u16(data, i as u32);
        }
        assert forall|i: int| 0 <= i < 8 implies #[trigger] low.spec_bit((0 + i) as u32)
            == data.spec_bit((0 + i) as u32) by {
            lemma_bytes_of_u16(data, i as u32);
        }
        lemma_ones_in_same(high, 0, data, 8, 8);
        lemma_ones_in_same(low, 0, data, 0, 8);
        lemma_ones_in_split(data, 0, 8, 16);
        lemma_ones_in_bound(data, 0, 16);
    }
    let x1 = __count_ones_u8(high);
    let x2 = __count_ones_u8(low);
    x1 + x2
}

proof fn lemma_bytes_of_u16(v: u16, i: u32)
    by (bit_vector)
    requires
        i < 8,
    ensures
        ((((v >> 8u32) as u8) >> i) & 1 == 1) == ((v >> (i + 8)) & 1 == 1),
        (((v as u8) >> i) & 1 == 1) == ((v >> i) & 1 == 1),
{
}

impl<V: IntoBits> Bits<V> {
    /// The bits of the range one by one, from the lowest to the highest.
    pub fn into_iter(self) -> (r: BitsIter<V>)
        ensures
            r@ == Seq::new(
                (self@.2 - self@.1 + 1) as nat,
                |k: int| self@.0.spec_bit((self@.1 + k) as u32),
            ),
    {
        proof {
            use_type_invariant(&self);
        }
        let r = BitsIter { value: self.value, low: self.low, upper: self.upper };
        assert(r@ =~= Seq::new(
            (self@.2 - self@.1 + 1) as nat,
            |k: int| self@.0.spec_bit((self@.1 + k) as u32),
        ));
        r
    }
}

/// One bit of a value, handed out by `BitsIter`.
pub struct Bit<V: IntoBits> {
    value: V,
}

impl<V: IntoBits> View for Bit<V> {
    /// Whether the bit is one.
    type V = bool;

    closed spec fn view(&self) -> bool {
        self.value.spec_bit(0)
    }
}

impl<V: IntoBits> Bit<V> {
    pub fn is_set(&self) -> (r: bool)
        ensures
            r == self@,
    {
        proof {
            V::lemma_width();
            V::lemma_identities(self.value, self.value, 0, 0);
        }
        self.value.bits(0).is_set()
    }

    pub fn is_clr(&self) -> (r: bool)
        ensures
            r == !self@,
    {
        !self.is_set()
    }
}

/// Walks the bits of a range from the lowest to the highest; once it has run out it cannot
/// be started again.
pub struct BitsIter<V: IntoBits> {
    value: V,
    low: u32,
    upper: u32,
}

impl<V: IntoBits> BitsIter<V> {
    #[verifier::type_invariant]
    spec fn inv(&self) -> bool {
        self.low <= self.upper + 1 && self.upper < V::spec_width()
    }
}

impl<V: IntoBits> View for BitsIter<V> {
    /// The bits still to come, lowest first.
    type V = Seq<bool>;

    closed spec fn view(&self) -> Seq<bool> {
        Seq::new(
            (self.upper + 1 - self.low) as nat,
            |k: int| self.value.spec_bit((self.low + k) as u32),
        )
    }
}

impl<V: IntoBits> BitsIter<V> {
    /// The next bit of the range, or `None` once every bit has been handed out.
    pub fn next(&mut self) -> (r: Option<Bit<V>>)
        ensures
            old(self)@.len() == 0 ==> r is None && final(self)@ == old(self)@,
            old(self)@.len() > 0 ==> r is Some && r->0@ == old(self)@[0] && final(self)@ == old(
                self,
            )@.drop_first(),
    {
        proof {
            use_type_invariant(&*self);
        }
        if self.low <= self.upper {
            proof {
                V::lemma_bit_ops(self.value, self.value, self.low, self.low, 0);
            }
            let bit = Bit { value: self.value.bits(self.low).read() };
            let ghost before = self@;
            self.low = self.low + 1;
            assert(self@ =~= before.drop_first());
            Some(bit)
        } else {
            None
        }
    }
}

} // verus!
