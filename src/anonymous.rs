//! A lighter interface: a value is wrapped in `Bits` and its ranges are addressed by
//! a mask and an offset.
//!
//! Unlike `IntoBits`, the masks here cover `[start, end)` for both `start..end` and
//! `start..=end`, and `write` stores its argument as it is, without shifting it into the
//! range.
use vstd::prelude::*;

use core::ops::{Range, RangeInclusive};

use crate::wellknown::Bitalized;

verus! {

/// A value whose bit ranges are read and changed in place.
pub struct Bits<U>(pub U);

impl<U> Bitalized for Bits<U> {
    type BaseType = U;
}

/// A borrowed value whose bit ranges are written in place.
pub struct BitsMut<'a, U>(pub &'a mut U);

/// A bit or a range of bits of the base type of `T`, given by its mask and its offset.
pub trait BitIndex<T> where T: Bitalized {
    /// Whether the range lies inside the base type and does not end before it starts.
    spec fn spec_fits(&self) -> bool;

    spec fn spec_mask(&self) -> T::BaseType;

    spec fn spec_offset(&self) -> T::BaseType;

    /// The value whose ones are the bits of the range.
    fn mask(&self) -> (r: T::BaseType)
        requires
            self.spec_fits(),
        ensures
            r == self.spec_mask(),
    ;

    /// The first bit of the range.
    fn offset(&self) -> (r: T::BaseType)
        requires
            self.spec_fits(),
        ensures
            r == self.spec_offset(),
    ;
}

proof fn lemma_shifts8(s: u32, e: u32)
    by (bit_vector)
    requires
        s <= e < 8,
    ensures
        (1u8 << s) <= (1u8 << e),
{
}

impl BitIndex<Bits<u8>> for RangeInclusive<u32> {
    open spec fn spec_fits(&self) -> bool {
        self@.start <= self@.end < 8
    }

    open spec fn spec_mask(&self) -> u8 {
        ((1u8 << self@.end) - (1u8 << self@.start)) as u8
    }

    open spec fn spec_offset(&self) -> u8 {
        self@.start as u8
    }

    fn mask(&self) -> (r: u8) {
        proof {
            lemma_shifts8(self@.start, self@.end);
        }
        (1 << *self.end()) - (1 << *self.start())
    }

    fn offset(&self) -> (r: u8) {
        *self.start() as u8
    }
}

impl BitIndex<Bits<u8>> for Range<u32> {
    open spec fn spec_fits(&self) -> bool {
        self.start <= self.end < 8
    }

    open spec fn spec_mask(&self) -> u8 {
        ((1u8 << self.end) - (1u8 << self.start)) as u8
    }

    open spec fn spec_offset(&self) -> u8 {
        self.start as u8
    }

    fn mask(&self) -> (r: u8) {
        proof {
            lemma_shifts8(self.start, self.end);
        }
        (1 << self.end) - (1 << self.start)
    }

    fn offset(&self) -> (r: u8) {
        self.start as u8
    }
}

impl BitIndex<Bits<u8>> for u32 {
    open spec fn spec_fits(&self) -> bool {
        *self < 8
    }

    open spec fn spec_mask(&self) -> u8 {
        1u8 << *self
    }

    open spec fn spec_offset(&self) -> u8 {
        *self as u8
    }

    fn mask(&self) -> (r: u8) {
        1 << *self
    }

    fn offset(&self) -> (r: u8) {
        *self as u8
    }
}

impl Bits<u8> {
    /// The bits of the mask, moved down by the offset.
    pub fn read<P>(&self, range: P) -> (r: u8) where P: BitIndex<Bits<u8>>
        requires
            range.spec_fits(),
            range.spec_offset() < 8,
        ensures
            r == (range.spec_mask() & self.0) >> range.spec_offset(),
    {
        let mask = range.mask();
        (mask & self.0) >> range.offset()
    }

    /// Clears the bits of the mask and then sets those of `v`, which is not shifted.
    pub fn write<P>(&mut self, range: P, v: u8) where P: BitIndex<Bits<u8>>
        requires
            range.spec_fits(),
        ensures
            final(self).0 == ((!range.spec_mask()) & old(self).0) | v,
    {
        let mask = range.mask();
        self.0 = ((!mask) & self.0) | v
    }

    /// Sets the bits of the mask.
    pub fn set<P>(&mut self, range: P) where P: BitIndex<Bits<u8>>
        requires
            range.spec_fits(),
        ensures
            final(self).0 == range.spec_mask() | old(self).0,
    {
        let mask = range.mask();
        self.0 = mask | self.0
    }

    /// Clears the bits of the mask.
    pub fn clear<P>(&mut self, range: P) where P: BitIndex<Bits<u8>>
        requires
            range.spec_fits(),
        ensures
            final(self).0 == (!range.spec_mask()) & old(self).0,
    {
        let mask = range.mask();
        self.0 = (!mask) & self.0
    }

    /// Whether every bit of the mask is one.
    pub fn has_all<P>(&self, range: P) -> (r: bool) where P: BitIndex<Bits<u8>>
        requires
            range.spec_fits(),
        ensures
            r == ((self.0 & range.spec_mask()) == range.spec_mask()),
    {
        let mask = range.mask();
        (self.0 & mask) == mask
    }

    /// Whether no bit of the mask is one: despite its name, true when the range is all
    /// zeros. `has_any_set` answers the question that the name asks.
    pub fn has_any<P>(&self, range: P) -> (r: bool) where P: BitIndex<Bits<u8>>
        requires
            range.spec_fits(),
        ensures
            r == ((self.0 & range.spec_mask()) == 0),
    {
        let mask = range.mask();
        (self.0 & mask) == 0
    }

    /// Whether some bit of the mask is one.
    pub fn has_any_set<P>(&self, range: P) -> (r: bool) where P: BitIndex<Bits<u8>>
        requires
            range.spec_fits(),
        ensures
            r == ((self.0 & range.spec_mask()) != 0),
    {
        let mask = range.mask();
        (self.0 & mask) != 0
    }
}

impl<'a> BitsMut<'a, u8> {
    /// Clears the bits of the mask in the borrowed value and then sets those of `v`, which
    /// must lie inside the mask.
    pub fn write<P>(&mut self, range: P, v: u8) where P: BitIndex<Bits<u8>>
        requires
            range.spec_fits(),
            (!range.spec_mask()) & v == 0,
        ensures
            *final(self).0 == ((!range.spec_mask()) & *old(self).0) | v,
    {
        let mask = range.mask();
        *self.0 = ((!mask) & *self.0) | v
    }
}

proof fn lemma_shifts16(s: u32, e: u32)
    by (bit_vector)
    requires
        s <= e < 16,
    ensures
        (1u16 << s) <= (1u16 << e),
{
}

impl BitIndex<Bits<u16>> for RangeInclusive<u32> {
    open spec fn spec_fits(&self) -> bool {
        self@.start <= self@.end < 16
    }

    open spec fn spec_mask(&self) -> u16 {
        ((1u16 << self@.end) - (1u16 << self@.start)) as u16
    }

    open spec fn spec_offset(&self) -> u16 {
        self@.start as u16
    }

    fn mask(&self) -> (r: u16) {
        proof {
            lemma_shifts16(self@.start, self@.end);
        }
        (1 << *self.end()) - (1 << *self.start())
    }

    fn offset(&self) -> (r: u16) {
        *self.start() as u16
    }
}

impl BitIndex<Bits<u16>> for Range<u32> {
    open spec fn spec_fits(&self) -> bool {
        self.start <= self.end < 16
    }

    open spec fn spec_mask(&self) -> u16 {
        ((1u16 << self.end) - (1u16 << self.start)) as u16
    }

    open spec fn spec_offset(&self) -> u16 {
        self.start as u16
    }

    fn mask(&self) -> (r: u16) {
        proof {
            lemma_shifts16(self.start, self.end);
        }
        (1 << self.end) - (1 << self.start)
    }

    fn offset(&self) -> (r: u16) {
        self.start as u16
    }
}

impl BitIndex<Bits<u16>> for u32 {
    open spec fn spec_fits(&self) -> bool {
        *self < 16
    }

    open spec fn spec_mask(&self) -> u16 {
        1u16 << *self
    }

    open spec fn spec_offset(&self) -> u16 {
        *self as u16
    }

    fn mask(&self) -> (r: u16) {
        1 << *self
    }

    fn offset(&self) -> (r: u16) {
        *self as u16
    }
}

impl Bits<u16> {
    /// The bits of the mask, moved down by the offset.
    pub fn read<P>(&self, range: P) -> (r: u16) where P: BitIndex<Bits<u16>>
        requires
            range.spec_fits(),
            range.spec_offset() < 16,
        ensures
            r == (range.spec_mask() & self.0) >> range.spec_offset(),
    {
        let mask = range.mask();
        (mask & self.0) >> range.offset()
    }

    /// Clears the bits of the mask and then sets those of `v`, which is not shifted.
    pub fn write<P>(&mut self, range: P, v: u16) where P: BitIndex<Bits<u16>>
        requires
            range.spec_fits(),
        ensures
            final(self).0 == ((!range.spec_mask()) & old(self).0) | v,
    {
        let mask = range.mask();
        self.0 = ((!mask) & self.0) | v
    }

    /// Sets the bits of the mask.
    pub fn set<P>(&mut self, range: P) where P: BitIndex<Bits<u16>>
        requires
            range.spec_fits(),
        ensures
            final(self).0 == range.spec_mask() | old(self).0,
    {
        let mask = range.mask();
        self.0 = mask | self.0
    }

    /// Clears the bits of the mask.
    pub fn clear<P>(&mut self, range: P) where P: BitIndex<Bits<u16>>
        requires
            range.spec_fits(),
        ensures
            final(self).0 == (!range.spec_mask()) & old(self).0,
    {
        let mask = range.mask();
        self.0 = (!mask) & self.0
    }

    /// Whether every bit of the mask is one.
    pub fn has_all<P>(&self, range: P) -> (r: bool) where P: BitIndex<Bits<u16>>
        requires
            range.spec_fits(),
        ensures
            r == ((self.0 & range.spec_mask()) == range.spec_mask()),
    {
        let mask = range.mask();
        (self.0 & mask) == mask
    }

    /// Whether no bit of the mask is one: despite its name, true when the range is all
    /// zeros. `has_any_set` answers the question that the name asks.
    pub fn has_any<P>(&self, range: P) -> (r: bool) where P: BitIndex<Bits<u16>>
        requires
            range.spec_fits(),
        ensures
            r == ((self.0 & range.spec_mask()) == 0),
    {
        let mask = range.mask();
        (self.0 & mask) == 0
    }

    /// Whether some bit of the mask is one.
    pub fn has_any_set<P>(&self, range: P) -> (r: bool) where P: BitIndex<Bits<u16>>
        requires
            range.spec_fits(),
        ensures
            r == ((self.0 & range.spec_mask()) != 0),
    {
        let mask = range.mask();
        (self.0 & mask) != 0
    }
}

impl<'a> BitsMut<'a, u16> {
    /// Clears the bits of the mask in the borrowed value and then sets those of `v`, which
    /// must lie inside the mask.
    pub fn write<P>(&mut self, range: P, v: u16) where P: BitIndex<Bits<u16>>
        requires
            range.spec_fits(),
            (!range.spec_mask()) & v == 0,
        ensures
            *final(self).0 == ((!range.spec_mask()) & *old(self).0) | v,
    {
        let mask = range.mask();
        *self.0 = ((!mask) & *self.0) | v
    }
}

proof fn lemma_shifts32(s: u32, e: u32)
    by (bit_vector)
    requires
        s <= e < 32,
    ensures
        (1u32 << s) <= (1u32 << e),
{
}

impl BitIndex<Bits<u32>> for RangeInclusive<u32> {
    open spec fn spec_fits(&self) -> bool {
        self@.start <= self@.end < 32
    }

    open spec fn spec_mask(&self) -> u32 {
        ((1u32 << self@.end) - (1u32 << self@.start)) as u32
    }

    open spec fn spec_offset(&self) -> u32 {
        self@.start as u32
    }

    fn mask(&self) -> (r: u32) {
        proof {
            lemma_shifts32(self@.start, self@.end);
        }
        (1 << *self.end()) - (1 << *self.start())
    }

    fn offset(&self) -> (r: u32) {
        *self.start() as u32
    }
}

impl BitIndex<Bits<u32>> for Range<u32> {
    open spec fn spec_fits(&self) -> bool {
        self.start <= self.end < 32
    }

    open spec fn spec_mask(&self) -> u32 {
        ((1u32 << self.end) - (1u32 << self.start)) as u32
    }

    open spec fn spec_offset(&self) -> u32 {
        self.start as u32
    }

    fn mask(&self) -> (r: u32) {
        proof {
            lemma_shifts32(self.start, self.end);
        }
        (1 << self.end) - (1 << self.start)
    }

    fn offset(&self) -> (r: u32) {
        self.start as u32
    }
}

impl BitIndex<Bits<u32>> for u32 {
    open spec fn spec_fits(&self) -> bool {
        *self < 32
    }

    open spec fn spec_mask(&self) -> u32 {
        1u32 << *self
    }

    open spec fn spec_offset(&self) -> u32 {
        *self as u32
    }

    fn mask(&self) -> (r: u32) {
        1 << *self
    }

    fn offset(&self) -> (r: u32) {
        *self as u32
    }
}

impl Bits<u32> {
    /// The bits of the mask, moved down by the offset.
    pub fn read<P>(&self, range: P) -> (r: u32) where P: BitIndex<Bits<u32>>
        requires
            range.spec_fits(),
            range.spec_offset() < 32,
        ensures
            r == (range.spec_mask() & self.0) >> range.spec_offset(),
    {
        let mask = range.mask();
        (mask & self.0) >> range.offset()
    }

    /// Clears the bits of the mask and then sets those of `v`, which is not shifted.
    pub fn write<P>(&mut self, range: P, v: u32) where P: BitIndex<Bits<u32>>
        requires
            range.spec_fits(),
        ensures
            final(self).0 == ((!range.spec_mask()) & old(self).0) | v,
    {
        let mask = range.mask();
        self.0 = ((!mask) & self.0) | v
    }

    /// Sets the bits of the mask.
    pub fn set<P>(&mut self, range: P) where P: BitIndex<Bits<u32>>
        requires
            range.spec_fits(),
        ensures
            final(self).0 == range.spec_mask() | old(self).0,
    {
        let mask = range.mask();
        self.0 = mask | self.0
    }

    /// Clears the bits of the mask.
    pub fn clear<P>(&mut self, range: P) where P: BitIndex<Bits<u32>>
        requires
            range.spec_fits(),
        ensures
            final(self).0 == (!range.spec_mask()) & old(self).0,
    {
        let mask = range.mask();
        self.0 = (!mask) & self.0
    }

    /// Whether every bit of the mask is one.
    pub fn has_all<P>(&self, range: P) -> (r: bool) where P: BitIndex<Bits<u32>>
        requires
            range.spec_fits(),
        ensures
            r == ((self.0 & range.spec_mask()) == range.spec_mask()),
    {
        let mask = range.mask();
        (self.0 & mask) == mask
    }

    /// Whether no bit of the mask is one: despite its name, true when the range is all
    /// zeros. `has_any_set` answers the question that the name asks.
    pub fn has_any<P>(&self, range: P) -> (r: bool) where P: BitIndex<Bits<u32>>
        requires
            range.spec_fits(),
        ensures
            r == ((self.0 & range.spec_mask()) == 0),
    {
        let mask = range.mask();
        (self.0 & mask) == 0
    }

    /// Whether some bit of the mask is one.
    pub fn has_any_set<P>(&self, range: P) -> (r: bool) where P: BitIndex<Bits<u32>>
        requires
            range.spec_fits(),
        ensures
            r == ((self.0 & range.spec_mask()) != 0),
    {
        let mask = range.mask();
        (self.0 & mask) != 0
    }
}

impl<'a> BitsMut<'a, u32> {
    /// Clears the bits of the mask in the borrowed value and then sets those of `v`, which
    /// must lie inside the mask.
    pub fn write<P>(&mut self, range: P, v: u32) where P: BitIndex<Bits<u32>>
        requires
            range.spec_fits(),
            (!range.spec_mask()) & v == 0,
        ensures
            *final(self).0 == ((!range.spec_mask()) & *old(self).0) | v,
    {
        let mask = range.mask();
        *self.0 = ((!mask) & *self.0) | v
    }
}

proof fn lemma_shifts64(s: u32, e: u32)
    by (bit_vector)
    requires
        s <= e < 64,
    ensures
        (1u64 << s) <= (1u64 << e),
{
}

impl BitIndex<Bits<u64>> for RangeInclusive<u32> {
    open spec fn spec_fits(&self) -> bool {
        self@.start <= self@.end < 64
    }

    open spec fn spec_mask(&self) -> u64 {
        ((1u64 << self@.end) - (1u64 << self@.start)) as u64
    }

    open spec fn spec_offset(&self) -> u64 {
        self@.start as u64
    }

    fn mask(&self) -> (r: u64) {
        proof {
            lemma_shifts64(self@.start, self@.end);
        }
        (1 << *self.end()) - (1 << *self.start())
    }

    fn offset(&self) -> (r: u64) {
        *self.start() as u64
    }
}

impl BitIndex<Bits<u64>> for Range<u32> {
    open spec fn spec_fits(&self) -> bool {
        self.start <= self.end < 64
    }

    open spec fn spec_mask(&self) -> u64 {
        ((1u64 << self.end) - (1u64 << self.start)) as u64
    }

    open spec fn spec_offset(&self) -> u64 {
        self.start as u64
    }

    fn mask(&self) -> (r: u64) {
        proof {
            lemma_shifts64(self.start, self.end);
        }
        (1 << self.end) - (1 << self.start)
    }

    fn offset(&self) -> (r: u64) {
        self.start as u64
    }
}

impl BitIndex<Bits<u64>> for u32 {
    open spec fn spec_fits(&self) -> bool {
        *self < 64
    }

    open spec fn spec_mask(&self) -> u64 {
        1u64 << *self
    }

    open spec fn spec_offset(&self) -> u64 {
        *self as u64
    }

    fn mask(&self) -> (r: u64) {
        1 << *self
    }

    fn offset(&self) -> (r: u64) {
        *self as u64
    }
}

impl Bits<u64> {
    /// The bits of the mask, moved down by the offset.
    pub fn read<P>(&self, range: P) -> (r: u64) where P: BitIndex<Bits<u64>>
        requires
            range.spec_fits(),
            range.spec_offset() < 64,
        ensures
            r == (range.spec_mask() & self.0) >> range.spec_offset(),
    {
        let mask = range.mask();
        (mask & self.0) >> range.offset()
    }

    /// Clears the bits of the mask and then sets those of `v`, which is not shifted.
    pub fn write<P>(&mut self, range: P, v: u64) where P: BitIndex<Bits<u64>>
        requires
            range.spec_fits(),
        ensures
            final(self).0 == ((!range.spec_mask()) & old(self).0) | v,
    {
        let mask = range.mask();
        self.0 = ((!mask) & self.0) | v
    }

    /// Sets the bits of the mask.
    pub fn set<P>(&mut self, range: P) where P: BitIndex<Bits<u64>>
        requires
            range.spec_fits(),
        ensures
            final(self).0 == range.spec_mask() | old(self).0,
    {
        let mask = range.mask();
        self.0 = mask | self.0
    }

    /// Clears the bits of the mask.
    pub fn clear<P>(&mut self, range: P) where P: BitIndex<Bits<u64>>
        requires
            range.spec_fits(),
        ensures
            final(self).0 == (!range.spec_mask()) & old(self).0,
    {
        let mask = range.mask();
        self.0 = (!mask) & self.0
    }

    /// Whether every bit of the mask is one.
    pub fn has_all<P>(&self, range: P) -> (r: bool) where P: BitIndex<Bits<u64>>
        requires
            range.spec_fits(),
        ensures
            r == ((self.0 & range.spec_mask()) == range.spec_mask()),
    {
        let mask = range.mask();
        (self.0 & mask) == mask
    }

    /// Whether no bit of the mask is one: despite its name, true when the range is all
    /// zeros. `has_any_set` answers the question that the name asks.
    pub fn has_any<P>(&self, range: P) -> (r: bool) where P: BitIndex<Bits<u64>>
        requires
            range.spec_fits(),
        ensures
            r == ((self.0 & range.spec_mask()) == 0),
    {
        let mask = range.mask();
        (self.0 & mask) == 0
    }

    /// Whether some bit of the mask is one.
    pub fn has_any_set<P>(&self, range: P) -> (r: bool) where P: BitIndex<Bits<u64>>
        requires
            range.spec_fits(),
        ensures
            r == ((self.0 & range.spec_mask()) != 0),
    {
        let mask = range.mask();
        (self.0 & mask) != 0
    }
}

impl<'a> BitsMut<'a, u64> {
    /// Clears the bits of the mask in the borrowed value and then sets those of `v`, which
    /// must lie inside the mask.
    pub fn write<P>(&mut self, range: P, v: u64) where P: BitIndex<Bits<u64>>
        requires
            range.spec_fits(),
            (!range.spec_mask()) & v == 0,
        ensures
            *final(self).0 == ((!range.spec_mask()) & *old(self).0) | v,
    {
        let mask = range.mask();
        *self.0 = ((!mask) & *self.0) | v
    }
}

proof fn lemma_shifts128(s: u32, e: u32)
    by (bit_vector)
    requires
        s <= e < 128,
    ensures
        (1u128 << s) <= (1u128 << e),
{
}

impl BitIndex<Bits<u128>> for RangeInclusive<u32> {
    open spec fn spec_fits(&self) -> bool {
        self@.start <= self@.end < 128
    }

    open spec fn spec_mask(&self) -> u128 {
        ((1u128 << self@.end) - (1u128 << self@.start)) as u128
    }

    open spec fn spec_offset(&self) -> u128 {
        self@.start as u128
    }

    fn mask(&self) -> (r: u128) {
        proof {
            lemma_shifts128(self@.start, self@.end);
        }
        (1 << *self.end()) - (1 << *self.start())
    }

    fn offset(&self) -> (r: u128) {
        *self.start() as u128
    }
}

impl BitIndex<Bits<u128>> for Range<u32> {
    open spec fn spec_fits(&self) -> bool {
        self.start <= self.end < 128
    }

    open spec fn spec_mask(&self) -> u128 {
        ((1u128 << self.end) - (1u128 << self.start)) as u128
    }

    open spec fn spec_offset(&self) -> u128 {
        self.start as u128
    }

    fn mask(&self) -> (r: u128) {
        proof {
            lemma_shifts128(self.start, self.end);
        }
        (1 << self.end) - (1 << self.start)
    }

    fn offset(&self) -> (r: u128) {
        self.start as u128
    }
}

impl BitIndex<Bits<u128>> for u32 {
    open spec fn spec_fits(&self) -> bool {
        *self < 128
    }

    open spec fn spec_mask(&self) -> u128 {
        1u128 << *self
    }

    open spec fn spec_offset(&self) -> u128 {
        *self as u128
    }

    fn mask(&self) -> (r: u128) {
        1 << *self
    }

    fn offset(&self) -> (r: u128) {
        *self as u128
    }
}

impl Bits<u128> {
    /// The bits of the mask, moved down by the offset.
    pub fn read<P>(&self, range: P) -> (r: u128) where P: BitIndex<Bits<u128>>
        requires
            range.spec_fits(),
            range.spec_offset() < 128,
        ensures
            r == (range.spec_mask() & self.0) >> range.spec_offset(),
    {
        let mask = range.mask();
        (mask & self.0) >> range.offset()
    }

    /// Clears the bits of the mask and then sets those of `v`, which is not shifted.
    pub fn write<P>(&mut self, range: P, v: u128) where P: BitIndex<Bits<u128>>
        requires
            range.spec_fits(),
        ensures
            final(self).0 == ((!range.spec_mask()) & old(self).0) | v,
    {
        let mask = range.mask();
        self.0 = ((!mask) & self.0) | v
    }

    /// Sets the bits of the mask.
    pub fn set<P>(&mut self, range: P) where P: BitIndex<Bits<u128>>
        requires
            range.spec_fits(),
        ensures
            final(self).0 == range.spec_mask() | old(self).0,
    {
        let mask = range.mask();
        self.0 = mask | self.0
    }

    /// Clears the bits of the mask.
    pub fn clear<P>(&mut self, range: P) where P: BitIndex<Bits<u128>>
        requires
            range.spec_fits(),
        ensures
            final(self).0 == (!range.spec_mask()) & old(self).0,
    {
        let mask = range.mask();
        self.0 = (!mask) & self.0
    }

    /// Whether every bit of the mask is one.
    pub fn has_all<P>(&self, range: P) -> (r: bool) where P: BitIndex<Bits<u128>>
        requires
            range.spec_fits(),
        ensures
            r == ((self.0 & range.spec_mask()) == range.spec_mask()),
    {
        let mask = range.mask();
        (self.0 & mask) == mask
    }

    /// Whether no bit of the mask is one: despite its name, true when the range is all
    /// zeros. `has_any_set` answers the question that the name asks.
    pub fn has_any<P>(&self, range: P) -> (r: bool) where P: BitIndex<Bits<u128>>
        requires
            range.spec_fits(),
        ensures
            r == ((self.0 & range.spec_mask()) == 0),
    {
        let mask = range.mask();
        (self.0 & mask) == 0
    }

    /// Whether some bit of the mask is one.
    pub fn has_any_set<P>(&self, range: P) -> (r: bool) where P: BitIndex<Bits<u128>>
        requires
            range.spec_fits(),
        ensures
            r == ((self.0 & range.spec_mask()) != 0),
    {
        let mask = range.mask();
        (self.0 & mask) != 0
    }
}

impl<'a> BitsMut<'a, u128> {
    /// Clears the bits of the mask in the borrowed value and then sets those of `v`, which
    /// must lie inside the mask.
    pub fn write<P>(&mut self, range: P, v: u128) where P: BitIndex<Bits<u128>>
        requires
            range.spec_fits(),
            (!range.spec_mask()) & v == 0,
        ensures
            *final(self).0 == ((!range.spec_mask()) & *old(self).0) | v,
    {
        let mask = range.mask();
        *self.0 = ((!mask) & *self.0) | v
    }
}

} // verus!
