//! Named bit fields of a buffer type.
//!
//! A buffer is a struct holding one or more unsigned integers; a field is a type that names
//! a bit range of one of them. A field implements `Field` for the buffer type, with the type
//! of its value, and `FieldReader`, and also `FieldWriter` when it may be written: a field
//! that may only be read has no `FieldWriter`, so writing it does not compile. Several
//! fields may share an integer; that their ranges do not overlap is up to whoever declares
//! them.
//!
//! A field's reader is `read_raw` on its integer and range followed by a conversion into the
//! value type, and its writer a conversion back followed by `write_raw`.
use vstd::prelude::*;

use crate::{low_of, upper_of, valid_range, BitIndex, BitsOps, IntoBits, Width};

verus! {

/// Writes the fields of a buffer.
///
/// Think of the buffer as a cache of a register: several fields can be written in a row
/// before the whole buffer goes to the device.
pub trait BufferWriter: Sized {
    /// Writes `value` into the field `T`, and hands the buffer back for the next write.
    fn write<T>(&mut self, value: T::ValueType) -> (r: &mut Self) where
        T: Field<Self> + FieldWriter<Self>,
        ensures
            *r == T::spec_write(*old(self), value),
            *final(self) == *final(r),
    {
        T::write(self, value);
        self
    }
}

/// Reads the fields of a buffer.
pub trait BufferReader: Sized {
    /// The value of the field `T`.
    fn read<T: Field<Self> + FieldReader<Self>>(&self) -> (r: T::ValueType)
        ensures
            r == T::spec_read(*self),
    {
        T::read(self)
    }

    /// Stores the value of the field `T` into `out`, and hands the buffer back.
    fn output<T: Field<Self> + FieldReader<Self>>(&self, out: &mut T::ValueType) -> (r: &Self)
        ensures
            *final(out) == T::spec_read(*self),
            r == self,
    {
        *out = T::read(self);
        self
    }
}

/// Names a bit field of `BufferType`.
///
/// `BufferType` is most often the struct that holds the field; another type may name the
/// same field at another place and with another value type.
pub trait Field<BufferType> {
    type ValueType;
}

/// Writes one field of `BufferType`.
pub trait FieldWriter<BufferType>: Field<BufferType> {
    /// The buffer after `value` has been written into the field.
    spec fn spec_write(buffer: BufferType, value: Self::ValueType) -> BufferType;

    fn write(buffer: &mut BufferType, value: Self::ValueType)
        ensures
            *final(buffer) == Self::spec_write(*old(buffer), value),
    ;
}

/// Reads one field of `BufferType`.
pub trait FieldReader<BufferType>: Field<BufferType> {
    /// The value of the field in `buffer`.
    spec fn spec_read(buffer: BufferType) -> Self::ValueType;

    fn read(buffer: &BufferType) -> (r: Self::ValueType)
        ensures
            r == Self::spec_read(*buffer),
    ;
}

/// The raw bits of the field that lies at `range` of the integer `raw`, moved down to bit 0.
pub fn read_raw<V: IntoBits, R: BitIndex>(raw: V, range: R) -> (r: V)
    requires
        valid_range(
            low_of(range.spec_low()),
            upper_of(range.spec_upper(), V::spec_width()),
            V::spec_width(),
        ),
    ensures
        r == raw.spec_read(
            low_of(range.spec_low()) as u32,
            upper_of(range.spec_upper(), V::spec_width()) as u32,
        ),
{
    raw.bits(range).read()
}

/// Puts the low bits of `value` into the field that lies at `range` of the integer `raw`;
/// the other bits of `raw` are kept.
pub fn write_raw<V: IntoBits, R: BitIndex>(raw: &mut V, range: R, value: V)
    requires
        valid_range(
            low_of(range.spec_low()),
            upper_of(range.spec_upper(), V::spec_width()),
            V::spec_width(),
        ),
    ensures
        *final(raw) == old(raw).spec_write(
            low_of(range.spec_low()) as u32,
            upper_of(range.spec_upper(), V::spec_width()) as u32,
            value,
        ),
{
    *raw = raw.bits(range).write(value);
}

/// A field written with a value that fits in it reads back as that value, and the bits of the
/// integer outside the field are kept.
pub proof fn lemma_field_round_trip<V: Width>(raw: V, lo: u32, hi: u32, x: V)
    requires
        lo <= hi < V::spec_width(),
        x.spec_read(0, (hi - lo) as u32) == x,
    ensures
        raw.spec_write(lo, hi, x).spec_read(lo, hi) == x,
        forall|i: u32|
            i < V::spec_width() && !crate::in_range(lo, hi, i) ==> #[trigger] raw.spec_write(
                lo,
                hi,
                x,
            ).spec_bit(i) == raw.spec_bit(i),
{
    crate::laws::lemma_write_read_round_trip(raw, lo, hi, x);
    crate::laws::lemma_write_keeps_outside(raw, lo, hi, x);
}

} // verus!
