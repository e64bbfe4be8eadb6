//! Traits for values that are made of bits, and for typed fields read from and written to
//! them.
use vstd::prelude::*;

verus! {

/// A type whose contents are the bits of an integer of type `BaseType`.
pub trait Bitalized {
    type BaseType;
}

/// Names a field, and the type that holds its decoded value.
pub trait Field {
    type CacheType;
}

/// Reads the field `F` out of a value made of bits.
pub trait ReadField<F: Field>: Bitalized {
    /// The decoded value of `field` in `self`.
    spec fn spec_read(&self, field: F) -> F::CacheType;

    fn read(&self, field: F) -> (r: F::CacheType)
        ensures
            r == self.spec_read(field),
    ;
}

/// Reads the field `F` where not every bit pattern decodes to a value.
///
/// The decoded type need not implement `TryFrom` for the raw type, which keeps the raw type
/// out of the interface.
pub trait TryReadField<F>: Bitalized where F: Field {
    type Error;

    /// The decoded value of `field` in `self`, or why the bits do not decode.
    spec fn spec_try_read(&self, field: F) -> Result<F::CacheType, Self::Error>;

    fn try_read(&self, field: F) -> (r: Result<F::CacheType, Self::Error>)
        ensures
            r == self.spec_try_read(field),
    ;
}

/// Writes the field `F` of a value made of bits.
pub trait WriteField<F>: Bitalized + Sized where F: Field {
    /// `self` after `v` has been written into `field`.
    spec fn spec_write(&self, field: F, v: F::CacheType) -> Self;

    fn write(&mut self, field: F, v: F::CacheType)
        ensures
            *final(self) == old(self).spec_write(field, v),
    ;
}

} // verus!
