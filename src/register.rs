//! Registers and the buses that carry them.
use vstd::prelude::*;

use crate::wellknown::Bitalized;

verus! {

/// A device register: its raw bits (`BaseType`) and the checked, decoded value that a cache of
/// it holds (`CacheType`).
pub trait Register: Bitalized + Sized {
    type CacheType;

    /// Whether `raw` is a valid encoding of the register.
    spec fn spec_valid_raw(raw: Self::BaseType) -> bool;

    /// The decoded value of a valid `raw`.
    spec fn spec_from_raw(raw: Self::BaseType) -> Self::CacheType;

    /// The raw bits of the register.
    spec fn spec_to_raw(self) -> Self::BaseType;

    /// Decodes `raw`, which the caller vouches is a valid encoding.
    fn from_raw(raw: Self::BaseType) -> (r: Self::CacheType)
        requires
            Self::spec_valid_raw(raw),
        ensures
            r == Self::spec_from_raw(raw),
    ;

    fn to_raw(self) -> (r: Self::BaseType)
        ensures
            r == self.spec_to_raw(),
    ;
}

/// A memory bus or a peripheral bus that fetches and stores the register `T`.
///
/// Taking the register as the trait's parameter lets each bus fetch and store each register
/// in its own way. How the bytes travel is up to the implementation.
pub trait Bus<T: Register> {
    /// Fetches the register from the device and decodes it.
    fn cache(reg: T) -> T::CacheType;

    /// Encodes `cache` and stores it back to the device.
    fn flush(cache: T::CacheType);
}

} // verus!
