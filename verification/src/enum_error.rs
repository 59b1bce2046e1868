//! The error of a conversion from a raw protocol value into an enumeration.

use vstd::prelude::*;

verus! {

/// A raw value that names no variant of the enumeration it was converted to.
pub enum EnumError<T> {
    /// The value that was not recognised.
    Unknown(T),
}

} // verus!
