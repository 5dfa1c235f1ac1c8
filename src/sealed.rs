use vstd::prelude::*;

verus! {

/// Closes `SignedUnified` to the signed integer types of this crate's choosing.
pub trait Sealed {}

impl Sealed for i8 {}

impl Sealed for i16 {}

impl Sealed for i32 {}

impl Sealed for i64 {}

impl Sealed for i128 {}

impl Sealed for isize {}

} // verus!
