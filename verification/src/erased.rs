//! Displays whose seven lines all have one type.

use vstd::prelude::*;

verus! {

/// A `SevenSegment` whose seven lines all have the type `T`.
pub type SevenSegment<T, Common> = crate::display::SevenSegment<T, T, T, T, T, T, T, Common>;

} // verus!
