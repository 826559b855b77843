//! Keeps the set of wirings closed.

use vstd::prelude::*;

verus! {

/// Implemented by the two wirings and, since it cannot be named from outside,
/// by nothing else.
pub trait Sealed {
}

} // verus!
