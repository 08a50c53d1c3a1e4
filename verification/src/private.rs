//! What only this library can name.

use vstd::prelude::*;

verus! {

/// Marks the handles of this library. The module is private, so
/// nothing outside the library can implement the trait, nor any trait
/// that demands it.
pub trait Sealed {

}

} // verus!
