//! Keeps the set of mode types closed.

use vstd::prelude::*;

verus! {

/// Implemented by the five mode types and by nothing else: the trait
/// cannot be named outside this crate.
pub trait Sealed {

}

} // verus!
