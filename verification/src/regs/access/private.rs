//! The seal that keeps the set of access kinds closed.
use vstd::prelude::*;

verus! {

/// Implemented by the access kinds of this crate only.
pub trait Sealed {

}

} // verus!
