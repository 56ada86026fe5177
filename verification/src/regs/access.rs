//! Kinds of access to a register, used as type parameters of accessors: a register
//! can be read (or written) freely, only under conditions that the caller must
//! meet, or not at all. The kinds
//! are markers: their field is private, so no value of them is made outside this
//! module.
use vstd::prelude::*;

mod private;

use private::Sealed;

verus! {

/// A kind of access. Only the three kinds of this module exist.
pub trait Access: Sealed {

}

/// The access is allowed and safe.
pub struct Safe(());

impl Access for Safe {

}

impl Sealed for Safe {

}

/// The access is allowed, with hardware-specific safety requirements.
pub struct Unsafe(());

impl Access for Unsafe {

}

impl Sealed for Unsafe {

}

/// The access is not possible.
pub struct NoAccess(());

impl Access for NoAccess {

}

impl Sealed for NoAccess {

}

} // verus!
