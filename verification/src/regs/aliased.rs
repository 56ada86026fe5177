//! A register that is one thing when read and another when written.
use vstd::prelude::*;
use core::marker::PhantomData;
use crate::regs::{Register, UIntLike};

verus! {

/// The register at an address where reads reach `R` and writes reach `W`, two
/// registers of the same representation. It only describes: its fields are private
/// and no value of it is made.
pub struct Aliased<R, W> {
    _none: (),
    _phantom: PhantomData<(R, W)>,
}

impl<Repr: UIntLike, R, W> Register for Aliased<R, W> where
    R: Register<Repr = Repr>,
    W: Register<Repr = Repr>,
 {
    type Repr = Repr;

    type ReadIdentity = R::ReadIdentity;

    type WriteIdentity = W::WriteIdentity;
}

} // verus!
