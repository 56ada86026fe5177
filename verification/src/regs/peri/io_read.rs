//! The `IoRead` register of the example peripheral: the data register as seen by reads.
use vstd::prelude::*;
use crate::regs::RegisterIdentity;

verus! {

/// The `IoRead` register: its identity and its description.
pub struct Register(());

impl RegisterIdentity for Register {

}

impl crate::regs::Register for Register {
    type Repr = u32;

    type ReadIdentity = Self;

    type WriteIdentity = Self;
}

} // verus!
