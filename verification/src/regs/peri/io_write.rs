//! The `IoWrite` register of the example peripheral: the data register as seen by writes.
use vstd::prelude::*;
use crate::regs::RegisterIdentity;

verus! {

/// The `IoWrite` register: its identity and its description.
pub struct Register(());

impl RegisterIdentity for Register {

}

impl crate::regs::Register for Register {
    type Repr = u32;

    type ReadIdentity = Self;

    type WriteIdentity = Self;
}

} // verus!
