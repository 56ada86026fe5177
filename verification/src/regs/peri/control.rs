//! The `Control` register of the example peripheral: a control register; its bits mean what the peripheral defines.
use vstd::prelude::*;
use crate::regs::RegisterIdentity;

verus! {

/// The `Control` register: its identity and its description.
pub struct Register;

impl RegisterIdentity for Register {

}

impl crate::regs::Register for Register {
    type Repr = u32;

    type ReadIdentity = Self;

    type WriteIdentity = Self;
}

} // verus!
