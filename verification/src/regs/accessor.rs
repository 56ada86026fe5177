//! Accessors: values through which a register is read and written.
//!
//! A register is read through [`Read`] (or [`UnsafeRead`], whose reads have conditions
//! the caller must meet) and written through [`Write`] (or [`UnsafeWrite`]). Which of
//! them an accessor has follows from the access kinds in its type, so that a register
//! without read access has no read at all.
//!
//! [`DynamicReg`] and [`StaticReg`] name a memory-mapped register by its address (held
//! at run time, or fixed in the type); the volatile loads and stores that reach the
//! hardware are made by the platform code that owns the address space.
use vstd::prelude::*;
use core::marker::PhantomData;
use crate::regs::Register;
use crate::regs::access::Access;

verus! {

/// A way to reach one register.
pub trait Accessor {
    /// The register reached.
    type Register: Register;

    /// Where the register is reached: the address of a memory-mapped register, or
    /// the byte offset that is handed to a delegate.
    spec fn location(&self) -> int;
}

/// An accessor through which the register can be read safely.
pub trait Read: Accessor {
    /// Whether `v` is a value that a read through this accessor may give: whatever
    /// the hardware (or the delegate) may answer.
    spec fn can_read(&self, v: <Self::Register as Register>::Repr) -> bool;

    /// Reads the register.
    fn read(&self) -> (v: <Self::Register as Register>::Repr)
        ensures
            self.can_read(v),
    ;
}

/// An accessor through which the register can be written safely.
pub trait Write: Accessor {
    /// What is known once `value` has been written through this accessor: for a
    /// register reached through a delegate, what the delegate guarantees of a write
    /// of exactly `value` at the register's offset.
    spec fn write_effect(&self, value: <Self::Register as Register>::Repr) -> bool;

    /// Writes `value` to the register.
    fn write(&self, value: <Self::Register as Register>::Repr)
        ensures
            self.write_effect(value),
    ;
}

/// An accessor through which the register can be read only under conditions of the
/// hardware.
pub trait UnsafeRead: Accessor {
    /// The hardware's conditions for a read of this register.
    spec fn read_allowed(&self) -> bool;

    /// Reads the register; the caller must meet the hardware's conditions.
    fn read(&self) -> <Self::Register as Register>::Repr
        requires
            self.read_allowed(),
    ;
}

/// An accessor through which the register can be written only under conditions of
/// the hardware.
pub trait UnsafeWrite: Accessor {
    /// The hardware's conditions for writing `value` to this register.
    spec fn write_allowed(&self, value: <Self::Register as Register>::Repr) -> bool;

    /// Writes `value` to the register; the caller must meet the hardware's conditions.
    fn write(&self, value: <Self::Register as Register>::Repr)
        requires
            self.write_allowed(value),
    ;
}

/// An accessor that can both read and write its register, so that a value can be
/// read, changed and written back.
pub trait Modify: Accessor + Read + Write {

}

/// A memory-mapped register whose address is known at run time.
pub struct DynamicReg<Reg: Register, ReadAccess: Access, WriteAccess: Access>(
    usize,
    PhantomData<(Reg, ReadAccess, WriteAccess)>,
);

impl<Reg: Register, R: Access, W: Access> DynamicReg<Reg, R, W> {
    /// Names the register at address `addr`.
    ///
    /// `addr` must be the address of a memory-mapped instance of this register, and
    /// handles to one register must only be made with due regard to the hardware's
    /// rules on concurrent use.
    pub fn summon_from_ptr(addr: usize) -> (r: Self)
        ensures
            r.location() == addr,
    {
        DynamicReg(addr, PhantomData)
    }

    /// The address of the register.
    pub fn address(&self) -> (addr: usize)
        ensures
            addr == self.location(),
    {
        self.0
    }
}

impl<Reg: Register, R: Access, W: Access> Accessor for DynamicReg<Reg, R, W> {
    type Register = Reg;

    closed spec fn location(&self) -> int {
        self.0 as int
    }
}

/// A memory-mapped register whose address, `BASE + OFFSET`, is part of its type.
pub struct StaticReg<Reg: Register, RA: Access, WA: Access, const BASE: usize, const OFFSET: usize>(
    PhantomData<(Reg, RA, WA)>,
);

impl<
    Reg: Register,
    R: Access,
    W: Access,
    const BASE: usize,
    const OFFSET: usize,
> StaticReg<Reg, R, W, BASE, OFFSET> {
    /// Names the register at `BASE + OFFSET`.
    ///
    /// `BASE + OFFSET` must be the address of an instance of this register, and
    /// handles to one register must only be made with due regard to the hardware's
    /// rules on concurrent use.
    pub fn summon() -> (r: Self)
        ensures
            r.location() == BASE + OFFSET,
    {
        StaticReg(PhantomData)
    }

    /// The address of the register, `BASE + OFFSET`, which must not overflow.
    pub fn address(&self) -> (addr: usize)
        requires
            BASE + OFFSET <= usize::MAX,
        ensures
            addr == BASE + OFFSET,
            addr == self.location(),
    {
        BASE + OFFSET
    }
}

impl<
    Reg: Register,
    R: Access,
    W: Access,
    const BASE: usize,
    const OFFSET: usize,
> Accessor for StaticReg<Reg, R, W, BASE, OFFSET> {
    type Register = Reg;

    open spec fn location(&self) -> int {
        BASE + OFFSET
    }
}

} // verus!
