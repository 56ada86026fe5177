//! An example peripheral described through the register layer, reached in three
//! ways: at an address known at run time ([`DynPeri`]), at an address fixed in its
//! type ([`StaticPeri`]), and through a [`Delegate`] that performs each access
//! ([`FakePeri`], for instance a simulation of the device).
//!
//! The peripheral has two 32-bit registers: `io` at byte offset 0, which reads as
//! [`io_read::Register`] and writes as [`io_write::Register`], and `control` at byte
//! offset 4, which can only be read.
use vstd::prelude::*;
use core::marker::PhantomData;
use crate::regs::Register;
use crate::regs::access::{Access, NoAccess, Safe};
use crate::regs::accessor::{Accessor, DynamicReg, Read, StaticReg, Write};
use crate::regs::aliased::Aliased;

pub mod control;
pub mod io_read;
pub mod io_write;

verus! {

/// Byte offset of the `io` register in the peripheral's block.
pub const IO_OFFSET: usize = 0;

/// Byte offset of the `control` register in the peripheral's block.
pub const CONTROL_OFFSET: usize = 4;

/// Alignment that the registers' addresses must have (that of `u32`).
pub const REGISTER_ALIGN: usize = 4;

/// The example peripheral, however it is reached.
pub trait Peri {
    /// Where the peripheral's register block starts.
    spec fn base(&self) -> int;

    /// The accessor of the `control` register.
    type control<'s>: Accessor<Register = control::Register> + Read where Self: 's;

    /// Whether `v` is a value that a read of `control` may give.
    spec fn control_can_read(&self, v: u32) -> bool;

    /// The `control` register, at byte offset 4 of the block.
    fn control(&self) -> (c: Self::control<'_>)
        ensures
            c.location() == self.base() + CONTROL_OFFSET,
            forall|v: u32| #[trigger] c.can_read(v) == self.control_can_read(v),
    ;

    /// The accessor of the `io` register.
    type io<'s>: Accessor<Register = Aliased<io_read::Register, io_write::Register>> + Read + Write where Self: 's;

    /// The `io` register, at byte offset 0 of the block.
    fn io(&self) -> (i: Self::io<'_>)
        ensures
            i.location() == self.base() + IO_OFFSET,
    ;
}

/// The peripheral at an address known at run time.
pub struct DynPeri(usize);

impl DynPeri {
    #[verifier::type_invariant]
    spec fn fits(self) -> bool {
        self.0 + CONTROL_OFFSET <= usize::MAX
    }

    /// Where the register block starts.
    pub closed spec fn base(self) -> int {
        self.0 as int
    }

    /// The peripheral whose register block starts at `base`, which must leave room
    /// for the block below the top of the address space.
    pub fn new(base: usize) -> (p: DynPeri)
        requires
            base + CONTROL_OFFSET <= usize::MAX,
        ensures
            p.base() == base,
    {
        DynPeri(base)
    }

    /// The `control` register, at byte offset 4 of the block.
    pub fn control(&self) -> (c: DynamicReg<control::Register, Safe, NoAccess>)
        ensures
            c.location() == self.base() + CONTROL_OFFSET,
    {
        proof {
            use_type_invariant(self);
        }
        DynamicReg::summon_from_ptr(self.0 + CONTROL_OFFSET)
    }

    /// The `io` register, at byte offset 0 of the block.
    pub fn io(&self) -> (i: DynamicReg<Aliased<io_read::Register, io_write::Register>, Safe, Safe>)
        ensures
            i.location() == self.base() + IO_OFFSET,
    {
        DynamicReg::summon_from_ptr(self.0 + IO_OFFSET)
    }
}

/// The peripheral whose register block starts at `ADDR`.
pub struct StaticPeri<const ADDR: usize>(());

/// Whether a register block at `addr` has both registers aligned and within the
/// address space.
pub open spec fn block_fits(addr: usize) -> bool {
    &&& addr % REGISTER_ALIGN == 0
    &&& addr + CONTROL_OFFSET <= usize::MAX
}

impl<const ADDR: usize> StaticPeri<ADDR> {
    #[verifier::type_invariant]
    spec fn fits(self) -> bool {
        block_fits(ADDR)
    }

    /// Where the register block starts.
    pub open spec fn base(self) -> int {
        ADDR as int
    }

    /// Names the peripheral at `ADDR`, which must be the address of an instance of
    /// this peripheral's register block. Both registers must be aligned and within
    /// the address space.
    pub fn summon() -> (p: Self)
        requires
            block_fits(ADDR),
        ensures
            p.base() == ADDR,
    {
        StaticPeri(())
    }

    /// The `control` register, at byte offset 4 of the block.
    pub fn control(&self) -> (c: StaticReg<control::Register, Safe, NoAccess, ADDR, 4>)
        ensures
            c.location() == self.base() + CONTROL_OFFSET,
            c.location() % REGISTER_ALIGN as int == 0,
            c.location() <= usize::MAX,
    {
        proof {
            use_type_invariant(self);
        }
        StaticReg::summon()
    }

    /// The `io` register, at byte offset 0 of the block.
    pub fn io(&self) -> (i: StaticReg<
        Aliased<io_read::Register, io_write::Register>,
        Safe,
        Safe,
        ADDR,
        0,
    >)
        ensures
            i.location() == self.base() + IO_OFFSET,
            i.location() % REGISTER_ALIGN as int == 0,
            i.location() <= usize::MAX,
    {
        proof {
            use_type_invariant(self);
        }
        StaticReg::summon()
    }
}

/// Something that performs register accesses for a peripheral: a simulation of the
/// device, or a bus that forwards them.
pub trait Delegate {
    /// Whether `v` is a value that the delegate may answer to a read of the register
    /// `Reg` at byte offset `offset`.
    spec fn can_read<Reg: Register>(&self, offset: usize, v: Reg::Repr) -> bool;

    /// Reads the register `Reg` at byte offset `offset` of the block.
    fn read<Reg: Register>(&self, offset: usize) -> (v: Reg::Repr)
        ensures
            self.can_read::<Reg>(offset, v),
    ;

    /// What the delegate guarantees once it has carried out a write of `v` to the
    /// register `Reg` at byte offset `offset` (by default, nothing).
    open spec fn write_effect<Reg: Register>(&self, offset: usize, v: Reg::Repr) -> bool {
        true
    }

    /// Writes `v` to the register `Reg` at byte offset `offset` of the block.
    fn write<Reg: Register>(&self, offset: usize, v: Reg::Repr)
        ensures
            self.write_effect::<Reg>(offset, v),
    ;
}

/// A register reached through a delegate, at a byte offset of the block.
pub struct DelegateRegister<'del, Reg: Register, R: Access, W: Access, D: Delegate> {
    delegate: &'del D,
    offset: usize,
    _pd: PhantomData<(Reg, R, W)>,
}

impl<'del, Reg: Register, R: Access, W: Access, D: Delegate> DelegateRegister<'del, Reg, R, W, D> {
    /// The delegate that performs the accesses.
    pub closed spec fn target(self) -> D {
        *self.delegate
    }

    /// The byte offset that accesses hand to the delegate.
    pub closed spec fn byte_offset(self) -> usize {
        self.offset
    }

    /// The byte offset that accesses hand to the delegate.
    pub fn offset(&self) -> (o: usize)
        ensures
            o == self.byte_offset(),
            o == self.location(),
    {
        self.offset
    }
}

impl<'del, Reg: Register, R: Access, W: Access, D: Delegate> Accessor for DelegateRegister<
    'del,
    Reg,
    R,
    W,
    D,
> {
    type Register = Reg;

    closed spec fn location(&self) -> int {
        self.offset as int
    }
}

impl<'del, Reg: Register, W: Access, D: Delegate> Read for DelegateRegister<'del, Reg, Safe, W, D> {
    open spec fn can_read(&self, v: <Self::Register as Register>::Repr) -> bool {
        self.target().can_read::<Reg>(self.byte_offset(), v)
    }

    fn read(&self) -> <Self::Register as Register>::Repr {
        self.delegate.read::<Reg>(self.offset)
    }
}

impl<'del, Reg: Register, R: Access, D: Delegate> Write for DelegateRegister<'del, Reg, R, Safe, D> {
    open spec fn write_effect(&self, v: <Self::Register as Register>::Repr) -> bool {
        self.target().write_effect::<Reg>(self.byte_offset(), v)
    }

    fn write(&self, v: <Self::Register as Register>::Repr) {
        self.delegate.write::<Reg>(self.offset, v)
    }
}

/// A write through a register reached by a delegate hands the delegate exactly the
/// value written and the register's own offset: what is known after the write is what
/// the delegate guarantees of that write, and nothing about any other value.
pub proof fn lemma_delegate_write_forwards_value<'del, Reg: Register, R: Access, D: Delegate>(
    r: DelegateRegister<'del, Reg, R, Safe, D>,
    v: Reg::Repr,
)
    ensures
        r.write_effect(v) == r.target().write_effect::<Reg>(r.byte_offset(), v),
{
}

/// The peripheral reached through a delegate; offsets are relative to the block.
pub struct FakePeri<D: Delegate>(D);

impl<D: Delegate> FakePeri<D> {
    /// The peripheral whose accesses `delegate` performs.
    pub fn new(delegate: D) -> (p: FakePeri<D>)
        ensures
            p.delegate() == delegate,
    {
        FakePeri(delegate)
    }

    /// The delegate that performs the accesses.
    pub closed spec fn delegate(self) -> D {
        self.0
    }
}

impl<D: Delegate + 'static> Peri for FakePeri<D> {
    open spec fn base(&self) -> int {
        0
    }

    open spec fn control_can_read(&self, v: u32) -> bool {
        self.delegate().can_read::<control::Register>(CONTROL_OFFSET, v)
    }

    type control<'s> = DelegateRegister<'s, control::Register, Safe, NoAccess, D>;

    fn control(&self) -> (c: Self::control<'_>)
        ensures
            c.target() == self.delegate(),
            c.byte_offset() == CONTROL_OFFSET,
    {
        DelegateRegister { delegate: &self.0, offset: CONTROL_OFFSET, _pd: PhantomData }
    }

    type io<'s> = DelegateRegister<'s, Aliased<io_read::Register, io_write::Register>, Safe, Safe, D>;

    fn io(&self) -> (i: Self::io<'_>)
        ensures
            i.target() == self.delegate(),
            i.byte_offset() == IO_OFFSET,
    {
        DelegateRegister { delegate: &self.0, offset: IO_OFFSET, _pd: PhantomData }
    }
}

/// Writing `v` to the `io` register of a [`FakePeri`] hands its delegate a write of
/// `v` at byte offset 0.
pub proof fn lemma_fake_peri_io_write<D: Delegate + 'static>(
    p: FakePeri<D>,
    i: DelegateRegister<'_, Aliased<io_read::Register, io_write::Register>, Safe, Safe, D>,
    v: u32,
)
    requires
        i.target() == p.delegate(),
        i.byte_offset() == IO_OFFSET,
    ensures
        i.write_effect(v) == p.delegate().write_effect::<
            Aliased<io_read::Register, io_write::Register>,
        >(0, v),
{
}

/// Reads `io` and writes the value back to it, then returns a read of `control`.
pub fn peri_test<P: Peri>(peri: P) -> (r: u32)
    ensures
        peri.control_can_read(r),
{
    peri.io().write(peri.io().read());
    peri.control().read()
}

} // verus!
