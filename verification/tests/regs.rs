use std::cell::RefCell;

use lace::regs::accessor::{DynamicReg, Read, StaticReg, Write};
use lace::regs::access::{NoAccess, Safe};
use lace::regs::peri::{
    control, peri_test, Delegate, DynPeri, FakePeri, Peri, StaticPeri, CONTROL_OFFSET, IO_OFFSET,
};
use lace::regs::{Register, UIntLike};

#[derive(Debug, PartialEq)]
enum Op {
    Read(usize),
    /// A write, and whether the value written was all zeros.
    Write(usize, bool),
}

/// A simulated peripheral whose registers read as zero; it logs every access.
struct Sim {
    log: RefCell<Vec<Op>>,
}

impl Sim {
    fn new() -> Sim {
        Sim { log: RefCell::new(Vec::new()) }
    }
}

impl Delegate for Sim {
    fn can_read<Reg: Register>(&self, _offset: usize, v: Reg::Repr) -> bool {
        v == <Reg::Repr as UIntLike>::zero()
    }

    fn read<Reg: Register>(&self, offset: usize) -> Reg::Repr {
        self.log.borrow_mut().push(Op::Read(offset));
        <Reg::Repr as UIntLike>::zero()
    }

    fn write<Reg: Register>(&self, offset: usize, v: Reg::Repr) {
        self.log.borrow_mut().push(Op::Write(offset, v == <Reg::Repr as UIntLike>::zero()));
    }
}

impl Delegate for &Sim {
    fn can_read<Reg: Register>(&self, offset: usize, v: Reg::Repr) -> bool {
        (**self).can_read::<Reg>(offset, v)
    }

    fn read<Reg: Register>(&self, offset: usize) -> Reg::Repr {
        (**self).read::<Reg>(offset)
    }

    fn write<Reg: Register>(&self, offset: usize, v: Reg::Repr) {
        (**self).write::<Reg>(offset, v)
    }
}

#[test]
fn test_peri_test() {
    let sim: &'static Sim = Box::leak(Box::new(Sim::new()));
    let peri = FakePeri::new(sim);
    assert_eq!(peri.io().offset(), IO_OFFSET);
    assert_eq!(peri.control().offset(), CONTROL_OFFSET);
    let r = peri_test(peri);
    assert_eq!(r, 0);
    assert_eq!(*sim.log.borrow(), vec![Op::Read(0), Op::Write(0, true), Op::Read(4)]);
}

#[test]
fn delegate_registers_reach_their_offsets() {
    let sim: &'static Sim = Box::leak(Box::new(Sim::new()));
    let peri = FakePeri::new(sim);
    let c: u32 = peri.control().read();
    peri.io().write(0);
    let i: u32 = peri.io().read();
    assert_eq!((c, i), (0, 0));
    assert_eq!(*sim.log.borrow(), vec![Op::Read(4), Op::Write(0, true), Op::Read(0)]);
}

#[test]
fn dynamic_peripheral_addresses() {
    let p = DynPeri::new(0xdead_beef_0000);
    assert_eq!(p.io().address(), 0xdead_beef_0000);
    assert_eq!(p.control().address(), 0xdead_beef_0004);
}

#[test]
fn static_peripheral_addresses() {
    let p = StaticPeri::<0xdead_beef_1000>::summon();
    assert_eq!(p.io().address(), 0xdead_beef_1000);
    assert_eq!(p.control().address(), 0xdead_beef_1004);
}

#[test]
fn register_handles_keep_their_address() {
    let d: DynamicReg<control::Register, Safe, NoAccess> = DynamicReg::summon_from_ptr(0x40);
    assert_eq!(d.address(), 0x40);
    let s: StaticReg<control::Register, Safe, NoAccess, 0x1000, 0x20> = StaticReg::summon();
    assert_eq!(s.address(), 0x1020);
}

#[test]
fn zero_of_each_integer_width() {
    assert_eq!(<u8 as UIntLike>::zero(), 0);
    assert_eq!(<u16 as UIntLike>::zero(), 0);
    assert_eq!(<u32 as UIntLike>::zero(), 0);
    assert_eq!(<u64 as UIntLike>::zero(), 0);
    assert_eq!(<u128 as UIntLike>::zero(), 0);
    assert_eq!(<usize as UIntLike>::zero(), 0);
}
