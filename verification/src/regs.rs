//! A typed layer over hardware registers.
//!
//! Three notions are kept apart:
//!  1. how a register is reached (an address, or a delegate that performs the access):
//!     the [`accessor::Accessor`] and the traits that give it reads and writes;
//!  2. what its bit patterns mean when read and when written: its *identity*, a type
//!     that implements [`RegisterIdentity`];
//!  3. the register as a whole, its representation and its two identities: the
//!     [`Register`] trait.
//!
//! Whether a register may be read or written, and whether doing so is safe, is part
//! of the accessor's type (see [`access`]), so that a register without read access
//! has no `read` at all.
use vstd::prelude::*;
use core::fmt::Debug;
use core::ops::{BitAnd, BitOr, BitXor, Not, Shl, Shr};

pub mod access;
pub mod accessor;
pub mod aliased;
pub mod peri;

verus! {

/// A type that stands for the interpretation of the bits of a register.
pub trait RegisterIdentity {

}

/// The identity of a register whose bits mean nothing beyond themselves.
impl RegisterIdentity for () {

}

/// An unsigned integer type that can hold the bit pattern of a register.
pub trait UIntLike: Copy + Eq + BitOr + BitAnd + BitXor + Not + Shr + Shl + Debug {
    /// The integer that the bit pattern `self` stands for.
    spec fn value(self) -> int;

    /// The pattern with every bit clear.
    fn zero() -> (z: Self)
        ensures
            z.value() == 0,
    ;
}

impl UIntLike for u8 {
    open spec fn value(self) -> int {
        self as int
    }

    fn zero() -> (z: Self) {
        0
    }
}

impl UIntLike for u16 {
    open spec fn value(self) -> int {
        self as int
    }

    fn zero() -> (z: Self) {
        0
    }
}

impl UIntLike for u32 {
    open spec fn value(self) -> int {
        self as int
    }

    fn zero() -> (z: Self) {
        0
    }
}

impl UIntLike for u64 {
    open spec fn value(self) -> int {
        self as int
    }

    fn zero() -> (z: Self) {
        0
    }
}

impl UIntLike for u128 {
    open spec fn value(self) -> int {
        self as int
    }

    fn zero() -> (z: Self) {
        0
    }
}

impl UIntLike for usize {
    open spec fn value(self) -> int {
        self as int
    }

    fn zero() -> (z: Self) {
        0
    }
}

/// The description of a register: how its bits are held and what they mean.
pub trait Register {
    /// The integer type that carries the register's bit patterns to and from the
    /// hardware: for a memory-mapped register, the type that a pointer to it points to.
    type Repr: UIntLike;

    /// The interpretation of the bits when the register is read.
    type ReadIdentity: RegisterIdentity;

    /// The interpretation of the bits when the register is written.
    type WriteIdentity: RegisterIdentity;
}

} // verus!
