//! GPIO function selection on the BCM2711.
//!
//! Each `GPFSELn` register holds ten 3-bit fields, one per pin; `GPFSEL1` covers
//! pins 10 to 19. The console UART (PL011 UART0) is wired to pins 14 (TXD0) and
//! 15 (RXD0) when both pins are switched to alternate function 0.
use vstd::prelude::*;

verus! {

/// Address of the `GPFSEL1` register (pins 10 to 19).
pub const GPFSEL1_ADDR: usize = 0xfe20_0004;

/// Function-select code of alternate function 0.
pub const FSEL_ALT0: u32 = 0b100;

/// The bits of `GPFSEL1` that select the functions of pins 14 and 15.
pub const UART0_PINS_MASK: u32 = 0o770000;

/// Those bits with both pins set to alternate function 0.
pub const UART0_PINS_ALT0: u32 = 0o440000;

/// The 3-bit function-select field of slot `slot` (pin `10 * n + slot` of `GPFSELn`).
pub open spec fn fsel_field(reg: u32, slot: u32) -> u32 {
    (reg >> (3 * slot) as u32) & 7
}

/// `after` is `before` with pins 14 and 15 on alternate function 0 and every
/// other bit unchanged.
pub open spec fn routes_uart0(before: u32, after: u32) -> bool {
    &&& after & UART0_PINS_MASK == UART0_PINS_ALT0
    &&& after & !UART0_PINS_MASK == before & !UART0_PINS_MASK
}

/// Switches pins 14 and 15 to alternate function 0 in a value of `GPFSEL1`,
/// leaving every other bit as it was.
pub fn route_uart0_pins(gpfsel1: u32) -> (r: u32)
    ensures
        routes_uart0(gpfsel1, r),
        fsel_field(r, 4) == FSEL_ALT0,
        fsel_field(r, 5) == FSEL_ALT0,
        forall|slot: u32| slot < 10 && slot != 4 && slot != 5 ==> #[trigger] fsel_field(r, slot)
            == fsel_field(gpfsel1, slot),
{
    let r = gpfsel1 & !UART0_PINS_MASK | UART0_PINS_ALT0;
    assert(r & 0o770000u32 == 0o440000u32) by (bit_vector)
        requires
            r == gpfsel1 & !0o770000u32 | 0o440000u32,
    ;
    assert(r & !0o770000u32 == gpfsel1 & !0o770000u32) by (bit_vector)
        requires
            r == gpfsel1 & !0o770000u32 | 0o440000u32,
    ;
    assert((r >> 12u32) & 7 == 4 && (r >> 15u32) & 7 == 4) by (bit_vector)
        requires
            r == gpfsel1 & !0o770000u32 | 0o440000u32,
    ;
    assert forall|slot: u32| slot < 10 && slot != 4 && slot != 5 implies #[trigger] fsel_field(
        r,
        slot,
    ) == fsel_field(gpfsel1, slot) by {
        let s: u32 = (3 * slot) as u32;
        assert((r >> s) & 7 == (gpfsel1 >> s) & 7) by (bit_vector)
            requires
                r == gpfsel1 & !0o770000u32 | 0o440000u32,
                s < 30,
                s != 12,
                s != 15,
                s % 3 == 0,
        ;
    }
    r
}

/// Routing the UART pins twice is the same as routing them once: a value that
/// already routes them is left as it is.
pub proof fn lemma_route_uart0_pins_idempotent(before: u32, once: u32, twice: u32)
    requires
        routes_uart0(before, once),
        routes_uart0(once, twice),
    ensures
        twice == once,
{
    assert(twice == once) by (bit_vector)
        requires
            once & 0o770000u32 == 0o440000u32,
            twice & 0o770000u32 == 0o440000u32,
            twice & !0o770000u32 == once & !0o770000u32,
    ;
}

/// The routed value is determined by the value before: two results of routing the
/// same value are equal.
pub proof fn lemma_route_uart0_pins_unique(before: u32, r1: u32, r2: u32)
    requires
        routes_uart0(before, r1),
        routes_uart0(before, r2),
    ensures
        r1 == r2,
{
    assert(r1 == r2) by (bit_vector)
        requires
            r1 & 0o770000u32 == 0o440000u32,
            r2 & 0o770000u32 == 0o440000u32,
            r1 & !0o770000u32 == before & !0o770000u32,
            r2 & !0o770000u32 == before & !0o770000u32,
    ;
}

} // verus!
