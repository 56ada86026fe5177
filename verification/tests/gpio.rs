use lace::gpio::{route_uart0_pins, FSEL_ALT0, GPFSEL1_ADDR, UART0_PINS_ALT0, UART0_PINS_MASK};

fn field(reg: u32, slot: u32) -> u32 {
    (reg >> (3 * slot)) & 7
}

#[test]
fn routes_pins_14_and_15_to_alt0() {
    let r = route_uart0_pins(0);
    assert_eq!(r, 0o440000);
    assert_eq!(field(r, 4), FSEL_ALT0);
    assert_eq!(field(r, 5), FSEL_ALT0);
}

#[test]
fn clears_previous_functions_of_the_uart_pins() {
    let r = route_uart0_pins(0o770000);
    assert_eq!(r, 0o440000);
    let r = route_uart0_pins(0o110000);
    assert_eq!(r, 0o440000);
}

#[test]
fn keeps_the_other_pins() {
    let before: u32 = 0xffff_ffff;
    let r = route_uart0_pins(before);
    assert_eq!(r & !UART0_PINS_MASK, before & !UART0_PINS_MASK);
    assert_eq!(r & UART0_PINS_MASK, UART0_PINS_ALT0);
    for slot in 0..10 {
        if slot != 4 && slot != 5 {
            assert_eq!(field(r, slot), field(before, slot));
        }
    }
    assert_eq!(r, 0xfffe_4fff);
}

#[test]
fn routing_twice_is_routing_once() {
    for v in [0u32, 1, 0o770000, 0xdead_beef, u32::MAX] {
        let once = route_uart0_pins(v);
        assert_eq!(route_uart0_pins(once), once);
    }
}

#[test]
fn gpfsel1_address() {
    assert_eq!(GPFSEL1_ADDR, 0xfe20_0004);
}
