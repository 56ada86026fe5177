use lace::sys_timer::{combine_halves, delay, CounterRead, Instant, ReadStep, CHI_OFFSET, CLO_OFFSET, SYS_TIMER_BASE};

#[test]
fn combine_halves_joins_high_and_low() {
    assert_eq!(combine_halves(0, 0), 0);
    assert_eq!(combine_halves(0, 0xffff_ffff), 0xffff_ffff);
    assert_eq!(combine_halves(1, 0), 0x1_0000_0000);
    assert_eq!(combine_halves(0x1234_5678, 0x9abc_def0), 0x1234_5678_9abc_def0);
    assert_eq!(combine_halves(0xffff_ffff, 0xffff_ffff), u64::MAX);
}

#[test]
fn read_completes_when_high_halves_agree() {
    let r = CounterRead::begin(7);
    assert_eq!(r.high_sample(), 7);
    assert_eq!(r.step(0x10, 7), ReadStep::Done(0x7_0000_0010));
}

#[test]
fn read_retries_when_high_half_moves() {
    // The low half wrapped between the two high samples.
    let r = CounterRead::begin(7);
    let next = match r.step(0xffff_fff0, 8) {
        ReadStep::Retry(next) => next,
        ReadStep::Done(_) => panic!("a torn read must not complete"),
    };
    assert_eq!(next.high_sample(), 8);
    assert_eq!(next.step(0x5, 8), ReadStep::Done(0x8_0000_0005));
}

#[test]
fn read_loop_over_a_sequence_of_samples() {
    // high, then (low, high) pairs, as the hardware would show them.
    let samples = [(0xffff_ffffu32, 1u32), (0x3, 1)];
    let mut state = CounterRead::begin(0);
    let mut result = None;
    for (lo, hi) in samples {
        match state.step(lo, hi) {
            ReadStep::Done(t) => {
                result = Some(t);
                break;
            }
            ReadStep::Retry(next) => state = next,
        }
    }
    assert_eq!(result, Some(0x1_0000_0003));
}

#[test]
fn timer_register_layout() {
    assert_eq!(SYS_TIMER_BASE, 0xfe00_3000);
    assert_eq!(CLO_OFFSET, 0x04);
    assert_eq!(CHI_OFFSET, 0x08);
}

#[test]
fn instant_keeps_its_reading() {
    assert_eq!(Instant::now(42).as_micros(), 42);
}

#[test]
fn micros_since_subtracts() {
    let a = Instant::now(1_000);
    let b = Instant::now(1_750);
    assert_eq!(b.micros_since(a), 750);
    assert_eq!(a.micros_since(a), 0);
}

#[test]
fn micros_since_wraps_like_the_counter() {
    let a = Instant::now(u64::MAX - 9);
    let b = Instant::now(5);
    assert_eq!(b.micros_since(a), 15);
}

#[test]
fn delay_of_one_second() {
    let start = Instant::now(10_000);
    let d = delay(start, 1_000_000_000);
    assert!(!d.is_elapsed(Instant::now(10_000)));
    assert!(!d.is_elapsed(Instant::now(1_009_999)));
    assert!(d.is_elapsed(Instant::now(1_010_000)));
    assert!(d.is_elapsed(Instant::now(2_000_000)));
}

#[test]
fn delay_with_sub_microsecond_part() {
    // 1.5 us: over only once 2 whole microseconds have passed.
    let start = Instant::now(0);
    let d = delay(start, 1_500);
    assert!(!d.is_elapsed(Instant::now(1)));
    assert!(d.is_elapsed(Instant::now(2)));
}

#[test]
fn zero_delay_is_over_at_once() {
    let start = Instant::now(123);
    assert!(delay(start, 0).is_elapsed(start));
}

#[test]
fn delay_across_counter_wrap() {
    let start = Instant::now(u64::MAX - 1);
    let d = delay(start, 5_000);
    assert!(!d.is_elapsed(Instant::now(2)));
    assert!(d.is_elapsed(Instant::now(3)));
}
