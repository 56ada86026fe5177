//! The BCM2711 system timer: a free-running 64-bit microsecond counter that the
//! ARM side can only see through two 32-bit registers (`CLO` and `CHI`).
//!
//! Reading the two halves is not atomic, so a reader takes the high half, then the
//! low half, then the high half again, and only accepts the pair when both high
//! reads agree. [`CounterRead`] is that protocol as a state machine: the register
//! reads themselves are memory-mapped I/O and are performed by the caller.
use vstd::prelude::*;

verus! {

/// Base address of the system timer's register block.
pub const SYS_TIMER_BASE: usize = 0xfe00_3000;

/// Byte offset of the `CLO` (counter, low half) register.
pub const CLO_OFFSET: usize = 0x04;

/// Byte offset of the `CHI` (counter, high half) register.
pub const CHI_OFFSET: usize = 0x08;

/// The 64-bit counter value whose halves are `hi` and `lo`.
pub open spec fn counter_value(hi: u32, lo: u32) -> int {
    hi as int * 0x1_0000_0000 + lo as int
}

/// What `CHI` shows while the counter holds `c`.
pub open spec fn high_half(c: u64) -> u32 {
    (c as int / 0x1_0000_0000) as u32
}

/// What `CLO` shows while the counter holds `c`.
pub open spec fn low_half(c: u64) -> u32 {
    (c as int % 0x1_0000_0000) as u32
}

/// Joins the two halves of the counter into one value.
pub fn combine_halves(hi: u32, lo: u32) -> (c: u64)
    ensures
        c == counter_value(hi, lo),
{
    let h: u64 = hi as u64;
    let l: u64 = lo as u64;
    assert((h << 32u64) | l == h * 0x1_0000_0000 + l) by (bit_vector)
        requires
            h < 0x1_0000_0000,
            l < 0x1_0000_0000,
    ;
    (h << 32u64) | l
}

/// A read of the counter that is in progress: the high half seen last.
#[derive(Clone, Copy, Debug, PartialEq, Eq)]
pub struct CounterRead {
    hi: u32,
}

/// What a reader does after sampling `CLO` and then `CHI` again.
#[derive(Clone, Copy, Debug, PartialEq, Eq)]
pub enum ReadStep {
    /// Both high reads agreed: this is the counter value, in microseconds.
    Done(u64),
    /// The high half moved while `CLO` was read: sample `CLO` and `CHI` again.
    Retry(CounterRead),
}

impl CounterRead {
    /// The high half that the next low sample is paired with.
    pub closed spec fn high(self) -> u32 {
        self.hi
    }

    /// Starts a read from a first sample of `CHI`.
    pub fn begin(hi: u32) -> (r: CounterRead)
        ensures
            r.high() == hi,
    {
        CounterRead { hi }
    }

    /// The high half that the next low sample is paired with.
    pub fn high_sample(&self) -> (hi: u32)
        ensures
            hi == self.high(),
    {
        self.hi
    }

    /// Takes a sample `lo` of `CLO` and the sample `hi` of `CHI` that followed it.
    ///
    /// The read completes, with the value that the two halves spell, exactly when
    /// `hi` equals the high half seen before `lo`; otherwise it goes on from `hi`.
    pub fn step(self, lo: u32, hi: u32) -> (s: ReadStep)
        ensures
            hi == self.high() ==> s == ReadStep::Done(counter_value(hi, lo) as u64),
            hi != self.high() ==> (s matches ReadStep::Retry(next) && next.high() == hi),
    {
        if hi == self.hi {
            ReadStep::Done(combine_halves(hi, lo))
        } else {
            ReadStep::Retry(CounterRead { hi })
        }
    }
}

/// Why a completed read is right: if the counter only counts up between the first
/// high sample (`c1`), the low sample (`c2`) and the second high sample (`c3`), and
/// both high samples agree, then the accepted pair spells exactly the counter value at
/// the time of the low sample.
pub proof fn lemma_agreeing_reads_give_counter(c1: u64, c2: u64, c3: u64)
    requires
        c1 <= c2 <= c3,
        high_half(c1) == high_half(c3),
    ensures
        counter_value(high_half(c1), low_half(c2)) == c2,
{
    assert(c1 as int / 0x1_0000_0000 <= c2 as int / 0x1_0000_0000) by (nonlinear_arith)
        requires
            c1 <= c2,
    ;
    assert(c2 as int / 0x1_0000_0000 <= c3 as int / 0x1_0000_0000) by (nonlinear_arith)
        requires
            c2 <= c3,
    ;
}

/// A point in time, as a reading of the system timer in microseconds.
#[derive(Clone, Copy, Debug, PartialEq, Eq)]
pub struct Instant(u64);

/// `(later - earlier) mod 2^64`: the microseconds that pass from `earlier` to `later`
/// on a counter that wraps around.
pub open spec fn elapsed_micros(earlier: u64, later: u64) -> int {
    (later as int - earlier as int) % 0x1_0000_0000_0000_0000
}

impl Instant {
    /// The counter reading that this instant stands for.
    pub closed spec fn micros(self) -> u64 {
        self.0
    }

    /// The instant at which the system timer read `counter` microseconds.
    pub fn now(counter: u64) -> (i: Instant)
        ensures
            i.micros() == counter,
    {
        Instant(counter)
    }

    /// The counter reading that this instant stands for.
    pub fn as_micros(&self) -> (us: u64)
        ensures
            us == self.micros(),
    {
        self.0
    }

    /// Microseconds from `earlier` to `self`, wrapping as the counter does.
    pub fn micros_since(self, earlier: Instant) -> (us: u64)
        ensures
            us == elapsed_micros(earlier.micros(), self.micros()),
    {
        self.0.wrapping_sub(earlier.0)
    }
}

/// Without a wrap-around between them, the time from `earlier` to `later` is their
/// difference.
pub proof fn lemma_elapsed_without_wrap(earlier: u64, later: u64)
    requires
        earlier <= later,
    ensures
        elapsed_micros(earlier, later) == later - earlier,
{
}

/// A busy-wait that has started: the instant it began and how long it lasts.
#[derive(Clone, Copy, Debug, PartialEq, Eq)]
pub struct Delay {
    start: Instant,
    duration_ns: u128,
}

/// Whether `duration_ns` nanoseconds have passed between two counter readings, the
/// counter counting whole microseconds.
pub open spec fn delay_elapsed(start: u64, now: u64, duration_ns: u128) -> bool {
    elapsed_micros(start, now) * 1000 >= duration_ns
}

/// Starts a busy-wait of `duration_ns` nanoseconds at the instant `start`.
pub fn delay(start: Instant, duration_ns: u128) -> (d: Delay)
    ensures
        d.start() == start,
        d.duration_ns() == duration_ns,
{
    Delay { start, duration_ns }
}

impl Delay {
    /// The instant at which the wait began.
    pub closed spec fn start(self) -> Instant {
        self.start
    }

    /// How long the wait lasts, in nanoseconds.
    pub closed spec fn duration_ns(self) -> u128 {
        self.duration_ns
    }

    /// Whether a wait that began at `start` is over at `now`: the time passed,
    /// in whole microseconds, is no longer below the duration.
    pub fn is_elapsed(&self, now: Instant) -> (done: bool)
        ensures
            done == delay_elapsed(self.start().micros(), now.micros(), self.duration_ns()),
            self.start().micros() <= now.micros() ==> (done <==> (now.micros()
                - self.start().micros()) * 1000 >= self.duration_ns()),
    {
        let us: u64 = now.micros_since(self.start);
        let ns: u128 = us as u128 * 1000;
        ns >= self.duration_ns
    }
}

/// A wait of no time at all is over at once.
pub proof fn lemma_zero_delay_elapsed(start: u64, now: u64)
    ensures
        delay_elapsed(start, now, 0),
{
}

/// A wait is over exactly when the time counted since its start, in whole
/// microseconds and scaled to nanoseconds, reaches its duration: never early and never
/// late. When the counter has wrapped around past zero since `start`, the time counted
/// is `2^64 - start + now`.
pub proof fn lemma_delay_elapsed_exactly(start: u64, now: u64, duration_ns: u128)
    ensures
        start <= now ==> (delay_elapsed(start, now, duration_ns) <==> (now - start) * 1000
            >= duration_ns),
        now < start ==> (delay_elapsed(start, now, duration_ns) <==> (now as int
            + 0x1_0000_0000_0000_0000 - start) * 1000 >= duration_ns),
{
}

/// A wait that began at `start` is over at `now` as soon as its duration has passed:
/// it is never late.
pub proof fn lemma_delay_never_late(start: u64, now: u64, duration_ns: u128)
    requires
        start <= now,
        (now - start) * 1000 >= duration_ns,
    ensures
        delay_elapsed(start, now, duration_ns),
{
}

/// Once a wait is over it stays over while the counter keeps counting up
/// (without wrapping around past `start`).
pub proof fn lemma_delay_stays_elapsed(start: u64, t1: u64, t2: u64, duration_ns: u128)
    requires
        start <= t1 <= t2,
        delay_elapsed(start, t1, duration_ns),
    ensures
        delay_elapsed(start, t2, duration_ns),
{
}

/// A wait is over exactly when the microseconds counted since its start, scaled to
/// nanoseconds, reach its duration: it never ends early.
pub proof fn lemma_delay_never_early(start: u64, now: u64, duration_ns: u128)
    requires
        start <= now,
        delay_elapsed(start, now, duration_ns),
    ensures
        (now - start) * 1000 >= duration_ns,
{
}

} // verus!
