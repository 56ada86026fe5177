//! Early boot on the Raspberry Pi 4 (BCM2711, four Cortex-A72 cores).
//!
//! Every core starts in the same entry code. Core 0 goes on to set up the stack and
//! the BSS and enters the kernel; every other core waits (with `wfe`) on its own slot
//! of a spin table until some code stores the address of a function there, and then
//! jumps to it. [`SpinTable`] is that protocol; the entry code reads the table, and
//! [`SpinTable::wake_core_and_call`] fills it.
//!
//! The constants below are the values the entry code programs into system
//! registers, each with the fields it sets.
use vstd::prelude::*;

verus! {

/// Number of cores on the SoC.
pub const CORE_COUNT: usize = 4;

/// Address of the ARM-local `CONTROL` register (timer clock source and increment).
pub const LOCAL_CONTROL_ADDR: usize = 0xff80_0000;

/// Address of the ARM-local timer `PRESCALER` register.
pub const LOCAL_PRESCALER_ADDR: usize = 0xff80_0008;

/// Prescaler value for a divider of 1: the divider is `2^31 / prescaler`.
pub const LOCAL_PRESCALER_DIV1: u32 = 0x8000_0000;

/// Frequency of the crystal that drives the generic timer, in Hz (`CNTFRQ_EL0`).
pub const OSC_FREQ_HZ: u64 = 54_000_000;

/// Bits set in `L2CTLR_EL1`: data RAM latency of 3 cycles (bits 2:0 = 0b010) and a
/// data RAM setup of 1 cycle (bit 5).
pub const L2CTLR_EL1_SETUP: u64 = 0x22;

/// Value of `SCR_EL3`: lower levels run AArch64 (RW, bit 10), HVC is enabled (HCE,
/// bit 8), SMC is disabled (SMD, bit 7), the reserved bits 5:4 are ones, and EL2 and
/// below are Non-secure (NS, bit 0).
pub const SCR_EL3_VALUE: u64 = 0x5b1;

/// Value of `ACTLR_EL3`: `L2ACTLR` (bit 6), `L2ECTLR` (bit 5), `L2CTLR` (bit 4),
/// `CPUECTLR` (bit 1) and `CPUACTLR` (bit 0) are accessible from lower levels.
pub const ACTLR_EL3_VALUE: u64 = 0x73;

/// Value of `CPUECTLR_EL1`: `SMPEN` (bit 6), so that the core takes part in the
/// cluster's cache and TLB maintenance.
pub const CPUECTLR_EL1_SMPEN: u64 = 0x40;

/// Bit `n` of `v`.
pub open spec fn bit(v: u64, n: u64) -> u64 {
    (v >> n) & 1
}

/// The fields of [`SCR_EL3_VALUE`].
pub proof fn lemma_scr_el3_fields()
    ensures
        bit(SCR_EL3_VALUE, 0) == 1,
        bit(SCR_EL3_VALUE, 1) == 0,
        bit(SCR_EL3_VALUE, 2) == 0,
        bit(SCR_EL3_VALUE, 3) == 0,
        (SCR_EL3_VALUE >> 4u64) & 3 == 3,
        bit(SCR_EL3_VALUE, 6) == 0,
        bit(SCR_EL3_VALUE, 7) == 1,
        bit(SCR_EL3_VALUE, 8) == 1,
        bit(SCR_EL3_VALUE, 9) == 0,
        bit(SCR_EL3_VALUE, 10) == 1,
        SCR_EL3_VALUE >> 11u64 == 0,
{
    let v: u64 = 0x5b1;
    assert(((v >> 0u64) & 1) == 1 && ((v >> 1u64) & 1) == 0 && ((v >> 2u64) & 1) == 0 && ((v
        >> 3u64) & 1) == 0 && ((v >> 4u64) & 3) == 3 && ((v >> 6u64) & 1) == 0 && ((v >> 7u64)
        & 1) == 1 && ((v >> 8u64) & 1) == 1 && ((v >> 9u64) & 1) == 0 && ((v >> 10u64) & 1) == 1
        && (v >> 11u64) == 0) by (bit_vector)
        requires
            v == 0x5b1,
    ;
}

/// The fields of [`ACTLR_EL3_VALUE`] and [`CPUECTLR_EL1_SMPEN`].
pub proof fn lemma_actlr_cpuectlr_fields()
    ensures
        bit(ACTLR_EL3_VALUE, 0) == 1,
        bit(ACTLR_EL3_VALUE, 1) == 1,
        bit(ACTLR_EL3_VALUE, 4) == 1,
        bit(ACTLR_EL3_VALUE, 5) == 1,
        bit(ACTLR_EL3_VALUE, 6) == 1,
        bit(CPUECTLR_EL1_SMPEN, 6) == 1,
{
    let a: u64 = 0x73;
    let c: u64 = 0x40;
    assert(((a >> 0u64) & 1) == 1 && ((a >> 1u64) & 1) == 1 && ((a >> 4u64) & 1) == 1 && ((a
        >> 5u64) & 1) == 1 && ((a >> 6u64) & 1) == 1 && ((c >> 6u64) & 1) == 1) by (bit_vector)
        requires
            a == 0x73,
            c == 0x40,
    ;
}

/// What a core does when it looks at the spin table.
#[derive(Clone, Copy, Debug, PartialEq, Eq)]
pub enum BootAction {
    /// Core 0: set up the stack and the BSS and enter the kernel.
    EnterKernel,
    /// No function for this core yet: wait for an event and look again.
    Wait,
    /// Jump to the function at this address.
    Jump(usize),
}

/// The number of the core whose `MPIDR_EL1` reads `mpidr` (its affinity level 0).
pub open spec fn core_number(mpidr: u64) -> int {
    mpidr as int % 4
}

/// The spin table: one word per core, zero until that core is woken, then the
/// address of the function it is to run.
pub struct SpinTable {
    slots: [usize; CORE_COUNT],
}

impl SpinTable {
    /// The word of core `core`.
    pub closed spec fn slot(self, core: int) -> usize {
        self.slots@[core]
    }

    /// What a core with `MPIDR_EL1 == mpidr` does on seeing this table.
    pub open spec fn action_of(self, mpidr: u64) -> BootAction {
        let core = core_number(mpidr);
        if core == 0 {
            BootAction::EnterKernel
        } else if self.slot(core) == 0 {
            BootAction::Wait
        } else {
            BootAction::Jump(self.slot(core))
        }
    }

    /// The table as the system starts: every word zero.
    pub fn new() -> (t: SpinTable)
        ensures
            forall|core: int| 0 <= core < CORE_COUNT ==> #[trigger] t.slot(core) == 0,
    {
        SpinTable { slots: [0usize, 0usize, 0usize, 0usize] }
    }

    /// The word of core `core`.
    pub fn slot_value(&self, core: usize) -> (v: usize)
        requires
            core < CORE_COUNT,
        ensures
            v == self.slot(core as int),
    {
        self.slots[core]
    }

    /// The number of the core whose `MPIDR_EL1` reads `mpidr`.
    pub fn core_of(mpidr: u64) -> (core: usize)
        ensures
            core == core_number(mpidr),
            core < CORE_COUNT,
    {
        let core: u64 = mpidr & 3;
        assert(core == mpidr % 4 && core < 4) by (bit_vector)
            requires
                core == mpidr & 3,
        ;
        core as usize
    }

    /// What a core with `MPIDR_EL1 == mpidr` does on seeing this table.
    pub fn action(&self, mpidr: u64) -> (a: BootAction)
        ensures
            a == self.action_of(mpidr),
    {
        let core = Self::core_of(mpidr);
        if core == 0 {
            BootAction::EnterKernel
        } else {
            let f = self.slots[core];
            if f == 0 {
                BootAction::Wait
            } else {
                BootAction::Jump(f)
            }
        }
    }

    /// Has core `core` run the function at `func_addr`: stores the address in that
    /// core's word. The core then leaves its wait at the next event.
    ///
    /// A core is woken at most once, and a function's address is never zero.
    pub fn wake_core_and_call(&mut self, core: usize, func_addr: usize)
        requires
            core < CORE_COUNT,
            old(self).slot(core as int) == 0,
            func_addr != 0,
        ensures
            final(self).slot(core as int) == func_addr,
            forall|other: int|
                0 <= other < CORE_COUNT && other != core ==> #[trigger] final(self).slot(other)
                    == old(self).slot(other),
    {
        self.slots[core] = func_addr;
    }
}

/// Core 0 enters the kernel whatever the table holds.
pub proof fn lemma_core0_enters_kernel(t: SpinTable, mpidr: u64)
    requires
        core_number(mpidr) == 0,
    ensures
        t.action_of(mpidr) == BootAction::EnterKernel,
{
}

/// In the table as the system starts, every core but core 0 waits.
pub proof fn lemma_secondary_cores_wait_at_start(t: SpinTable, mpidr: u64)
    requires
        forall|core: int| 0 <= core < CORE_COUNT ==> #[trigger] t.slot(core) == 0,
        core_number(mpidr) != 0,
    ensures
        t.action_of(mpidr) == BootAction::Wait,
{
    assert(t.slot(core_number(mpidr)) == 0);
}

/// After a secondary core is woken with a function, that core jumps to it, and every
/// other core does what it did before.
pub proof fn lemma_wake_releases_only_that_core(
    before: SpinTable,
    after: SpinTable,
    core: usize,
    func_addr: usize,
    mpidr: u64,
)
    requires
        core < CORE_COUNT,
        func_addr != 0,
        after.slot(core as int) == func_addr,
        forall|other: int|
            0 <= other < CORE_COUNT && other != core ==> #[trigger] after.slot(other)
                == before.slot(other),
    ensures
        core_number(mpidr) == core && core != 0 ==> after.action_of(mpidr) == BootAction::Jump(
            func_addr,
        ),
        core_number(mpidr) != core ==> after.action_of(mpidr) == before.action_of(mpidr),
{
    let c = core_number(mpidr);
    assert(0 <= c < CORE_COUNT);
    if c != core {
        assert(after.slot(c) == before.slot(c));
    }
}

} // verus!
