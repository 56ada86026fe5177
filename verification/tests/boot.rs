use lace::boot::{
    BootAction, SpinTable, ACTLR_EL3_VALUE, CORE_COUNT, CPUECTLR_EL1_SMPEN, L2CTLR_EL1_SETUP,
    LOCAL_CONTROL_ADDR, LOCAL_PRESCALER_ADDR, LOCAL_PRESCALER_DIV1, OSC_FREQ_HZ, SCR_EL3_VALUE,
};

#[test]
fn system_register_values() {
    let scr: u64 = (1 << 10) | (1 << 8) | (1 << 7) | (3 << 4) | 1;
    assert_eq!(SCR_EL3_VALUE, scr);
    assert_eq!(ACTLR_EL3_VALUE, (1 << 6) | (1 << 5) | (1 << 4) | (1 << 1) | 1);
    assert_eq!(CPUECTLR_EL1_SMPEN, 1 << 6);
    assert_eq!(L2CTLR_EL1_SETUP, 0x22);
    assert_eq!(OSC_FREQ_HZ, 54_000_000);
    assert_eq!(LOCAL_CONTROL_ADDR, 0xff80_0000);
    assert_eq!(LOCAL_PRESCALER_ADDR, 0xff80_0008);
    assert_eq!(LOCAL_PRESCALER_DIV1, 0x8000_0000);
}

#[test]
fn core_number_is_affinity_level_0() {
    assert_eq!(SpinTable::core_of(0), 0);
    assert_eq!(SpinTable::core_of(3), 3);
    assert_eq!(SpinTable::core_of(0x8000_0002), 2);
    assert_eq!(SpinTable::core_of(0x105), 1);
}

#[test]
fn fresh_table_sends_core0_to_kernel_and_others_wait() {
    let t = SpinTable::new();
    assert_eq!(t.action(0x8000_0000), BootAction::EnterKernel);
    for core in 1..CORE_COUNT as u64 {
        assert_eq!(t.action(0x8000_0000 | core), BootAction::Wait);
    }
    for core in 0..CORE_COUNT {
        assert_eq!(t.slot_value(core), 0);
    }
}

#[test]
fn woken_core_jumps_to_its_function() {
    let mut t = SpinTable::new();
    t.wake_core_and_call(2, 0x8_1000);
    assert_eq!(t.slot_value(2), 0x8_1000);
    assert_eq!(t.action(2), BootAction::Jump(0x8_1000));
    assert_eq!(t.action(1), BootAction::Wait);
    assert_eq!(t.action(3), BootAction::Wait);
    assert_eq!(t.action(0), BootAction::EnterKernel);
}

#[test]
fn each_core_gets_its_own_function() {
    let mut t = SpinTable::new();
    t.wake_core_and_call(1, 0x1000);
    t.wake_core_and_call(3, 0x3000);
    assert_eq!(t.action(1), BootAction::Jump(0x1000));
    assert_eq!(t.action(2), BootAction::Wait);
    assert_eq!(t.action(3), BootAction::Jump(0x3000));
}

#[test]
fn core0_ignores_its_slot() {
    let mut t = SpinTable::new();
    t.wake_core_and_call(0, 0x4000);
    assert_eq!(t.action(0), BootAction::EnterKernel);
}
