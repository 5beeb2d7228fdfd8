use anchor_lang::prelude::ProgramError;
use cross_counter::error::CrossCounterError;
use cross_counter::error::InstructionError;
use cross_counter::instructions::increment;
use cross_counter::instructions::initialize;
use cross_counter::instructions::initialize::Counter;
use cross_counter::instructions::initialize::SynchronizableAccount;

fn counter(value: u16, is_active: bool, last_update: i64) -> Counter {
    Counter { value, is_active, last_update }
}

#[test]
fn initialize_mainnet_counter_is_active_and_zero() {
    let c = initialize::handler(true, Ok(1_652_000_000)).unwrap();
    assert_eq!(c, counter(0, true, 1_652_000_000));
}

#[test]
fn initialize_shadow_counter_is_frozen_and_zero() {
    let c = initialize::handler(false, Ok(-5)).unwrap();
    assert_eq!(c, counter(0, false, -5));
}

#[test]
fn initialize_fails_when_the_clock_cannot_be_read() {
    let r = initialize::handler(true, Err(ProgramError::UnsupportedSysvar));
    assert_eq!(r, Err(InstructionError::Runtime(ProgramError::UnsupportedSysvar)));
}

#[test]
fn entry_point_initialize_reports_the_unavailable_clock() {
    // Off-chain the runtime's default syscall stubs do not supply the clock sysvar.
    let r = cross_counter::initialize(true);
    assert_eq!(r, Err(InstructionError::Runtime(ProgramError::UnsupportedSysvar)));
}

#[test]
fn increment_active_counter_adds_one() {
    let mut c = counter(41, true, 7);
    assert_eq!(increment::handler(&mut c), Ok(()));
    assert_eq!(c, counter(42, true, 7));
}

#[test]
fn increment_up_to_the_largest_value() {
    let mut c = counter(u16::MAX - 1, true, 0);
    assert_eq!(increment::handler(&mut c), Ok(()));
    assert_eq!(c.value, u16::MAX);
}

#[test]
fn increment_inactive_counter_is_refused() {
    let mut c = counter(3, false, 9);
    assert_eq!(increment::handler(&mut c), Err(CrossCounterError::InactiveProgram));
    assert_eq!(c, counter(3, false, 9));
}

#[test]
fn entry_point_increment_maps_the_refusal() {
    let mut c = counter(3, false, 9);
    assert_eq!(
        cross_counter::increment(&mut c),
        Err(InstructionError::Program(CrossCounterError::InactiveProgram))
    );
    assert_eq!(c, counter(3, false, 9));
    let mut d = counter(3, true, 9);
    assert_eq!(cross_counter::increment(&mut d), Ok(()));
    assert_eq!(d, counter(4, true, 9));
}

#[test]
fn package_is_little_endian() {
    assert_eq!(counter(0x1234, true, 0).package(), vec![0x34, 0x12]);
    assert_eq!(counter(0, false, 0).package(), vec![0, 0]);
    assert_eq!(counter(255, false, 0).package(), vec![255, 0]);
    assert_eq!(counter(256, false, 0).package(), vec![0, 1]);
    assert_eq!(counter(u16::MAX, false, 0).package(), vec![255, 255]);
}

#[test]
fn unpackage_reads_little_endian_and_keeps_the_rest() {
    let mut c = counter(7, false, 99);
    assert_eq!(c.unpackage(vec![0x34, 0x12]), Ok(()));
    assert_eq!(c, counter(0x1234, false, 99));
    assert_eq!(c.unpackage(vec![255, 255]), Ok(()));
    assert_eq!(c, counter(u16::MAX, false, 99));
}

#[test]
fn package_then_unpackage_restores_the_value() {
    for v in [0u16, 1, 255, 256, 1000, 0x8000, u16::MAX] {
        let source = counter(v, true, 1);
        let mut target = counter(12, false, 2);
        target.unpackage(source.package()).unwrap();
        assert_eq!(target, counter(v, false, 2));
    }
}
