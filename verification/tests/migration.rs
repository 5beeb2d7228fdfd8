use anchor_lang::prelude::ProgramError;
use cross_counter::error::CrossCounterError;
use cross_counter::error::InstructionError;
use cross_counter::instructions::increment;
use cross_counter::instructions::initialize;
use cross_counter::instructions::initialize::Counter;
use cross_counter::instructions::receive;
use cross_counter::instructions::send;

const MAINNET: [u8; 32] = [0x11u8; 32];

/// The timeline of the two-chain demonstration: mainnet and shadow realm counters are created,
/// mainnet counts, the shadow realm refuses, mainnet freezes and sends, the shadow realm takes
/// over, mainnet refuses and the shadow realm counts on.
#[test]
fn mainnet_hands_the_counter_to_the_shadow_realm() {
    let mut mainnet = initialize::handler(true, Ok(1_000)).unwrap();
    let mut shadow = initialize::handler(false, Ok(1_001)).unwrap();
    assert_eq!(mainnet, Counter { value: 0, is_active: true, last_update: 1_000 });
    assert_eq!(shadow, Counter { value: 0, is_active: false, last_update: 1_001 });

    assert_eq!(increment::handler(&mut mainnet), Ok(()));
    assert_eq!(mainnet.value, 1);

    assert_eq!(increment::handler(&mut shadow), Err(CrossCounterError::InactiveProgram));
    assert_eq!(shadow.value, 0);

    let message = send::handler(&mut mainnet, MAINNET, Ok(1_010)).unwrap();
    assert!(!mainnet.is_active);
    assert_eq!(message.payload, vec![1, 0]);

    assert_eq!(receive::handler(&mut shadow, &message, Ok(1_020)), Ok(()));
    assert_eq!(shadow, Counter { value: 1, is_active: true, last_update: 1_020 });

    assert_eq!(increment::handler(&mut mainnet), Err(CrossCounterError::InactiveProgram));
    assert_eq!(mainnet.value, 1);

    assert_eq!(increment::handler(&mut shadow), Ok(()));
    assert_eq!(shadow.value, 2);
}

#[test]
fn migration_moves_the_value_and_the_activity() {
    for v in [0u16, 1, 300, u16::MAX] {
        let mut source = Counter { value: v, is_active: true, last_update: 5 };
        let mut target = Counter { value: 9, is_active: false, last_update: 20 };
        let message = send::handler(&mut source, MAINNET, Ok(20)).unwrap();
        assert_eq!(receive::handler(&mut target, &message, Ok(30)), Ok(()));
        assert_eq!(source, Counter { value: v, is_active: false, last_update: 5 });
        assert_eq!(target, Counter { value: v, is_active: true, last_update: 30 });
    }
}

#[test]
fn a_message_cannot_be_replayed_onto_the_now_active_copy() {
    let mut source = Counter { value: 8, is_active: true, last_update: 0 };
    let mut target = Counter { value: 0, is_active: false, last_update: 0 };
    let message = send::handler(&mut source, MAINNET, Ok(10)).unwrap();
    assert_eq!(receive::handler(&mut target, &message, Ok(11)), Ok(()));
    let r = receive::handler(&mut target, &message, Ok(12));
    assert_eq!(r, Err(InstructionError::Program(CrossCounterError::UpdatingActiveProgram)));
    assert_eq!(target, Counter { value: 8, is_active: true, last_update: 11 });
}

#[test]
fn a_stale_message_is_refused_after_a_later_activation() {
    let mut source = Counter { value: 3, is_active: true, last_update: 0 };
    let mut target = Counter { value: 0, is_active: false, last_update: 50 };
    let message = send::handler(&mut source, MAINNET, Ok(40)).unwrap();
    let r = receive::handler(&mut target, &message, Ok(60));
    assert_eq!(r, Err(InstructionError::Program(CrossCounterError::OldState)));
    let r = receive::handler(&mut target, &message, Err(ProgramError::UnsupportedSysvar));
    assert_eq!(r, Err(InstructionError::Program(CrossCounterError::OldState)));
}
