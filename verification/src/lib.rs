//! A counter program that lives on two chains at once, active on one and frozen on the other,
//! and moves between them through a (mock) cross-chain message bridge: the active copy freezes
//! and posts its state, the frozen copy reads the message, restores the state and activates.
//!
//! The instruction logic is in [`instructions`] and [`mock_wormhole`]; the functions at this
//! level are the program's entry points, which read the cluster clock and run the instructions.
use vstd::prelude::*;

pub mod error;
pub mod instructions;
pub mod laws;
pub mod mock_wormhole;
pub mod runtime;

use crate::error::CrossCounterError;
use crate::error::InstructionError;
use crate::instructions::increment::increment_outcome;
use crate::instructions::initialize::initialized;
use crate::instructions::initialize::le_bytes;
use crate::instructions::initialize::Counter;
use crate::instructions::receive::receive_refusal;
use crate::instructions::receive::received;
use crate::instructions::send::fits_message_time;
use crate::instructions::send::send_outcome;
use crate::mock_wormhole::MessageData;
use crate::mock_wormhole::MessageDataView;
use crate::runtime::clock_unix_timestamp;
use crate::runtime::from_clock;

verus! {

/// Creates the counter at the time the clock reads: zero, active on mainnet, frozen elsewhere,
/// last updated at the clock's reading. Fails with the runtime's error when the clock cannot be
/// read.
pub fn initialize(mainnet: bool) -> (r: Result<Counter, InstructionError>)
    ensures
        r matches Ok(counter) ==> counter == initialized(mainnet, counter.last_update)
            && from_clock(counter.last_update),
        r matches Ok(counter) ==> counter.value == 0 && counter.is_active == mainnet,
        r is Err ==> r matches Err(InstructionError::Runtime(_)),
{
    instructions::initialize::handler(mainnet, clock_unix_timestamp())
}

/// Increments the counter; refused with `InactiveProgram`, changing nothing, while the program
/// is inactive.
pub fn increment(counter: &mut Counter) -> (r: Result<(), InstructionError>)
    requires
        old(counter).is_active ==> old(counter).value < u16::MAX,
    ensures
        match increment_outcome(*old(counter)) {
            Ok(next) => r is Ok && *final(counter) == next,
            Err(e) => r == Err::<(), InstructionError>(InstructionError::Program(e))
                && *final(counter) == *old(counter),
        },
        old(counter).is_active ==> r is Ok && final(counter).value == old(counter).value + 1
            && final(counter).is_active && final(counter).last_update == old(counter).last_update,
{
    match instructions::increment::handler(counter) {
        Ok(()) => Ok(()),
        Err(e) => Err(InstructionError::Program(e)),
    }
}

/// Freezes the counter and posts its state, stamped with the time the clock reads, as a bridge
/// message from the program `program_id`; returns the message. Refused with `InactiveProgram`
/// while the program is inactive. Fails with the runtime's error when the clock cannot be read,
/// and with `TimestampOutOfRange` when it reads a time that a message cannot carry. On failure
/// the counter is unchanged.
pub fn freeze_and_send(counter: &mut Counter, program_id: [u8; 32]) -> (r: Result<
    MessageData,
    InstructionError,
>)
    ensures
        !old(counter).is_active ==> r == Err::<MessageData, InstructionError>(
            InstructionError::Program(CrossCounterError::InactiveProgram),
        ),
        r is Err ==> *final(counter) == *old(counter),
        old(counter).is_active ==> (r matches Ok(message) ==> fits_message_time(
            message.submission_time as i64,
        ) && send_outcome(*old(counter), program_id, message.submission_time as i64) == Ok::<
            (Counter, MessageDataView),
            CrossCounterError,
        >((*final(counter), message@))),
        old(counter).is_active ==> (r is Err ==> (r matches Err(InstructionError::Runtime(_)) || (
        r matches Err(InstructionError::TimestampOutOfRange(now)) && !fits_message_time(now)
            && from_clock(now)))),
        r matches Ok(message) ==> from_clock(message.submission_time as i64) && message.vaa_time
            == message.submission_time && !final(counter).is_active && message.payload@
            == le_bytes(old(counter).value),
{
    instructions::send::handler(counter, program_id, clock_unix_timestamp())
}

/// Restores a frozen counter from a bridge message and activates it at the time the clock reads.
/// Refused with `UpdatingActiveProgram` while the program is active and with `OldState` when the
/// message was submitted before the counter's last update; fails with the runtime's error when
/// the clock cannot be read. On failure the counter is unchanged.
pub fn update_and_activate(counter: &mut Counter, message_data: &MessageData) -> (r: Result<
    (),
    InstructionError,
>)
    requires
        receive_refusal(*old(counter), message_data@) is None ==> message_data.payload.len() == 2,
    ensures
        match receive_refusal(*old(counter), message_data@) {
            Some(e) => r == Err::<(), InstructionError>(InstructionError::Program(e))
                && *final(counter) == *old(counter),
            None => (r is Ok && *final(counter) == received(
                *old(counter),
                message_data@,
                final(counter).last_update,
            ) && from_clock(final(counter).last_update)) || (r matches Err(InstructionError::Runtime(_)) && *final(counter) == *old(counter)),
        },
{
    instructions::receive::handler(counter, message_data, clock_unix_timestamp())
}

} // verus!
