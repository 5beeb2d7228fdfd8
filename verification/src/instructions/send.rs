//! Freezing the active copy of the program and posting its state to the bridge.
use crate::error::CrossCounterError;
use crate::error::InstructionError;
use crate::instructions::initialize::le_bytes;
use crate::instructions::initialize::Counter;
use crate::instructions::initialize::SynchronizableAccount;
use crate::mock_wormhole::post_message;
use crate::mock_wormhole::posted;
use crate::mock_wormhole::MessageData;
use crate::mock_wormhole::MessageDataView;
use anchor_lang::prelude::ProgramError;
use vstd::prelude::*;

verus! {

/// VAA header version of the posted message.
pub const VAA_VERSION: u8 = 0;

/// Consistency level requested for the posted message.
pub const CONSISTENCY_LEVEL: u8 = 0;

/// Nonce of the posted message.
pub const NONCE: u32 = 1;

/// Sequence number of the posted message.
pub const SEQUENCE: u64 = 123;

/// Bridge chain id of Solana, the emitter's chain.
pub const SOLANA_CHAIN: u16 = 1;

/// The message that a program with id `program_id` posts when it freezes a counter holding
/// `value` at time `now`: both times are `now`, both keys are the program id, and the payload is
/// the packed value.
pub open spec fn sent_message(program_id: [u8; 32], value: u16, now: i64) -> MessageDataView {
    posted(
        VAA_VERSION,
        CONSISTENCY_LEVEL,
        now as u32,
        program_id,
        now as u32,
        NONCE,
        SEQUENCE,
        SOLANA_CHAIN,
        program_id,
        le_bytes(value),
    )
}

/// What freezing and sending does: refused while the program is inactive, else the counter is
/// frozen (only its activity changes) and its state is posted.
pub open spec fn send_outcome(counter: Counter, program_id: [u8; 32], now: i64) -> Result<
    (Counter, MessageDataView),
    CrossCounterError,
> {
    if !counter.is_active {
        Err(CrossCounterError::InactiveProgram)
    } else {
        Ok((Counter { is_active: false, ..counter }, sent_message(program_id, counter.value, now)))
    }
}

/// The times that a posted message can carry.
pub open spec fn fits_message_time(now: i64) -> bool {
    0 <= now <= u32::MAX
}

/// Freezes the counter and posts its state through the bridge, given the program's own id and
/// what the clock read; returns the posted message. An inactive program is refused with
/// `InactiveProgram` before the clock is consulted; an unreadable clock fails with the runtime's
/// error, and a clock time outside `0..=u32::MAX`, which the message's `u32` times cannot carry,
/// with `TimestampOutOfRange` of that time. On failure the counter is unchanged.
pub fn handler(counter: &mut Counter, program_id: [u8; 32], clock: Result<i64, ProgramError>) -> (r:
    Result<MessageData, InstructionError>)
    ensures
        !old(counter).is_active ==> r == Err::<MessageData, InstructionError>(
            InstructionError::Program(CrossCounterError::InactiveProgram),
        ) && *final(counter) == *old(counter),
        old(counter).is_active ==> match clock {
            Ok(now) => if fits_message_time(now) {
                r matches Ok(message) && send_outcome(*old(counter), program_id, now) == Ok::<
                    (Counter, MessageDataView),
                    CrossCounterError,
                >((*final(counter), message@))
            } else {
                r == Err::<MessageData, InstructionError>(InstructionError::TimestampOutOfRange(now))
                    && *final(counter) == *old(counter)
            },
            Err(e) => r == Err::<MessageData, InstructionError>(InstructionError::Runtime(e))
                && *final(counter) == *old(counter),
        },
        old(counter).is_active ==> (clock matches Ok(now) ==> (fits_message_time(now) ==> (
        r matches Ok(message) && message.submission_time == now && message.vaa_time == now
            && message.payload@.len() == 2 && message.payload@[0] + 256 * message.payload@[1]
            == old(counter).value && !final(counter).is_active && final(counter).value == old(
            counter,
        ).value && final(counter).last_update == old(counter).last_update))),
{
    if !counter.is_active {
        return Err(InstructionError::Program(CrossCounterError::InactiveProgram));
    }
    let now: i64 = match clock {
        Ok(now) => now,
        Err(e) => {
            return Err(InstructionError::Runtime(e));
        },
    };
    if now < 0 || now > u32::MAX as i64 {
        return Err(InstructionError::TimestampOutOfRange(now));
    }
    let time: u32 = now as u32;
    let payload = counter.package();
    let mut message_data = MessageData::blank();
    post_message(
        &mut message_data,
        program_id,
        VAA_VERSION,
        CONSISTENCY_LEVEL,
        time,
        program_id,
        time,
        NONCE,
        SEQUENCE,
        SOLANA_CHAIN,
        program_id,
        payload,
    );
    counter.is_active = false;
    Ok(message_data)
}

} // verus!
