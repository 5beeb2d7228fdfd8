//! Restoring a frozen copy of the program from a bridge message and activating it.
use crate::error::CrossCounterError;
use crate::error::InstructionError;
use crate::instructions::initialize::Counter;
use crate::instructions::initialize::SynchronizableAccount;
use crate::mock_wormhole::read_back;
use crate::mock_wormhole::MessageData;
use crate::mock_wormhole::MessageDataView;
use anchor_lang::prelude::ProgramError;
use vstd::prelude::*;

verus! {

/// Why a counter refuses to be updated from `message`, if it does: an active program is not
/// updated, and a message submitted before the counter's last update is old state.
pub open spec fn receive_refusal(counter: Counter, message: MessageDataView) -> Option<
    CrossCounterError,
> {
    if counter.is_active {
        Some(CrossCounterError::UpdatingActiveProgram)
    } else if read_back(message).1 < counter.last_update {
        Some(CrossCounterError::OldState)
    } else {
        None
    }
}

/// The counter after it accepted `message` at time `now`: its state restored from the payload,
/// active, last updated at `now`.
pub open spec fn received(counter: Counter, message: MessageDataView, now: i64) -> Counter {
    Counter { is_active: true, last_update: now, ..counter.unpackaged(read_back(message).0) }
}

/// Updates a frozen counter from a bridge message and activates it, given what the clock read.
/// Refused with `UpdatingActiveProgram` while the program is active and with `OldState` when the
/// message was submitted before the counter's last update; an unreadable clock then fails with
/// the runtime's error. On failure the counter is unchanged. (A message that passes both checks
/// must carry a two-byte payload: any other cannot be unpacked.)
pub fn handler(counter: &mut Counter, message_data: &MessageData, clock: Result<
    i64,
    ProgramError,
>) -> (r: Result<(), InstructionError>)
    requires
        receive_refusal(*old(counter), message_data@) is None ==> Counter::accepts(
            message_data@.payload,
        ),
    ensures
        match receive_refusal(*old(counter), message_data@) {
            Some(e) => r == Err::<(), InstructionError>(InstructionError::Program(e))
                && *final(counter) == *old(counter),
            None => match clock {
                Ok(now) => r is Ok && *final(counter) == received(
                    *old(counter),
                    message_data@,
                    now,
                ),
                Err(e) => r == Err::<(), InstructionError>(InstructionError::Runtime(e))
                    && *final(counter) == *old(counter),
            },
        },
        receive_refusal(*old(counter), message_data@) is None ==> (clock matches Ok(now) ==> (
        r is Ok && final(counter).last_update == now && final(counter).is_active
            && final(counter).value == message_data.payload@[0] + 256 * message_data.payload@[1])),
{
    if counter.is_active {
        return Err(InstructionError::Program(CrossCounterError::UpdatingActiveProgram));
    }
    let payload = message_data.payload.clone();
    let submission_time: i64 = message_data.submission_time as i64;
    proof {
        assert(payload@ =~= message_data@.payload);
    }
    if submission_time < counter.last_update {
        return Err(InstructionError::Program(CrossCounterError::OldState));
    }
    let now: i64 = match clock {
        Ok(now) => now,
        Err(e) => {
            return Err(InstructionError::Runtime(e));
        },
    };
    if let Err(e) = counter.unpackage(payload) {
        return Err(InstructionError::Program(e));
    }
    counter.is_active = true;
    counter.last_update = now;
    Ok(())
}

} // verus!
