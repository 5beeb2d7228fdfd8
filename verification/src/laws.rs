//! Properties of the counter program that span several of its operations.
use crate::error::CrossCounterError;
use crate::instructions::increment::increment_outcome;
use crate::instructions::initialize::initialized;
use crate::instructions::initialize::Counter;
use crate::instructions::initialize::SynchronizableAccount;
use crate::instructions::receive::receive_refusal;
use crate::instructions::receive::received;
use crate::instructions::send::fits_message_time;
use crate::instructions::send::send_outcome;
use crate::mock_wormhole::posted;
use crate::mock_wormhole::read_back;
use crate::mock_wormhole::MessageDataView;
use vstd::prelude::*;

verus! {

/// Unpacking what a counter packs restores that counter, and the packed payload is one that
/// unpacking accepts.
pub proof fn lemma_package_roundtrip(counter: Counter)
    ensures
        Counter::accepts(counter.packaged()),
        counter.unpackaged(counter.packaged()) == counter,
{
}

/// A payload that unpacking accepts is exactly what the restored counter packs again: no two
/// accepted payloads restore the same value.
pub proof fn lemma_unpackage_roundtrip(counter: Counter, payload: Seq<u8>)
    requires
        Counter::accepts(payload),
    ensures
        counter.unpackaged(payload).packaged() == payload,
{
    assert(counter.unpackaged(payload).packaged() =~= payload);
}

/// Reading a posted message gives back the payload and the submission time that were posted.
pub proof fn lemma_read_gives_back_post(
    vaa_version: u8,
    consistency_level: u8,
    vaa_time: u32,
    vaa_signature_account: [u8; 32],
    submission_time: u32,
    nonce: u32,
    sequence: u64,
    emitter_chain: u16,
    emitter_address: [u8; 32],
    payload: Seq<u8>,
)
    ensures
        read_back(
            posted(
                vaa_version,
                consistency_level,
                vaa_time,
                vaa_signature_account,
                submission_time,
                nonce,
                sequence,
                emitter_chain,
                emitter_address,
                payload,
            ),
        ) == (payload, submission_time as i64),
{
}

/// Migration: when the active copy freezes and sends at a time that a message can carry, and the
/// frozen copy was last updated no later than that, the frozen copy accepts the message; after
/// it, the sender is frozen with its value kept, and the receiver is active, holds the sender's
/// value and was last updated when it received.
pub proof fn lemma_migration_moves_state(
    source: Counter,
    target: Counter,
    program_id: [u8; 32],
    sent_at: i64,
    received_at: i64,
)
    requires
        source.is_active,
        !target.is_active,
        fits_message_time(sent_at),
        target.last_update <= sent_at,
    ensures
        send_outcome(source, program_id, sent_at) matches Ok((frozen, message)) && {
            &&& frozen == Counter { is_active: false, ..source }
            &&& receive_refusal(target, message) is None
            &&& Counter::accepts(message.payload)
            &&& received(target, message, received_at) == Counter {
                value: source.value,
                is_active: true,
                last_update: received_at,
            }
        },
{
    lemma_package_roundtrip(source);
}

/// Only the active copy counts and sends, and only a frozen copy is updated: a frozen counter
/// refuses to be incremented or sent with `InactiveProgram`, and an active one refuses any
/// message with `UpdatingActiveProgram`.
pub proof fn lemma_activity_gates_instructions(
    counter: Counter,
    program_id: [u8; 32],
    now: i64,
    message: MessageDataView,
)
    ensures
        !counter.is_active ==> increment_outcome(counter) == Err::<Counter, CrossCounterError>(
            CrossCounterError::InactiveProgram,
        ),
        !counter.is_active ==> send_outcome(counter, program_id, now) == Err::<
            (Counter, MessageDataView),
            CrossCounterError,
        >(CrossCounterError::InactiveProgram),
        counter.is_active ==> receive_refusal(counter, message) == Some(
            CrossCounterError::UpdatingActiveProgram,
        ),
{
}

/// One active copy at a time: of two copies, one active and one frozen, incrementing the active
/// one keeps it active and the other frozen; freezing and sending from the active one leaves both
/// frozen while the message is in flight; and the other's update from that message, where it is
/// accepted, makes exactly one copy active again.
pub proof fn lemma_one_active_copy(
    a: Counter,
    b: Counter,
    program_id: [u8; 32],
    sent_at: i64,
    received_at: i64,
)
    requires
        a.is_active != b.is_active,
        a.is_active ==> a.value < u16::MAX,
        b.is_active ==> b.value < u16::MAX,
    ensures
        a.is_active ==> (increment_outcome(a) matches Ok(next) && next.is_active != b.is_active),
        b.is_active ==> (increment_outcome(b) matches Ok(next) && next.is_active != a.is_active),
        a.is_active ==> (send_outcome(a, program_id, sent_at) matches Ok((frozen, message))
            && !frozen.is_active && (receive_refusal(b, message) is None ==> received(b, message, received_at).is_active
            != frozen.is_active)),
        b.is_active ==> (send_outcome(b, program_id, sent_at) matches Ok((frozen, message))
            && !frozen.is_active && (receive_refusal(a, message) is None ==> received(a, message, received_at).is_active
            != frozen.is_active)),
{
}

/// Incrementing an active counter below the largest value adds exactly one to its value, as
/// numbers, and keeps its activity and its last update.
pub proof fn lemma_increment_adds_one(counter: Counter)
    requires
        counter.is_active,
        counter.value < u16::MAX,
    ensures
        increment_outcome(counter) matches Ok(next) && next.value == counter.value + 1
            && next.is_active && next.last_update == counter.last_update,
{
}

/// Two increments in a row add two.
pub proof fn lemma_increments_add_up(counter: Counter)
    requires
        counter.is_active,
        counter.value + 2 <= u16::MAX,
    ensures
        increment_outcome(counter) matches Ok(once) && increment_outcome(once) matches Ok(twice)
            && twice.value == counter.value + 2 && twice.is_active && twice.last_update
            == counter.last_update,
{
}

/// A created counter holds zero, is active exactly on mainnet, and was last updated at its
/// creation time.
pub proof fn lemma_created_at_clock_time(mainnet: bool, now: i64)
    ensures
        initialized(mainnet, now).value == 0,
        initialized(mainnet, now).is_active == mainnet,
        initialized(mainnet, now).last_update == now,
{
}

/// A frozen copy created at time `now` refuses, as old state, every message submitted before its
/// creation, and takes one submitted at or after it.
pub proof fn lemma_creation_time_bounds_accepted_messages(now: i64, message: MessageDataView)
    ensures
        message.submission_time < now ==> receive_refusal(initialized(false, now), message)
            == Some(CrossCounterError::OldState),
        message.submission_time >= now ==> receive_refusal(initialized(false, now), message)
            is None,
{
}

/// Sending stamps the message with the send time (both its VAA time and its submission time),
/// carries the value in its two payload bytes (low byte first), and freezes the counter with its
/// value and last update kept.
pub proof fn lemma_send_stamps_the_send_time(counter: Counter, program_id: [u8; 32], now: i64)
    requires
        counter.is_active,
        fits_message_time(now),
    ensures
        send_outcome(counter, program_id, now) matches Ok((frozen, message)) && {
            &&& message.submission_time == now
            &&& message.vaa_time == now
            &&& message.payload.len() == 2
            &&& message.payload[0] + 256 * message.payload[1] == counter.value
            &&& !frozen.is_active
            &&& frozen.value == counter.value
            &&& frozen.last_update == counter.last_update
        },
{
}

/// Accepting a message records the activation time as the last update, activates the counter,
/// and gives it the value of the two payload bytes (low byte first).
pub proof fn lemma_receive_records_the_activation_time(
    counter: Counter,
    message: MessageDataView,
    now: i64,
)
    requires
        receive_refusal(counter, message) is None,
        message.payload.len() == 2,
    ensures
        received(counter, message, now).last_update == now,
        received(counter, message, now).is_active,
        received(counter, message, now).value == message.payload[0] + 256 * message.payload[1],
{
}

/// No replay into the past: once a counter has accepted a message at time `now`, then after it
/// freezes and sends again, it refuses as old state every message submitted before `now`.
pub proof fn lemma_activation_time_refuses_older_messages(
    counter: Counter,
    message: MessageDataView,
    now: i64,
    program_id: [u8; 32],
    sent_at: i64,
    older: MessageDataView,
)
    requires
        receive_refusal(counter, message) is None,
        older.submission_time < now,
    ensures
        send_outcome(received(counter, message, now), program_id, sent_at) matches Ok((frozen, _))
            && receive_refusal(frozen, older) == Some(CrossCounterError::OldState),
{
}

} // verus!
