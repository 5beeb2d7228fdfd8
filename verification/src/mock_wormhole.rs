//! The mock cross-chain message bridge: a posted message and the two operations on it.
use vstd::prelude::*;

verus! {

/// A posted bridge message. Its fields are those of a posted VAA; account keys are held as
/// their 32 bytes.
#[derive(Debug, Clone, PartialEq, Eq)]
pub struct MessageData {
    /// Header of the posted VAA.
    pub vaa_version: u8,
    /// Level of consistency requested by the emitter.
    pub consistency_level: u8,
    /// Time the VAA was submitted.
    pub vaa_time: u32,
    /// Account where signatures are stored.
    pub vaa_signature_account: [u8; 32],
    /// Time the posted message was created.
    pub submission_time: u32,
    /// Unique nonce for this message.
    pub nonce: u32,
    /// Sequence number of this message.
    pub sequence: u64,
    /// Chain of the emitter.
    pub emitter_chain: u16,
    /// Address of the emitter.
    pub emitter_address: [u8; 32],
    /// Message payload.
    pub payload: Vec<u8>,
}

/// The mathematical value of a [`MessageData`]: the same fields, with the payload as a sequence.
pub struct MessageDataView {
    pub vaa_version: u8,
    pub consistency_level: u8,
    pub vaa_time: u32,
    pub vaa_signature_account: [u8; 32],
    pub submission_time: u32,
    pub nonce: u32,
    pub sequence: u64,
    pub emitter_chain: u16,
    pub emitter_address: [u8; 32],
    pub payload: Seq<u8>,
}

impl View for MessageData {
    type V = MessageDataView;

    open spec fn view(&self) -> MessageDataView {
        MessageDataView {
            vaa_version: self.vaa_version,
            consistency_level: self.consistency_level,
            vaa_time: self.vaa_time,
            vaa_signature_account: self.vaa_signature_account,
            submission_time: self.submission_time,
            nonce: self.nonce,
            sequence: self.sequence,
            emitter_chain: self.emitter_chain,
            emitter_address: self.emitter_address,
            payload: self.payload@,
        }
    }
}

/// The message that posting these fields leaves behind.
pub open spec fn posted(
    vaa_version: u8,
    consistency_level: u8,
    vaa_time: u32,
    vaa_signature_account: [u8; 32],
    submission_time: u32,
    nonce: u32,
    sequence: u64,
    emitter_chain: u16,
    emitter_address: [u8; 32],
    payload: Seq<u8>,
) -> MessageDataView {
    MessageDataView {
        vaa_version,
        consistency_level,
        vaa_time,
        vaa_signature_account,
        submission_time,
        nonce,
        sequence,
        emitter_chain,
        emitter_address,
        payload,
    }
}

/// What reading a message hands back: its payload and its submission time, widened to `i64`.
pub open spec fn read_back(message: MessageDataView) -> (Seq<u8>, i64) {
    (message.payload, message.submission_time as i64)
}

impl MessageData {
    /// A message account before anything has been posted to it: numbers zero, keys zero, no
    /// payload. Posting overwrites every field of it.
    pub(crate) fn blank() -> (r: MessageData)
        ensures
            r.vaa_version == 0,
            r.consistency_level == 0,
            r.vaa_time == 0,
            forall|i: int| 0 <= i < 32 ==> r.vaa_signature_account[i] == 0u8,
            r.submission_time == 0,
            r.nonce == 0,
            r.sequence == 0,
            r.emitter_chain == 0,
            forall|i: int| 0 <= i < 32 ==> r.emitter_address[i] == 0u8,
            r.payload@.len() == 0,
    {
        MessageData {
            vaa_version: 0,
            consistency_level: 0,
            vaa_time: 0,
            vaa_signature_account: [0u8; 32],
            submission_time: 0,
            nonce: 0,
            sequence: 0,
            emitter_chain: 0,
            emitter_address: [0u8; 32],
            payload: Vec::new(),
        }
    }
}

/// Posts a message: every field of `message_data` is overwritten with the given values.
/// `_sender` names the program that posts; it takes no part in what is stored.
pub fn post_message(
    message_data: &mut MessageData,
    _sender: [u8; 32],
    vaa_version: u8,
    consistency_level: u8,
    vaa_time: u32,
    vaa_signature_account: [u8; 32],
    submission_time: u32,
    nonce: u32,
    sequence: u64,
    emitter_chain: u16,
    emitter_address: [u8; 32],
    payload: Vec<u8>,
)
    ensures
        final(message_data)@ == posted(
            vaa_version,
            consistency_level,
            vaa_time,
            vaa_signature_account,
            submission_time,
            nonce,
            sequence,
            emitter_chain,
            emitter_address,
            payload@,
        ),
{
    message_data.vaa_version = vaa_version;
    message_data.consistency_level = consistency_level;
    message_data.vaa_time = vaa_time;
    message_data.vaa_signature_account = vaa_signature_account;
    message_data.submission_time = submission_time;
    message_data.nonce = nonce;
    message_data.sequence = sequence;
    message_data.emitter_chain = emitter_chain;
    message_data.emitter_address = emitter_address;
    message_data.payload = payload;
}

/// Reads a posted message: a copy of its payload and its submission time as an `i64`.
pub fn read_message(message_data: &MessageData, _sender: [u8; 32]) -> (r: (Vec<u8>, i64))
    ensures
        (r.0@, r.1) == read_back(message_data@),
{
    let payload = message_data.payload.clone();
    proof {
        assert(payload@ =~= message_data.payload@);
    }
    (payload, message_data.submission_time as i64)
}

} // verus!
