//! The counter account, how its state is packed into a bridge payload, and its creation.
use crate::error::CrossCounterError;
use crate::error::InstructionError;
use anchor_lang::prelude::ProgramError;
use vstd::prelude::*;

verus! {

/// The counter account.
#[derive(Debug, Clone, Copy, PartialEq, Eq, Structural)]
pub struct Counter {
    /// The count.
    pub value: u16,
    /// Whether this copy of the program runs instructions; the other copy is frozen.
    pub is_active: bool,
    /// Time of the last creation or activation of this counter.
    pub last_update: i64,
}

/// The two little-endian bytes of `value`.
pub open spec fn le_bytes(value: u16) -> Seq<u8> {
    seq![(value % 256) as u8, (value / 256) as u8]
}

/// The `u16` whose little-endian bytes are the two bytes of `payload`.
pub open spec fn from_le_bytes(payload: Seq<u8>) -> u16 {
    (payload[0] + 256 * payload[1]) as u16
}

/// An account whose state can be sent over the bridge as a byte payload and restored from one.
pub trait SynchronizableAccount: Sized {
    /// The payload that `package` makes of this state.
    spec fn packaged(&self) -> Seq<u8>;

    /// The payloads that `unpackage` takes.
    spec fn accepts(payload: Seq<u8>) -> bool;

    /// The state that `unpackage` leaves when handed `payload`.
    spec fn unpackaged(&self, payload: Seq<u8>) -> Self;

    /// Packs the synchronised state into a payload.
    fn package(&self) -> (r: Vec<u8>)
        ensures
            r@ == self.packaged(),
            Self::accepts(r@),
    ;

    /// Restores the synchronised state from a payload.
    fn unpackage(&mut self, payload: Vec<u8>) -> (r: Result<(), CrossCounterError>)
        requires
            Self::accepts(payload@),
        ensures
            r is Ok,
            *final(self) == old(self).unpackaged(payload@),
    ;
}

impl SynchronizableAccount for Counter {
    /// The counter's value, little-endian.
    open spec fn packaged(&self) -> Seq<u8> {
        le_bytes(self.value)
    }

    /// Exactly two bytes.
    open spec fn accepts(payload: Seq<u8>) -> bool {
        payload.len() == 2
    }

    /// The value read back from the bytes; activity and last update are kept.
    open spec fn unpackaged(&self, payload: Seq<u8>) -> Counter {
        Counter { value: from_le_bytes(payload), ..*self }
    }

    fn package(&self) -> (r: Vec<u8>) {
        let low: u8 = (self.value % 256) as u8;
        let high: u8 = (self.value / 256) as u8;
        let r = vec![low, high];
        proof {
            assert(r@ =~= le_bytes(self.value));
        }
        r
    }

    fn unpackage(&mut self, payload: Vec<u8>) -> (r: Result<(), CrossCounterError>) {
        let low: u16 = payload[0] as u16;
        let high: u16 = payload[1] as u16;
        self.value = low + 256 * high;
        Ok(())
    }
}

/// A counter created at time `now`: zero, active when it lives on mainnet.
pub open spec fn initialized(mainnet: bool, now: i64) -> Counter {
    Counter { value: 0, is_active: mainnet, last_update: now }
}

/// Creates the counter, given what the clock read: on mainnet it starts active, elsewhere
/// frozen, with the clock's time as its last update. A clock that could not be read fails the
/// instruction with the runtime's error.
pub fn handler(mainnet: bool, clock: Result<i64, ProgramError>) -> (r: Result<
    Counter,
    InstructionError,
>)
    ensures
        match clock {
            Ok(now) => r == Ok::<Counter, InstructionError>(initialized(mainnet, now)),
            Err(e) => r == Err::<Counter, InstructionError>(InstructionError::Runtime(e)),
        },
        clock matches Ok(now) ==> (r matches Ok(counter) && counter.value == 0 && counter.is_active
            == mainnet && counter.last_update == now),
{
    match clock {
        Ok(now) => Ok(Counter { value: 0, is_active: mainnet, last_update: now }),
        Err(e) => Err(InstructionError::Runtime(e)),
    }
}

} // verus!
