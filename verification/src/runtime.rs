//! What the counter instructions read from the Solana runtime, through `anchor_lang`.
use anchor_lang::prelude::Clock;
use anchor_lang::prelude::ProgramError;
use anchor_lang::prelude::SolanaSysvar;
use vstd::prelude::*;

verus! {

/// The runtime's error type, `solana_program::program_error::ProgramError`, re-exported by
/// `anchor_lang`. It is carried through unread.
#[verifier::external_type_specification]
#[verifier::external_body]
pub struct ExProgramError(anchor_lang::prelude::ProgramError);

/// Marks a time as one that [`clock_unix_timestamp`] handed back. It holds of every time; its
/// definition is closed, so outside this module a time is known to carry the mark only because
/// that call returned it. A contract that states the mark of a result thereby states that the
/// result is the clock's reading, and not some other time.
pub closed spec fn from_clock(time: i64) -> bool {
    true
}

/// Reads the cluster clock with `Clock::get` (the clock sysvar, fetched by a syscall) and hands
/// back its `unix_timestamp`, or the `ProgramError` that `Clock::get` returned (off-chain, with
/// the default syscall stubs, that is `UnsupportedSysvar`). Nothing is stated of the time itself,
/// which is when the instruction runs; it carries the mark [`from_clock`], which holds of every
/// time.
#[verifier::external_body]
pub(crate) fn clock_unix_timestamp() -> (r: Result<i64, ProgramError>)
    ensures
        r matches Ok(time) ==> from_clock(time),
{
    match Clock::get() {
        Ok(clock) => Ok(clock.unix_timestamp),
        Err(e) => Err(e),
    }
}

} // verus!
