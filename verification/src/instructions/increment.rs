//! Counting up on the active copy of the program.
use crate::error::CrossCounterError;
use crate::instructions::initialize::Counter;
use vstd::prelude::*;

verus! {

/// What incrementing does to a counter: refused while the program is inactive, else the value
/// goes up by one and nothing else changes.
pub open spec fn increment_outcome(counter: Counter) -> Result<Counter, CrossCounterError> {
    if !counter.is_active {
        Err(CrossCounterError::InactiveProgram)
    } else {
        Ok(Counter { value: (counter.value + 1) as u16, ..counter })
    }
}

/// Increments the counter. Fails with `InactiveProgram`, changing nothing, while the program is
/// inactive. (An active counter at `u16::MAX` cannot be incremented: the addition overflows.)
pub fn handler(counter: &mut Counter) -> (r: Result<(), CrossCounterError>)
    requires
        old(counter).is_active ==> old(counter).value < u16::MAX,
    ensures
        match increment_outcome(*old(counter)) {
            Ok(next) => r is Ok && *final(counter) == next,
            Err(e) => r == Err::<(), CrossCounterError>(e) && *final(counter) == *old(counter),
        },
        old(counter).is_active ==> r is Ok && final(counter).value == old(counter).value + 1
            && final(counter).is_active && final(counter).last_update == old(counter).last_update,
        !old(counter).is_active ==> r == Err::<(), CrossCounterError>(
            CrossCounterError::InactiveProgram,
        ),
{
    if !counter.is_active {
        return Err(CrossCounterError::InactiveProgram);
    }
    counter.value = counter.value + 1;
    Ok(())
}

} // verus!
