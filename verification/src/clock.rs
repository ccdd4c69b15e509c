//! Wall-clock access.
//!
//! The status record stamps every mutation with wall-clock seconds.  Reading
//! the clock is the one effect the core cannot compute itself: the reading
//! depends on the machine, so nothing is promised about the value, and every
//! caller states what holds whatever the clock returned.

use vstd::prelude::*;

verus! {

/// The wall clock could not be read: the system clock reads earlier than the
/// Unix epoch, so no seconds-since-epoch value exists.
#[derive(Clone, Copy, PartialEq, Eq, Structural, Debug)]
pub enum ClockError {
    BeforeEpoch,
}

/// Relies on `std::time::SystemTime::now` and
/// `std::time::SystemTime::duration_since`: the result is the current wall
/// clock as whole seconds since the Unix epoch, or an error when the clock
/// reads earlier than the epoch.  The reading depends on the machine and the
/// moment, so no clause constrains it.
#[verifier::external_body]
pub(crate) fn wall_clock_seconds() -> Result<u64, ClockError> {
    match std::time::SystemTime::now().duration_since(std::time::UNIX_EPOCH) {
        Ok(d) => Ok(d.as_secs()),
        Err(_) => Err(ClockError::BeforeEpoch),
    }
}

} // verus!
