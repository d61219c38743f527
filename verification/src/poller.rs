//! Polling a Kasa device: one run of a polling job fetches batches of
//! readings until the device has none left or something fails.

use vstd::prelude::*;

verus! {

/// What one fetch of a polling run came to.
pub enum PollOutcome {
    /// Another run holds the database write lock.
    Busy,
    /// The request could not be sent.
    SendFailed,
    /// The device answered with an error status.
    BadStatus,
    /// The answer did not parse as batches of readings.
    Unparsable,
    /// The answer held this many batches.
    Batches(usize),
}

/// What a polling run does next.
pub enum PollAction {
    /// End the run.
    Stop,
    /// Store the batches, then fetch again.
    Store,
    /// Fetch again.
    Again,
}

/// The next action of a polling run: it ends when the lock is held
/// elsewhere, when a request fails, when the device reports an error or
/// when no batch is left; unparsable answers are skipped; batches are
/// stored and fetching goes on.
pub open spec fn poll_action(o: PollOutcome) -> PollAction {
    match o {
        PollOutcome::Busy | PollOutcome::SendFailed | PollOutcome::BadStatus => PollAction::Stop,
        PollOutcome::Unparsable => PollAction::Again,
        PollOutcome::Batches(n) => if n == 0 {
            PollAction::Stop
        } else {
            PollAction::Store
        },
    }
}

/// Decides the next action of a polling run, as [`poll_action`] says.
pub fn poll_next(o: PollOutcome) -> (a: PollAction)
    ensures
        a == poll_action(o),
{
    match o {
        PollOutcome::Busy | PollOutcome::SendFailed | PollOutcome::BadStatus => PollAction::Stop,
        PollOutcome::Unparsable => PollAction::Again,
        PollOutcome::Batches(n) => if n == 0 {
            PollAction::Stop
        } else {
            PollAction::Store
        },
    }
}

} // verus!
