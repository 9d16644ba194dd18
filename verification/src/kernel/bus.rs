//! What the consumer of the event bus decides when a write fails.

use vstd::prelude::*;
use crate::kernel::backoff::Backoff;
use crate::kernel::event::{ErrorStage, EventView, KernelEvent};

verus! {

/// What the consumer of the event bus does after a failed write of an event
/// to the store.
#[derive(Debug, PartialEq)]
pub enum PersistStep {
    /// Write the event again after a pause of this many milliseconds.
    Retry { delay_ms: u64 },
    /// Leave the event unwritten, write `report` in its place if that
    /// succeeds at the first try, and go on with the next event.
    GiveUp { report: KernelEvent },
}

/// Decides what follows a failed write once `retries_made` retries of it
/// have failed too, by the schedule [`Backoff::persist_schedule`]. `message`
/// is what the store said of the last failure.
pub fn after_persist_failure(retries_made: u32, message: String) -> (step: PersistStep)
    ensures
        match step {
            PersistStep::Retry { delay_ms } => retries_made + 1
                < Backoff::persist_schedule().max_attempts && delay_ms
                == Backoff::persist_schedule().delay_ms(retries_made as nat),
            PersistStep::GiveUp { report } => retries_made + 1
                >= Backoff::persist_schedule().max_attempts && report@ == (EventView::Error {
                stage: ErrorStage::Persist,
                message: message@,
            }),
        },
{
    match Backoff::persist().retry_delay(retries_made) {
        Some(delay_ms) => PersistStep::Retry { delay_ms },
        None => PersistStep::GiveUp {
            report: KernelEvent::Error { stage: ErrorStage::Persist, message },
        },
    }
}

} // verus!
