//! The poller's decisions: what one cycle does with the rows it read, and when
//! the next cycle starts.

use vstd::prelude::*;

use crate::record::LanguageTranslation;
use crate::shared::{write_with, SharedStore, WriteOutcome};
use crate::store::{batch_view, published, TranslationStore};

verus! {

/// Seconds that the poller rests after a cycle that published.
pub const POLL_INTERVAL_SECS: u64 = 1;

/// When the next cycle starts.
#[derive(Clone, Copy, Debug, PartialEq, Eq, Structural)]
pub enum NextPoll {
    /// After a rest of so many seconds.
    AfterRest { seconds: u64 },
    /// At once, with a fresh query: the write was contended.
    AtOnce,
}

/// The rule of the loop: rest after a batch that went in, retry at once after
/// one that did not.
pub open spec fn next_poll_after(outcome: WriteOutcome) -> NextPoll {
    match outcome {
        WriteOutcome::Published => NextPoll::AfterRest { seconds: POLL_INTERVAL_SECS },
        WriteOutcome::Contended => NextPoll::AtOnce,
    }
}

/// When to poll next, given how the write of this cycle ended.
pub fn next_poll(outcome: WriteOutcome) -> (next: NextPoll)
    ensures
        next == next_poll_after(outcome),
{
    match outcome {
        WriteOutcome::Published => NextPoll::AfterRest { seconds: POLL_INTERVAL_SECS },
        WriteOutcome::Contended => NextPoll::AtOnce,
    }
}

/// One cycle on a store that may or may not be had: publishes the records and
/// rests, or leaves everything as it is and asks for an immediate retry.
pub fn cycle_with(
    access: Option<&mut TranslationStore>,
    records: Vec<LanguageTranslation>,
) -> (next: NextPoll)
    ensures
        match access {
            Some(store) => next == (NextPoll::AfterRest { seconds: POLL_INTERVAL_SECS })
                && final(store)@ == published(store@, batch_view(records@)),
            None => next == NextPoll::AtOnce,
        },
{
    next_poll(write_with(access, records))
}

/// One cycle on the shared store, with the records that this cycle's query gave.
pub fn poll_cycle(store: &SharedStore, records: Vec<LanguageTranslation>) -> (next: NextPoll)
    ensures
        next == NextPoll::AtOnce || next == (NextPoll::AfterRest { seconds: POLL_INTERVAL_SECS }),
{
    next_poll(store.write(records))
}

} // verus!
