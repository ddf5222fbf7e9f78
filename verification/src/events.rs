//! The rule of a Module's event streams.
//!
//! Live data is a notification channel, not a queue: each subscriber may
//! fall [`BACKLOG`] events behind before it starts missing them, and a
//! subscriber that lagged skips to the newest events rather than ending its
//! subscription. A subscriber that cannot keep up re-reads through a query.

use vstd::prelude::*;

verus! {

/// How many events one slow subscriber may fall behind before it starts
/// missing them.
pub const BACKLOG: usize = 64;

/// What a subscriber's receiver reported.
pub enum Received<T> {
    /// The next event.
    Event(T),
    /// The subscriber fell behind and this many events were dropped for it.
    Lagged(u64),
    /// The channel closed: no publisher is left.
    Closed,
}

/// What the subscription stream does next.
pub enum StreamStep<T> {
    /// Hand the event to the subscriber.
    Yield(T),
    /// Receive again, from the newest events.
    Skip,
    /// End the stream.
    End,
}

/// The stream's next step for what the receiver reported: an event is
/// handed on, a lag is skipped over, and only a closed channel ends the
/// stream.
pub fn next_step<T>(received: Received<T>) -> (step: StreamStep<T>)
    ensures
        match received {
            Received::Event(event) => step == StreamStep::Yield(event),
            Received::Lagged(_) => step is Skip,
            Received::Closed => step is End,
        },
{
    match received {
        Received::Event(event) => StreamStep::Yield(event),
        Received::Lagged(_) => StreamStep::Skip,
        Received::Closed => StreamStep::End,
    }
}

} // verus!
