use vstd::prelude::*;

use crate::never_polled::NeverPolled;

verus! {

/// The outcome of polling a stream: an item is there, or not yet.
pub enum PollResult<T> {
    Ready(T),
    Pending,
}

/// A clone that polled while the queue was empty and the base stream was
/// ready, so it has consumed that item.
#[derive(Clone, Copy)]
pub struct QueueEmptyThenBaseReady;

/// A clone that polled while the queue was empty and the base stream had no
/// item; it holds the waker to notify when one arrives.
pub struct QueueEmptyThenBasePending<W> {
    pub waker: W,
}

/// A clone that has seen every queued item and is waiting on the base stream.
/// It remembers the index of the most recent queued item it has seen.
pub struct NoUnseenQueuedThenBasePending<W> {
    pub most_recent_queue_item_index: usize,
    pub waker: W,
}

/// The state a clone of the forked stream is in.
pub enum CloneState<W> {
    NeverPolled(NeverPolled),
    QueueEmptyThenBaseReady(QueueEmptyThenBaseReady),
    QueueEmptyThenBasePending(QueueEmptyThenBasePending<W>),
    NoUnseenQueuedThenBasePending(NoUnseenQueuedThenBasePending<W>),
}

/// What handling a poll of one clone yields: the state the clone moves to,
/// and the answer its poll gets.
pub struct NewStateAndPollResult<T, W> {
    pub new_state: CloneState<W>,
    pub poll_result: PollResult<T>,
}

} // verus!
