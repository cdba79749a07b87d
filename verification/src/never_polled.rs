use vstd::prelude::*;

use crate::fork::{greatest_queue_index, indices_below, is_greatest_index, some_clone_waits_for_base, Fork};
use crate::states::{
    CloneState, NewStateAndPollResult, NoUnseenQueuedThenBasePending, PollResult,
    QueueEmptyThenBasePending, QueueEmptyThenBaseReady,
};

verus! {

/// The state of a clone that has not been polled yet.
#[derive(Default, Clone, Copy)]
pub struct NeverPolled;

/// The queue after an item of the base stream arrived at a clone that had
/// never been polled: with a clone of `item` under `index` where another
/// clone still waits for the base stream, unchanged otherwise.
pub open spec fn queue_after_ready<V: Clone>(
    old_queue: Map<usize, V>,
    new_queue: Map<usize, V>,
    index: usize,
    item: V,
    queued: bool,
) -> bool {
    if queued {
        &&& new_queue.dom() == old_queue.dom().insert(index)
        &&& cloned(item, new_queue[index])
        &&& forall|k: usize| #[trigger] old_queue.contains_key(k) && k != index ==> new_queue[k] == old_queue[k]
    } else {
        new_queue == old_queue
    }
}

/// An item that a first poll queues becomes the most recent item of the
/// queue: on a well-formed fork, its index is greater than every index
/// already queued, so a clone that next finds the base stream pending waits
/// after that very item.
pub proof fn lemma_queued_item_is_most_recent<V: Clone>(
    old_queue: Map<usize, V>,
    new_queue: Map<usize, V>,
    index: usize,
    item: V,
)
    requires
        indices_below(old_queue, index),
        queue_after_ready(old_queue, new_queue, index, item, true),
    ensures
        is_greatest_index(new_queue, index),
{
    assert forall|j: usize| #[trigger] new_queue.contains_key(j) implies j <= index by {
        assert(new_queue.dom().contains(j));
        if j != index {
            assert(old_queue.contains_key(j));
        }
    }
    assert(new_queue.dom().contains(index));
}

impl NeverPolled {
    /// The name of this state.
    pub fn to_string(&self) -> (s: String)
        ensures
            s@ == "NeverPolled"@,
    {
        String::from_str("NeverPolled")
    }

    /// Handles the first poll of a clone, given what the base stream answered
    /// when polled on the clone's behalf and the waker of the polling task.
    ///
    /// A ready item is handed to the clone as it came, and a clone of it is
    /// queued for the other clones when one of them still waits for the base
    /// stream; the clone then moves to `QueueEmptyThenBaseReady`. When the base
    /// stream has nothing, the clone keeps the waker and waits: on the base
    /// stream alone if the queue is empty, else after the most recent queued
    /// item, which it does not need to see.
    pub fn handle<V: Clone, W>(self, base_poll: PollResult<V>, waker: W, fork: &mut Fork<V>) -> (res:
        NewStateAndPollResult<V, W>)
        requires
            base_poll is Ready && some_clone_waits_for_base(old(fork).clones@)
                ==> old(fork).next_queue_index < usize::MAX,
        ensures
            old(fork).well_formed() ==> final(fork).well_formed(),
            final(fork).clones@ == old(fork).clones@,
            match base_poll {
                PollResult::Ready(item) => {
                    let queued = some_clone_waits_for_base(old(fork).clones@);
                    &&& res.poll_result == PollResult::Ready(item)
                    &&& res.new_state == CloneState::<W>::QueueEmptyThenBaseReady(QueueEmptyThenBaseReady)
                    &&& queue_after_ready(old(fork).queue@, final(fork).queue@, old(fork).next_queue_index, item, queued)
                    &&& final(fork).next_queue_index == old(fork).next_queue_index + if queued { 1int } else { 0int }
                },
                PollResult::Pending => {
                    &&& res.poll_result == PollResult::<V>::Pending
                    &&& final(fork).queue@ == old(fork).queue@
                    &&& final(fork).next_queue_index == old(fork).next_queue_index
                    &&& if old(fork).queue@.is_empty() {
                        res.new_state == CloneState::QueueEmptyThenBasePending(QueueEmptyThenBasePending { waker })
                    } else {
                        &&& res.new_state matches CloneState::NoUnseenQueuedThenBasePending(s)
                        &&& s.waker == waker
                        &&& is_greatest_index(old(fork).queue@, s.most_recent_queue_item_index)
                    }
                },
            },
    {
        match base_poll {
            PollResult::Ready(item) => {
                if fork.some_clone_should_still_see_base_item() {
                    let queued_item = item.clone();
                    fork.queue.insert(fork.next_queue_index, queued_item);
                    fork.next_queue_index += 1;
                }
                NewStateAndPollResult {
                    new_state: CloneState::QueueEmptyThenBaseReady(QueueEmptyThenBaseReady),
                    poll_result: PollResult::Ready(item),
                }
            },
            PollResult::Pending => NewStateAndPollResult {
                poll_result: PollResult::Pending,
                new_state: match greatest_queue_index(&fork.queue) {
                    None => CloneState::QueueEmptyThenBasePending(QueueEmptyThenBasePending { waker }),
                    Some(most_recent_queue_item_index) => CloneState::NoUnseenQueuedThenBasePending(
                        NoUnseenQueuedThenBasePending { most_recent_queue_item_index, waker },
                    ),
                },
            },
        }
    }
}

} // verus!
