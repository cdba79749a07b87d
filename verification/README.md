# forked_stream

The verified decision logic of a stream forked into clones that share one base
stream.

- `src/fork.rs`: `Fork`, the state the clones share (the queue of items kept
  for clones that have not seen them, the next queue index, and which clones
  still wait for the base stream), with its invariant.
- `src/states.rs`: the clone states and the result of handling a poll.
- `src/never_polled.rs`: the transition out of `NeverPolled`, given what the
  base stream answered, and the law that a queued item becomes the most recent.
- `app/lib.rs`: polling the base stream, and the `Arc<Mutex<..>>` wrappers
  that make the stream cloneable.
