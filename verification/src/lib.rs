//! The decision logic of a stream that is forked into many clones, each of
//! which sees every item that the shared base stream yields after the clone
//! first asked for one.

pub mod fork;
pub mod never_polled;
pub mod states;
