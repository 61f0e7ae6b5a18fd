//! The native side of a streamer service bridge: the bookkeeping of a session
//! between its start and its teardown, the decisions of the worker that checks
//! the listener round trip, the sample protocol message, and the status text
//! handed back to the managed caller.
use vstd::prelude::*;

pub mod failure;
pub mod lifecycle;
pub mod message;
pub mod status;
pub mod worker;

verus! {

/// A listener that only takes note of what it receives.
#[derive(Clone, Copy, Debug, PartialEq, Eq)]
pub struct DummyListener;

} // verus!
