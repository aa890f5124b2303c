//! A listener that forwards, from a broadcast channel, the messages a filter
//! accepts.
use vstd::prelude::*;

verus! {

/// What the listener does with one receive.
pub enum ListenerStep {
    Forward,
    Skip,
    Stop,
}

/// A received message is forwarded when the filter accepts it and skipped
/// otherwise; a failed receive ends the listener.
pub fn pair_listener_step(received: bool, accepted: bool) -> (r: ListenerStep)
    ensures
        r == (if !received {
            ListenerStep::Stop
        } else if accepted {
            ListenerStep::Forward
        } else {
            ListenerStep::Skip
        }),
{
    if !received {
        ListenerStep::Stop
    } else if accepted {
        ListenerStep::Forward
    } else {
        ListenerStep::Skip
    }
}

} // verus!
