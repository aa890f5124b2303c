//! The price socket of a pair: when to set its listener up again.
use vstd::prelude::*;

use crate::unix_socket::UnixSocketError;

verus! {

/// What to do after serving a price socket ended.
pub enum ListenerRetry {
    Stop,
    RetryAfterSeconds(u64),
}

/// The retry policy of a price socket: it ends when serving completed or
/// failed fatally, and is set up again a second after a connection error.
pub open spec fn listener_policy(outcome: Result<(), UnixSocketError>) -> ListenerRetry {
    match outcome {
        Ok(()) => ListenerRetry::Stop,
        Err(UnixSocketError::Fatal(_)) => ListenerRetry::Stop,
        Err(UnixSocketError::ConnectionError(_)) => ListenerRetry::RetryAfterSeconds(1),
    }
}

/// What to do after serving a price socket ended, by `listener_policy`.
pub fn listener_retry(outcome: &Result<(), UnixSocketError>) -> (r: ListenerRetry)
    ensures
        r == listener_policy(*outcome),
{
    match outcome {
        Ok(()) => ListenerRetry::Stop,
        Err(UnixSocketError::Fatal(_)) => ListenerRetry::Stop,
        Err(UnixSocketError::ConnectionError(_)) => ListenerRetry::RetryAfterSeconds(1),
    }
}

} // verus!
