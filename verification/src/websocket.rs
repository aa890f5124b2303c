//! Websocket connection errors and the liveness check on pongs.
use vstd::prelude::*;

use crate::text::concatenate;

verus! {

/// Why a websocket connection ended.
#[derive(Debug)]
pub enum WebsocketConnectionError {
    /// Connecting failed; the text of the underlying error.
    ConnectionError(String),
    ReadClosed(String),
    WriteClosed(String),
    /// No pong came back in time.
    PongError,
    /// An internal channel, named here, was closed.
    ChannelClosed(String),
}

/// The text of a connection error, as shown in logs.
pub open spec fn connection_error_text(e: WebsocketConnectionError) -> Seq<char> {
    match e {
        WebsocketConnectionError::ConnectionError(m) => "Failed to connect to websocket: "@ + m@,
        WebsocketConnectionError::ReadClosed(m) => "Failed to read from websocket: "@ + m@,
        WebsocketConnectionError::WriteClosed(m) => "Failed to write to websocket: "@ + m@,
        WebsocketConnectionError::PongError => "Pong was not received from websocket"@,
        WebsocketConnectionError::ChannelClosed(m) => "Internal channel "@ + m@ + " was closed"@,
    }
}

impl WebsocketConnectionError {
    /// The text of the error (what `Display` writes).
    pub fn message(&self) -> (r: String)
        ensures
            r@ == connection_error_text(*self),
    {
        match self {
            WebsocketConnectionError::ConnectionError(m) => concatenate(
                "Failed to connect to websocket: ",
                m.as_str(),
            ),
            WebsocketConnectionError::ReadClosed(m) => concatenate(
                "Failed to read from websocket: ",
                m.as_str(),
            ),
            WebsocketConnectionError::WriteClosed(m) => concatenate(
                "Failed to write to websocket: ",
                m.as_str(),
            ),
            WebsocketConnectionError::PongError => "Pong was not received from websocket".to_owned(),
            WebsocketConnectionError::ChannelClosed(m) => {
                let mut r = concatenate("Internal channel ", m.as_str());
                r.append(" was closed");
                r
            },
        }
    }
}

/// How long, in nanoseconds, a connection may go without a pong.
pub const PONG_TIMEOUT_NANOS: u128 = 10_000_000_000;

/// The periodic pong check: with the time since the last pong, the
/// connection has failed when that time is over ten seconds; otherwise a
/// ping is to be sent (`Ok`).
pub fn pong_check(elapsed_nanos: u128) -> (r: Result<(), WebsocketConnectionError>)
    ensures
        elapsed_nanos > PONG_TIMEOUT_NANOS ==> r == Err::<(), _>(WebsocketConnectionError::PongError),
        elapsed_nanos <= PONG_TIMEOUT_NANOS ==> r == Ok::<(), WebsocketConnectionError>(()),
{
    if elapsed_nanos > PONG_TIMEOUT_NANOS {
        Err(WebsocketConnectionError::PongError)
    } else {
        Ok(())
    }
}

} // verus!
