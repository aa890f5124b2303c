//! Decisions of the public Binance websocket connection: what to do with each
//! frame read, and whether to connect again after a connection ends.
use vstd::prelude::*;

use crate::text::{contains_text, has_infix, str_equal};
use crate::websocket::WebsocketConnectionError;

verus! {

/// The marker by which Binance's replies to requests are told apart from
/// ticker updates.
pub const RESULT_MARKER: &'static str = "\"result\":";

/// A frame read from the websocket.
pub enum IncomingFrame {
    Text(String),
    Ping(Vec<u8>),
    Pong,
    Close,
    Other,
    /// Reading failed; the text of the error.
    ReadError(String),
}

/// What to do with a frame.
pub enum FrameAction {
    /// A reply to a request: nothing to do.
    SkipReply,
    /// A ticker update to decode and pass on.
    ParseTicker(String),
    /// Answer a ping with a pong carrying the same data.
    SendPong(Vec<u8>),
    /// Note the time of the pong.
    RecordPong,
    /// The server is closing; the socket closes on its own.
    NoteClose,
    /// A frame of no interest.
    NoteOther,
    /// The connection has ended.
    Fail(WebsocketConnectionError),
}

/// The action for a frame: texts holding the reply marker are replies,
/// other texts are ticker updates; a read error ends the connection.
pub fn classify_frame(frame: IncomingFrame) -> (r: FrameAction)
    ensures
        r == match frame {
            IncomingFrame::Text(t) => if has_infix(t@, RESULT_MARKER@) {
                FrameAction::SkipReply
            } else {
                FrameAction::ParseTicker(t)
            },
            IncomingFrame::Ping(p) => FrameAction::SendPong(p),
            IncomingFrame::Pong => FrameAction::RecordPong,
            IncomingFrame::Close => FrameAction::NoteClose,
            IncomingFrame::Other => FrameAction::NoteOther,
            IncomingFrame::ReadError(e) => FrameAction::Fail(
                WebsocketConnectionError::ReadClosed(e),
            ),
        },
{
    match frame {
        IncomingFrame::Text(t) => {
            if contains_text(t.as_str(), RESULT_MARKER) {
                FrameAction::SkipReply
            } else {
                FrameAction::ParseTicker(t)
            }
        },
        IncomingFrame::Ping(p) => FrameAction::SendPong(p),
        IncomingFrame::Pong => FrameAction::RecordPong,
        IncomingFrame::Close => FrameAction::NoteClose,
        IncomingFrame::Other => FrameAction::NoteOther,
        IncomingFrame::ReadError(e) => FrameAction::Fail(WebsocketConnectionError::ReadClosed(e)),
    }
}

/// Whether a ticker update for `message_pair` goes to the channel of the
/// pair registered as `registered_pair`: exactly when the two are the same
/// text.
pub fn routes_to_pair(message_pair: &String, registered_pair: &String) -> (r: bool)
    ensures
        r == (message_pair@ == registered_pair@),
{
    str_equal(message_pair.as_str(), registered_pair.as_str())
}

/// The registered pairs that a ticker update for `message_pair` is handed
/// to: the positions in `pairs` of every entry routed to by `routes_to_pair`,
/// each once, in order.
pub fn matching_pairs(pairs: &Vec<String>, message_pair: &String) -> (r: Vec<usize>)
    ensures
        forall|k: int| 0 <= k < r@.len() ==> (r@[k] as int) < pairs@.len() && pairs@[r@[k] as int]@ == message_pair@,
        forall|k: int, l: int| 0 <= k < l < r@.len() ==> r@[k] < r@[l],
        forall|i: int|
            0 <= i < pairs@.len() && pairs@[i]@ == message_pair@ ==> exists|k: int|
                0 <= k < r@.len() && r@[k] as int == i,
{
    let mut r: Vec<usize> = Vec::new();
    let mut i: usize = 0;
    while i < pairs.len()
        invariant
            i <= pairs@.len(),
            forall|k: int| 0 <= k < r@.len() ==> (r@[k] as int) < i && pairs@[r@[k] as int]@ == message_pair@,
            forall|k: int, l: int| 0 <= k < l < r@.len() ==> r@[k] < r@[l],
            forall|j: int|
                0 <= j < i && pairs@[j]@ == message_pair@ ==> exists|k: int|
                    0 <= k < r@.len() && r@[k] as int == j,
        decreases pairs@.len() - i,
    {
        let ghost before = r@;
        if routes_to_pair(message_pair, &pairs[i]) {
            r.push(i);
            assert(r@[r@.len() - 1] as int == i);
        }
        assert forall|j: int|
            0 <= j < i + 1 && pairs@[j]@ == message_pair@ implies exists|k: int|
                0 <= k < r@.len() && r@[k] as int == j by {
            if j == i {
                assert(r@[r@.len() - 1] as int == j);
            } else {
                let k = choose|k: int| 0 <= k < before.len() && before[k] as int == j;
                assert(r@[k] as int == j);
            }
        }
        i = i + 1;
    }
    r
}

/// What to do after a connection has ended.
pub enum Reconnect {
    RetryNow,
    RetryAfterSeconds(u64),
    /// Give up with this error.
    Stop(WebsocketConnectionError),
}

/// The reconnection policy: a closed internal channel is fatal; a missed
/// pong (or a clean end) reconnects at once; any other failure waits five
/// seconds.
pub open spec fn reconnect_policy(outcome: Result<(), WebsocketConnectionError>) -> Reconnect {
    match outcome {
        Ok(()) => Reconnect::RetryNow,
        Err(WebsocketConnectionError::ChannelClosed(name)) => Reconnect::Stop(
            WebsocketConnectionError::ChannelClosed(name),
        ),
        Err(WebsocketConnectionError::PongError) => Reconnect::RetryNow,
        Err(_) => Reconnect::RetryAfterSeconds(5),
    }
}

/// What to do after a connection ended, by `reconnect_policy`.
pub fn reconnect_decision(outcome: Result<(), WebsocketConnectionError>) -> (r: Reconnect)
    ensures
        r == reconnect_policy(outcome),
{
    match outcome {
        Ok(()) => Reconnect::RetryNow,
        Err(WebsocketConnectionError::ChannelClosed(name)) => Reconnect::Stop(
            WebsocketConnectionError::ChannelClosed(name),
        ),
        Err(WebsocketConnectionError::PongError) => Reconnect::RetryNow,
        Err(_) => Reconnect::RetryAfterSeconds(5),
    }
}

/// The policy of the first websocket task: a failed connection is retried
/// after five seconds, any other end drops the exchange.
pub fn retry_after_connection_failure(outcome: Result<(), WebsocketConnectionError>) -> (r:
    Reconnect)
    ensures
        r == match outcome {
            Ok(()) => Reconnect::RetryNow,
            Err(WebsocketConnectionError::ConnectionError(_)) => Reconnect::RetryAfterSeconds(5),
            Err(e) => Reconnect::Stop(e),
        },
{
    match outcome {
        Ok(()) => Reconnect::RetryNow,
        Err(WebsocketConnectionError::ConnectionError(_)) => Reconnect::RetryAfterSeconds(5),
        Err(e) => Reconnect::Stop(e),
    }
}

/// After a connection ends, it is tried again at once exactly when it ended
/// cleanly or for a missed pong; every other failure but a closed internal
/// channel waits five seconds first; a closed channel stops with that error.
pub proof fn only_clean_ends_and_missed_pongs_retry_at_once(
    outcome: Result<(), WebsocketConnectionError>,
)
    ensures
        (reconnect_policy(outcome) == Reconnect::RetryNow) <==> (outcome is Ok || outcome
            == Err::<(), WebsocketConnectionError>(WebsocketConnectionError::PongError)),
        forall|e: WebsocketConnectionError|
            outcome == Err::<(), WebsocketConnectionError>(e) && !(e is PongError) && !(
            e is ChannelClosed) ==> reconnect_policy(outcome) == Reconnect::RetryAfterSeconds(5),
        forall|e: WebsocketConnectionError|
            outcome == Err::<(), WebsocketConnectionError>(e) && (e is ChannelClosed)
                ==> reconnect_policy(outcome) == Reconnect::Stop(e),
{
}

/// Only a closed internal channel stops the reconnecting connection.
pub proof fn only_closed_channels_stop(outcome: Result<(), WebsocketConnectionError>)
    ensures
        (reconnect_policy(outcome) is Stop) <==> (outcome matches Err(
            WebsocketConnectionError::ChannelClosed(_),
        )),
{
}

} // verus!
