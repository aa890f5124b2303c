//! Decisions of the price sockets: keeping the latest price line, feeding
//! each client, and the errors of setting a socket up.
use vstd::prelude::*;

use crate::text::concatenate;
use vstd::string::StrSliceExecFns;

verus! {

/// Why serving a price socket stopped.
#[derive(Debug)]
pub enum UnixSocketError {
    /// Serving cannot go on.
    Fatal(String),
    /// The socket could not be set up; worth retrying.
    ConnectionError(String),
}

impl UnixSocketError {
    /// The error for a stale socket file that could not be removed.
    pub fn remove_failed(detail: &str) -> (r: UnixSocketError)
        ensures
            r matches UnixSocketError::Fatal(m) && m@ == "Failed to remove existing unix socket file: "@
                + detail@,
    {
        UnixSocketError::Fatal(concatenate("Failed to remove existing unix socket file: ", detail))
    }

    /// The error for a socket that could not be bound at `path`.
    pub fn bind_failed(path: &str, detail: &str) -> (r: UnixSocketError)
        ensures
            r matches UnixSocketError::ConnectionError(m) && m@ == "Failed to bind to unix socket "@
                + path@ + ": "@ + detail@,
    {
        let mut m = concatenate("Failed to bind to unix socket ", path);
        m.append(": ");
        m.append(detail);
        UnixSocketError::ConnectionError(m)
    }

    /// The error for any other I/O failure, carrying its text.
    pub fn from_io_text(detail: String) -> (r: UnixSocketError)
        ensures
            r == UnixSocketError::ConnectionError(detail),
    {
        UnixSocketError::ConnectionError(detail)
    }
}

/// What a broadcast receiver got.
pub enum BroadcastEvent {
    Message(String),
    /// Some messages were missed; how many.
    Lagged(u64),
    Closed,
}

/// The latest message after an event, and whether to keep listening: a
/// message becomes the latest, missed messages change nothing, and listening
/// ends when the channel closes.
pub open spec fn keep_latest(latest: Option<String>, event: BroadcastEvent) -> (Option<String>, bool) {
    match event {
        BroadcastEvent::Message(m) => (Some(m), true),
        BroadcastEvent::Lagged(_) => (latest, true),
        BroadcastEvent::Closed => (latest, false),
    }
}

/// Keeps the latest message seen (`keep_latest`); the result says whether
/// to keep listening.
pub fn keep_latest_step(latest: &mut Option<String>, event: BroadcastEvent) -> (r: bool)
    ensures
        (*final(latest), r) == keep_latest(*old(latest), event),
{
    match event {
        BroadcastEvent::Message(m) => {
            *latest = Some(m);
            true
        },
        BroadcastEvent::Lagged(_) => true,
        BroadcastEvent::Closed => false,
    }
}

/// How a client's feed ends.
pub enum FeedEnd {
    /// The client went away; not an error.
    ClientGone,
    /// The broadcast channel closed.
    ChannelClosed,
}

/// What a client's feed does with a broadcast event.
pub enum FeedStep {
    Write(String),
    Skip,
    Finish(FeedEnd),
}

/// A client gets every message; missed messages are skipped; the feed ends
/// when the channel closes.
pub fn feed_step(event: BroadcastEvent) -> (r: FeedStep)
    ensures
        r == match event {
            BroadcastEvent::Message(m) => FeedStep::Write(m),
            BroadcastEvent::Lagged(_) => FeedStep::Skip,
            BroadcastEvent::Closed => FeedStep::Finish(FeedEnd::ChannelClosed),
        },
{
    match event {
        BroadcastEvent::Message(m) => FeedStep::Write(m),
        BroadcastEvent::Lagged(_) => FeedStep::Skip,
        BroadcastEvent::Closed => FeedStep::Finish(FeedEnd::ChannelClosed),
    }
}

/// Whether a client's feed ends after a write: a write that failed means the
/// client went away.
pub fn after_write(written: bool) -> (r: Option<FeedEnd>)
    ensures
        r == (if written {
            None::<FeedEnd>
        } else {
            Some(FeedEnd::ClientGone)
        }),
{
    if written {
        None
    } else {
        Some(FeedEnd::ClientGone)
    }
}

/// The outcome of a finished feed: a client that went away is a normal end,
/// a closed channel is a failure.
pub fn feed_result(end: FeedEnd) -> (r: Result<(), ()>)
    ensures
        r == (match end {
            FeedEnd::ClientGone => Ok::<(), ()>(()),
            FeedEnd::ChannelClosed => Err(()),
        }),
{
    match end {
        FeedEnd::ClientGone => Ok(()),
        FeedEnd::ChannelClosed => Err(()),
    }
}

/// The bytes a new client receives first: the latest message, if any.
pub fn greeting(latest: &Option<String>) -> (r: Option<Vec<u8>>)
    ensures
        match latest {
            Some(m) => r matches Some(b) && b@ == vstd::utf8::encode_utf8(m@),
            None => r is None,
        },
{
    match latest {
        Some(m) => Some(m.as_str().as_bytes_vec()),
        None => None,
    }
}

/// The latest message and whether listening goes on after a whole run of
/// events, taken in order; events after the channel closed are not read.
pub open spec fn keep_latest_over(latest: Option<String>, events: Seq<BroadcastEvent>) -> (
    Option<String>,
    bool,
)
    decreases events.len(),
{
    if events.len() == 0 {
        (latest, true)
    } else {
        let (before, going) = keep_latest_over(latest, events.drop_last());
        if going {
            keep_latest(before, events.last())
        } else {
            (before, false)
        }
    }
}

/// The last message among the events, if any.
pub open spec fn last_message(events: Seq<BroadcastEvent>) -> Option<String>
    decreases events.len(),
{
    if events.len() == 0 {
        None
    } else {
        match events.last() {
            BroadcastEvent::Message(m) => Some(m),
            _ => last_message(events.drop_last()),
        }
    }
}

/// Whether the channel closes somewhere in the events.
pub open spec fn closes(events: Seq<BroadcastEvent>) -> bool {
    exists|i: int| 0 <= i < events.len() && #[trigger] events[i] is Closed
}

/// Over messages m1..mk with missed messages between them and no close, the
/// latest value is mk (or stays as it was when no message came) and
/// listening goes on; listening stops exactly when the channel closes.
pub proof fn latest_over_a_stream(latest: Option<String>, events: Seq<BroadcastEvent>)
    ensures
        !closes(events) ==> keep_latest_over(latest, events) == (
            match last_message(events) {
                Some(m) => Some(m),
                None => latest,
            },
            true,
        ),
        keep_latest_over(latest, events).1 == !closes(events),
    decreases events.len(),
{
    if events.len() > 0 {
        let init = events.drop_last();
        latest_over_a_stream(latest, init);
        if closes(init) {
            let i: int = choose|i: int| 0 <= i < init.len() && #[trigger] init[i] is Closed;
            assert(events[i] is Closed);
        }
        if closes(events) && !closes(init) {
            let i: int = choose|i: int| 0 <= i < events.len() && #[trigger] events[i] is Closed;
            if i < init.len() {
                assert(init[i] is Closed);
            }
        }
        if !closes(events) {
            assert(!(events[events.len() - 1] is Closed));
            assert forall|i: int| 0 <= i < init.len() implies !(#[trigger] init[i] is Closed) by {
                assert(init[i] == events[i]);
            }
        } else if !closes(init) {
            assert(events.last() is Closed);
        }
    }
}

/// Running the step function over events, one at a time, follows
/// `keep_latest_over`.
pub proof fn step_extends_run(latest: Option<String>, events: Seq<BroadcastEvent>, next: BroadcastEvent)
    requires
        keep_latest_over(latest, events).1,
    ensures
        keep_latest_over(latest, events.push(next)) == keep_latest(
            keep_latest_over(latest, events).0,
            next,
        ),
{
    assert(events.push(next).drop_last() =~= events);
}

/// After a message, the latest value is that message, whatever came before.
pub proof fn latest_is_last_message(before: Option<String>, m: String, missed: u64)
    ensures
        keep_latest(before, BroadcastEvent::Message(m)) == (Some(m), true),
        keep_latest(
            keep_latest(before, BroadcastEvent::Message(m)).0,
            BroadcastEvent::Lagged(missed),
        ).0 == Some(m),
{
}

} // verus!
