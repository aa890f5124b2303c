use bittrade_websockets::exchanges::binance::websocket::public::{
    classify_frame, matching_pairs, reconnect_decision, retry_after_connection_failure, routes_to_pair, FrameAction, IncomingFrame,
    Reconnect,
};
use bittrade_websockets::websocket::{pong_check, WebsocketConnectionError, PONG_TIMEOUT_NANOS};

#[test]
fn replies_are_skipped_and_tickers_parsed() {
    let reply = classify_frame(IncomingFrame::Text("{\"result\":null,\"id\":1}".to_owned()));
    assert!(matches!(reply, FrameAction::SkipReply));
    let ticker = classify_frame(IncomingFrame::Text("{\"s\":\"BTCUSDT\",\"a\":\"1\",\"b\":\"2\"}".to_owned()));
    assert!(matches!(ticker, FrameAction::ParseTicker(t) if t.starts_with("{\"s\"")));
}

#[test]
fn control_frames() {
    assert!(matches!(classify_frame(IncomingFrame::Ping(vec![1, 2])), FrameAction::SendPong(p) if p == vec![1, 2]));
    assert!(matches!(classify_frame(IncomingFrame::Pong), FrameAction::RecordPong));
    assert!(matches!(classify_frame(IncomingFrame::Close), FrameAction::NoteClose));
    assert!(matches!(classify_frame(IncomingFrame::Other), FrameAction::NoteOther));
    assert!(matches!(
        classify_frame(IncomingFrame::ReadError("reset".to_owned())),
        FrameAction::Fail(WebsocketConnectionError::ReadClosed(m)) if m == "reset"
    ));
}

#[test]
fn reconnection_policy() {
    assert!(matches!(reconnect_decision(Ok(())), Reconnect::RetryNow));
    assert!(matches!(reconnect_decision(Err(WebsocketConnectionError::PongError)), Reconnect::RetryNow));
    assert!(matches!(
        reconnect_decision(Err(WebsocketConnectionError::ConnectionError("dns".to_owned()))),
        Reconnect::RetryAfterSeconds(5)
    ));
    assert!(matches!(
        reconnect_decision(Err(WebsocketConnectionError::WriteClosed("w".to_owned()))),
        Reconnect::RetryAfterSeconds(5)
    ));
    assert!(matches!(
        reconnect_decision(Err(WebsocketConnectionError::ChannelClosed("c".to_owned()))),
        Reconnect::Stop(WebsocketConnectionError::ChannelClosed(n)) if n == "c"
    ));
}

#[test]
fn first_task_retry_policy() {
    assert!(matches!(
        retry_after_connection_failure(Err(WebsocketConnectionError::ConnectionError("x".to_owned()))),
        Reconnect::RetryAfterSeconds(5)
    ));
    assert!(matches!(
        retry_after_connection_failure(Err(WebsocketConnectionError::PongError)),
        Reconnect::Stop(WebsocketConnectionError::PongError)
    ));
}

#[test]
fn pong_deadline_is_ten_seconds() {
    assert_eq!(PONG_TIMEOUT_NANOS, 10_000_000_000);
    assert!(pong_check(0).is_ok());
    assert!(pong_check(10_000_000_000).is_ok());
    assert!(matches!(pong_check(10_000_000_001), Err(WebsocketConnectionError::PongError)));
}

#[test]
fn connection_error_messages() {
    assert_eq!(
        WebsocketConnectionError::ConnectionError("e".to_owned()).message(),
        "Failed to connect to websocket: e"
    );
    assert_eq!(WebsocketConnectionError::ReadClosed("e".to_owned()).message(), "Failed to read from websocket: e");
    assert_eq!(WebsocketConnectionError::WriteClosed("e".to_owned()).message(), "Failed to write to websocket: e");
    assert_eq!(WebsocketConnectionError::PongError.message(), "Pong was not received from websocket");
    assert_eq!(
        WebsocketConnectionError::ChannelClosed("Write to socket sender".to_owned()).message(),
        "Internal channel Write to socket sender was closed"
    );
}

#[test]
fn ticker_updates_go_to_the_same_pair_only() {
    assert!(routes_to_pair(&"BTCUSDT".to_owned(), &"BTCUSDT".to_owned()));
    assert!(!routes_to_pair(&"BTCUSDT".to_owned(), &"BTC_USDT".to_owned()));
}

#[test]
fn ticker_updates_fan_out_to_every_matching_pair() {
    let pairs: Vec<String> = vec!["BTCUSDT".to_owned(), "ETHUSDT".to_owned(), "BTCUSDT".to_owned(), "BTC_USDT".to_owned()];
    assert_eq!(matching_pairs(&pairs, &"BTCUSDT".to_owned()), vec![0, 2]);
    assert_eq!(matching_pairs(&pairs, &"ETHUSDT".to_owned()), vec![1]);
    assert!(matching_pairs(&pairs, &"XRPUSDT".to_owned()).is_empty());
    assert!(matching_pairs(&Vec::new(), &"BTCUSDT".to_owned()).is_empty());
}
