use bittrade_websockets::registry::Registry;
use bittrade_websockets::exchanges::binance;
use bittrade_websockets::exchanges::binance::messages;

#[test]
fn hand_written_message_strips_separator_and_lowercases() {
    let pairs = vec!["XRP_USDT".to_owned(), "BTC_USDT".to_owned()];
    assert_eq!(
        binance::create_binance_subscription_message(&pairs),
        r#"{"method": "SUBSCRIBE", "params": ["xrpusdt@bookTicker", "btcusdt@bookTicker"]}"#
    );
}

#[test]
fn hand_written_message_without_pairs() {
    assert_eq!(
        binance::create_binance_subscription_message(&Vec::new()),
        r#"{"method": "SUBSCRIBE", "params": []}"#
    );
}

#[test]
fn hand_written_message_from_lowercase_pairs() {
    let pairs = vec!["eth_btc".to_owned()];
    assert_eq!(
        binance::subscription_message_from_lowercase(&pairs),
        r#"{"method": "SUBSCRIBE", "params": ["ethbtc@bookTicker"]}"#
    );
}

#[test]
fn json_message_keeps_pairs_as_given_in_lower_case() {
    let pairs = vec!["XRPUSDT".to_owned(), "BTC_USDT".to_owned()];
    assert_eq!(
        messages::create_binance_subscription_message(&pairs),
        r#"{"method":"SUBSCRIBE","params":["xrpusdt@bookTicker","btc_usdt@bookTicker"]}"#
    );
}

#[test]
fn json_message_without_pairs() {
    assert_eq!(
        messages::create_binance_subscription_message(&Vec::new()),
        r#"{"method":"SUBSCRIBE","params":[]}"#
    );
}

#[test]
fn json_message_escapes_quotes() {
    let pairs = vec!["a\"b".to_owned()];
    assert_eq!(
        messages::subscription_message_from_lowercase(&pairs),
        r#"{"method":"SUBSCRIBE","params":["a\"b@bookTicker"]}"#
    );
}

#[test]
fn json_message_escapes_control_characters() {
    let pairs = vec!["x\u{1}\n".to_owned()];
    assert_eq!(
        messages::subscription_message_from_lowercase(&pairs),
        "{\"method\":\"SUBSCRIBE\",\"params\":[\"x\\u0001\\n@bookTicker\"]}"
    );
}

#[test]
fn json_message_params_match_serde_of_the_channels() {
    let pairs = vec!["ABC_DEF".to_owned(), "GH".to_owned()];
    let params = serde_json::to_string(&vec![
        "abc_def@bookTicker".to_owned(),
        "gh@bookTicker".to_owned(),
    ])
    .unwrap();
    let expected = format!("{{\"method\":\"SUBSCRIBE\",\"params\":{}}}", params);
    assert_eq!(messages::create_binance_subscription_message(&pairs), expected);
}

#[test]
fn new_pairs_are_subscribed_once() {
    let mut registry: Registry<String, ()> = Registry::new();
    let first = binance::subscribe_new_pair(&mut registry, "XRPUSDT".to_owned());
    assert_eq!(
        first,
        Some(r#"{"method":"SUBSCRIBE","params":["xrpusdt@bookTicker"]}"#.to_owned())
    );
    assert_eq!(binance::subscribe_new_pair(&mut registry, "XRPUSDT".to_owned()), None);
    assert_eq!(registry.len(), 1);
}

#[test]
fn repeated_pairs_get_one_subscription_each_in_arrival_order() {
    let mut registry: Registry<String, ()> = Registry::new();
    let mut queued = Vec::new();
    for p in ["AAA", "BBB", "AAA", "CCC", "BBB"] {
        if let Some(m) = binance::subscribe_new_pair(&mut registry, p.to_owned()) {
            queued.push(m);
        }
    }
    assert_eq!(
        queued,
        vec![
            r#"{"method":"SUBSCRIBE","params":["aaa@bookTicker"]}"#.to_owned(),
            r#"{"method":"SUBSCRIBE","params":["bbb@bookTicker"]}"#.to_owned(),
            r#"{"method":"SUBSCRIBE","params":["ccc@bookTicker"]}"#.to_owned(),
        ]
    );
    assert_eq!(registry.len(), 3);
}
