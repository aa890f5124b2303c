use bittrade_websockets::exchanges::binance::exchange::{
    get_default_private_url, get_default_public_url, BinanceAddOutcome, BinanceExchange,
};
use bittrade_websockets::exchanges::errors::ExchangeApiError;
use bittrade_websockets::exchanges::exchange::exchange_name::{ExchangeName, BINANCE};
use bittrade_websockets::exchanges::manager::{
    get_socket_name, ExchangeManager, ManagerAddOutcome, PairPlan,
};
use bittrade_websockets::exchanges::Exchange;

#[test]
fn exchange_name_texts() {
    assert_eq!(ExchangeName::Binance.as_str(), "binance");
    assert_eq!(ExchangeName::Binance.to_display_string(), "binance");
    assert_eq!(BINANCE, "binance");
}

#[test]
fn exchange_name_parsing() {
    assert_eq!(ExchangeName::parse_name("binance"), Some(ExchangeName::Binance));
    assert_eq!(ExchangeName::parse_name("Binance"), None);
    assert_eq!(ExchangeName::parse_name("kraken"), None);
    assert_eq!(ExchangeName::parse_name(""), None);
    assert_eq!(ExchangeName::from_name("binance"), ExchangeName::Binance);
}

#[test]
fn exchange_name_round_trip() {
    let e = ExchangeName::Binance;
    assert_eq!(ExchangeName::parse_name(e.as_str()), Some(e));
}

#[test]
fn exchange_list_is_cloneable() {
    let e = Exchange::Kraken;
    assert_eq!(e.clone(), Exchange::Kraken);
    assert_ne!(Exchange::Binance, Exchange::Coinbase);
}

#[test]
fn default_urls() {
    assert_eq!(get_default_public_url(), "wss://data-stream.binance.vision/ws");
    assert_eq!(get_default_private_url(), "wss://data-stream.binance.vision/ws");
}

#[test]
fn exchange_error_messages() {
    assert_eq!(
        ExchangeApiError::DropConnectionError("x".to_owned()).message(),
        "Drop connection error: x"
    );
    assert_eq!(
        ExchangeApiError::DropExchangeError("y".to_owned()).message(),
        "Drop exchange error: y"
    );
}

#[test]
fn binance_name_and_matching_pair() {
    let ex: BinanceExchange<u32> = BinanceExchange::new();
    assert_eq!(ex.get_name(), "binance");
    assert_eq!(ex.get_exchange_matching_pair("XRP_USDT"), "XRPUSDT");
    assert_eq!(ex.get_exchange_matching_pair("A_B_C"), "ABC");
}

#[test]
fn first_pair_starts_the_websocket_once() {
    let mut ex: BinanceExchange<u32> = BinanceExchange::new();
    let first = ex.add_pair(&"XRP_USDT".to_owned(), 1);
    assert!(matches!(first, BinanceAddOutcome::Added { start_websocket: true }));
    let second = ex.add_pair(&"BTC_USDT".to_owned(), 2);
    assert!(matches!(second, BinanceAddOutcome::Added { start_websocket: false }));
    assert_eq!(ex.pairs().len(), 2);
}

#[test]
fn pair_check_uses_the_pair_without_separator() {
    let mut ex: BinanceExchange<u32> = BinanceExchange::new();
    let _ = ex.add_pair(&"XRPUSDT".to_owned(), 1);
    let again = ex.add_pair(&"XRP_USDT".to_owned(), 2);
    assert!(matches!(again, BinanceAddOutcome::AlreadyExists));
    assert_eq!(ex.pairs().len(), 1);
    assert_eq!(ex.pairs()[0], ("XRPUSDT".to_owned(), 1));
}

#[test]
fn same_pair_with_separator_is_stored_again() {
    // The stored key keeps its separator while the check drops it, so the
    // same pair written with `_` replaces its sender.
    let mut ex: BinanceExchange<u32> = BinanceExchange::new();
    let _ = ex.add_pair(&"XRP_USDT".to_owned(), 1);
    let again = ex.add_pair(&"XRP_USDT".to_owned(), 2);
    assert!(matches!(again, BinanceAddOutcome::Added { start_websocket: false }));
    assert_eq!(ex.pairs().len(), 1);
    assert_eq!(ex.pairs()[0], ("XRP_USDT".to_owned(), 2));
}

#[test]
fn stopping_allows_a_new_start() {
    let mut ex: BinanceExchange<u32> = BinanceExchange::new();
    assert!(!ex.stop_public());
    let _ = ex.add_pair(&"A_B".to_owned(), 1);
    assert!(ex.stop_public());
    assert!(!ex.stop_public());
    let next = ex.add_pair(&"C_D".to_owned(), 2);
    assert!(matches!(next, BinanceAddOutcome::Added { start_websocket: true }));
}

#[test]
fn socket_name_defaults_to_tmp() {
    let name = get_socket_name(None, &ExchangeName::Binance, &"XRP_USDT".to_owned());
    assert_eq!(name, "/tmp/binance_XRP_USDT.sock");
}

#[test]
fn socket_name_adds_missing_slash() {
    let name = get_socket_name(Some("/var/run".to_owned()), &ExchangeName::Binance, &"A_B".to_owned());
    assert_eq!(name, "/var/run/binance_A_B.sock");
    let name = get_socket_name(Some("/var/run/".to_owned()), &ExchangeName::Binance, &"A_B".to_owned());
    assert_eq!(name, "/var/run/binance_A_B.sock");
    let name = get_socket_name(Some(String::new()), &ExchangeName::Binance, &"A_B".to_owned());
    assert_eq!(name, "/binance_A_B.sock");
}

#[test]
fn manager_plans_and_adds_pairs_once() {
    let mut m: ExchangeManager<&str, u32> = ExchangeManager::new();
    let pair = "XRP_USDT".to_owned();
    match m.plan_add_pair(&ExchangeName::Binance, &pair, None) {
        PairPlan::Bridge(path) => assert_eq!(path, "/tmp/binance_XRP_USDT.sock"),
        PairPlan::AlreadyWatched => panic!("not yet watched"),
    }
    let first = m.add_pair(ExchangeName::Binance, pair.clone(), "handler", 7);
    assert!(matches!(first, ManagerAddOutcome::Added(BinanceAddOutcome::Added { start_websocket: true })));
    assert!(m.is_watched(&ExchangeName::Binance, &pair));
    assert!(matches!(m.plan_add_pair(&ExchangeName::Binance, &pair, None), PairPlan::AlreadyWatched));
    let second = m.add_pair(ExchangeName::Binance, pair.clone(), "other", 8);
    assert!(matches!(second, ManagerAddOutcome::AlreadyWatched));
    assert_eq!(m.binance().pairs().len(), 1);
    assert_eq!(m.binance().pairs()[0].1, 7);
    assert!(m.stop_binance());
    assert!(!m.stop_binance());
}
