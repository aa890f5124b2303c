use bittrade_websockets::exchanges::exchange::exchange_name::ExchangeName;
use bittrade_websockets::registry::Registry;

#[test]
fn insert_replaces_value_of_present_key() {
    let mut r: Registry<String, u8> = Registry::new();
    r.insert("a".to_owned(), 1);
    r.insert("b".to_owned(), 2);
    r.insert("a".to_owned(), 3);
    assert_eq!(r.len(), 2);
    assert_eq!(r.entries(), &vec![("a".to_owned(), 3), ("b".to_owned(), 2)]);
    assert!(r.contains_key(&"b".to_owned()));
    assert!(!r.contains_key(&"c".to_owned()));
}

#[test]
fn pair_keys_compare_both_parts() {
    let mut r: Registry<(ExchangeName, String), u8> = Registry::new();
    r.insert((ExchangeName::Binance, "A".to_owned()), 1);
    assert!(r.contains_key(&(ExchangeName::Binance, "A".to_owned())));
    assert!(!r.contains_key(&(ExchangeName::Binance, "B".to_owned())));
}

#[test]
fn length_counts_distinct_keys() {
    let mut r: Registry<String, u8> = Registry::new();
    assert_eq!(r.len(), 0);
    r.insert("a".to_owned(), 1);
    r.insert("a".to_owned(), 2);
    r.insert("b".to_owned(), 3);
    assert_eq!(r.len(), 2);
}
