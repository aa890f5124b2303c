use bittrade_websockets::text::{chars_of, concatenate, contains_text, ends_with_char, remove_char, str_equal};

#[test]
fn remove_char_removes_every_occurrence() {
    assert_eq!(remove_char("_a__b_", '_'), "ab");
    assert_eq!(remove_char("", '_'), "");
    assert_eq!(remove_char("äö_ü", '_'), "äöü");
}

#[test]
fn contains_text_finds_runs() {
    assert!(contains_text("{\"result\":null}", "\"result\":"));
    assert!(!contains_text("{\"s\":\"BTC\"}", "\"result\":"));
    assert!(contains_text("abc", ""));
    assert!(!contains_text("ab", "abc"));
    assert!(contains_text("aab", "ab"));
}

#[test]
fn equality_and_suffixes() {
    assert!(str_equal("x", "x"));
    assert!(!str_equal("x", "xy"));
    assert!(ends_with_char("a/", '/'));
    assert!(!ends_with_char("", '/'));
    assert_eq!(concatenate("ab", "cd"), "abcd");
    assert_eq!(chars_of("hé"), vec!['h', 'é']);
}
