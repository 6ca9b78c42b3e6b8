use program_manager::text::{remove_all_str, str_ends_with, str_starts_with, tokenize};

#[test]
fn starts_with_basic() {
    assert!(str_starts_with("https://example.com", "https://"));
    assert!(!str_starts_with("http://example.com", "https://"));
    assert!(str_starts_with("abc", ""));
    assert!(!str_starts_with("ab", "abc"));
}

#[test]
fn ends_with_basic() {
    assert!(str_ends_with("firefox.desktop", ".desktop"));
    assert!(!str_ends_with("firefox.desktop2", ".desktop"));
    assert!(str_ends_with(".lnk", ".lnk"));
    assert!(!str_ends_with("nk", ".lnk"));
    assert!(str_ends_with("ō.app", ".app"));
}

#[test]
fn remove_all_removes_every_occurrence() {
    assert_eq!(remove_all_str("a%fb%fc", "%f"), "abc");
    assert_eq!(remove_all_str("%f%f", "%f"), "");
    assert_eq!(remove_all_str("abc", "%f"), "abc");
    // removal scans left to right and does not rescan joined text
    assert_eq!(remove_all_str("%%ff", "%f"), "%f");
}

#[test]
fn tokenize_splits_on_whitespace() {
    let toks = tokenize("  a \t b ");
    assert_eq!(toks, vec!["a".to_string(), "b".to_string()]);
    let none = tokenize("   ");
    assert!(none.is_empty());
    let empty = tokenize("");
    assert!(empty.is_empty());
    let one = tokenize("firefox");
    assert_eq!(one, vec!["firefox".to_string()]);
}
