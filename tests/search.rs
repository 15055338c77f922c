use whiskers_launcher::utils::{fuzzy_matches, get_search};

#[test]
fn keyword_and_trimmed_text() {
    let s = get_search("gs  rust verus  ".to_string());
    assert_eq!(s.keyword.as_deref(), Some("gs"));
    assert_eq!(s.search_text, "rust verus");
}

#[test]
fn no_space_means_no_keyword() {
    let s = get_search("firefox".to_string());
    assert_eq!(s.keyword, None);
    assert_eq!(s.search_text, "firefox");
}

#[test]
fn leading_space_gives_empty_keyword() {
    let s = get_search(" term".to_string());
    assert_eq!(s.keyword.as_deref(), Some(""));
    assert_eq!(s.search_text, "term");
}

#[test]
fn empty_query() {
    let s = get_search(String::new());
    assert_eq!(s.keyword, None);
    assert_eq!(s.search_text, "");
}

#[test]
fn fuzzy_matching() {
    assert!(fuzzy_matches("Firefox Web Browser".to_string(), "ffx".to_string()));
    assert!(!fuzzy_matches("Firefox".to_string(), "zzz".to_string()));
    assert!(fuzzy_matches("Firefox".to_string(), String::new()));
    assert!(!fuzzy_matches(String::new(), "a".to_string()));
}
