use hanabi_bot::text::{split_once_space, starts_with_char, str_eq};

#[test]
fn split_takes_the_first_space() {
    assert_eq!(split_once_space("table {\"name\": \"a b\"}"), Some(("table", "{\"name\": \"a b\"}")));
    assert_eq!(split_once_space("a b c"), Some(("a", "b c")));
}

#[test]
fn split_without_space_gives_nothing() {
    assert_eq!(split_once_space("left"), None);
    assert_eq!(split_once_space(""), None);
}

#[test]
fn split_keeps_empty_halves() {
    assert_eq!(split_once_space(" x"), Some(("", "x")));
    assert_eq!(split_once_space("x "), Some(("x", "")));
    assert_eq!(split_once_space(" "), Some(("", "")));
    assert_eq!(split_once_space("x  y"), Some(("x", " y")));
}

#[test]
fn split_counts_characters_not_bytes() {
    assert_eq!(split_once_space("héllo wörld ✓"), Some(("héllo", "wörld ✓")));
    assert_eq!(split_once_space("日本語 テキスト"), Some(("日本語", "テキスト")));
    // A no-break space is not the space that parts a frame.
    assert_eq!(split_once_space("a\u{a0}b"), None);
}

#[test]
fn str_eq_compares_characters() {
    assert!(str_eq("", ""));
    assert!(str_eq("tableList", "tableList"));
    assert!(!str_eq("tableList", "tableGone"));
    assert!(!str_eq("table", "tableList"));
    assert!(!str_eq("tableList", "table"));
    assert!(str_eq("héllo", "héllo"));
    assert!(!str_eq("héllo", "hello"));
}

#[test]
fn starts_with_char_looks_at_the_first_character() {
    assert!(starts_with_char("/join", '/'));
    assert!(!starts_with_char("join/", '/'));
    assert!(!starts_with_char("", '/'));
    assert!(starts_with_char("é", 'é'));
}
