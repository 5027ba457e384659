use strims_chat::clean_received;

#[test]
fn test_clean_received() {
    let before = "\"abc\"".to_string();
    let cleaned = clean_received(&before);
    assert_eq!(cleaned, "abc");
}

#[test]
fn clean_received_of_short_texts_is_empty() {
    assert_eq!(clean_received(&String::new()), "");
    assert_eq!(clean_received(&"5".to_string()), "");
    assert_eq!(clean_received(&"\"\"".to_string()), "");
}

#[test]
fn clean_received_strips_whatever_stands_at_the_ends() {
    assert_eq!(clean_received(&"null".to_string()), "ul");
    assert_eq!(clean_received(&"true".to_string()), "ru");
    assert_eq!(clean_received(&"[1,2]".to_string()), "1,2");
}

#[test]
fn clean_received_counts_characters_not_bytes() {
    assert_eq!(clean_received(&"«é»".to_string()), "é");
    assert_eq!(clean_received(&"\"日本語\"".to_string()), "日本語");
}

#[test]
fn clean_received_leaves_escapes_alone() {
    let rendered = "\"say \\\"hi\\\"\"".to_string();
    assert_eq!(clean_received(&rendered), "say \\\"hi\\\"");
}

#[test]
fn clean_received_undoes_quoting() {
    for inner in ["", "x", "hello", "a b", "ü", "with \\n inside"] {
        let rendered = format!("\"{}\"", inner);
        assert_eq!(clean_received(&rendered), inner);
    }
}
