use hyprdock::text::{chars_of, decimal_string, lowercase, str_contains, truncate_text};

#[test]
fn truncate_keeps_short_text() {
    assert_eq!(truncate_text("w1: kitty", 25), "w1: kitty");
}

#[test]
fn truncate_keeps_text_of_exact_width() {
    let text = "abcdefghijklmnopqrstuvwxy";
    assert_eq!(text.chars().count(), 25);
    assert_eq!(truncate_text(text, 25), text);
}

#[test]
fn truncate_cuts_long_text() {
    let r = truncate_text("w3: A very long window title indeed", 25);
    assert_eq!(r, "w3: A very long window...");
    assert_eq!(r.chars().count(), 25);
}

#[test]
fn truncate_counts_characters_not_bytes() {
    let r = truncate_text("äöüäöüäöü", 6);
    assert_eq!(r, "äöü...");
}

#[test]
fn truncate_to_exactly_three() {
    assert_eq!(truncate_text("abcdef", 3), "...");
}

#[test]
fn contains_finds_runs() {
    assert!(str_contains("org.mozilla.firefox", "firefox"));
    assert!(str_contains("firefox", ""));
    assert!(str_contains("", ""));
    assert!(!str_contains("fire", "firefox"));
    assert!(!str_contains("kitty", "kity"));
    assert!(str_contains("kitty", "kitty"));
}

#[test]
fn lowercase_changes_case() {
    assert_eq!(lowercase("Firefox"), "firefox");
    assert_eq!(lowercase("ÄBC"), "äbc");
    assert_eq!(lowercase("kitty"), "kitty");
}

#[test]
fn chars_are_collected_in_order() {
    assert_eq!(chars_of("aé"), vec!['a', 'é']);
}

#[test]
fn decimal_notation() {
    assert_eq!(decimal_string(0), "0");
    assert_eq!(decimal_string(7), "7");
    assert_eq!(decimal_string(42), "42");
    assert_eq!(decimal_string(-3), "-3");
    assert_eq!(decimal_string(i64::MAX), i64::MAX.to_string());
    assert_eq!(decimal_string(i64::MIN), i64::MIN.to_string());
}
