use kiduku::greeting::{greeting_text, is_greeting};

#[test]
fn matches_exact_greeting() {
    assert!(is_greeting(greeting_text()));
}

#[test]
fn trims_whitespace() {
    let with_spaces = format!("  {}  ", greeting_text());
    assert!(is_greeting(&with_spaces));
}

#[test]
fn rejects_other_text() {
    assert!(!is_greeting("こんにちは"));
}

#[test]
fn rejects_partial_greeting() {
    assert!(!is_greeting("おはよ"));
    assert!(!is_greeting("おはようございます"));
}

#[test]
fn trims_unicode_whitespace() {
    let ideographic = format!("\u{3000}{}\u{3000}", greeting_text());
    assert!(is_greeting(&ideographic));
    let mixed = format!("\t\n{}\u{00A0}\r", greeting_text());
    assert!(is_greeting(&mixed));
}

#[test]
fn rejects_empty_and_whitespace_only() {
    assert!(!is_greeting(""));
    assert!(!is_greeting("   "));
}
