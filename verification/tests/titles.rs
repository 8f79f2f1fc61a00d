use linux_coworker_ui::conversation::derive_title;

#[test]
fn derive_title_returns_short_input_verbatim() {
    assert_eq!(derive_title("hello"), Some("hello".to_string()));
}

#[test]
fn derive_title_returns_none_for_whitespace_only() {
    assert_eq!(derive_title("   \n\t  "), None);
    assert_eq!(derive_title(""), None);
}

#[test]
fn derive_title_trims_input() {
    assert_eq!(derive_title("  hi there  "), Some("hi there".to_string()));
}

#[test]
fn derive_title_truncates_long_input_at_word_boundary() {
    let input = "fix the bug in the OAuth handler that drops the refresh token on retry";
    let title = derive_title(input).unwrap();
    assert!(title.ends_with('\u{2026}'), "got: {title}");
    assert!(title.chars().count() <= 51); // 50 + ellipsis
    // Should not end mid-word; the char before ellipsis must be the
    // last char of a word (i.e. not a letter cut from a longer word).
    let without_ellipsis = title.trim_end_matches('\u{2026}');
    assert!(
        !without_ellipsis.ends_with(|c: char| c.is_alphabetic())
            || input.starts_with(without_ellipsis),
        "expected word-boundary truncation, got: {title}"
    );
}

#[test]
fn derive_title_hard_truncates_when_no_whitespace() {
    let input = "a".repeat(80);
    let title = derive_title(&input).unwrap();
    assert_eq!(title.chars().count(), 51); // 50 'a' + ellipsis
}

#[test]
fn derive_title_cuts_at_the_last_whitespace_of_the_budget() {
    let input = "fix the bug in the OAuth handler that drops the refresh token on retry";
    // the first 50 characters end inside "refresh"; the cut goes back to the space before it
    assert_eq!(
        derive_title(input),
        Some("fix the bug in the OAuth handler that drops the\u{2026}".to_string())
    );
}

#[test]
fn derive_title_keeps_fifty_characters_whole() {
    let input = "b".repeat(50);
    assert_eq!(derive_title(&input), Some(input.clone()));
}

#[test]
fn derive_title_hard_cut_when_whitespace_is_too_early() {
    // the only whitespace sits at character 3, before a third of the budget
    let input = format!("abc {}", "d".repeat(60));
    let title = derive_title(&input).unwrap();
    assert_eq!(title, format!("abc {}\u{2026}", "d".repeat(46)));
}

#[test]
fn derive_title_counts_characters_for_the_backoff_threshold() {
    // nine accented letters put the space at byte 18 but at character 9,
    // under a third of the 50-character budget: the cut is hard
    let input = format!("{} {}", "\u{e9}".repeat(9), "x".repeat(60));
    let title = derive_title(&input).unwrap();
    assert_eq!(title, format!("{} {}\u{2026}", "\u{e9}".repeat(9), "x".repeat(40)));
    // a space at character 16 keeps the word boundary
    let input = format!("{} {}", "\u{e9}".repeat(16), "x".repeat(60));
    let title = derive_title(&input).unwrap();
    assert_eq!(title, format!("{}\u{2026}", "\u{e9}".repeat(16)));
}

#[test]
fn derive_title_trims_unicode_whitespace() {
    assert_eq!(derive_title("\u{3000}\u{a0}hi\u{2029}"), Some("hi".to_string()));
}
