use name_sanitizer::pipeline::{check_text, sanitize};

#[test]
fn check_finds_both_kinds() {
    let rep = check_text("a😀b?c", true, true).unwrap();
    assert_eq!(rep.emoji_count, 1);
    assert_eq!(rep.emojis, "😀");
    assert_eq!(rep.illegal, "?");
    assert!(rep.flagged);
}

#[test]
fn check_only_what_is_asked() {
    let rep = check_text("a😀b?c", false, true).unwrap();
    assert_eq!(rep.emoji_count, 0);
    assert_eq!(rep.emojis, "");
    assert_eq!(rep.illegal, "?");
    assert!(rep.flagged);
    let rep = check_text("a😀b?c", false, false).unwrap();
    assert!(!rep.flagged);
    let rep = check_text("clean name.txt", true, true).unwrap();
    assert!(!rep.flagged);
    assert_eq!(rep.illegal, "");
}

#[test]
fn sanitize_in_order() {
    assert_eq!(
        sanitize("my:🚀 file?2.txt", true, true, None),
        Some("my file2.txt".to_string())
    );
    assert_eq!(
        sanitize("my:🚀 file?2.txt", true, true, Some("[0-9]")),
        Some("my file.txt".to_string())
    );
    assert_eq!(
        sanitize("my:🚀 file?2.txt", false, false, None),
        Some("my:🚀 file?2.txt".to_string())
    );
    assert_eq!(
        sanitize("my:🚀 file?2.txt", false, true, None),
        Some("my: file?2.txt".to_string())
    );
}

#[test]
fn sanitize_rejects_bad_pattern() {
    assert_eq!(sanitize("abc", true, true, Some("(")), None);
}
