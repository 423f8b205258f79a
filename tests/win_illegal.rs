use name_sanitizer::win_illegal::{
    get_windows_illegal_characters, join_matches, matched_text, remove_pattern,
    replace_win_illegal,
};

#[test]
fn test_get_windows_illegal_characters() {
    let test_cases = vec![
        ("foo?bar*|baz\"", "?*|\""),
        ("some text with no illegal characters", ""),
        ("<dir>/subdir", "<>/"),
        ("file\\name", "\\"),
    ];
    for (text, expected) in test_cases {
        assert_eq!(get_windows_illegal_characters(text), Some(expected.to_string()));
    }
}

#[test]
fn test_replace_win_illegal() {
    let test_cases = vec![
        ("file\\name.txt", "filename.txt"),
        ("doc/somefile.docx", "docsomefile.docx"),
        ("text|file.txt", "textfile.txt"),
        ("<dir>/subdir", "dirsubdir"),
        ("noillegal", "noillegal"),
        ("", ""),
    ];
    for (filename, expected) in test_cases {
        assert_eq!(replace_win_illegal(filename), Some(expected.to_string()));
    }
}

#[test]
fn every_illegal_character() {
    let all = "a\\b/c:d*e?f\"g<h>i|j";
    assert_eq!(get_windows_illegal_characters(all), Some("\\/:*?\"<>|".to_string()));
    assert_eq!(replace_win_illegal(all), Some("abcdefghij".to_string()));
}

#[test]
fn user_patterns() {
    assert_eq!(remove_pattern("[0-9]+", "a1b22c"), Some("abc".to_string()));
    assert_eq!(matched_text("[0-9]+", "a1b22c"), Some("122".to_string()));
    assert_eq!(remove_pattern("(", "a(b"), None);
    assert_eq!(matched_text("[", "a[b"), None);
}

#[test]
fn joining_matches() {
    let ms: Vec<String> = vec!["<".to_string(), ">".to_string(), "/".to_string()];
    assert_eq!(join_matches(&ms), "<>/");
    assert_eq!(join_matches(&Vec::new()), "");
}
