use unicode_segmentation::UnicodeSegmentation;
use name_sanitizer::emoji::{
    count_emoji_clusters, count_emojis, get_emojis, has_emojis, is_emoji, is_emoji_cluster,
    join_emoji_clusters, join_plain_clusters, replace_emojis,
};

#[test]
fn test_get_emojis() {
    assert_eq!(get_emojis("我"), "");
    assert_eq!(get_emojis("hello"), "");
    assert_eq!(get_emojis("👋 Hello, 🌎!"), "👋🌎");
    assert_eq!(get_emojis("😃🌈"), "😃🌈");
    assert_eq!(get_emojis("👍+😃=😍"), "👍😃😍");
    assert_eq!(get_emojis("❤️"), "❤️");
    assert_eq!(get_emojis("🏳️‍🌈"), "🏳️‍🌈");
    assert_eq!(get_emojis("🐱‍🏍"), "🐱‍🏍");
}

#[test]
fn test_replace_emojis() {
    assert_eq!(replace_emojis("Hello, 🌎! 🏳️‍🌈"), "Hello, ! ");
    assert_eq!(replace_emojis("No emojis here"), "No emojis here");
    assert_eq!(replace_emojis(""), "");
    // wide sequences that the range table only partly covers
    assert_eq!(
        replace_emojis("Emoji 1: ❤️, Emoji 2: 🚀, Emoji 3: 🐱‍🏍"),
        "Emoji 1: , Emoji 2: , Emoji 3: "
    );
}

#[test]
fn test_count_emojis() {
    assert_eq!(count_emojis(""), 0);
    assert_eq!(count_emojis("This is a test string"), 0);
    assert_eq!(count_emojis("👨‍👩‍👧‍👦🎉🎂🎈"), 4);
    assert_eq!(count_emojis("🐱‍🏍"), 1);
}

#[test]
fn test_has_emojis() {
    assert_eq!(has_emojis("Hello, 😊!"), true);
    assert_eq!(has_emojis("Hello, world!"), false);
    assert_eq!(has_emojis("👋, 😊, 🌍"), true);
    assert_eq!(has_emojis("😊😊😊"), true);
    assert_eq!(has_emojis(""), false);
}

#[test]
fn range_table_bounds() {
    assert!(is_emoji('\u{1F300}'));
    assert!(is_emoji('\u{1F5FF}'));
    assert!(is_emoji('\u{1F600}'));
    assert!(is_emoji('\u{1F64F}'));
    assert!(is_emoji('\u{1F680}'));
    assert!(is_emoji('\u{1F6FF}'));
    assert!(is_emoji('\u{2600}'));
    assert!(is_emoji('\u{26FF}'));
    assert!(is_emoji('\u{2700}'));
    assert!(is_emoji('\u{27BF}'));
    assert!(is_emoji('\u{1F900}'));
    assert!(is_emoji('\u{1F9FF}'));
    assert!(!is_emoji('\u{1F2FF}'));
    assert!(!is_emoji('\u{1F650}'));
    assert!(!is_emoji('\u{1F67F}'));
    assert!(!is_emoji('\u{1F700}'));
    assert!(!is_emoji('\u{25FF}'));
    assert!(!is_emoji('\u{27C0}'));
    assert!(!is_emoji('\u{1F8FF}'));
    assert!(!is_emoji('\u{1FA00}'));
    assert!(!is_emoji('a'));
}

#[test]
fn joiners_and_indicators_alone_are_not_emoji() {
    // skin-tone modifiers lie inside 1F300..=1F5FF; the zero-width joiner,
    // variation selectors and regional indicators lie outside every range
    assert!(is_emoji('\u{1F3FB}'));
    assert!(!is_emoji('\u{200D}'));
    assert!(!is_emoji('\u{FE0F}'));
    assert!(!is_emoji('\u{1F1E6}'));
    assert!(!is_emoji_cluster("\u{1F1FA}\u{1F1F8}"));
    assert_eq!(count_emojis("\u{1F1FA}\u{1F1F8}"), 0);
    assert_eq!(replace_emojis("\u{1F1FA}\u{1F1F8}"), "\u{1F1FA}\u{1F1F8}");
}

#[test]
fn cluster_classification() {
    assert!(is_emoji_cluster("🏳️‍🌈"));
    assert!(is_emoji_cluster("a😀"));
    assert!(!is_emoji_cluster("e\u{301}"));
    assert!(!is_emoji_cluster(""));
}

#[test]
fn empty_input() {
    assert_eq!(count_emojis(""), 0);
    assert_eq!(get_emojis(""), "");
    assert_eq!(replace_emojis(""), "");
}

#[test]
fn input_without_emoji() {
    for s in ["hello", "我", "e\u{301}te"] {
        assert_eq!(count_emojis(s), 0);
        assert_eq!(get_emojis(s), "");
        assert_eq!(replace_emojis(s), s);
        assert!(!has_emojis(s));
    }
}

#[test]
fn multi_code_point_cluster_kept_whole() {
    assert_eq!(get_emojis("🏳️‍🌈"), "🏳️‍🌈");
    assert_eq!(replace_emojis("🏳️‍🌈"), "");
    assert_eq!(count_emojis("🏳️‍🌈"), 1);
    assert_eq!(count_emojis("👨‍👩‍👧‍👦"), 1);
}

#[test]
fn mixed_text() {
    assert_eq!(get_emojis("👍+😃=😍"), "👍😃😍");
    assert_eq!(replace_emojis("👋 Hello, 🌎!"), " Hello, !");
    assert_eq!(count_emojis("👍+😃=😍"), 3);
}

#[test]
fn count_is_number_of_extracted_clusters() {
    for s in ["👍+😃=😍", "🏳️‍🌈 and 👨‍👩‍👧‍👦", "plain", ""] {
        let e = get_emojis(s);
        assert_eq!(count_emojis(s), e.as_str().graphemes(true).count());
    }
}

#[test]
fn extracted_clusters_may_join_again() {
    // a cluster that ends in a joiner meets the next emoji once the text
    // between them is dropped, and the two then segment as one cluster
    let s = "🐱\u{200D}+🏍";
    assert_eq!(count_emojis(s), 2);
    assert_eq!(get_emojis(s), "🐱\u{200D}🏍");
    assert_eq!(get_emojis(s).as_str().graphemes(true).count(), 1);
}

#[test]
fn extraction_and_stripping_partition() {
    let s = "a🏳️‍🌈b😀c";
    assert_eq!(get_emojis(s), "🏳️‍🌈😀");
    assert_eq!(replace_emojis(s), "abc");
    assert_eq!(
        get_emojis(s).chars().count() + replace_emojis(s).chars().count(),
        s.chars().count()
    );
}

#[test]
fn stripping_twice_is_stripping_once() {
    for s in ["👋 Hello, 🌎!", "Emoji 1: ❤️, Emoji 2: 🚀", "x🐱‍🏍y", ""] {
        let once = replace_emojis(s);
        assert_eq!(replace_emojis(&once), once);
        assert_eq!(count_emojis(&once), 0);
    }
}

#[test]
fn cluster_list_operations() {
    let cs: Vec<String> = ["a", "🏳️‍🌈", "b", "😀", "c"].iter().map(|g| g.to_string()).collect();
    assert_eq!(count_emoji_clusters(&cs), 2);
    assert_eq!(join_emoji_clusters(&cs), "🏳️‍🌈😀");
    assert_eq!(join_plain_clusters(&cs), "abc");
    let none: Vec<String> = Vec::new();
    assert_eq!(count_emoji_clusters(&none), 0);
    assert_eq!(join_emoji_clusters(&none), "");
    assert_eq!(join_plain_clusters(&none), "");
}
