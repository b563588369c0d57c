use button_protocol::text::{str_ends_with, str_eq, str_lt, str_starts_with};

#[test]
fn prefix_tests_match_plain_rust() {
    assert!(str_starts_with("music_rock", "music_"));
    assert!(!str_starts_with("music", "music_"));
    assert!(str_starts_with("anything", ""));
    assert!(!str_starts_with("podcast_x", "music_"));
}

#[test]
fn suffix_tests_match_plain_rust() {
    assert!(str_ends_with("music_party_shuf", "_shuf"));
    assert!(!str_ends_with("music_party", "_shuf"));
    assert!(str_ends_with("x", ""));
    assert!(!str_ends_with("uf", "_shuf"));
}

#[test]
fn equality_is_character_by_character() {
    assert!(str_eq("alarm", "alarm"));
    assert!(!str_eq("alarm", "alarm "));
    assert!(!str_eq("alarm", "Alarm"));
    assert!(str_eq("", ""));
}

#[test]
fn lexicographic_order_matches_plain_rust() {
    let pairs = [
        ("a", "b"),
        ("a", "ab"),
        ("", "a"),
        ("music_a", "music_b"),
        ("Z", "a"),
    ];
    for (lo, hi) in pairs {
        assert!(str_lt(lo, hi));
        assert!(!str_lt(hi, lo));
        assert_eq!(str_lt(lo, hi), lo < hi);
    }
    assert!(!str_lt("same", "same"));
}
