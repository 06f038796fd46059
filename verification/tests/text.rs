use music_streamer::text::{chars_of, find, matches_at, rfind};

#[test]
fn chars_of_gives_the_characters_in_order() {
    assert_eq!(chars_of("a?é"), vec!['a', '?', 'é']);
    assert_eq!(chars_of(""), Vec::<char>::new());
}

#[test]
fn matches_at_compares_at_the_given_place() {
    let hay = chars_of("abcabc");
    let needle = chars_of("bc");
    assert!(!matches_at(&hay, &needle, 0));
    assert!(matches_at(&hay, &needle, 1));
    assert!(matches_at(&hay, &needle, 4));
    assert!(matches_at(&hay, &chars_of(""), 6));
}

#[test]
fn matches_at_beyond_the_end_is_false() {
    let hay = chars_of("abcabc");
    let needle = chars_of("bc");
    assert!(!matches_at(&hay, &needle, 5));
    assert!(!matches_at(&hay, &needle, 6));
    assert!(!matches_at(&hay, &needle, usize::MAX));
    assert!(!matches_at(&hay, &chars_of(""), 7));
    assert!(!matches_at(&needle, &hay, 0));
}

#[test]
fn find_gives_the_leftmost_place() {
    assert_eq!(find("abcabc", "bc"), Some(1));
    assert_eq!(find("abcabc", "abcabc"), Some(0));
    assert_eq!(find("aaa", "aa"), Some(0));
}

#[test]
fn rfind_gives_the_rightmost_place() {
    assert_eq!(rfind("abcabc", "bc"), Some(4));
    assert_eq!(rfind("abcabc", "abcabc"), Some(0));
    assert_eq!(rfind("aaa", "aa"), Some(1));
}

#[test]
fn find_and_rfind_miss_what_is_not_there() {
    assert_eq!(find("abcabc", "cb"), None);
    assert_eq!(rfind("abcabc", "cb"), None);
    assert_eq!(find("ab", "abc"), None);
    assert_eq!(rfind("ab", "abc"), None);
    assert_eq!(find("", "a"), None);
    assert_eq!(rfind("", "a"), None);
}

#[test]
fn the_empty_needle_stands_everywhere() {
    assert_eq!(find("abc", ""), Some(0));
    assert_eq!(rfind("abc", ""), Some(3));
    assert_eq!(find("", ""), Some(0));
    assert_eq!(rfind("", ""), Some(0));
}

#[test]
fn places_are_counted_in_characters() {
    assert_eq!(find("ééa", "a"), Some(2));
    assert_eq!(rfind("aéaé", "a"), Some(2));
    assert_eq!(find("日本語?code=x", "?code="), Some(3));
}
