use torrent_title_parser::matching::{
    capture_first, case_insensitive, case_sensitive, find_all, find_str, substitute, GroupMatch,
    StringMatch,
};
use torrent_title_parser::text::{count_ascii, cut, floor_to_boundary, len_bytes, slice};

#[test]
fn lengths_count_bytes() {
    assert_eq!(len_bytes(""), 0);
    assert_eq!(len_bytes("abc"), 3);
    assert_eq!(len_bytes("é"), 2);
    assert_eq!(len_bytes("【★】"), 9);
}

#[test]
fn slices_and_cuts_go_by_bytes() {
    assert_eq!(slice("hello world", 6, 11), "world");
    assert_eq!(slice("aé b", 1, 3), "é");
    assert_eq!(slice("abc", 2, 2), "");
    assert_eq!(cut("hello world", 5, 11), "hello");
    assert_eq!(cut("aé b", 1, 3), "a b");
    assert_eq!(cut("abc", 0, 3), "");
    assert_eq!(cut("abc", 1, 1), "abc");
}

#[test]
fn offsets_are_pulled_back_to_boundaries() {
    assert_eq!(floor_to_boundary("aé b", 0), 0);
    assert_eq!(floor_to_boundary("aé b", 1), 1);
    assert_eq!(floor_to_boundary("aé b", 2), 1);
    assert_eq!(floor_to_boundary("aé b", 3), 3);
    assert_eq!(floor_to_boundary("aé b", 99), 5);
    assert_eq!(floor_to_boundary("★", 2), 0);
    assert_eq!(floor_to_boundary("", 7), 0);
}

#[test]
fn ascii_characters_are_counted() {
    assert_eq!(count_ascii("a(b)(c", b'('), 2);
    assert_eq!(count_ascii("a(b)(c", b')'), 1);
    assert_eq!(count_ascii("", b'('), 0);
    assert_eq!(count_ascii("【(】", b'('), 1);
}

#[test]
fn substitution_replaces_every_match() {
    assert_eq!(substitute("\\s+", "a   b \t c", " "), "a b c");
    assert_eq!(substitute("_+", "a__b_c", " "), "a b c");
    assert_eq!(substitute("(\\d+)x", "3x 44x", "${1}"), "3 44");
    assert_eq!(substitute("z", "abc", "y"), "abc");
    assert_eq!(substitute("", "ab", "-"), "-a-b-");
}

#[test]
fn a_refused_pattern_replaces_and_finds_nothing() {
    assert_eq!(substitute("(", "a(b", "x"), "a(b");
    assert_eq!(find_all("(", "a(b"), Vec::<GroupMatch>::new());
    assert_eq!(capture_first("[", "[a]"), None);
}

#[test]
fn all_matches_are_found_in_order() {
    assert_eq!(find_all("\\d+", "a1b22c"), vec![GroupMatch { start: 1, end: 2 }, GroupMatch { start: 3, end: 5 }]);
    assert_eq!(find_all("\\d+", "é7"), vec![GroupMatch { start: 2, end: 3 }]);
    assert_eq!(find_all("\\d+", "none"), Vec::<GroupMatch>::new());
}

#[test]
fn the_first_group_is_captured() {
    assert_eq!(capture_first("^\\[(.*?)\\]", "[abc] x [d]"), Some(GroupMatch { start: 1, end: 4 }));
    assert_eq!(capture_first("^\\[(.*?)\\]", "x [abc]"), None);
    assert_eq!(capture_first("a(b)?c", "ac"), None);
    assert_eq!(capture_first("abc", "abc"), None);
}

#[test]
fn patterns_compile_with_and_without_case() {
    let loose = case_insensitive("b(l)u").unwrap();
    let strict = case_sensitive("b(l)u").unwrap();
    let expected = StringMatch {
        range: GroupMatch { start: 2, end: 5 },
        first_group: Some(GroupMatch { start: 3, end: 4 }),
    };
    assert_eq!(find_str(&loose, "a BLU ray"), Some(expected));
    assert_eq!(find_str(&strict, "a BLU ray"), None);
    assert_eq!(find_str(&strict, "a blu ray"), Some(expected));
    assert!(case_insensitive("(").is_err());
    assert!(case_sensitive("a{2,1}").is_err());
}

#[test]
fn look_behind_is_understood() {
    let re = case_insensitive("(?<=remux.*)\\bBlu[ .-]*Ray\\b").unwrap();
    assert_eq!(find_str(&re, "Remux of a Blu-Ray").map(|m| m.start()), Some(11));
    assert_eq!(find_str(&re, "Blu-Ray Remux"), None);
}

#[test]
fn matches_give_their_groups_and_text() {
    let re = case_sensitive("S(\\d+)E\\d+").unwrap();
    let m = find_str(&re, "é S01E02").unwrap();
    assert_eq!(m.start(), 3);
    assert_eq!(m.end(), 9);
    assert_eq!(m.group(0), Some(GroupMatch { start: 3, end: 9 }));
    assert_eq!(m.group(1), Some(GroupMatch { start: 4, end: 6 }));
    assert_eq!(m.group(2), None);
    assert_eq!(m.as_str("é S01E02"), "S01E02");
    assert_eq!(m.group(1).unwrap().as_str("é S01E02"), "01");
}

#[test]
fn ranges_are_checked_against_the_text() {
    assert!(GroupMatch { start: 0, end: 3 }.fits("aé"));
    assert!(GroupMatch { start: 1, end: 3 }.fits("aé"));
    assert!(GroupMatch { start: 3, end: 3 }.fits("aé"));
    assert!(!GroupMatch { start: 0, end: 2 }.fits("aé"));
    assert!(!GroupMatch { start: 2, end: 3 }.fits("aé"));
    assert!(!GroupMatch { start: 2, end: 1 }.fits("abc"));
    assert!(!GroupMatch { start: 0, end: 4 }.fits("abc"));
}
