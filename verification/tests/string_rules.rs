use mailparser::strutil::contains_sub;
use mailparser::strutil::find_from;
use mailparser::strutil::normalize_newlines;
use mailparser::strutil::replace_all;
use mailparser::strutil::str_eq;
use mailparser::strutil::strip_query;

#[test]
fn str_eq_matches_and_differs() {
    assert!(str_eq("noreply@bandcamp.com", "noreply@bandcamp.com"));
    assert!(!str_eq("noreply@bandcamp.com", "noreply@bandcamp.org"));
    assert!(!str_eq("abc", "abcd"));
    assert!(str_eq("", ""));
}

#[test]
fn contains_finds_substrings() {
    assert!(contains_sub("Label just released something", "released"));
    assert!(contains_sub("baby", "by"));
    assert!(!contains_sub("Some Title", "by"));
    assert!(contains_sub("anything", ""));
    assert!(!contains_sub("", "x"));
}

#[test]
fn find_from_returns_first_occurrence() {
    assert_eq!(find_from("abcabc", "bc", 0), Some(1));
    assert_eq!(find_from("abcabc", "bc", 2), Some(4));
    assert_eq!(find_from("abcabc", "zz", 0), None);
}

#[test]
fn replace_all_replaces_left_to_right() {
    assert_eq!(replace_all("abcabc", "b", "X"), "aXcaXc");
    assert_eq!(replace_all("aaa", "aa", "b"), "ba");
    assert_eq!(replace_all("Label just released \n", " just released ", ""), "Label\n");
    assert_eq!(replace_all("Label\n", "\n", ""), "Label");
    assert_eq!(replace_all("no match here", "zz", "y"), "no match here");
}

#[test]
fn strip_query_cuts_at_first_question_mark() {
    assert_eq!(strip_query("https://x/y?utm=1"), "https://x/y");
    assert_eq!(strip_query("https://x/y"), "https://x/y");
    assert_eq!(strip_query("a?b?c"), "a");
    assert_eq!(strip_query("?only"), "");
}

#[test]
fn normalize_collapses_line_breaks() {
    assert_eq!(normalize_newlines("line1\r\nline2\nline3"), "line1 line2 line3");
    assert_eq!(normalize_newlines("a\rb"), "a\rb");
    assert_eq!(normalize_newlines("\r\n"), " ");
    assert_eq!(normalize_newlines(""), "");
}
