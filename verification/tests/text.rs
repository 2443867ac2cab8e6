//! Literal replacement on plain text.

use bbcode::text::{chars_of, replace, starts_at};

#[test]
fn chars_of_keeps_every_character_in_order() {
    assert_eq!(chars_of("a[ü]\n"), vec!['a', '[', 'ü', ']', '\n']);
    assert_eq!(chars_of(""), Vec::<char>::new());
}

#[test]
fn starts_at_finds_an_occurrence_only_where_it_is() {
    let text = chars_of("ab<br />cd");
    let from = chars_of("<br />");
    assert!(starts_at(&text, &from, 2));
    assert!(!starts_at(&text, &from, 1));
    assert!(!starts_at(&text, &from, 3));
}

#[test]
fn starts_at_rejects_positions_too_close_to_the_end() {
    let text = chars_of("abc");
    assert!(!starts_at(&text, &chars_of("cd"), 2));
    assert!(!starts_at(&text, &chars_of("a"), 3));
    assert!(!starts_at(&text, &chars_of("a"), 4));
    assert!(!starts_at(&text, &chars_of("abcd"), 0));
}

#[test]
fn starts_at_finds_the_empty_text_up_to_the_end() {
    let text = chars_of("abc");
    let empty = chars_of("");
    assert!(starts_at(&text, &empty, 0));
    assert!(starts_at(&text, &empty, 3));
    assert!(!starts_at(&text, &empty, 4));
}

#[test]
fn replace_rewrites_every_occurrence() {
    assert_eq!(replace("a[b][c", "[", "&#91;"), "a&#91;b]&#91;c");
    assert_eq!(replace("one<br />two<br />", "<br />", "\n"), "one\ntwo\n");
}

#[test]
fn replace_goes_on_behind_each_occurrence() {
    assert_eq!(replace("aaa", "aa", "b"), "ba");
    assert_eq!(replace("aaaa", "aa", "b"), "bb");
    assert_eq!(replace("abab", "ab", "a"), "aa");
}

#[test]
fn replace_does_not_rescan_what_it_wrote() {
    assert_eq!(replace("[", "[", "[["), "[[");
    assert_eq!(replace("ab", "b", "bb"), "abb");
}

#[test]
fn replace_leaves_text_without_an_occurrence() {
    assert_eq!(replace("plain text", "[", "&#91;"), "plain text");
    assert_eq!(replace("", "[", "&#91;"), "");
    assert_eq!(replace("<br /", "<br />", "\n"), "<br /");
}

#[test]
fn replace_with_an_empty_search_text_changes_nothing() {
    assert_eq!(replace("abc", "", "x"), "abc");
    assert_eq!(replace("", "", "x"), "");
}

#[test]
fn replace_can_delete() {
    assert_eq!(replace("a-b-c", "-", ""), "abc");
}

#[test]
fn replace_handles_text_beyond_ascii() {
    assert_eq!(replace("grüße [ß]", "ß", "ss"), "grüsse [ss]");
    assert_eq!(replace("日本[語]", "[", "&#91;"), "日本&#91;語]");
}
