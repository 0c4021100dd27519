use prefix_mapper::replace::{contains_prefix, replace_prefix};
use prefix_mapper::transform::transform_content;

#[test]
fn replaces_single_occurrence() {
    let out = replace_prefix("<img src=\"/static/a.png\">", "/static", "/assets");
    assert_eq!(out, "<img src=\"/assets/a.png\">");
}

#[test]
fn replaces_every_occurrence_leftmost_first() {
    let out = replace_prefix("/static/a /static/b /static", "/static", "/assets");
    assert_eq!(out, "/assets/a /assets/b /assets");
}

#[test]
fn occurrences_do_not_overlap() {
    // After a replacement the scan resumes after the occurrence: "aaa" holds
    // two non-overlapping "aa" only if they do not share a character.
    let out = replace_prefix("aaa", "aa", "b");
    assert_eq!(out, "ba");
}

#[test]
fn replacement_with_empty_new_prefix_deletes() {
    let out = replace_prefix("/static/a.png", "/static", "");
    assert_eq!(out, "/a.png");
}

#[test]
fn empty_pattern_inserts_everywhere() {
    let out = replace_prefix("abc", "", "X");
    assert_eq!(out, "XaXbXcX");
}

#[test]
fn no_occurrence_leaves_text_unchanged() {
    let out = replace_prefix("nothing to see", "/static", "/assets");
    assert_eq!(out, "nothing to see");
}

#[test]
fn contains_finds_literal_substring() {
    assert!(contains_prefix("<img src=\"/static/a.png\">", "/static"));
    assert!(!contains_prefix("<img src=\"/assets/a.png\">", "/static"));
    assert!(contains_prefix("anything", ""));
    assert!(!contains_prefix("", "x"));
}

#[test]
fn round_trip_restores_original() {
    // One occurrence, prefixes that do not overlap with the surroundings:
    // swapping old for new and then new for old restores the content.
    let original = "<img src=\"/static/a.png\">";
    let swapped = replace_prefix(original, "/static", "/assets");
    assert_eq!(swapped, "<img src=\"/assets/a.png\">");
    let back = replace_prefix(&swapped, "/assets", "/static");
    assert_eq!(back, original);
}

#[test]
fn transform_skips_content_without_old_prefix() {
    assert_eq!(transform_content("no prefixes here", "/static", "/assets"), None);
}

#[test]
fn transform_rewrites_content_with_old_prefix() {
    let r = transform_content("a /static b", "/static", "/assets");
    assert_eq!(r, Some("a /assets b".to_owned()));
}

#[test]
fn unicode_content_is_replaced_by_characters() {
    let out = replace_prefix("héllo /static wörld", "/static", "/ässets");
    assert_eq!(out, "héllo /ässets wörld");
}
