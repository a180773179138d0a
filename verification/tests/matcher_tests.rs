use batch_rename::error::PatternError;
use batch_rename::matcher::{
    anchored_pattern, get_matched_paths, get_matcher_regex, has_anchor, matcher_from_compiled,
};
use regex::Regex;

fn owned(items: &[&str]) -> Vec<String> {
    items.iter().map(|s| s.to_string()).collect()
}

#[test]
fn anchor_is_appended_when_missing() {
    assert_eq!(anchored_pattern(r".*\.jpeg"), r".*\.jpeg$");
}

#[test]
fn anchor_is_kept_when_present() {
    assert_eq!(anchored_pattern(r".*\.jpeg$"), r".*\.jpeg$");
}

#[test]
fn anchor_on_empty_text() {
    assert_eq!(anchored_pattern(""), "$");
}

#[test]
fn anchor_after_non_ascii_text() {
    assert_eq!(anchored_pattern("été"), "été$");
    assert_eq!(anchored_pattern("été$"), "été$");
}

#[test]
fn implicit_and_explicit_anchor_compile_alike() {
    let implicit = get_matcher_regex(r"img_\d+\.png").unwrap();
    let explicit = get_matcher_regex(r"img_\d+\.png$").unwrap();
    assert_eq!(implicit.as_str(), explicit.as_str());
    let candidates = owned(&["/r/img_1.png", "/r/img_1.png.orig", "/r/img_x.png", "/r/img_22.png"]);
    assert_eq!(
        get_matched_paths(&candidates, &implicit),
        get_matched_paths(&candidates, &explicit)
    );
}

#[test]
fn implicit_and_explicit_anchor_fail_alike() {
    assert!(matches!(get_matcher_regex("(a"), Err(PatternError::InvalidPattern(_))));
    assert!(matches!(get_matcher_regex("(a$"), Err(PatternError::InvalidPattern(_))));
}

#[test]
fn selection_is_suffix_exact() {
    let re = get_matcher_regex(r".*\.jpeg").unwrap();
    assert_eq!(re.as_str(), r".*\.jpeg$");
    let candidates =
        owned(&["/photos/a.jpeg", "/photos/a.jpeg.bak", "/photos/notes.txt", "/photos/b.jpeg"]);
    let matched = get_matched_paths(&candidates, &re);
    assert_eq!(matched, owned(&["/photos/a.jpeg", "/photos/b.jpeg"]));
}

#[test]
fn selection_looks_at_the_full_path() {
    let re = get_matcher_regex(r"^/photos/[^/]*").unwrap();
    let candidates = owned(&["/photos/a.jpeg", "/other/a.jpeg", "/photos/sub/a.jpeg"]);
    assert_eq!(get_matched_paths(&candidates, &re), owned(&["/photos/a.jpeg"]));
}

#[test]
fn selection_keeps_order_and_duplicates() {
    let re = get_matcher_regex("b").unwrap();
    let candidates = owned(&["zb", "a", "ab", "zb", "b"]);
    assert_eq!(get_matched_paths(&candidates, &re), owned(&["zb", "ab", "zb", "b"]));
}

#[test]
fn selection_of_nothing() {
    let re = get_matcher_regex("x").unwrap();
    assert!(get_matched_paths(&Vec::new(), &re).is_empty());
    assert!(get_matched_paths(&owned(&["a", "b"]), &re).is_empty());
}

#[test]
fn invalid_selection_is_reported() {
    match get_matcher_regex("[") {
        Err(PatternError::InvalidPattern(reason)) => assert!(!reason.is_empty()),
        other => panic!("expected InvalidPattern, got {:?}", other.map(|re| re.to_string())),
    }
}

#[test]
fn compiled_matcher_is_passed_through() {
    let compiled = Regex::new("abc$");
    let kept = matcher_from_compiled(compiled).unwrap();
    assert_eq!(kept.as_str(), "abc$");
    assert!(matches!(matcher_from_compiled(Regex::new("(")), Err(PatternError::InvalidPattern(_))));
}

#[test]
fn escaped_dollar_is_no_anchor() {
    assert_eq!(anchored_pattern(r"cost\$"), r"cost\$$");
    let re = get_matcher_regex(r"cost\$").unwrap();
    assert_eq!(re.as_str(), r"cost\$$");
    assert!(re.is_match("cost$"));
    assert!(!re.is_match("cost$ extra"));
    let candidates = owned(&["/r/cost$", "/r/cost$ extra", "/r/cost"]);
    assert_eq!(get_matched_paths(&candidates, &re), owned(&["/r/cost$"]));
}

#[test]
fn dollar_behind_an_escaped_escape_is_an_anchor() {
    assert_eq!(anchored_pattern(r"a\\$"), r"a\\$");
    assert_eq!(anchored_pattern(r"a\\\$"), r"a\\\$$");
    assert_eq!(anchored_pattern(r"a\\\\$"), r"a\\\\$");
    let re = get_matcher_regex(r"a\\$").unwrap();
    assert!(re.is_match(r"xa\"));
    assert!(!re.is_match(r"xa\b"));
}

#[test]
fn anchors_are_recognised() {
    assert!(has_anchor("$"));
    assert!(has_anchor("abc$"));
    assert!(has_anchor(r"abc\\$"));
    assert!(!has_anchor(r"abc\$"));
    assert!(!has_anchor(r"\$"));
    assert!(!has_anchor("abc"));
    assert!(!has_anchor("$abc"));
    assert!(!has_anchor(""));
}

#[test]
fn open_escape_is_left_to_the_engine() {
    assert_eq!(anchored_pattern(r"cost\"), r"cost\");
    assert!(matches!(get_matcher_regex(r"cost\"), Err(PatternError::InvalidPattern(_))));
    assert_eq!(anchored_pattern(r"cost\\"), r"cost\\$");
    assert!(get_matcher_regex(r"cost\\").is_ok());
}

#[test]
fn refusal_carries_the_words_of_the_engine() {
    let expected = format!("{:?}", Regex::new("(a$").unwrap_err());
    assert_eq!(get_matcher_regex("(a").err(), Some(PatternError::InvalidPattern(expected)));
}
