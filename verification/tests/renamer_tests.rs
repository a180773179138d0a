use batch_rename::error::PatternError;
use batch_rename::renamer::{
    arity_verdict, destination_path, get_renamer_regex, relative_path, renamer_from_compiled,
};
use regex::Regex;

#[test]
fn no_capture_group_is_refused() {
    assert_eq!(get_renamer_regex("jpeg").err(), Some(PatternError::NoCaptureGroup));
    assert_eq!(get_renamer_regex("").err(), Some(PatternError::NoCaptureGroup));
    assert_eq!(get_renamer_regex("(?:jpeg)").err(), Some(PatternError::NoCaptureGroup));
}

#[test]
fn several_capture_groups_are_refused() {
    assert_eq!(get_renamer_regex("(a)(b)").err(), Some(PatternError::TooManyCaptureGroups));
    assert_eq!(get_renamer_regex("((a)b)(c)").err(), Some(PatternError::TooManyCaptureGroups));
}

#[test]
fn one_capture_group_is_accepted() {
    let re = get_renamer_regex("(jpeg)").unwrap();
    assert_eq!(re.as_str(), "(jpeg)");
    assert_eq!(re.captures_len(), 2);
    assert!(get_renamer_regex("(?P<ext>jpeg)").is_ok());
}

#[test]
fn transformation_text_is_not_anchored() {
    let re = get_renamer_regex("(a)").unwrap();
    assert_eq!(re.as_str(), "(a)");
}

#[test]
fn invalid_transformation_is_reported() {
    assert!(matches!(get_renamer_regex("(jpeg"), Err(PatternError::InvalidPattern(_))));
}

#[test]
fn verdict_by_group_count() {
    assert_eq!(arity_verdict(1), Err(PatternError::NoCaptureGroup));
    assert_eq!(arity_verdict(2), Ok(()));
    assert_eq!(arity_verdict(3), Err(PatternError::TooManyCaptureGroups));
    assert_eq!(arity_verdict(usize::MAX), Err(PatternError::TooManyCaptureGroups));
}

#[test]
fn verdict_on_compiled_expressions() {
    assert_eq!(renamer_from_compiled(Regex::new("x")).err(), Some(PatternError::NoCaptureGroup));
    assert_eq!(
        renamer_from_compiled(Regex::new("(x)(y)")).err(),
        Some(PatternError::TooManyCaptureGroups)
    );
    assert_eq!(renamer_from_compiled(Regex::new("(x)")).unwrap().as_str(), "(x)");
    assert!(matches!(
        renamer_from_compiled(Regex::new("(x")),
        Err(PatternError::InvalidPattern(_))
    ));
}

#[test]
fn error_messages() {
    assert_eq!(
        PatternError::NoCaptureGroup.message(),
        "You don't have any capture groups for renaming?"
    );
    assert_eq!(
        PatternError::TooManyCaptureGroups.message(),
        "Sorry, this can only deal with a single capture group at the moment!"
    );
    assert_eq!(PatternError::InvalidPattern("bad".to_string()).message(), "bad");
}

#[test]
fn relative_path_strips_the_root() {
    assert_eq!(relative_path("/photos/a.jpeg", "/photos"), "/a.jpeg");
    assert_eq!(relative_path("/photos/a.jpeg", "/photos/"), "a.jpeg");
    assert_eq!(relative_path("/photos", "/photos"), "");
    assert_eq!(relative_path("/photos/a.jpeg", ""), "/photos/a.jpeg");
}

#[test]
fn relative_path_strips_the_prefix_only() {
    assert_eq!(relative_path("/a/x/a/y", "/a"), "/x/a/y");
}

#[test]
fn relative_path_outside_the_root() {
    assert_eq!(relative_path("/music/a.mp3", "/photos"), "/music/a.mp3");
    assert_eq!(relative_path("/ph", "/photos"), "/ph");
}

#[test]
fn relative_path_with_non_ascii_root() {
    assert_eq!(relative_path("/été/a.jpeg", "/été"), "/a.jpeg");
    assert_eq!(relative_path("/éte/a.jpeg", "/été"), "/éte/a.jpeg");
}

#[test]
fn destination_rewrites_the_relative_path() {
    let re = get_renamer_regex("(jpeg)").unwrap();
    assert_eq!(destination_path("/photos/a.jpeg", "/photos", &re, "jpg"), "/photos/a.jpg");
}

#[test]
fn destination_leaves_the_root_alone() {
    let re = get_renamer_regex("(jpeg)").unwrap();
    assert_eq!(destination_path("/jpeg/jpeg.jpeg", "/jpeg", &re, "jpg"), "/jpeg/jpg.jpg");
}

#[test]
fn destination_replaces_every_match() {
    let re = get_renamer_regex("(a)").unwrap();
    assert_eq!(destination_path("/r/banana", "/r", &re, "o"), "/r/bonono");
}

#[test]
fn destination_without_a_match_is_the_source() {
    let re = get_renamer_regex("(jpeg)").unwrap();
    assert_eq!(destination_path("/photos/notes.txt", "/photos", &re, "jpg"), "/photos/notes.txt");
    assert_eq!(destination_path("/photos", "/photos", &re, "jpg"), "/photos");
}

#[test]
fn destination_of_a_path_outside_the_root() {
    let re = get_renamer_regex("(jpeg)").unwrap();
    assert_eq!(destination_path("b.jpeg", "/photos", &re, "jpg"), "/photosb.jpg");
}

#[test]
fn replacement_goes_into_the_group_not_the_match() {
    let re = get_renamer_regex(r"img_(\d+)").unwrap();
    assert_eq!(destination_path("/r/img_001.jpeg", "/r", &re, "7"), "/r/img_7.jpeg");
}

#[test]
fn replacement_is_a_literal() {
    let re = get_renamer_regex("(jpeg)").unwrap();
    assert_eq!(destination_path("/photos/a.jpeg", "/photos", &re, "$1"), "/photos/a.$1");
    assert_eq!(destination_path("/photos/a.jpeg", "/photos", &re, "${0}x$$"), "/photos/a.${0}x$$");
}

#[test]
fn replacement_in_every_match() {
    let re = get_renamer_regex(r"_(\d)").unwrap();
    assert_eq!(destination_path("/r/a_1_2_3.txt", "/r", &re, "n"), "/r/a_n_n_n.txt");
}

#[test]
fn group_that_took_no_part_is_left_alone() {
    let re = get_renamer_regex("a|(b)").unwrap();
    assert_eq!(destination_path("/r/abab", "/r", &re, "X"), "/r/aXaX");
    assert_eq!(destination_path("/r/aaa", "/r", &re, "X"), "/r/aaa");
}

#[test]
fn empty_group_gets_the_replacement_inserted() {
    let re = get_renamer_regex("(x*)y").unwrap();
    assert_eq!(destination_path("/r/y", "/r", &re, "X"), "/r/Xy");
}

#[test]
fn empty_replacement_removes_the_group() {
    let re = get_renamer_regex(r"copy( of)").unwrap();
    assert_eq!(destination_path("/r/copy of a", "/r", &re, ""), "/r/copy a");
}

#[test]
fn replacement_between_non_ascii_characters() {
    let re = get_renamer_regex("é(t)é").unwrap();
    assert_eq!(destination_path("/r/été.txt", "/r", &re, "çà"), "/r/éçàé.txt");
}

#[test]
fn refusal_of_a_transformation_carries_the_words_of_the_engine() {
    let expected = format!("{:?}", Regex::new("(jpeg").unwrap_err());
    assert_eq!(get_renamer_regex("(jpeg").err(), Some(PatternError::InvalidPattern(expected)));
}
