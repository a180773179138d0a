use batch_rename::renamer::get_renamer_regex;
use batch_rename::rewrite::{rewrite, splice};

#[test]
fn splice_without_spans_keeps_the_text() {
    assert_eq!(splice("abc", &Vec::new(), "X"), "abc");
    assert_eq!(splice("", &Vec::new(), "X"), "");
    assert_eq!(splice("abc", &vec![None, None], "X"), "abc");
}

#[test]
fn splice_replaces_one_span() {
    assert_eq!(splice("/img_001.jpeg", &vec![Some((5, 8))], "7"), "/img_7.jpeg");
}

#[test]
fn splice_replaces_every_span_in_order() {
    let spans = vec![Some((0, 1)), None, Some((2, 3)), Some((3, 5))];
    assert_eq!(splice("abcde", &spans, "-"), "-b--");
}

#[test]
fn splice_inserts_at_an_empty_span() {
    assert_eq!(splice("abc", &vec![Some((1, 1))], "X"), "aXbc");
    assert_eq!(splice("abc", &vec![Some((0, 0)), Some((3, 3))], "X"), "XabcX");
}

#[test]
fn splice_of_the_whole_text() {
    assert_eq!(splice("abc", &vec![Some((0, 3))], "X"), "X");
    assert_eq!(splice("abc", &vec![Some((0, 3))], ""), "");
}

#[test]
fn splice_counts_bytes_not_characters() {
    assert_eq!(splice("été", &vec![Some((2, 3))], "T"), "éTé");
}

#[test]
fn splice_passes_over_a_span_inside_a_character() {
    assert_eq!(splice("été", &vec![Some((1, 3))], "T"), "été");
    assert_eq!(splice("été", &vec![Some((0, 1))], "T"), "été");
}

#[test]
fn splice_passes_over_a_span_out_of_place() {
    assert_eq!(splice("abc", &vec![Some((2, 1))], "X"), "abc");
    assert_eq!(splice("abc", &vec![Some((1, 4))], "X"), "abc");
    assert_eq!(splice("abcde", &vec![Some((2, 4)), Some((3, 5))], "X"), "abXe");
    assert_eq!(splice("abcde", &vec![Some((2, 4)), Some((0, 1)), Some((4, 5))], "X"), "abXX");
}

#[test]
fn rewrite_keeps_the_rest_of_the_match() {
    let re = get_renamer_regex(r"img_(\d+)\.").unwrap();
    assert_eq!(rewrite(&re, "img_001.jpeg img_2.png", "n"), "img_n.jpeg img_n.png");
}

#[test]
fn rewrite_without_a_match_keeps_the_text() {
    let re = get_renamer_regex("(png)").unwrap();
    assert_eq!(rewrite(&re, "/a.jpeg", "gif"), "/a.jpeg");
    assert_eq!(rewrite(&re, "", "gif"), "");
}

#[test]
fn rewrite_does_not_expand_the_replacement() {
    let re = get_renamer_regex("(b)").unwrap();
    assert_eq!(rewrite(&re, "abc", "$1$1"), "a$1$1c");
}
