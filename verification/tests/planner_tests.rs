use batch_rename::matcher::{get_matched_paths, get_matcher_regex};
use batch_rename::planner::{get_change_pairs, plan_pairs, visible_pairs, ChangePair};
use batch_rename::renamer::get_renamer_regex;

fn owned(items: &[&str]) -> Vec<String> {
    items.iter().map(|s| s.to_string()).collect()
}

fn pair(source: &str, destination: &str) -> ChangePair {
    ChangePair { source: source.to_string(), destination: destination.to_string() }
}

#[test]
fn photos_are_selected_and_planned() {
    let entries = owned(&["/photos/a.jpeg", "/photos/b.jpeg", "/photos/notes.txt"]);
    let matcher = get_matcher_regex(r".*\.jpeg").unwrap();
    let matched = get_matched_paths(&entries, &matcher);
    assert_eq!(matched, owned(&["/photos/a.jpeg", "/photos/b.jpeg"]));
    let renamer = get_renamer_regex("(jpeg)").unwrap();
    let changes = get_change_pairs(matched, "/photos".to_string(), renamer, &"jpg".to_string());
    assert_eq!(
        changes,
        vec![pair("/photos/a.jpeg", "/photos/a.jpg"), pair("/photos/b.jpeg", "/photos/b.jpg")]
    );
}

#[test]
fn plan_keeps_the_order_of_the_entries() {
    let renamer = get_renamer_regex("(x)").unwrap();
    let paths = owned(&["/r/3x", "/r/1x", "/r/2"]);
    let changes = plan_pairs(&paths, "/r", &renamer, "y");
    assert_eq!(changes, vec![pair("/r/3x", "/r/3y"), pair("/r/1x", "/r/1y"), pair("/r/2", "/r/2")]);
}

#[test]
fn plan_of_nothing_is_empty() {
    let renamer = get_renamer_regex("(x)").unwrap();
    assert!(plan_pairs(&Vec::new(), "/r", &renamer, "y").is_empty());
}

#[test]
fn unmatched_entry_is_paired_with_itself() {
    let renamer = get_renamer_regex("(png)").unwrap();
    let changes = plan_pairs(&owned(&["/photos/a.jpeg"]), "/photos", &renamer, "gif");
    assert_eq!(changes, vec![pair("/photos/a.jpeg", "/photos/a.jpeg")]);
    assert!(changes[0].is_unchanged());
}

#[test]
fn planning_twice_gives_the_same_plan() {
    let renamer = get_renamer_regex(r"(\d+)").unwrap();
    let paths = owned(&["/r/img_01.png", "/r/img_2.png", "/r/readme"]);
    let first = plan_pairs(&paths, "/r", &renamer, "n");
    let second = plan_pairs(&paths, "/r", &renamer, "n");
    assert_eq!(first, second);
    let third =
        get_change_pairs(paths.clone(), "/r".to_string(), renamer.clone(), &"n".to_string());
    assert_eq!(first, third);
}

#[test]
fn unchanged_pairs_are_recognised() {
    assert!(pair("/a", "/a").is_unchanged());
    assert!(!pair("/a", "/b").is_unchanged());
    assert!(!pair("/a", "/a ").is_unchanged());
}

#[test]
fn preview_shows_or_hides_unchanged_pairs() {
    let changes = vec![pair("/a", "/a"), pair("/b", "/c"), pair("/d", "/d"), pair("/e", "/f")];
    assert_eq!(visible_pairs(&changes, true), changes);
    assert_eq!(visible_pairs(&changes, false), vec![pair("/b", "/c"), pair("/e", "/f")]);
    assert!(visible_pairs(&Vec::new(), false).is_empty());
}

#[test]
fn pair_clone_keeps_both_paths() {
    let first = pair("/a", "/b");
    assert_eq!(first.clone(), first);
}

#[test]
fn plan_puts_the_replacement_into_the_group() {
    let renamer = get_renamer_regex(r"img_(\d+)").unwrap();
    let changes =
        get_change_pairs(owned(&["/r/img_001.jpeg"]), "/r".to_string(), renamer, &"7".to_string());
    assert_eq!(changes, vec![pair("/r/img_001.jpeg", "/r/img_7.jpeg")]);
}

#[test]
fn plan_takes_the_replacement_as_a_literal() {
    let renamer = get_renamer_regex("(jpeg)").unwrap();
    let changes = get_change_pairs(
        owned(&["/photos/a.jpeg"]),
        "/photos".to_string(),
        renamer,
        &"$1".to_string(),
    );
    assert_eq!(changes, vec![pair("/photos/a.jpeg", "/photos/a.$1")]);
}
