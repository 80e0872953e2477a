use tag_sync::context::{Context, Settings};
use tag_sync::diff::{compute_new_tags, has_branch};
use tag_sync::filter::TagFilter;
use tag_sync::model::{Branch, Tag, TagsExt};

fn tag(name: &str) -> Tag {
    Tag { name: name.to_string(), commit_id: format!("commit-of-{name}") }
}

fn branch(name: &str) -> Branch {
    Branch { name: name.to_string(), commit_id: format!("commit-of-{name}"), protected: false }
}

fn tags(names: &[&str]) -> Vec<Tag> {
    names.iter().map(|name| tag(name)).collect()
}

fn branches(names: &[&str]) -> Vec<Branch> {
    names.iter().map(|name| branch(name)).collect()
}

fn filter(pattern: &str) -> TagFilter {
    TagFilter::new(pattern).unwrap()
}

#[test]
fn mirrored_tag_is_not_new() {
    let found = compute_new_tags(
        &tags(&["v1.0", "v1.1"]),
        &branches(&["sync-v1.0"]),
        &filter(".*"),
    );
    assert_eq!(found, vec!["v1.1".to_string()]);
}

#[test]
fn filter_keeps_matching_tags_only() {
    let found = compute_new_tags(&tags(&["v1.0", "v2.0"]), &branches(&[]), &filter(r"^v2\..*"));
    assert_eq!(found, vec!["v2.0".to_string()]);
}

#[test]
fn no_base_tags_no_new_tags() {
    let found = compute_new_tags(&tags(&[]), &branches(&["sync-v1.0", "main"]), &filter(".*"));
    assert!(found.is_empty());
}

#[test]
fn new_tags_keep_the_order_of_the_base_tags() {
    let found = compute_new_tags(
        &tags(&["v3", "v1", "v2", "v0"]),
        &branches(&["sync-v2", "main"]),
        &filter("^v"),
    );
    assert_eq!(found, vec!["v3".to_string(), "v1".to_string(), "v0".to_string()]);
}

#[test]
fn a_tag_is_new_exactly_when_it_matches_and_has_no_branch() {
    let base = ["v1.0", "v1.1", "rc-1", "v2.0-beta", "nightly"];
    let head = ["main", "sync-v1.1", "sync-nightly", "v1.0"];
    let pattern = r"^v\d";
    let found = compute_new_tags(&tags(&base), &branches(&head), &filter(pattern));
    let compiled = regex::Regex::new(pattern).unwrap();
    for name in base {
        let expected = compiled.is_match(name) && !head.contains(&format!("sync-{name}").as_str());
        assert_eq!(found.contains(&name.to_string()), expected, "{name}");
    }
    assert_eq!(found, vec!["v1.0".to_string(), "v2.0-beta".to_string()]);
}

#[test]
fn a_branch_named_like_the_tag_does_not_count() {
    let found = compute_new_tags(&tags(&["v1.0"]), &branches(&["v1.0"]), &filter(".*"));
    assert_eq!(found, vec!["v1.0".to_string()]);
}

#[test]
fn a_filter_that_matches_nothing_is_no_error() {
    let found = compute_new_tags(&tags(&["v1.0", "v1.1"]), &branches(&[]), &filter("^release-"));
    assert!(found.is_empty());
}

#[test]
fn the_filter_searches_anywhere_in_the_name() {
    let found = compute_new_tags(&tags(&["pre-v1-post", "other"]), &branches(&[]), &filter("v1"));
    assert_eq!(found, vec!["pre-v1-post".to_string()]);
}

#[test]
fn detection_twice_gives_the_same_tags() {
    let base = tags(&["v1.0", "v1.1", "v1.2"]);
    let head = branches(&["sync-v1.1"]);
    let filter = filter(r"^v1\.");
    let first = compute_new_tags(&base, &head, &filter);
    let second = compute_new_tags(&base, &head, &filter);
    assert_eq!(first, second);
    assert_eq!(first, vec!["v1.0".to_string(), "v1.2".to_string()]);
}

#[test]
fn detection_reads_names_only() {
    let filter = filter(".*");
    let one = compute_new_tags(&tags(&["a", "b"]), &branches(&["sync-a", "x"]), &filter);
    let mut other_tags = tags(&["a", "b"]);
    other_tags[1].commit_id = "another".to_string();
    let mut other_branches = branches(&["x", "sync-a", "x"]);
    other_branches[0].protected = true;
    let other = compute_new_tags(&other_tags, &other_branches, &filter);
    assert_eq!(one, other);
}

#[test]
fn nothing_is_new_once_the_new_tags_have_branches() {
    let base = tags(&["v1", "v2", "v3"]);
    let mut head = branches(&["sync-v2"]);
    let filter = filter(".*");
    let found = compute_new_tags(&base, &head, &filter);
    assert_eq!(found, vec!["v1".to_string(), "v3".to_string()]);
    for name in tag_sync::naming::synced_branches(&found) {
        head.push(branch(&name));
    }
    assert!(compute_new_tags(&base, &head, &filter).is_empty());
}

#[test]
fn invalid_filter_is_turned_down() {
    let invalid = TagFilter::new("foo(bar").unwrap_err();
    assert_eq!(invalid.pattern, "foo(bar");
    assert!(!invalid.reason.is_empty());
}

#[test]
fn valid_filter_keeps_its_pattern() {
    let made = TagFilter::new(r"^v\d+$").unwrap();
    assert_eq!(made.as_str(), r"^v\d+$");
    assert!(made.is_match("v12"));
    assert!(!made.is_match("v12a"));
    assert!(!made.is_match(r"^v\d+$"));
}

#[test]
fn names_of_tags() {
    assert_eq!(tags(&["v1.0", "v1.1"]).names(), vec!["v1.0".to_string(), "v1.1".to_string()]);
    assert!(tags(&[]).names().is_empty());
}

#[test]
fn has_branch_compares_whole_names() {
    let head = branches(&["sync-v1.0", "main"]);
    assert!(has_branch(&head, &"main".to_string()));
    assert!(has_branch(&head, &"sync-v1.0".to_string()));
    assert!(!has_branch(&head, &"sync-v1".to_string()));
    assert!(!has_branch(&branches(&[]), &"main".to_string()));
}

#[test]
fn context_detects_with_its_filter() {
    let mut settings = Settings::new();
    settings.github_workspace = Some("/work".to_string());
    settings.base_repo = Some("rust-lang/rustlings".to_string());
    settings.head_repo = Some("someone/rustlings".to_string());
    settings.github_token = Some("token".to_string());
    settings.github_actor = Some("someone".to_string());
    settings.filter_tags = Some(r"^5\.".to_string());
    settings.cloned_path = Some("rustlings-head".to_string());
    let context = Context::new(&settings).unwrap();
    let found = context.new_tags(&tags(&["5.2.0", "4.8.0", "5.1.0"]), &branches(&["sync-5.1.0"]));
    assert_eq!(found, vec!["5.2.0".to_string()]);
}
