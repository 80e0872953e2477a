use tag_sync::model::{Branch, Tag};
use tag_sync::pages::{
    unique_branches, unique_tags, PageAction, PageCollector, FIRST_PAGE, PAGE_SIZE,
};

fn tag(name: &str, commit: &str) -> Tag {
    Tag { name: name.to_string(), commit_id: commit.to_string() }
}

fn branch(name: &str, commit: &str, protected: bool) -> Branch {
    Branch { name: name.to_string(), commit_id: commit.to_string(), protected }
}

#[test]
fn the_first_page_is_asked_for_first() {
    let collector: PageCollector<u32> = PageCollector::new();
    assert_eq!(collector.action(), PageAction::Request { page: 1, per_page: 100 });
    assert_eq!(FIRST_PAGE, 1);
    assert_eq!(PAGE_SIZE, 100);
    assert!(collector.into_items().is_empty());
}

#[test]
fn pages_are_read_until_none_follows() {
    let mut collector: PageCollector<u32> = PageCollector::new();
    assert_eq!(
        collector.accept(vec![1, 2], true),
        PageAction::Request { page: 2, per_page: 100 }
    );
    assert_eq!(collector.accept(vec![], true), PageAction::Request { page: 3, per_page: 100 });
    assert_eq!(collector.accept(vec![3], false), PageAction::Complete);
    assert_eq!(collector.action(), PageAction::Complete);
    assert_eq!(collector.into_items(), vec![1, 2, 3]);
}

#[test]
fn a_single_page_completes_the_listing() {
    let mut collector: PageCollector<&str> = PageCollector::new();
    assert_eq!(collector.accept(vec!["only"], false), PageAction::Complete);
    assert_eq!(collector.into_items(), vec!["only"]);
}

#[test]
fn a_page_after_the_end_is_dropped() {
    let mut collector: PageCollector<u32> = PageCollector::new();
    collector.accept(vec![1], false);
    assert_eq!(collector.accept(vec![2], true), PageAction::Complete);
    assert_eq!(collector.into_items(), vec![1]);
}

#[test]
fn repeated_tags_are_dropped() {
    let tags = vec![tag("v1", "a"), tag("v2", "b"), tag("v1", "c"), tag("v3", "d"), tag("v2", "e")];
    let unique = unique_tags(&tags);
    let seen: Vec<(&str, &str)> =
        unique.iter().map(|tag| (tag.name.as_str(), tag.commit_id.as_str())).collect();
    assert_eq!(seen, vec![("v1", "a"), ("v2", "b"), ("v3", "d")]);
}

#[test]
fn distinct_tags_stay_as_they_are() {
    let tags = vec![tag("v1", "a"), tag("v2", "a"), tag("V1", "a")];
    let unique = unique_tags(&tags);
    let names: Vec<&str> = unique.iter().map(|tag| tag.name.as_str()).collect();
    assert_eq!(names, vec!["v1", "v2", "V1"]);
    assert!(unique_tags(&vec![]).is_empty());
}

#[test]
fn repeated_branches_are_dropped() {
    let branches = vec![
        branch("main", "a", true),
        branch("sync-v1", "b", false),
        branch("main", "c", false),
    ];
    let unique = unique_branches(&branches);
    assert_eq!(unique.len(), 2);
    assert_eq!(unique[0].name, "main");
    assert_eq!(unique[0].commit_id, "a");
    assert!(unique[0].protected);
    assert_eq!(unique[1].name, "sync-v1");
    assert!(!unique[1].protected);
}

#[test]
fn a_listing_with_repeats_gives_each_new_tag_once() {
    let mut collector: PageCollector<Tag> = PageCollector::new();
    collector.accept(vec![tag("v1", "a"), tag("v2", "b")], true);
    collector.accept(vec![tag("v2", "b"), tag("v3", "c")], false);
    let tags = unique_tags(&collector.into_items());
    let filter = tag_sync::filter::TagFilter::new(".*").unwrap();
    let found = tag_sync::diff::compute_new_tags(&tags, &vec![], &filter);
    assert_eq!(found, vec!["v1".to_string(), "v2".to_string(), "v3".to_string()]);
}

#[test]
fn a_listing_can_start_at_a_later_page() {
    let mut collector: PageCollector<u8> = PageCollector::from_page(7);
    assert_eq!(collector.action(), PageAction::Request { page: 7, per_page: 100 });
    assert_eq!(collector.accept(vec![1], true), PageAction::Request { page: 8, per_page: 100 });
}

#[test]
fn there_is_no_page_after_the_last_page_number() {
    let mut collector: PageCollector<u8> = PageCollector::from_page(u32::MAX);
    assert_eq!(collector.accept(vec![1], true), PageAction::TooManyPages);
    assert_eq!(collector.accept(vec![2], false), PageAction::TooManyPages);
    assert_eq!(collector.into_items(), vec![1]);
    let mut collector: PageCollector<u8> = PageCollector::from_page(u32::MAX);
    assert_eq!(collector.accept(vec![1], false), PageAction::Complete);
}
