use tag_sync::action::Action;
use tag_sync::handoff::{hand_over, holds_one_line, join_lines, split_lines};
use tag_sync::naming::{
    fetch_refspec, fetch_refspecs, sync_branch_name, sync_branch_ref, sync_tag_ref,
    synced_branches, ORIGIN, SYNC_PREFIX, UPSTREAM,
};
use tag_sync::text::{chars_of, find_from};

fn strings(items: &[&str]) -> Vec<String> {
    items.iter().map(|item| item.to_string()).collect()
}

#[test]
fn names_of_the_remotes_and_the_prefix() {
    assert_eq!(SYNC_PREFIX, "sync-");
    assert_eq!(UPSTREAM, "upstream");
    assert_eq!(ORIGIN, "origin");
}

#[test]
fn branch_name_is_prefix_and_tag() {
    assert_eq!(sync_branch_name("v1.0"), "sync-v1.0");
    assert_eq!(sync_branch_name(""), "sync-");
    assert_eq!(sync_branch_name("sync-v1"), "sync-sync-v1");
}

#[test]
fn references_of_a_tag() {
    assert_eq!(sync_tag_ref("5.2.0"), "refs/tags/sync-5.2.0");
    assert_eq!(sync_branch_ref("5.2.0"), "refs/heads/sync-5.2.0");
}

#[test]
fn refspec_of_a_tag() {
    assert_eq!(fetch_refspec("v1.0"), "+refs/tags/v1.0:refs/tags/sync-v1.0");
}

#[test]
fn refspecs_of_tags_in_order() {
    assert_eq!(
        fetch_refspecs(&strings(&["a", "b/c"])),
        strings(&["+refs/tags/a:refs/tags/sync-a", "+refs/tags/b/c:refs/tags/sync-b/c"]),
    );
    assert!(fetch_refspecs(&strings(&[])).is_empty());
}

#[test]
fn branches_of_tags_in_order() {
    assert_eq!(synced_branches(&strings(&["v2", "v1"])), strings(&["sync-v2", "sync-v1"]));
}

#[test]
fn distinct_tags_have_distinct_branches() {
    let names = synced_branches(&strings(&["v1", "v1.0", "1", ""]));
    for i in 0..names.len() {
        for j in 0..i {
            assert_ne!(names[i], names[j]);
        }
    }
}

#[test]
fn lines_are_joined_with_line_breaks() {
    assert_eq!(join_lines(&strings(&["v1.0", "v1.1", "v2"])), "v1.0\nv1.1\nv2");
    assert_eq!(join_lines(&strings(&["only"])), "only");
    assert_eq!(join_lines(&strings(&[])), "");
}

#[test]
fn text_is_split_at_line_breaks() {
    assert_eq!(split_lines("v1.0\nv1.1\nv2"), strings(&["v1.0", "v1.1", "v2"]));
    assert_eq!(split_lines("only"), strings(&["only"]));
    assert_eq!(split_lines(""), strings(&[""]));
    assert_eq!(split_lines("a\n"), strings(&["a", ""]));
    assert_eq!(split_lines("\n\nb"), strings(&["", "", "b"]));
}

#[test]
fn split_agrees_with_std() {
    for text in ["", "a", "a\nb", "\n", "a\n\nb\n", "ünï\ncödé", "x\r\ny"] {
        let expected: Vec<String> = text.split('\n').map(|piece| piece.to_string()).collect();
        assert_eq!(split_lines(text), expected, "{text:?}");
    }
}

#[test]
fn names_come_back_as_they_were_written() {
    for names in [strings(&["v1.0"]), strings(&["v1.0", "v1.1"]), strings(&["", "x", ""])] {
        assert_eq!(split_lines(&join_lines(&names)), names);
    }
}

#[test]
fn pieces_joined_are_the_text() {
    for text in ["", "a", "a\nb", "\n", "a\n\nb\n", "tag with spaces\nnext"] {
        assert_eq!(join_lines(&split_lines(text)), text);
    }
}

#[test]
fn a_name_with_a_line_break_does_not_come_back() {
    let names = strings(&["a\nb"]);
    assert_eq!(split_lines(&join_lines(&names)), strings(&["a", "b"]));
}

#[test]
fn output_line_for_the_pipeline() {
    assert_eq!(
        Action::set_output("new-tags-file", "/work/new_tags.txt"),
        "::set-output name=new-tags-file::/work/new_tags.txt",
    );
    assert_eq!(Action::set_output("", ""), "::set-output name=::");
}

#[test]
fn characters_of_a_text() {
    assert_eq!(chars_of("aé/"), vec!['a', 'é', '/']);
    assert!(chars_of("").is_empty());
}

#[test]
fn first_place_of_a_character() {
    let text = chars_of("a/b/c");
    assert_eq!(find_from(&text, 0, '/'), 1);
    assert_eq!(find_from(&text, 2, '/'), 3);
    assert_eq!(find_from(&text, 4, '/'), 5);
    assert_eq!(find_from(&text, 5, '/'), 5);
}

#[test]
fn names_are_handed_over_one_to_a_line() {
    assert_eq!(hand_over(&strings(&["v1.0", "v1.1"])).unwrap(), "v1.0\nv1.1");
    assert_eq!(hand_over(&strings(&["v1.0"])).unwrap(), "v1.0");
    assert_eq!(hand_over(&strings(&[""])).unwrap(), "");
}

#[test]
fn what_is_handed_over_reads_back() {
    for names in [strings(&["a"]), strings(&["a", "b", "c"]), strings(&["", ""]), strings(&["ü b"])]
    {
        let written = hand_over(&names).unwrap();
        assert_eq!(split_lines(&written), names);
    }
}

#[test]
fn names_that_would_not_read_back_are_not_handed_over() {
    assert!(hand_over(&strings(&[])).is_none());
    assert!(hand_over(&strings(&["a\nb"])).is_none());
    assert!(hand_over(&strings(&["a", "b\n"])).is_none());
    assert!(hand_over(&strings(&["\n", "b"])).is_none());
}

#[test]
fn one_line_has_no_line_break() {
    assert!(holds_one_line(""));
    assert!(holds_one_line("v1.0 with spaces\r"));
    assert!(!holds_one_line("\n"));
    assert!(!holds_one_line("a\nb"));
}
