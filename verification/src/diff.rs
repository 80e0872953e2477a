//! Finds the tags that are not mirrored yet.
//!
//! A tag of the base repository is new when the head repository has no
//! branch named `sync-<tag>` and the tag's name passes the filter.

use crate::filter::{regex_is_match, TagFilter};
use crate::model::{branch_names, tag_names, texts, Branch, Tag};
use crate::naming::{branch_name_of, sync_branch_name};
use vstd::prelude::*;

verus! {

/// Whether the tag `name` still has to be mirrored, given the names of the
/// head repository's branches and the filter's pattern.
pub open spec fn is_new_tag(name: Seq<char>, head: Seq<Seq<char>>, pattern: Seq<char>) -> bool {
    !head.contains(branch_name_of(name)) && regex_is_match(pattern, name)
}

/// The names among `base` that still have to be mirrored, in the order of
/// `base`.
pub open spec fn new_tag_names(
    base: Seq<Seq<char>>,
    head: Seq<Seq<char>>,
    pattern: Seq<char>,
) -> Seq<Seq<char>> {
    base.filter(|name: Seq<char>| is_new_tag(name, head, pattern))
}

/// Whether one of `branches` is named `name`.
pub fn has_branch(branches: &Vec<Branch>, name: &String) -> (found: bool)
    ensures
        found == branch_names(branches@).contains(name@),
{
    let mut i: usize = 0;
    while i < branches.len()
        invariant
            i <= branches.len(),
            forall|j: int| 0 <= j < i ==> branches[j].name@ != name@,
        decreases branches.len() - i,
    {
        if branches[i].name == *name {
            assert(branch_names(branches@)[i as int] == name@);
            return true;
        }
        i += 1;
    }
    false
}

/// Computes the new tags: the names of those of `base_tags`, in their
/// order, that pass `filter` and have no `sync-` branch among
/// `head_branches`.
pub fn compute_new_tags(
    base_tags: &Vec<Tag>,
    head_branches: &Vec<Branch>,
    filter: &TagFilter,
) -> (new_tags: Vec<String>)
    ensures
        texts(new_tags@) == new_tag_names(
            tag_names(base_tags@),
            branch_names(head_branches@),
            filter@,
        ),
        forall|name: Seq<char>| #[trigger]
            texts(new_tags@).contains(name) <==> tag_names(base_tags@).contains(name)
                && regex_is_match(filter@, name) && !branch_names(head_branches@).contains(
                branch_name_of(name),
            ),
{
    let ghost base = tag_names(base_tags@);
    let ghost head = branch_names(head_branches@);
    let ghost keep = |name: Seq<char>| is_new_tag(name, head, filter@);
    let mut new_tags: Vec<String> = Vec::new();
    let mut i: usize = 0;
    proof {
        reveal(Seq::filter);
        assert(base.take(0).filter(keep) =~= texts(new_tags@));
    }
    while i < base_tags.len()
        invariant
            i <= base_tags.len(),
            base == tag_names(base_tags@),
            head == branch_names(head_branches@),
            keep == |name: Seq<char>| is_new_tag(name, head, filter@),
            texts(new_tags@) == base.take(i as int).filter(keep),
        decreases base_tags.len() - i,
    {
        let tag = &base_tags[i];
        let branch = sync_branch_name(tag.name.as_str());
        let ghost before = texts(new_tags@);
        proof {
            reveal(Seq::filter);
            assert(base.take(i + 1).drop_last() == base.take(i as int));
            assert(base.take(i + 1).last() == tag.name@);
        }
        if !has_branch(head_branches, &branch) && filter.is_match(tag.name.as_str()) {
            new_tags.push(tag.name.clone());
            assert(texts(new_tags@) =~= before.push(tag.name@));
        }
        i += 1;
    }
    proof {
        assert(base.take(base_tags.len() as int) == base);
        assert forall|name: Seq<char>| #[trigger]
            texts(new_tags@).contains(name) <==> base.contains(name) && regex_is_match(
                filter@,
                name,
            ) && !head.contains(branch_name_of(name)) by {
            lemma_new_tag_membership(base, head, filter@, name);
        }
    }
    new_tags
}

/// A name is among the new tags exactly when it is the name of a base tag,
/// passes the filter, and `sync-` followed by it names no branch of the
/// head repository.
pub proof fn lemma_new_tag_membership(
    base: Seq<Seq<char>>,
    head: Seq<Seq<char>>,
    pattern: Seq<char>,
    name: Seq<char>,
)
    ensures
        new_tag_names(base, head, pattern).contains(name) <==> base.contains(name)
            && regex_is_match(pattern, name) && !head.contains(branch_name_of(name)),
{
    let keep = |tag: Seq<char>| is_new_tag(tag, head, pattern);
    let found = base.filter(keep);
    if found.contains(name) {
        base.lemma_filter_contains_rev(keep, name);
        let i = choose|i: int| 0 <= i < found.len() && found[i] == name;
        base.lemma_filter_pred(keep, i);
    }
    if base.contains(name) && keep(name) {
        let i = choose|i: int| 0 <= i < base.len() && base[i] == name;
        base.lemma_filter_contains(keep, i);
    }
}

/// Detection reads names only: two lists of base tags with the same names
/// in the same order, and two lists of head branches with the same set of
/// names, give the same new tags. Running it again while neither
/// repository has changed therefore gives the same answer.
pub proof fn lemma_detection_repeatable(
    base_1: Seq<Seq<char>>,
    head_1: Seq<Seq<char>>,
    base_2: Seq<Seq<char>>,
    head_2: Seq<Seq<char>>,
    pattern: Seq<char>,
)
    requires
        base_1 == base_2,
        forall|name: Seq<char>| head_1.contains(name) <==> head_2.contains(name),
    ensures
        new_tag_names(base_1, head_1, pattern) == new_tag_names(base_2, head_2, pattern),
{
    let keep_1 = |name: Seq<char>| is_new_tag(name, head_1, pattern);
    let keep_2 = |name: Seq<char>| is_new_tag(name, head_2, pattern);
    assert forall|name: Seq<char>| #[trigger] keep_1(name) == keep_2(name) by {
        assert(head_1.contains(branch_name_of(name)) <==> head_2.contains(branch_name_of(name)));
    }
    assert(keep_1 =~= keep_2);
}

/// Once every new tag has its branch, nothing is left to do: with the
/// branches of the new tags added to the head repository, detection finds
/// no new tag.
pub proof fn lemma_nothing_new_after_sync(
    base: Seq<Seq<char>>,
    head: Seq<Seq<char>>,
    pattern: Seq<char>,
)
    ensures
        new_tag_names(
            base,
            head + new_tag_names(base, head, pattern).map_values(
                |name: Seq<char>| branch_name_of(name),
            ),
            pattern,
        ).len() == 0,
{
    let found = new_tag_names(base, head, pattern);
    let created = found.map_values(|name: Seq<char>| branch_name_of(name));
    let after = head + created;
    let again = new_tag_names(base, after, pattern);
    if again.len() > 0 {
        let name = again[0];
        assert(again.contains(name));
        lemma_new_tag_membership(base, after, pattern, name);
        lemma_new_tag_membership(base, head, pattern, name);
        if head.contains(branch_name_of(name)) {
            let i = choose|i: int| 0 <= i < head.len() && head[i] == branch_name_of(name);
            assert(after[i] == branch_name_of(name));
        } else {
            let i = choose|i: int| 0 <= i < found.len() && found[i] == name;
            assert(after[head.len() + i] == branch_name_of(name));
        }
    }
}

} // verus!
