//! The names under which a tag of the base repository lives in the head
//! repository and in the local clone.
//!
//! These names are a convention shared with earlier runs: a tag counts as
//! mirrored exactly when the head repository has the branch that
//! [`branch_name_of`] gives for it.

use crate::model::texts;
use vstd::prelude::*;
use vstd::string::StringExecFns;

verus! {

/// Prefix of every branch that mirrors a tag.
pub const SYNC_PREFIX: &'static str = "sync-";

/// Name of the remote that points at the base repository.
pub const UPSTREAM: &'static str = "upstream";

/// Name of the remote that points at the head repository.
pub const ORIGIN: &'static str = "origin";

/// The branch that mirrors the tag `tag`: `sync-` followed by the tag's name.
pub open spec fn branch_name_of(tag: Seq<char>) -> Seq<char> {
    "sync-"@ + tag
}

/// The local tag under which the fetched tag `tag` is kept:
/// `refs/tags/sync-` followed by the tag's name.
pub open spec fn tag_ref_of(tag: Seq<char>) -> Seq<char> {
    "refs/tags/sync-"@ + tag
}

/// The reference of the branch that mirrors `tag`: `refs/heads/sync-`
/// followed by the tag's name.
pub open spec fn branch_ref_of(tag: Seq<char>) -> Seq<char> {
    "refs/heads/sync-"@ + tag
}

/// The refspec that fetches `tag` alone from the base repository into its
/// local tag, overwriting what an earlier fetch left there:
/// `+refs/tags/<tag>:refs/tags/sync-<tag>`.
pub open spec fn refspec_of(tag: Seq<char>) -> Seq<char> {
    "+refs/tags/"@ + tag + ":refs/tags/sync-"@ + tag
}

/// Computes the name of the branch that mirrors `tag`.
pub fn sync_branch_name(tag: &str) -> (name: String)
    ensures
        name@ == branch_name_of(tag@),
{
    let mut name = String::from_str(SYNC_PREFIX);
    name.append(tag);
    name
}

/// Computes the local tag under which the fetched `tag` is kept.
pub fn sync_tag_ref(tag: &str) -> (name: String)
    ensures
        name@ == tag_ref_of(tag@),
{
    let mut name = String::from_str("refs/tags/sync-");
    name.append(tag);
    name
}

/// Computes the reference of the branch that mirrors `tag`.
pub fn sync_branch_ref(tag: &str) -> (name: String)
    ensures
        name@ == branch_ref_of(tag@),
{
    let mut name = String::from_str("refs/heads/sync-");
    name.append(tag);
    name
}

/// Computes the refspec that fetches `tag` alone.
pub fn fetch_refspec(tag: &str) -> (refspec: String)
    ensures
        refspec@ == refspec_of(tag@),
{
    let mut refspec = String::from_str("+refs/tags/");
    refspec.append(tag);
    refspec.append(":refs/tags/sync-");
    refspec.append(tag);
    refspec
}

/// Computes one refspec for each of `tags`, in their order.
pub fn fetch_refspecs(tags: &Vec<String>) -> (refspecs: Vec<String>)
    ensures
        texts(refspecs@) == texts(tags@).map_values(|tag: Seq<char>| refspec_of(tag)),
{
    let mut refspecs: Vec<String> = Vec::new();
    let mut i: usize = 0;
    while i < tags.len()
        invariant
            i <= tags.len(),
            refspecs.len() == i,
            forall|j: int| 0 <= j < i ==> (#[trigger] refspecs[j])@ == refspec_of(tags[j]@),
        decreases tags.len() - i,
    {
        refspecs.push(fetch_refspec(tags[i].as_str()));
        i += 1;
    }
    assert(texts(refspecs@) =~= texts(tags@).map_values(|tag: Seq<char>| refspec_of(tag)));
    refspecs
}

/// Computes the branch that mirrors each of `tags`, in their order.
pub fn synced_branches(tags: &Vec<String>) -> (branches: Vec<String>)
    ensures
        texts(branches@) == texts(tags@).map_values(|tag: Seq<char>| branch_name_of(tag)),
{
    let mut branches: Vec<String> = Vec::new();
    let mut i: usize = 0;
    while i < tags.len()
        invariant
            i <= tags.len(),
            branches.len() == i,
            forall|j: int| 0 <= j < i ==> (#[trigger] branches[j])@ == branch_name_of(tags[j]@),
        decreases tags.len() - i,
    {
        branches.push(sync_branch_name(tags[i].as_str()));
        i += 1;
    }
    assert(texts(branches@) =~= texts(tags@).map_values(|tag: Seq<char>| branch_name_of(tag)));
    branches
}

/// Two tags never share a branch: the branch name determines the tag.
pub proof fn lemma_branch_name_determines_tag(a: Seq<char>, b: Seq<char>)
    requires
        branch_name_of(a) == branch_name_of(b),
    ensures
        a == b,
{
    let prefix = "sync-"@;
    assert(a =~= (prefix + a).skip(prefix.len() as int));
    assert(b =~= (prefix + b).skip(prefix.len() as int));
}

/// The three names of a tag agree: its local tag is `refs/tags/` followed
/// by its branch name, and its branch reference is `refs/heads/` followed
/// by its branch name.
pub proof fn lemma_refs_hold_branch_name(tag: Seq<char>)
    ensures
        tag_ref_of(tag) == "refs/tags/"@ + branch_name_of(tag),
        branch_ref_of(tag) == "refs/heads/"@ + branch_name_of(tag),
        refspec_of(tag) == "+refs/tags/"@ + tag + ":"@ + tag_ref_of(tag),
{
    reveal_strlit("sync-");
    reveal_strlit("refs/tags/");
    reveal_strlit("refs/heads/");
    reveal_strlit("refs/tags/sync-");
    reveal_strlit("refs/heads/sync-");
    reveal_strlit("+refs/tags/");
    reveal_strlit(":refs/tags/sync-");
    reveal_strlit(":");
    assert(tag_ref_of(tag) =~= "refs/tags/"@ + branch_name_of(tag));
    assert(branch_ref_of(tag) =~= "refs/heads/"@ + branch_name_of(tag));
    assert(refspec_of(tag) =~= "+refs/tags/"@ + tag + ":"@ + tag_ref_of(tag));
}

} // verus!
