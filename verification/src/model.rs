//! The values that the engine reads from the two repositories.

use vstd::prelude::*;

verus! {

/// A tag of the base repository. Its name identifies it.
#[derive(Debug)]
pub struct Tag {
    pub name: String,
    pub commit_id: String,
}

/// A branch of the head repository.
#[derive(Debug)]
pub struct Branch {
    pub name: String,
    pub commit_id: String,
    pub protected: bool,
}

/// What a [`Tag`] stands for.
pub struct TagView {
    pub name: Seq<char>,
    pub commit_id: Seq<char>,
}

/// What a [`Branch`] stands for.
pub struct BranchView {
    pub name: Seq<char>,
    pub commit_id: Seq<char>,
    pub protected: bool,
}

impl View for Tag {
    type V = TagView;

    open spec fn view(&self) -> TagView {
        TagView { name: self.name@, commit_id: self.commit_id@ }
    }
}

impl View for Branch {
    type V = BranchView;

    open spec fn view(&self) -> BranchView {
        BranchView { name: self.name@, commit_id: self.commit_id@, protected: self.protected }
    }
}

impl Clone for Tag {
    fn clone(&self) -> (copy: Tag)
        ensures
            copy == *self,
    {
        Tag { name: self.name.clone(), commit_id: self.commit_id.clone() }
    }
}

impl Clone for Branch {
    fn clone(&self) -> (copy: Branch)
        ensures
            copy == *self,
    {
        Branch {
            name: self.name.clone(),
            commit_id: self.commit_id.clone(),
            protected: self.protected,
        }
    }
}

/// Who wrote or committed a change.
#[derive(Debug)]
pub struct Identity {
    pub name: String,
    pub email: String,
}

/// What an [`Identity`] stands for.
pub struct IdentityView {
    pub name: Seq<char>,
    pub email: Seq<char>,
}

impl View for Identity {
    type V = IdentityView;

    open spec fn view(&self) -> IdentityView {
        IdentityView { name: self.name@, email: self.email@ }
    }
}

impl Clone for Identity {
    fn clone(&self) -> (copy: Identity)
        ensures
            copy@ == self@,
    {
        Identity { name: self.name.clone(), email: self.email.clone() }
    }
}

/// A patch to commit on top of every new branch: the diff, and what the
/// commit that holds it says.
#[derive(Debug)]
pub struct PatchSpec {
    pub author: Identity,
    pub committer: Identity,
    pub message: String,
    pub diff: Vec<u8>,
}

/// What a [`PatchSpec`] stands for.
pub struct PatchSpecView {
    pub author: IdentityView,
    pub committer: IdentityView,
    pub message: Seq<char>,
    pub diff: Seq<u8>,
}

impl View for PatchSpec {
    type V = PatchSpecView;

    open spec fn view(&self) -> PatchSpecView {
        PatchSpecView {
            author: self.author@,
            committer: self.committer@,
            message: self.message@,
            diff: self.diff@,
        }
    }
}

impl Clone for PatchSpec {
    fn clone(&self) -> (copy: PatchSpec)
        ensures
            copy@ == self@,
    {
        PatchSpec {
            author: self.author.clone(),
            committer: self.committer.clone(),
            message: self.message.clone(),
            diff: self.diff.clone(),
        }
    }
}

/// The names of `tags`, in order.
pub open spec fn tag_names(tags: Seq<Tag>) -> Seq<Seq<char>> {
    Seq::new(tags.len(), |i: int| tags[i].name@)
}

/// The names of `branches`, in order.
pub open spec fn branch_names(branches: Seq<Branch>) -> Seq<Seq<char>> {
    Seq::new(branches.len(), |i: int| branches[i].name@)
}

/// The texts that `strings` hold, in order.
pub open spec fn texts(strings: Seq<String>) -> Seq<Seq<char>> {
    Seq::new(strings.len(), |i: int| strings[i]@)
}

/// Gives the names of a list of tags.
pub trait TagsExt {
    /// The names that `names` returns.
    spec fn spec_names(&self) -> Seq<Seq<char>>;

    fn names(self) -> (names: Vec<String>)
        ensures
            texts(names@) == self.spec_names(),
    ;
}

impl TagsExt for Vec<Tag> {
    open spec fn spec_names(&self) -> Seq<Seq<char>> {
        tag_names(self@)
    }

    fn names(self) -> (names: Vec<String>) {
        let mut names: Vec<String> = Vec::new();
        let mut i: usize = 0;
        while i < self.len()
            invariant
                i <= self.len(),
                names.len() == i,
                forall|j: int| 0 <= j < i ==> (#[trigger] names[j])@ == self[j].name@,
            decreases self.len() - i,
        {
            names.push(self[i].name.clone());
            i += 1;
        }
        assert(texts(names@) =~= tag_names(self@));
        names
    }
}

} // verus!
