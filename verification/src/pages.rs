//! Reading a listing that comes in pages.
//!
//! The hosting service hands out tags and branches a page at a time. A
//! [`PageCollector`] asks for page after page, from the first one on,
//! until a page says that none follows, and keeps every item in the order
//! in which it came. [`unique_tags`] and [`unique_branches`] then drop the
//! items whose name was seen before.

use crate::model::{branch_names, tag_names, Branch, Tag};
use vstd::prelude::*;

verus! {

/// The number of items asked for per page.
pub const PAGE_SIZE: u8 = 100;

/// The number of the first page.
pub const FIRST_PAGE: u32 = 1;

/// What to do next about a listing.
#[derive(Clone, Copy, Debug, PartialEq, Eq, Structural)]
pub enum PageAction {
    /// Ask for the page `page`, with `per_page` items to a page.
    Request { page: u32, per_page: u8 },
    /// The listing is complete.
    Complete,
    /// The listing goes on beyond the last page number there is.
    TooManyPages,
}

/// How far a listing has been read.
#[derive(Clone, Copy, Debug, PartialEq, Eq, Structural)]
pub enum Reading {
    /// The page `page` was asked for.
    Awaiting { page: u32 },
    Complete,
    TooManyPages,
}

/// Where the reading stands once the awaited page has come, given
/// whether the page says that another follows.
pub open spec fn reading_after(reading: Reading, has_next: bool) -> Reading {
    match reading {
        Reading::Awaiting { page } => if !has_next {
            Reading::Complete
        } else if page < u32::MAX {
            Reading::Awaiting { page: (page + 1) as u32 }
        } else {
            Reading::TooManyPages
        },
        _ => reading,
    }
}

/// The action that `reading` calls for.
pub open spec fn action_of(reading: Reading) -> PageAction {
    match reading {
        Reading::Awaiting { page } => PageAction::Request { page, per_page: 100 },
        Reading::Complete => PageAction::Complete,
        Reading::TooManyPages => PageAction::TooManyPages,
    }
}

/// Collects the items of a listing, page by page.
#[derive(Debug)]
pub struct PageCollector<T> {
    reading: Reading,
    items: Vec<T>,
}

impl<T> PageCollector<T> {
    /// How far the listing has been read.
    pub closed spec fn reading(&self) -> Reading {
        self.reading
    }

    /// The items collected so far, in the order in which they came.
    pub closed spec fn collected(&self) -> Seq<T> {
        self.items@
    }

    /// Starts a listing: nothing is collected, the first page is awaited.
    pub fn new() -> (collector: PageCollector<T>)
        ensures
            collector.reading() == (Reading::Awaiting { page: 1 }),
            collector.collected() == Seq::<T>::empty(),
    {
        PageCollector { reading: Reading::Awaiting { page: FIRST_PAGE }, items: Vec::new() }
    }

    /// Starts a listing at the page `page` instead of the first one.
    pub fn from_page(page: u32) -> (collector: PageCollector<T>)
        ensures
            collector.reading() == (Reading::Awaiting { page }),
            collector.collected() == Seq::<T>::empty(),
    {
        PageCollector { reading: Reading::Awaiting { page }, items: Vec::new() }
    }

    /// The action that the listing calls for where it stands.
    pub fn action(&self) -> (action: PageAction)
        ensures
            action == action_of(self.reading()),
    {
        match self.reading {
            Reading::Awaiting { page } => PageAction::Request { page, per_page: PAGE_SIZE },
            Reading::Complete => PageAction::Complete,
            Reading::TooManyPages => PageAction::TooManyPages,
        }
    }

    /// Takes the page that was asked for: its items, and whether it says
    /// that another page follows. While a page is awaited the items are
    /// added behind those collected before; a page that comes after the
    /// end is dropped.
    pub fn accept(&mut self, page_items: Vec<T>, has_next: bool) -> (action: PageAction)
        ensures
            final(self).reading() == reading_after(old(self).reading(), has_next),
            final(self).collected() == if old(self).reading() is Awaiting {
                old(self).collected() + page_items@
            } else {
                old(self).collected()
            },
            action == action_of(final(self).reading()),
    {
        match self.reading {
            Reading::Awaiting { page } => {
                let mut page_items = page_items;
                self.items.append(&mut page_items);
                self.reading = if !has_next {
                    Reading::Complete
                } else if page < u32::MAX {
                    Reading::Awaiting { page: page + 1 }
                } else {
                    Reading::TooManyPages
                };
            },
            _ => {},
        }
        self.action()
    }

    /// Hands out the items collected.
    pub fn into_items(self) -> (items: Vec<T>)
        ensures
            items@ == self.collected(),
    {
        self.items
    }
}

/// `names` without the names that occur earlier in it.
pub open spec fn unique_names(names: Seq<Seq<char>>) -> Seq<Seq<char>>
    decreases names.len(),
{
    if names.len() == 0 {
        names
    } else if names.drop_last().contains(names.last()) {
        unique_names(names.drop_last())
    } else {
        unique_names(names.drop_last()).push(names.last())
    }
}

/// Those of `items` whose name occurs for the first time, in their order,
/// where `names` holds the name of each item.
pub open spec fn first_of_each<T>(items: Seq<T>, names: Seq<Seq<char>>) -> Seq<T>
    decreases items.len(),
{
    if items.len() == 0 || names.len() != items.len() {
        Seq::empty()
    } else if names.drop_last().contains(names.last()) {
        first_of_each(items.drop_last(), names.drop_last())
    } else {
        first_of_each(items.drop_last(), names.drop_last()).push(items.last())
    }
}

/// Drops every tag whose name an earlier tag has.
pub fn unique_tags(tags: &Vec<Tag>) -> (unique: Vec<Tag>)
    ensures
        unique@ == first_of_each(tags@, tag_names(tags@)),
{
    let ghost names = tag_names(tags@);
    let mut unique: Vec<Tag> = Vec::new();
    let mut i: usize = 0;
    while i < tags.len()
        invariant
            i <= tags.len(),
            names == tag_names(tags@),
            unique@ == first_of_each(tags@.take(i as int), names.take(i as int)),
        decreases tags.len() - i,
    {
        let mut seen = false;
        let mut j: usize = 0;
        while j < i
            invariant
                j <= i < tags.len(),
                names == tag_names(tags@),
                seen == names.take(j as int).contains(names[i as int]),
            decreases i - j,
        {
            proof {
                let before = names.take(j as int);
                let upto = names.take(j + 1);
                assert(upto == before.push(names[j as int]));
                assert(upto.contains(names[i as int]) <==> before.contains(names[i as int])
                    || names[j as int] == names[i as int]) by {
                    if before.contains(names[i as int]) {
                        let k = choose|k: int| 0 <= k < before.len() && before[k] == names[i as int];
                        assert(upto[k] == names[i as int]);
                    }
                    if names[j as int] == names[i as int] {
                        assert(upto[j as int] == names[i as int]);
                    }
                }
            }
            if tags[j].name == tags[i].name {
                seen = true;
            }
            j += 1;
        }
        proof {
            assert(tags@.take(i + 1).drop_last() == tags@.take(i as int));
            assert(names.take(i + 1).drop_last() == names.take(i as int));
            assert(names.take(i + 1).last() == names[i as int]);
            assert(tags@.take(i + 1).last() == tags[i as int]);
        }
        if !seen {
            unique.push(tags[i].clone());
        }
        i += 1;
    }
    assert(tags@.take(tags.len() as int) == tags@);
    assert(names.take(tags.len() as int) == names);
    unique
}

/// Drops every branch whose name an earlier branch has.
pub fn unique_branches(branches: &Vec<Branch>) -> (unique: Vec<Branch>)
    ensures
        unique@ == first_of_each(branches@, branch_names(branches@)),
{
    let ghost names = branch_names(branches@);
    let mut unique: Vec<Branch> = Vec::new();
    let mut i: usize = 0;
    while i < branches.len()
        invariant
            i <= branches.len(),
            names == branch_names(branches@),
            unique@ == first_of_each(branches@.take(i as int), names.take(i as int)),
        decreases branches.len() - i,
    {
        let mut seen = false;
        let mut j: usize = 0;
        while j < i
            invariant
                j <= i < branches.len(),
                names == branch_names(branches@),
                seen == names.take(j as int).contains(names[i as int]),
            decreases i - j,
        {
            proof {
                let before = names.take(j as int);
                let upto = names.take(j + 1);
                assert(upto == before.push(names[j as int]));
                assert(upto.contains(names[i as int]) <==> before.contains(names[i as int])
                    || names[j as int] == names[i as int]) by {
                    if before.contains(names[i as int]) {
                        let k = choose|k: int| 0 <= k < before.len() && before[k] == names[i as int];
                        assert(upto[k] == names[i as int]);
                    }
                    if names[j as int] == names[i as int] {
                        assert(upto[j as int] == names[i as int]);
                    }
                }
            }
            if branches[j].name == branches[i].name {
                seen = true;
            }
            j += 1;
        }
        proof {
            assert(branches@.take(i + 1).drop_last() == branches@.take(i as int));
            assert(names.take(i + 1).drop_last() == names.take(i as int));
            assert(names.take(i + 1).last() == names[i as int]);
            assert(branches@.take(i + 1).last() == branches[i as int]);
        }
        if !seen {
            unique.push(branches[i].clone());
        }
        i += 1;
    }
    assert(branches@.take(branches.len() as int) == branches@);
    assert(names.take(branches.len() as int) == names);
    unique
}

/// Dropping repeated tags drops repeated names: the names of the tags
/// that are kept are the names of all tags, each at its first place.
pub proof fn lemma_unique_tags_names(tags: Seq<Tag>)
    ensures
        tag_names(first_of_each(tags, tag_names(tags))) == unique_names(tag_names(tags)),
    decreases tags.len(),
{
    let names = tag_names(tags);
    if tags.len() > 0 {
        assert(tag_names(tags.drop_last()) =~= names.drop_last());
        lemma_unique_tags_names(tags.drop_last());
        let kept = first_of_each(tags.drop_last(), names.drop_last());
        if !names.drop_last().contains(names.last()) {
            assert(tag_names(kept.push(tags.last())) =~= tag_names(kept).push(names.last()));
        }
    } else {
        assert(tag_names(first_of_each(tags, names)) =~= unique_names(names));
    }
}

/// Dropping repeated branches drops repeated names.
pub proof fn lemma_unique_branches_names(branches: Seq<Branch>)
    ensures
        branch_names(first_of_each(branches, branch_names(branches))) == unique_names(
            branch_names(branches),
        ),
    decreases branches.len(),
{
    let names = branch_names(branches);
    if branches.len() > 0 {
        assert(branch_names(branches.drop_last()) =~= names.drop_last());
        lemma_unique_branches_names(branches.drop_last());
        let kept = first_of_each(branches.drop_last(), names.drop_last());
        if !names.drop_last().contains(names.last()) {
            assert(branch_names(kept.push(branches.last())) =~= branch_names(kept).push(
                names.last(),
            ));
        }
    } else {
        assert(branch_names(first_of_each(branches, names)) =~= unique_names(names));
    }
}

/// The listing that comes out is complete and free of repetition: every
/// name that came in is still there, no other is, and none occurs twice.
pub proof fn lemma_unique_names_complete(names: Seq<Seq<char>>)
    ensures
        forall|name: Seq<char>| unique_names(names).contains(name) <==> names.contains(name),
        forall|i: int, j: int|
            0 <= i < j < unique_names(names).len() ==> unique_names(names)[i] != unique_names(
                names,
            )[j],
    decreases names.len(),
{
    if names.len() > 0 {
        let earlier = names.drop_last();
        let last = names.last();
        lemma_unique_names_complete(earlier);
        let kept = unique_names(earlier);
        let all = unique_names(names);
        assert forall|name: Seq<char>| all.contains(name) <==> names.contains(name) by {
            if names.contains(name) {
                let k = choose|k: int| 0 <= k < names.len() && names[k] == name;
                if k < earlier.len() {
                    assert(earlier[k] == name);
                    assert(earlier.contains(name));
                    assert(kept.contains(name));
                    let m = choose|m: int| 0 <= m < kept.len() && kept[m] == name;
                    assert(all[m] == name);
                } else if earlier.contains(last) {
                    assert(earlier.contains(name));
                    assert(kept.contains(name));
                } else {
                    assert(all[kept.len() as int] == name);
                }
            }
            if all.contains(name) {
                let m = choose|m: int| 0 <= m < all.len() && all[m] == name;
                if m < kept.len() {
                    assert(kept[m] == name);
                    assert(kept.contains(name));
                    assert(earlier.contains(name));
                    let k = choose|k: int| 0 <= k < earlier.len() && earlier[k] == name;
                    assert(names[k] == name);
                } else {
                    assert(names[names.len() - 1] == name);
                }
            }
        }
        assert forall|i: int, j: int| 0 <= i < j < all.len() implies all[i] != all[j] by {
            if j == kept.len() {
                assert(kept[i] == all[i]);
                assert(kept.contains(all[i]));
                assert(earlier.contains(all[i]));
            }
        }
    }
}

/// A listing in which no name occurs twice comes out as it went in.
pub proof fn lemma_unique_names_of_distinct(names: Seq<Seq<char>>)
    requires
        forall|i: int, j: int| 0 <= i < j < names.len() ==> names[i] != names[j],
    ensures
        unique_names(names) == names,
    decreases names.len(),
{
    if names.len() > 0 {
        let earlier = names.drop_last();
        lemma_unique_names_of_distinct(earlier);
        if earlier.contains(names.last()) {
            let k = choose|k: int| 0 <= k < earlier.len() && earlier[k] == names.last();
            assert(names[k] != names[names.len() - 1]);
        }
        assert(earlier.push(names.last()) =~= names);
    }
}

/// Pages are asked for in order, from the first one on, and always with
/// the same page size; the listing ends at the first page that says that
/// none follows.
pub proof fn lemma_pages_in_order(page: u32, has_next: bool)
    ensures
        action_of(Reading::Awaiting { page }) == (PageAction::Request { page, per_page: 100 }),
        !has_next ==> reading_after(Reading::Awaiting { page }, has_next) == Reading::Complete,
        has_next && page < u32::MAX ==> reading_after(Reading::Awaiting { page }, has_next) == (
        Reading::Awaiting { page: (page + 1) as u32 }),
{
}

} // verus!
