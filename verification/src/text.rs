//! Small verified operations on text.

use vstd::prelude::*;

verus! {

/// The characters of `s`, in order.
pub fn chars_of(s: &str) -> (chars: Vec<char>)
    ensures
        chars@ == s@,
{
    let mut chars: Vec<char> = Vec::new();
    for c in it: s.chars()
        invariant
            it.seq() == s@,
            chars@ == s@.take(it.index()),
    {
        chars.push(c);
        assert(s@.take(it.index() + 1) == s@.take(it.index()).push(c));
    }
    assert(s@.take(s@.len() as int) == s@);
    chars
}

/// The first place at or after `from` where `c` stands in `text`, or the
/// length of `text` if there is none.
pub open spec fn index_from(text: Seq<char>, from: int, c: char) -> int
    decreases text.len() - from,
{
    if from < 0 || from >= text.len() {
        text.len() as int
    } else if text[from] == c {
        from
    } else {
        index_from(text, from + 1, c)
    }
}

/// Finds the first `c` of `text` at or after `from`.
pub fn find_from(text: &Vec<char>, from: usize, c: char) -> (at: usize)
    requires
        from <= text.len(),
    ensures
        at == index_from(text@, from as int, c),
        from <= at <= text.len(),
{
    let mut i: usize = from;
    while i < text.len()
        invariant
            from <= i <= text.len(),
            index_from(text@, from as int, c) == index_from(text@, i as int, c),
        decreases text.len() - i,
    {
        if text[i] == c {
            return i;
        }
        i += 1;
    }
    i
}

/// What [`index_from`] finds: a place at or after `from` where `c` stands,
/// or the end of the text, with no `c` between `from` and it.
pub proof fn lemma_index_from_is_first(text: Seq<char>, from: int, c: char)
    requires
        0 <= from <= text.len(),
    ensures
        from <= index_from(text, from, c) <= text.len(),
        index_from(text, from, c) < text.len() ==> text[index_from(text, from, c)] == c,
        forall|i: int| from <= i < index_from(text, from, c) ==> text[i] != c,
    decreases text.len() - from,
{
    if from < text.len() && text[from] != c {
        lemma_index_from_is_first(text, from + 1, c);
    }
}

/// The place that [`index_from`] finds is the only one of its kind: a place
/// at or after `from` where `c` stands or the text ends, with no `c`
/// between `from` and it, is the one that is found.
pub proof fn lemma_first_is_index_from(text: Seq<char>, from: int, c: char, at: int)
    requires
        0 <= from <= at <= text.len(),
        at < text.len() ==> text[at] == c,
        forall|i: int| from <= i < at ==> text[i] != c,
    ensures
        index_from(text, from, c) == at,
    decreases at - from,
{
    if from < at {
        lemma_first_is_index_from(text, from + 1, c, at);
    }
}

} // verus!
