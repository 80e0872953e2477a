//! The list of new tags as it is handed from detection to synchronisation:
//! one name per line.
//!
//! A list of one or more names, none of which holds a line break, comes
//! back from [`split_lines`] as it went into [`join_lines`]. The empty
//! list has no text of its own: it joins to the empty text, which splits
//! into one empty name. [`hand_over`] therefore writes such lists only,
//! and detection writes nothing when it finds nothing.

use crate::model::texts;
use crate::text::{chars_of, find_from, lemma_index_from_is_first};
use vstd::prelude::*;
use vstd::string::{StrSliceExecFns, StringExecFns};

verus! {

/// The character that ends a name in the handed-over list.
pub const LINE_BREAK: char = '\n';

/// `lines`, with a line break between each two of them.
pub open spec fn joined(lines: Seq<Seq<char>>) -> Seq<char>
    decreases lines.len(),
{
    if lines.len() == 0 {
        Seq::empty()
    } else if lines.len() == 1 {
        lines[0]
    } else {
        joined(lines.drop_last()) + seq!['\n'] + lines.last()
    }
}

/// The pieces of `text` between its line breaks. A text without a line
/// break is one piece; a text with `n` line breaks has `n + 1` pieces,
/// some of which may be empty.
pub open spec fn split(text: Seq<char>) -> Seq<Seq<char>>
    decreases text.len(),
{
    if text.len() == 0 {
        seq![Seq::empty()]
    } else {
        let before = split(text.drop_last());
        if text.last() == '\n' {
            before.push(Seq::empty())
        } else {
            before.drop_last().push(before.last().push(text.last()))
        }
    }
}

/// Joins `lines` with line breaks.
pub fn join_lines(lines: &Vec<String>) -> (text: String)
    ensures
        text@ == joined(texts(lines@)),
{
    let ghost all = texts(lines@);
    let mut text = String::new();
    let mut i: usize = 0;
    while i < lines.len()
        invariant
            i <= lines.len(),
            all == texts(lines@),
            text@ == joined(all.take(i as int)),
        decreases lines.len() - i,
    {
        proof {
            reveal_strlit("\n");
            assert("\n"@ =~= seq!['\n']);
            assert(all.take(i + 1).drop_last() == all.take(i as int));
            assert(all.take(i + 1).last() == lines[i as int]@);
            if i == 0 {
                assert(joined(all.take(0)) =~= Seq::<char>::empty());
                assert(Seq::<char>::empty() + lines[0]@ =~= lines[0]@);
            }
        }
        if i > 0 {
            text.append("\n");
        }
        text.append(lines[i].as_str());
        i += 1;
    }
    assert(all.take(lines.len() as int) == all);
    text
}

/// Splits `text` at its line breaks.
pub fn split_lines(text: &str) -> (lines: Vec<String>)
    ensures
        texts(lines@) == split(text@),
{
    let chars = chars_of(text);
    let mut lines: Vec<String> = Vec::new();
    let mut start: usize = 0;
    let mut i: usize = 0;
    proof {
        assert(text@.take(0) =~= Seq::<char>::empty());
        assert(text@.subrange(0, 0) =~= Seq::<char>::empty());
        assert(split(text@.take(0)) =~= texts(lines@).push(text@.subrange(0, 0)));
    }
    while i < chars.len()
        invariant
            start <= i <= chars.len(),
            chars@ == text@,
            split(text@.take(i as int)) == texts(lines@).push(
                text@.subrange(start as int, i as int),
            ),
        decreases chars.len() - i,
    {
        proof {
            let upto = text@.take(i + 1);
            assert(upto.drop_last() == text@.take(i as int));
            assert(upto.last() == chars[i as int]);
            let before = split(text@.take(i as int));
            assert(before.drop_last() =~= texts(lines@));
            assert(text@.subrange(start as int, i as int).push(chars[i as int])
                =~= text@.subrange(start as int, i + 1));
            assert(text@.subrange(i + 1, i + 1) =~= Seq::<char>::empty());
        }
        if chars[i] == LINE_BREAK {
            let ghost before = texts(lines@);
            lines.push(text.substring_char(start, i).to_owned());
            assert(texts(lines@) =~= before.push(text@.subrange(start as int, i as int)));
            start = i + 1;
        }
        i += 1;
    }
    let ghost before = texts(lines@);
    lines.push(text.substring_char(start, i).to_owned());
    proof {
        assert(texts(lines@) =~= before.push(text@.subrange(start as int, i as int)));
        assert(text@.take(i as int) == text@);
    }
    lines
}

/// Whether `line` holds no line break.
pub open spec fn is_one_line(line: Seq<char>) -> bool {
    !line.contains('\n')
}

/// Whether `names` can be handed over: there is at least one name, and
/// each is one line.
pub open spec fn can_hand_over(names: Seq<Seq<char>>) -> bool {
    names.len() >= 1 && forall|i: int| 0 <= i < names.len() ==> is_one_line(#[trigger] names[i])
}

/// Whether `line` holds no line break.
pub fn holds_one_line(line: &str) -> (one: bool)
    ensures
        one == is_one_line(line@),
{
    let chars = chars_of(line);
    let at = find_from(&chars, 0, LINE_BREAK);
    proof {
        lemma_index_from_is_first(line@, 0, '\n');
        if at < chars.len() {
            assert(line@[at as int] == '\n');
            assert(line@.contains('\n'));
        }
    }
    at == chars.len()
}

/// Writes `names` for the next stage, one to a line, if they can be read
/// back: a list without names, or with a name that holds a line break,
/// gives nothing. What is written splits into `names` again.
pub fn hand_over(names: &Vec<String>) -> (text: Option<String>)
    ensures
        text is Some <==> can_hand_over(texts(names@)),
        text matches Some(written) ==> written@ == joined(texts(names@)) && split(written@)
            == texts(names@),
{
    if names.len() == 0 {
        return None;
    }
    let mut i: usize = 0;
    while i < names.len()
        invariant
            i <= names.len(),
            forall|j: int| 0 <= j < i ==> is_one_line(#[trigger] texts(names@)[j]),
        decreases names.len() - i,
    {
        if !holds_one_line(names[i].as_str()) {
            assert(!is_one_line(texts(names@)[i as int]));
            return None;
        }
        i += 1;
    }
    proof {
        lemma_split_of_joined(texts(names@));
    }
    Some(join_lines(names))
}

/// A text always splits into at least one piece.
pub proof fn lemma_split_is_not_empty(text: Seq<char>)
    ensures
        split(text).len() >= 1,
    decreases text.len(),
{
    if text.len() > 0 {
        lemma_split_is_not_empty(text.drop_last());
    }
}

/// Text without a line break, put behind `text`, lengthens the last piece
/// of `text` and leaves the others as they are.
proof fn lemma_split_append(text: Seq<char>, tail: Seq<char>)
    requires
        is_one_line(tail),
    ensures
        split(text + tail) == split(text).drop_last().push(split(text).last() + tail),
    decreases tail.len(),
{
    lemma_split_is_not_empty(text);
    if tail.len() == 0 {
        assert(text + tail =~= text);
        assert(split(text).last() + tail =~= split(text).last());
        assert(split(text).drop_last().push(split(text).last()) =~= split(text));
    } else {
        let shorter = tail.drop_last();
        assert(tail[tail.len() - 1] == tail.last());
        assert(tail.contains(tail.last()));
        assert forall|i: int| 0 <= i < shorter.len() implies shorter[i] != '\n' by {
            assert(tail[i] == shorter[i]);
            assert(tail.contains(tail[i]));
        }
        lemma_split_append(text, shorter);
        assert((text + tail).drop_last() =~= text + shorter);
        assert((text + tail).last() == tail.last());
        let before = split(text + shorter);
        assert(before.last().push(tail.last()) =~= split(text).last() + tail);
        assert(before.drop_last() =~= split(text).drop_last());
    }
}

/// What was written is what is read: a list of one or more names, each
/// without a line break, comes back from splitting as it went into
/// joining.
pub proof fn lemma_split_of_joined(lines: Seq<Seq<char>>)
    requires
        lines.len() >= 1,
        forall|i: int| 0 <= i < lines.len() ==> is_one_line(#[trigger] lines[i]),
    ensures
        split(joined(lines)) == lines,
    decreases lines.len(),
{
    let empty = Seq::<char>::empty();
    if lines.len() == 1 {
        lemma_split_append(empty, lines[0]);
        assert(empty + lines[0] =~= lines[0]);
        assert(split(empty) =~= seq![empty]);
        assert(split(empty).drop_last().push(split(empty).last() + lines[0]) =~= lines);
    } else {
        let earlier = lines.drop_last();
        assert forall|i: int| 0 <= i < earlier.len() implies is_one_line(
            #[trigger] earlier[i],
        ) by {
            assert(earlier[i] == lines[i]);
        }
        lemma_split_of_joined(earlier);
        let head = joined(earlier) + seq!['\n'];
        assert(head.drop_last() =~= joined(earlier));
        assert(split(head) == earlier.push(empty));
        assert(is_one_line(lines[lines.len() - 1]));
        lemma_split_append(head, lines.last());
        assert(earlier.push(empty).drop_last() =~= earlier);
        assert(empty + lines.last() =~= lines.last());
        assert(earlier.push(lines.last()) =~= lines);
    }
}

/// Nothing is lost in splitting: the pieces of a text, joined again, are
/// the text.
pub proof fn lemma_joined_of_split(text: Seq<char>)
    ensures
        joined(split(text)) == text,
    decreases text.len(),
{
    if text.len() == 0 {
        assert(split(text)[0] =~= text);
    } else {
        let shorter = text.drop_last();
        let before = split(shorter);
        lemma_joined_of_split(shorter);
        lemma_split_is_not_empty(shorter);
        if text.last() == '\n' {
            let pieces = before.push(Seq::<char>::empty());
            assert(pieces.drop_last() =~= before);
            assert(joined(pieces) =~= shorter.push('\n'));
        } else {
            let grown = before.last().push(text.last());
            let pieces = before.drop_last().push(grown);
            if before.len() == 1 {
                assert(before[0] == shorter);
                assert(pieces[0] =~= shorter.push(text.last()));
            } else {
                assert(pieces.drop_last() =~= before.drop_last());
                assert(joined(pieces) =~= joined(before).push(text.last()));
            }
        }
        assert(shorter.push(text.last()) =~= text);
    }
}

} // verus!
