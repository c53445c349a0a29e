//! Dotted field paths such as `data.debtor.name`.

use vstd::prelude::*;
use vstd::string::StrSliceExecFns;
use super::value::keys_model;

verus! {

/// The segments of a dotted path: the pieces between its dots, in order.
///
/// A text without a dot is one segment, the empty text included; a dot at
/// either end, or two dots in a row, give an empty segment.
pub open spec fn split_dots(text: Seq<char>) -> Seq<Seq<char>>
    decreases text.len(),
{
    if text.len() == 0 {
        seq![Seq::empty()]
    } else {
        let before = split_dots(text.drop_last());
        if text.last() == '.' {
            before.push(Seq::empty())
        } else {
            before.update(before.len() - 1, before.last().push(text.last()))
        }
    }
}

/// The segments joined again, with a dot between neighbours.
pub open spec fn join_dots(segments: Seq<Seq<char>>) -> Seq<char>
    decreases segments.len(),
{
    if segments.len() == 0 {
        Seq::empty()
    } else if segments.len() == 1 {
        segments[0]
    } else {
        join_dots(segments.drop_last()) + seq!['.'] + segments.last()
    }
}

/// A path has at least one segment, no segment holds a dot, and joining the
/// segments gives the path back.
pub proof fn lemma_split_dots(text: Seq<char>)
    ensures
        split_dots(text).len() >= 1,
        forall|i: int, j: int|
            0 <= i < split_dots(text).len() && 0 <= j < split_dots(text)[i].len()
                ==> split_dots(text)[i][j] != '.',
        join_dots(split_dots(text)) == text,
    decreases text.len(),
{
    if text.len() == 0 {
        assert(join_dots(split_dots(text)) =~= text);
    } else {
        let shorter = text.drop_last();
        let before = split_dots(shorter);
        lemma_split_dots(shorter);
        if text.last() == '.' {
            let after = before.push(Seq::empty());
            assert(after.drop_last() == before);
            assert(join_dots(after) =~= shorter + seq!['.']);
            assert(shorter + seq!['.'] =~= text);
        } else {
            let grown = before.last().push(text.last());
            let after = before.update(before.len() - 1, grown);
            assert(after.drop_last() == before.drop_last());
            if before.len() == 1 {
                assert(join_dots(after) =~= shorter.push(text.last()));
            } else {
                assert(join_dots(after) =~= join_dots(before.drop_last()) + seq!['.'] + grown);
                assert(join_dots(before) == join_dots(before.drop_last()) + seq!['.']
                    + before.last());
                assert(join_dots(after) =~= join_dots(before).push(text.last()));
            }
            assert(shorter.push(text.last()) =~= text);
        }
    }
}

/// Cuts a dotted path into its segments.
pub fn split_path(field: &str) -> (segments: Vec<String>)
    ensures
        keys_model(segments@) == split_dots(field@),
{
    let mut segments: Vec<String> = Vec::new();
    let length = field.unicode_len();
    let mut start: usize = 0;
    let mut i: usize = 0;
    proof {
        assert(field@.take(0) =~= Seq::<char>::empty());
        assert(keys_model(segments@).push(field@.subrange(0, 0)) =~= split_dots(field@.take(0)));
    }
    while i < length
        invariant
            length == field@.len(),
            start <= i <= length,
            keys_model(segments@).push(field@.subrange(start as int, i as int)) == split_dots(
                field@.take(i as int),
            ),
        decreases length - i,
    {
        let ghost done = keys_model(segments@);
        let ghost current = field@.subrange(start as int, i as int);
        let c = field.get_char(i);
        proof {
            assert(field@.take(i + 1).drop_last() == field@.take(i as int));
            assert(field@.take(i + 1).last() == c);
        }
        if c == '.' {
            let segment = field.substring_char(start, i).to_owned();
            segments.push(segment);
            start = i + 1;
            proof {
                assert(keys_model(segments@) =~= done.push(current));
                assert(field@.subrange(i + 1, i + 1) =~= Seq::<char>::empty());
            }
        } else {
            proof {
                assert(field@.subrange(start as int, i + 1) =~= current.push(c));
                assert(done.push(current).update(done.len() as int, current.push(c)) =~= done.push(
                    current.push(c),
                ));
            }
        }
        i += 1;
    }
    let ghost done = keys_model(segments@);
    let segment = field.substring_char(start, length).to_owned();
    segments.push(segment);
    proof {
        assert(field@.take(length as int) == field@);
        assert(keys_model(segments@) =~= done.push(field@.subrange(start as int, length as int)));
    }
    segments
}

} // verus!
