//! Dividing a text at a separator, and what holds of the parts.

use vstd::prelude::*;

verus! {

/// The segments into which the separator divides a text, from left to right.
/// Two separators in a row, or one at either end, give an empty segment.
pub open spec fn split(text: Seq<char>, separator: char) -> Seq<Seq<char>>
    decreases text.len(),
{
    if text.len() == 0 {
        seq![Seq::empty()]
    } else if text.last() == separator {
        split(text.drop_last(), separator).push(Seq::empty())
    } else {
        let before = split(text.drop_last(), separator);
        before.drop_last().push(before.last().push(text.last()))
    }
}

/// The segments written one after the other, with the separator between
/// each two of them.
pub open spec fn join(segments: Seq<Seq<char>>, separator: char) -> Seq<char>
    decreases segments.len(),
{
    if segments.len() == 0 {
        Seq::empty()
    } else if segments.len() == 1 {
        segments[0]
    } else {
        join(segments.drop_last(), separator).push(separator) + segments.last()
    }
}

/// A text with `k` separators has `k + 1` segments.
pub proof fn lemma_split_count(text: Seq<char>, separator: char)
    ensures
        split(text, separator).len() == text.to_multiset().count(separator) + 1,
    decreases text.len(),
{
    broadcast use vstd::seq_lib::group_to_multiset_ensures;

    if text.len() > 0 {
        lemma_split_count(text.drop_last(), separator);
        assert(text == text.drop_last().push(text.last()));
    }
}

/// No segment holds the separator.
pub proof fn lemma_split_segments_hold_no_separator(text: Seq<char>, separator: char)
    ensures
        forall|i: int|
            0 <= i < split(text, separator).len() ==> !(#[trigger] split(
                text,
                separator,
            )[i]).contains(separator),
    decreases text.len(),
{
    if text.len() > 0 {
        lemma_split_count(text.drop_last(), separator);
        lemma_split_segments_hold_no_separator(text.drop_last(), separator);
        if text.last() != separator {
            // The last segment grows by a character that is no separator.
            let before = split(text.drop_last(), separator).last();
            let grown = before.push(text.last());
            assert forall|j: int| 0 <= j < grown.len() implies grown[j] != separator by {
                if j < before.len() {
                    assert(before.contains(grown[j]));
                }
            }
        }
    }
}

/// The segments of a text, joined by the separator, are the text: they hold
/// all of it, in its order.
pub proof fn lemma_split_join(text: Seq<char>, separator: char)
    ensures
        join(split(text, separator), separator) == text,
    decreases text.len(),
{
    if text.len() > 0 {
        lemma_split_count(text.drop_last(), separator);
        lemma_split_join(text.drop_last(), separator);
        let before = split(text.drop_last(), separator);
        assert(text == text.drop_last().push(text.last()));
        if text.last() == separator {
            assert(before.push(Seq::empty()).drop_last() == before);
        } else {
            let after = before.drop_last().push(before.last().push(text.last()));
            assert(after.drop_last() == before.drop_last());
            if before.len() > 1 {
                assert(join(after, separator) == join(before, separator).push(text.last()));
            }
        }
    }
}

/// The segments of a text are the only way to write it as segments that
/// hold no separator, joined by the separator.
pub proof fn lemma_split_is_unique(text: Seq<char>, separator: char, segments: Seq<Seq<char>>)
    requires
        segments.len() > 0,
        forall|i: int| 0 <= i < segments.len() ==> !(#[trigger] segments[i]).contains(separator),
        join(segments, separator) == text,
    ensures
        segments == split(text, separator),
    decreases text.len(),
{
    let last = segments.last();
    let rest = segments.drop_last();
    if text.len() == 0 {
        // Two segments or more would have a separator between them.
        assert(segments.len() == 1);
        assert(segments[0] == Seq::<char>::empty());
    } else if last.len() == 0 {
        // The text ends with the separator that stands before the last segment.
        assert(last == Seq::<char>::empty());
        assert(text.drop_last() == join(rest, separator));
        assert forall|i: int| 0 <= i < rest.len() implies !(#[trigger] rest[i]).contains(
            separator,
        ) by {
            assert(rest[i] == segments[i]);
        }
        lemma_split_is_unique(text.drop_last(), separator, rest);
    } else {
        // The text ends with the last character of the last segment.
        let shorter = rest.push(last.drop_last());
        assert(last == last.drop_last().push(last.last()));
        assert(last.contains(last.last()));
        assert(shorter.drop_last() == rest);
        assert(join(shorter, separator) == text.drop_last());
        assert forall|i: int| 0 <= i < shorter.len() implies !(#[trigger] shorter[i]).contains(
            separator,
        ) by {
            if i < rest.len() {
                assert(shorter[i] == segments[i]);
            } else if shorter[i].contains(separator) {
                let j = choose|j: int| 0 <= j < shorter[i].len() && shorter[i][j] == separator;
                assert(last[j] == separator);
            }
        }
        lemma_split_is_unique(text.drop_last(), separator, shorter);
    }
}

} // verus!
