//! The search path as a whole.

use crate::path_item::{parse_entry, Entry, PathItem};
use crate::platform::Platform;
use crate::segments::{join, lemma_split_count, lemma_split_is_unique, lemma_split_join, split};
use crate::variable::parse_variable;
use std::convert::Infallible;
use vstd::prelude::*;

verus! {

/// The entries that the segments denote, each read by itself, in the order
/// of the segments.
pub open spec fn parse_segments(segments: Seq<Seq<char>>, platform: Platform) -> Seq<Entry> {
    segments.map_values(|segment: Seq<char>| parse_entry(segment, platform))
}

/// The entries that a search path denotes: none for the empty text, and
/// otherwise one for each segment of the text.
pub open spec fn parse_path(text: Seq<char>, platform: Platform) -> Seq<Entry> {
    if text.len() == 0 {
        Seq::empty()
    } else {
        parse_segments(split(text, platform.separator), platform)
    }
}

/// The entries that a list of items denotes.
pub open spec fn entries(items: Seq<PathItem>) -> Seq<Entry> {
    items.map_values(|item: PathItem| item@)
}

/// Why a search path could not be looked up.
#[derive(Clone, Copy, Debug, PartialEq, Eq, Structural)]
pub enum LookupError {
    /// This library cannot look in that place yet.
    NotImplemented,
}

/// A search path: its entries, in the order in which they are searched.
#[derive(Debug)]
pub struct Path(Vec<PathItem>);

impl View for Path {
    type V = Seq<Entry>;

    closed spec fn view(&self) -> Seq<Entry> {
        entries(self.0@)
    }
}

impl Path {
    /// The search path of a process, from what its environment holds under
    /// the name of the path: the text, or `None` where there is no such
    /// name. A missing path is an empty one.
    pub fn for_process(value: Option<&str>, platform: Platform) -> (r: Result<Path, Infallible>)
        ensures
            r matches Ok(path) && path@ == parse_path(
                match value {
                    Some(text) => text@,
                    None => Seq::empty(),
                },
                platform,
            ),
    {
        match value {
            Some(text) => Self::from_str(text, platform),
            None => {
                proof {
                    reveal_strlit("");
                }
                Self::from_str("", platform)
            },
        }
    }

    /// The search path that a user's processes start with. There is no way
    /// to look it up yet, and the result says so.
    pub fn for_user() -> (r: Result<Path, LookupError>)
        ensures
            r == Err::<Path, LookupError>(LookupError::NotImplemented),
    {
        Err(LookupError::NotImplemented)
    }

    /// The search path that a shell sets up when it starts. There is no way
    /// to look it up yet, and the result says so.
    pub fn for_shell() -> (r: Result<Path, LookupError>)
        ensures
            r == Err::<Path, LookupError>(LookupError::NotImplemented),
    {
        Err(LookupError::NotImplemented)
    }

    /// The search path that the system gives to every user. There is no way
    /// to look it up yet, and the result says so.
    pub fn for_system() -> (r: Result<Path, LookupError>)
        ensures
            r == Err::<Path, LookupError>(LookupError::NotImplemented),
    {
        Err(LookupError::NotImplemented)
    }

    /// Reads a search path: the empty text has no entries, and any other
    /// text has one entry for each of its segments. This never fails.
    pub fn from_str(s: &str, platform: Platform) -> (r: Result<Path, Infallible>)
        ensures
            r matches Ok(path) && path@ == parse_path(s@, platform),
            s@.len() == 0 ==> (r matches Ok(path) && path@.len() == 0),
    {
        let mut items: Vec<PathItem> = Vec::new();
        if s.is_empty() {
            return Ok(Path(items));
        }
        // `done` holds the segments that have ended; `segment` grows into the next one.
        let ghost mut done: Seq<Seq<char>> = Seq::empty();
        let mut segment = String::new();
        for c in chars: s.chars()
            invariant
                chars.seq() == s@,
                split(s@.take(chars.index()), platform.separator) == done.push(segment@),
                entries(items@) == parse_segments(done, platform),
        {
            assert(s@.take(chars.index() + 1).drop_last() == s@.take(chars.index()));
            if c == platform.separator {
                let item = PathItem::from_str(segment.as_str(), platform).unwrap();
                proof {
                    lemma_entries_push(items@, item, done, segment@, platform);
                    done = done.push(segment@);
                }
                items.push(item);
                segment = String::new();
            } else {
                segment.push(c);
            }
        }
        assert(s@.take(s@.len() as int) == s@);
        let item = PathItem::from_str(segment.as_str(), platform).unwrap();
        proof {
            lemma_entries_push(items@, item, done, segment@, platform);
        }
        items.push(item);
        Ok(Path(items))
    }

    /// The entries, in the order in which they are searched.
    pub fn items(&self) -> (items: &Vec<PathItem>)
        ensures
            entries(items@) == self@,
    {
        &self.0
    }
}

/// One more item, read from one more segment, keeps items and segments in step.
proof fn lemma_entries_push(
    items: Seq<PathItem>,
    item: PathItem,
    segments: Seq<Seq<char>>,
    segment: Seq<char>,
    platform: Platform,
)
    requires
        entries(items) == parse_segments(segments, platform),
        item@ == parse_entry(segment, platform),
    ensures
        entries(items.push(item)) == parse_segments(segments.push(segment), platform),
{
    assert(entries(items.push(item)) == entries(items).push(item@));
    assert(parse_segments(segments.push(segment), platform) == parse_segments(
        segments,
        platform,
    ).push(parse_entry(segment, platform)));
}

/// The empty text is a path without entries.
pub proof fn lemma_empty_path(platform: Platform)
    ensures
        parse_path(Seq::empty(), platform).len() == 0,
{
}

/// A text of at least one character that holds no separator is a path of
/// one entry, read from the whole text.
pub proof fn lemma_single_entry(text: Seq<char>, platform: Platform)
    requires
        text.len() > 0,
        !text.contains(platform.separator),
    ensures
        parse_path(text, platform) == seq![parse_entry(text, platform)],
{
    lemma_split_is_unique(text, platform.separator, seq![text]);
}

/// A text of at least one character that holds no separator and is no
/// reference to a variable is a path of one entry: the directory named by
/// the whole text.
pub proof fn lemma_single_literal(text: Seq<char>, platform: Platform)
    requires
        text.len() > 0,
        !text.contains(platform.separator),
        parse_variable(text, platform) is Err,
    ensures
        parse_path(text, platform) == seq![Entry::Literal(text)],
{
    lemma_single_entry(text, platform);
}

/// A path that is not empty has one entry for each segment of its text, and
/// so one more than the text has separators. The entries stand in the order
/// of the segments, each read from its own segment alone, and the segments
/// in the order in which the text holds them.
pub proof fn lemma_entries_follow_segments(text: Seq<char>, platform: Platform)
    requires
        text.len() > 0,
    ensures
        parse_path(text, platform).len() == text.to_multiset().count(platform.separator) + 1,
        forall|i: int|
            0 <= i < parse_path(text, platform).len() ==> #[trigger] parse_path(text, platform)[i]
                == parse_entry(split(text, platform.separator)[i], platform),
        join(split(text, platform.separator), platform.separator) == text,
{
    lemma_split_count(text, platform.separator);
    lemma_split_join(text, platform.separator);
}

} // verus!
