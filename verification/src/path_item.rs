//! The entries of a search path.

use crate::platform::Platform;
use crate::variable::{display_form, lemma_display_form_parses, parse_variable, Variable};
use std::convert::Infallible;
use vstd::prelude::*;

verus! {

/// What an entry of a search path denotes.
pub enum Entry {
    /// A directory, by the text that names it.
    Literal(Seq<char>),
    /// A reference to the environment variable of this name.
    Reference(Seq<char>),
}

/// The entry that a text denotes: a reference wherever the text is written
/// as one, and otherwise a directory named by the whole text, unchanged.
pub open spec fn parse_entry(text: Seq<char>, platform: Platform) -> Entry {
    match parse_variable(text, platform) {
        Ok(name) => Entry::Reference(name),
        Err(_) => Entry::Literal(text),
    }
}

/// One entry of a search path.
#[derive(Debug)]
pub enum PathItem {
    /// A directory, kept as it was written.
    Path(String),
    /// A reference to an environment variable, kept unexpanded.
    Variable(Variable),
}

impl View for PathItem {
    type V = Entry;

    open spec fn view(&self) -> Entry {
        match self {
            PathItem::Path(text) => Entry::Literal(text@),
            PathItem::Variable(variable) => Entry::Reference(variable@),
        }
    }
}

impl PathItem {
    /// Reads `s` as one entry of a search path. Every text is an entry, so
    /// this never fails.
    pub fn from_str(s: &str, platform: Platform) -> (r: Result<PathItem, Infallible>)
        ensures
            r matches Ok(item) && item@ == parse_entry(s@, platform),
    {
        match Variable::from_str(s, platform) {
            Ok(variable) => Ok(PathItem::Variable(variable)),
            Err(_) => Ok(PathItem::Path(s.to_owned())),
        }
    }
}

/// The failures of reading an entry. Every text is an entry, so this type
/// has no values.
#[derive(Debug)]
pub enum ParsePathItemError {
    /// Cannot be built: its field has no values.
    Never(Infallible),
}

/// The written form of a name of at least one character is an entry that
/// refers to the variable of that name.
pub proof fn lemma_display_form_is_reference(name: Seq<char>, platform: Platform)
    requires
        name.len() > 0,
    ensures
        parse_entry(display_form(name, platform), platform) == Entry::Reference(name),
{
    lemma_display_form_parses(name, platform);
}

/// The tag alone is no reference, so as an entry it is the directory named
/// by the tag.
pub proof fn lemma_tag_alone_is_literal(platform: Platform)
    ensures
        parse_entry(seq![platform.tag], platform) == Entry::Literal(seq![platform.tag]),
{
}

/// An entry is a reference exactly where its text is read as one, and then
/// to the name that was read; any other text is a directory named by the
/// text as it stands.
pub proof fn lemma_reference_takes_precedence(text: Seq<char>, platform: Platform)
    ensures
        parse_entry(text, platform) is Reference <==> parse_variable(text, platform) is Ok,
        parse_variable(text, platform) matches Ok(name) ==> parse_entry(text, platform)
            == Entry::Reference(name),
        parse_variable(text, platform) is Err ==> parse_entry(text, platform) == Entry::Literal(
            text,
        ),
{
}

} // verus!
