//! References to environment variables, as they are written in a search path.

use crate::platform::{Platform, TagConvention};
use vstd::prelude::*;

verus! {

/// Why a text is not a reference to an environment variable.
#[derive(Clone, Copy, Debug, PartialEq, Eq, Structural)]
pub enum ParseVariableError {
    /// The text is too short to hold a name of at least one character.
    Length,
    /// The text does not begin with the tag.
    StartChar,
    /// The text does not end with the tag, on a platform that closes a
    /// reference with it.
    EndChar,
}

/// What a text denotes when it is read as a reference to a variable: the
/// name inside the tags, or the reason why the text is no reference.
///
/// With a single tag, the empty text and the tag alone are too short; any
/// other text must begin with the tag, and all that follows the tag is the
/// name. With paired tags, a text of fewer than three characters is too
/// short, whatever it holds; a longer one must begin and end with the tag,
/// and all that stands between the first and the last character is the name.
pub open spec fn parse_variable(text: Seq<char>, platform: Platform) -> Result<
    Seq<char>,
    ParseVariableError,
> {
    match platform.convention {
        TagConvention::Single => {
            if text.len() == 0 {
                Err(ParseVariableError::Length)
            } else if text.first() != platform.tag {
                Err(ParseVariableError::StartChar)
            } else if text.len() == 1 {
                Err(ParseVariableError::Length)
            } else {
                Ok(text.subrange(1, text.len() as int))
            }
        },
        TagConvention::Paired => {
            if text.len() < 3 {
                Err(ParseVariableError::Length)
            } else if text.first() != platform.tag {
                Err(ParseVariableError::StartChar)
            } else if text.last() != platform.tag {
                Err(ParseVariableError::EndChar)
            } else {
                Ok(text.subrange(1, text.len() - 1))
            }
        },
    }
}

/// The written form of a reference to the variable `name`.
pub open spec fn display_form(name: Seq<char>, platform: Platform) -> Seq<char> {
    match platform.convention {
        TagConvention::Single => seq![platform.tag] + name,
        TagConvention::Paired => seq![platform.tag] + name + seq![platform.tag],
    }
}

/// The name of an environment variable, without the tags that mark a
/// reference to it. The name has at least one character.
#[derive(Debug)]
pub struct Variable(String);

impl View for Variable {
    type V = Seq<char>;

    closed spec fn view(&self) -> Seq<char> {
        self.0@
    }
}

impl Variable {
    #[verifier::type_invariant]
    closed spec fn has_name(&self) -> bool {
        self.0@.len() > 0
    }

    /// Reads `s` as a reference to a variable, counting characters, not bytes.
    pub fn from_str(s: &str, platform: Platform) -> (r: Result<Variable, ParseVariableError>)
        ensures
            parse_variable(s@, platform) == match r {
                Ok(variable) => Ok(variable@),
                Err(error) => Err(error),
            },
    {
        let count: usize = s.unicode_len();
        match platform.convention {
            TagConvention::Single => {
                if count == 0 {
                    Err(ParseVariableError::Length)
                } else if s.get_char(0) != platform.tag {
                    Err(ParseVariableError::StartChar)
                } else if count == 1 {
                    Err(ParseVariableError::Length)
                } else {
                    Ok(Variable(s.substring_char(1, count).to_owned()))
                }
            },
            TagConvention::Paired => {
                if count < 3 {
                    Err(ParseVariableError::Length)
                } else if s.get_char(0) != platform.tag {
                    Err(ParseVariableError::StartChar)
                } else if s.get_char(count - 1) != platform.tag {
                    Err(ParseVariableError::EndChar)
                } else {
                    Ok(Variable(s.substring_char(1, count - 1).to_owned()))
                }
            },
        }
    }

    /// The name of the variable.
    pub fn name(&self) -> (name: &str)
        ensures
            name@ == self@,
            name@.len() > 0,
    {
        proof {
            use_type_invariant(self);
        }
        self.0.as_str()
    }

    /// The reference as it is written on `platform`: the name inside the tags.
    pub fn display(&self, platform: Platform) -> (text: String)
        ensures
            text@ == display_form(self@, platform),
    {
        let mut text = String::new();
        text.push(platform.tag);
        text.append(self.0.as_str());
        match platform.convention {
            TagConvention::Single => {},
            TagConvention::Paired => {
                text.push(platform.tag);
            },
        }
        text
    }
}

/// The written form of a name of at least one character is read back as a
/// reference to that name.
pub proof fn lemma_display_form_parses(name: Seq<char>, platform: Platform)
    requires
        name.len() > 0,
    ensures
        parse_variable(display_form(name, platform), platform) == Ok::<
            Seq<char>,
            ParseVariableError,
        >(name),
{
    let text = display_form(name, platform);
    match platform.convention {
        TagConvention::Single => {
            assert(text.subrange(1, text.len() as int) == name);
        },
        TagConvention::Paired => {
            assert(text.subrange(1, text.len() - 1) == name);
        },
    }
}

/// A text is read as a reference to a name only if the name has at least one
/// character and the text is its written form.
pub proof fn lemma_parsed_name_displays(text: Seq<char>, platform: Platform)
    ensures
        parse_variable(text, platform) matches Ok(name) ==> name.len() > 0 && display_form(
            name,
            platform,
        ) == text,
{
}

/// Writing a name, reading the text and writing what was read gives the
/// text that was read.
pub proof fn lemma_display_round_trip(name: Seq<char>, platform: Platform)
    requires
        name.len() > 0,
    ensures
        parse_variable(display_form(name, platform), platform) matches Ok(read) && display_form(
            read,
            platform,
        ) == display_form(name, platform),
{
    lemma_display_form_parses(name, platform);
}

/// The tag alone is too short to be a reference, on every platform.
pub proof fn lemma_tag_alone_is_too_short(platform: Platform)
    ensures
        parse_variable(seq![platform.tag], platform) == Err::<Seq<char>, ParseVariableError>(
            ParseVariableError::Length,
        ),
{
}

/// The tag twice, with no name between, is too short to be a reference where
/// tags are paired.
pub proof fn lemma_empty_name_is_too_short(platform: Platform)
    requires
        platform.convention == TagConvention::Paired,
    ensures
        parse_variable(seq![platform.tag, platform.tag], platform) == Err::<
            Seq<char>,
            ParseVariableError,
        >(ParseVariableError::Length),
{
}

/// Where tags are paired, a text of three characters or more that begins
/// with the tag and does not end with it lacks its end tag.
pub proof fn lemma_missing_end_tag(text: Seq<char>, platform: Platform)
    requires
        platform.convention == TagConvention::Paired,
        text.len() >= 3,
        text.first() == platform.tag,
        text.last() != platform.tag,
    ensures
        parse_variable(text, platform) == Err::<Seq<char>, ParseVariableError>(
            ParseVariableError::EndChar,
        ),
{
}

/// Where the tag is single, no text lacks an end tag: whatever follows the
/// leading tag is the name, provided that something follows.
pub proof fn lemma_single_tag_needs_no_end(text: Seq<char>, platform: Platform)
    requires
        platform.convention == TagConvention::Single,
    ensures
        parse_variable(text, platform) != Err::<Seq<char>, ParseVariableError>(
            ParseVariableError::EndChar,
        ),
        text.len() >= 2 && text.first() == platform.tag ==> parse_variable(text, platform) == Ok::<
            Seq<char>,
            ParseVariableError,
        >(text.skip(1)),
{
}

} // verus!
