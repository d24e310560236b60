//! The conventions by which a platform writes its search path.

use vstd::prelude::*;

verus! {

/// How a platform marks a reference to an environment variable.
#[derive(Clone, Copy, Debug, PartialEq, Eq, Structural)]
pub enum TagConvention {
    /// The tag stands before the name, and the name runs to the end (`$HOME`).
    Single,
    /// The tag stands before and after the name (`%HOME%`).
    Paired,
}

/// The characters a platform uses in its search path.
#[derive(Clone, Copy, Debug, PartialEq, Eq, Structural)]
pub struct Platform {
    /// Stands between two entries of the path.
    pub separator: char,
    /// Marks a reference to an environment variable.
    pub tag: char,
    /// Whether the tag also closes the reference.
    pub convention: TagConvention,
}

impl Platform {
    /// The conventions of Unix-like systems: `:` between entries, `$NAME`.
    pub open spec fn spec_unix() -> Platform {
        Platform { separator: ':', tag: '$', convention: TagConvention::Single }
    }

    /// The conventions of Windows: `;` between entries, `%NAME%`.
    pub open spec fn spec_windows() -> Platform {
        Platform { separator: ';', tag: '%', convention: TagConvention::Paired }
    }

    /// The conventions of Unix-like systems.
    #[verifier::when_used_as_spec(spec_unix)]
    pub fn unix() -> (p: Platform)
        ensures
            p == Self::spec_unix(),
    {
        Platform { separator: ':', tag: '$', convention: TagConvention::Single }
    }

    /// The conventions of Windows.
    #[verifier::when_used_as_spec(spec_windows)]
    pub fn windows() -> (p: Platform)
        ensures
            p == Self::spec_windows(),
    {
        Platform { separator: ';', tag: '%', convention: TagConvention::Paired }
    }
}

} // verus!
