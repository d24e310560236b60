//! What this crate takes on trust of the standard library's strings, beyond
//! what `vstd` already states.

use vstd::prelude::*;

verus! {

/// `String::push` appends the character to the end of the string and leaves
/// what stood there before as it was. As `vstd` does for `Vec::push`, this
/// says nothing of a machine that runs out of memory.
pub assume_specification[ String::push ](s: &mut String, ch: char)
    ensures
        final(s)@ == old(s)@.push(ch),
;

} // verus!
