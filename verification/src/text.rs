//! Building text one character at a time.

use vstd::prelude::*;

verus! {

/// Appends a character with `String::push` of the standard library, which
/// puts the character at the end of the text and changes nothing else.
#[verifier::external_body]
pub(crate) fn push_char(text: &mut String, c: char)
    ensures
        final(text)@ == old(text)@.push(c),
{
    text.push(c)
}

} // verus!
