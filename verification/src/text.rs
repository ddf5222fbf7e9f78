//! Building text: the two `String` appends the library's messages and
//! names are made of.

use vstd::prelude::*;

verus! {

/// `String::push`.
///
/// Trusted: appends `c` to the end of `text`, as its documentation says.
#[verifier::external_body]
pub(crate) fn push_char(text: &mut String, c: char)
    ensures
        final(text)@ == old(text)@.push(c),
{
    text.push(c)
}

/// `String::push_str`.
///
/// Trusted: appends `more` to the end of `text`, as its documentation says.
#[verifier::external_body]
pub(crate) fn push_str(text: &mut String, more: &str)
    ensures
        final(text)@ == old(text)@ + more@,
{
    text.push_str(more)
}

} // verus!
