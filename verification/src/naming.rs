//! GraphQL names for Rust identifiers.
//!
//! Generated Seaography root fields, arguments, and columns are
//! camel-cased, so custom ones are too: a Module whose SDL mixed both
//! conventions would read as two contracts.

use vstd::prelude::*;
use heck::ToLowerCamelCase;

verus! {

/// What heck's lower-camel-case conversion makes of a text.
pub uninterp spec fn spec_lower_camel_case(text: Seq<char>) -> Seq<char>;

/// heck's `ToLowerCamelCase::to_lower_camel_case` on a `str`.
///
/// Trusted: the result is heck's lower-camel-case form of `text`, named by
/// `spec_lower_camel_case`; heck's rules for splitting words are not stated
/// here.
#[verifier::external_body]
fn lower_camel_case(text: &str) -> (camel: String)
    ensures
        camel@ == spec_lower_camel_case(text@),
{
    text.to_lower_camel_case()
}

/// The GraphQL name for a Rust identifier: its lower-camel-case form.
pub fn graphql_name(ident: &str) -> (name: String)
    ensures
        name@ == spec_lower_camel_case(ident@),
{
    lower_camel_case(ident)
}

} // verus!
