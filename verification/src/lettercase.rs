//! Letter case, by the standard library.
//!
//! Nothing here is proved. Which characters have a lowercase form, and which,
//! is a table of Unicode, so the result is given a name, and the contract says
//! that the call returns what the name stands for.

use vstd::prelude::*;

verus! {

/// The lowercase form of a text, as `str::to_lowercase` of the standard
/// library gives it.
pub uninterp spec fn lowercase_of(text: Seq<char>) -> Seq<char>;

/// `str::to_lowercase`: the lowercase form of the text by the rules of
/// Unicode, which the contract names and does not spell out.
#[verifier::external_body]
pub(crate) fn lowercase(text: &str) -> (lowered: String)
    ensures
        lowered@ == lowercase_of(text@),
{
    text.to_lowercase()
}

} // verus!
