//! Text helpers: the view of an optional string, and the functions of `str`
//! that the library takes on trust.

use vstd::prelude::*;

verus! {

/// `text` in lower case, as `str::to_lowercase` gives it.
pub uninterp spec fn lowercase_of(text: Seq<char>) -> Seq<char>;

/// `text` with every occurrence of `from` replaced by `to`, as
/// `str::replace` gives it.
pub uninterp spec fn text_replaced(text: Seq<char>, from: Seq<char>, to: Seq<char>) -> Seq<char>;

/// The view of an optional string.
pub open spec fn opt_view(text: Option<String>) -> Option<Seq<char>> {
    match text {
        Some(t) => Some(t@),
        None => None,
    }
}

/// `str` equality, `<str as PartialEq>::eq`: true exactly when both hold the
/// same characters.
pub assume_specification[ <str as PartialEq>::eq ](a: &str, b: &str) -> (same: bool)
    ensures
        same == (a@ == b@),
;

/// Calls `str::to_lowercase`. Trusted: the result is a function of the text
/// alone, named `lowercase_of`.
#[verifier::external_body]
pub(crate) fn to_lowercase(text: &str) -> (lower: String)
    ensures
        lower@ == lowercase_of(text@),
{
    text.to_lowercase()
}

/// Calls `str::replace`. Trusted: the result is a function of the three
/// texts alone, named `text_replaced`.
#[verifier::external_body]
pub(crate) fn str_replace(text: &str, from: &str, to: &str) -> (out: String)
    ensures
        out@ == text_replaced(text@, from@, to@),
{
    text.replace(from, to)
}

} // verus!
