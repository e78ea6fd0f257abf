//! What the standard library does to text, as far as the store relies on it.

use vstd::prelude::*;

verus! {

/// The lowercase form of a text, as `str::to_lowercase` computes it from the
/// Unicode case mappings.
pub uninterp spec fn lowercase(text: Seq<char>) -> Seq<char>;

/// Whether a character has the Unicode property `White_Space`, which is what
/// `str::trim` removes.
pub uninterp spec fn white_space(c: char) -> bool;

/// The number of white-space characters a text begins with.
pub open spec fn leading_space(text: Seq<char>) -> nat
    decreases text.len(),
{
    if text.len() > 0 && white_space(text.first()) {
        1 + leading_space(text.drop_first())
    } else {
        0
    }
}

/// The number of white-space characters a text ends with.
pub open spec fn trailing_space(text: Seq<char>) -> nat
    decreases text.len(),
{
    if text.len() > 0 && white_space(text.last()) {
        1 + trailing_space(text.drop_last())
    } else {
        0
    }
}

/// A text without the white space around it.
pub open spec fn trimmed(text: Seq<char>) -> Seq<char> {
    let rest = text.skip(leading_space(text) as int);
    rest.take(rest.len() - trailing_space(rest))
}

/// `str::to_lowercase` returns the lowercase form of the whole text. Nothing
/// is claimed of that form beyond its being determined by the text.
pub assume_specification[ str::to_lowercase ](text: &str) -> (folded: String)
    ensures
        folded@ == lowercase(text@),
;

/// `str::trim` returns the slice that is left when the leading and the
/// trailing white space are taken away, so that what is left neither begins
/// nor ends with white space.
pub assume_specification[ str::trim ](text: &str) -> (inner: &str)
    ensures
        inner@ == trimmed(text@),
        inner@.len() > 0 ==> !white_space(inner@.first()) && !white_space(inner@.last()),
;

/// `String::from_iter` on characters: the text that holds them, in order.
#[verifier::external_body]
pub(crate) fn string_from_chars(chars: Vec<char>) -> (text: String)
    ensures
        text@ == chars@,
{
    String::from_iter(chars)
}

/// An owned copy of a text.
pub(crate) fn owned(text: &str) -> (copy: String)
    ensures
        copy@ == text@,
{
    text.to_owned()
}

} // verus!
