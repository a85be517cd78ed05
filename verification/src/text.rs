use vstd::prelude::*;

verus! {

/// `str`'s `==` (`<str as PartialEq>::eq` of std): true exactly when the two
/// hold the same characters.
pub assume_specification[ <str as PartialEq>::eq ](a: &str, b: &str) -> (same: bool)
    ensures
        same == (a@ == b@),
;

/// The text that `str::to_uppercase` of std gives for `text`: each character
/// replaced by its Unicode upper-case mapping, which may be several characters.
pub uninterp spec fn uppercase_of(text: Seq<char>) -> Seq<char>;

/// `str::to_uppercase` of std. The result is a function of the text alone
/// (the Unicode tables are part of std), so it is named, not described.
#[verifier::external_body]
pub(crate) fn to_uppercase(text: &str) -> (upper: String)
    ensures
        upper@ == uppercase_of(text@),
{
    text.to_uppercase()
}

/// `String::push` of std: appends one character.
#[verifier::external_body]
pub(crate) fn push_char(text: &mut String, c: char)
    ensures
        final(text)@ == old(text)@.push(c),
{
    text.push(c)
}

} // verus!
