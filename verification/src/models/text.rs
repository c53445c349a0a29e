//! Letter case, as the standard library defines it.

use vstd::prelude::*;
use vstd::string::{StrSliceExecFns, StringExecFns};

verus! {

/// The upper-case form of a character: what `char::to_uppercase` yields.
/// It may be longer than one character.
pub uninterp spec fn uppercase_of_char(c: char) -> Seq<char>;

/// The lower-case form of a text: what `str::to_lowercase` returns.
pub uninterp spec fn lowercase_of(text: Seq<char>) -> Seq<char>;

/// `char::to_uppercase` yields the characters of the upper-case form of `c`
/// by the Unicode tables; they are collected into a string.
#[verifier::external_body]
fn uppercase_char(c: char) -> (upper: String)
    ensures
        upper@ == uppercase_of_char(c),
{
    c.to_uppercase().collect()
}

/// `str::to_lowercase` returns the lower-case form of `text` by the Unicode
/// tables.
pub assume_specification[ str::to_lowercase ](text: &str) -> (lower: String)
    ensures
        lower@ == lowercase_of(text@),
;

/// `==` on `str` compares the two texts character by character.
pub assume_specification[ <str as PartialEq>::eq ](left: &str, right: &str) -> (same: bool)
    ensures
        same == (left@ == right@),
;

/// A text with its first character in upper case.
pub open spec fn capitalized(text: Seq<char>) -> Seq<char> {
    if text.len() == 0 {
        text
    } else {
        uppercase_of_char(text[0]) + text.skip(1)
    }
}

/// Puts the first character of `text` in upper case and keeps the rest.
pub fn capitalize(text: &str) -> (capital: String)
    ensures
        capital@ == capitalized(text@),
{
    let length = text.unicode_len();
    if length == 0 {
        text.to_owned()
    } else {
        let first = uppercase_char(text.get_char(0));
        let rest = text.substring_char(1, length);
        proof {
            assert(text@.subrange(1, length as int) == text@.skip(1));
        }
        first.concat(rest)
    }
}

} // verus!
