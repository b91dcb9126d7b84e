//! Trusted wrappers around the standard library's Unicode case
//! transformations, whose full behaviour is far too large to state.
//! Each result is given a name that contracts elsewhere refer to.

use vstd::prelude::*;

verus! {

/// What `str::to_lowercase` returns for a given character sequence.
pub uninterp spec fn lower_of(s: Seq<char>) -> Seq<char>;

/// What `str::to_uppercase` returns for a given character sequence.
pub uninterp spec fn upper_of(s: Seq<char>) -> Seq<char>;

/// Relies on str::to_lowercase: the result depends on the characters
/// alone, and an empty string stays empty.
#[verifier::external_body]
pub fn lowercase(s: &str) -> (r: String)
    ensures
        r@ == lower_of(s@),
        s@.len() == 0 ==> r@.len() == 0,
{
    s.to_lowercase()
}

/// Relies on str::to_uppercase: the result depends on the characters
/// alone, and an empty string stays empty. On ASCII text the mapping is
/// the ASCII case mapping, so its result is ASCII again and upper-casing
/// it a second time changes nothing.
#[verifier::external_body]
pub fn uppercase(s: &str) -> (r: String)
    ensures
        r@ == upper_of(s@),
        s@.len() == 0 ==> r@.len() == 0,
        vstd::utf8::is_ascii_chars(s@) ==> upper_of(r@) == r@ && vstd::utf8::is_ascii_chars(r@),
{
    s.to_uppercase()
}

/// Relies on String::from: the string holding one character.
#[verifier::external_body]
pub fn char_string(c: char) -> (r: String)
    ensures
        r@ == seq![c],
{
    String::from(c)
}

} // verus!
