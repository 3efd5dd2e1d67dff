//! What is taken from the standard library without proof.
//!
//! Case transforms rest on the character classes and case mappings of
//! Unicode, and generated text on the escapes of a string literal. The tables
//! behind these are not restated here. Each of them gets a name, a function
//! without a body, and the contracts below say only that a call returns what
//! its name denotes: that the result depends on the arguments and on nothing
//! else. Everything built on top is proved relative to these names.

use vstd::prelude::*;

verus! {

/// Whether `c` has the Unicode `Lowercase` property.
pub uninterp spec fn char_is_lowercase(c: char) -> bool;

/// Whether `c` has the Unicode `Uppercase` property.
pub uninterp spec fn char_is_uppercase(c: char) -> bool;

/// Whether `c` is in one of the Unicode numeric categories `Nd`, `Nl` or `No`.
pub uninterp spec fn char_is_numeric(c: char) -> bool;

/// The lowercase mapping of `c`: one or more characters.
pub uninterp spec fn char_lowercase(c: char) -> Seq<char>;

/// The lowercase equivalent of a whole string.
pub uninterp spec fn str_lowercase(s: Seq<char>) -> Seq<char>;

/// The uppercase equivalent of a whole string.
pub uninterp spec fn str_uppercase(s: Seq<char>) -> Seq<char>;

/// What the debug formatting of a string writes for `value`: the characters
/// between double quotes, escaped where they need it.
pub uninterp spec fn string_literal(value: Seq<char>) -> Seq<char>;

/// Assumed of `char::is_lowercase`: its result depends on the character
/// alone, and is called [`char_is_lowercase`]. Which characters are lowercase
/// is not said.
pub assume_specification[ char::is_lowercase ](c: char) -> (r: bool)
    ensures
        r == char_is_lowercase(c),
;

/// Assumed of `char::is_uppercase`: its result depends on the character
/// alone, and is called [`char_is_uppercase`]. Which characters are uppercase
/// is not said.
pub assume_specification[ char::is_uppercase ](c: char) -> (r: bool)
    ensures
        r == char_is_uppercase(c),
;

/// Assumed of `char::is_numeric`: its result depends on the character alone,
/// and is called [`char_is_numeric`]. Which characters are numeric is not said.
pub assume_specification[ char::is_numeric ](c: char) -> (r: bool)
    ensures
        r == char_is_numeric(c),
;

/// Assumed of `str::to_lowercase`: the characters of the string it returns
/// depend on the characters of its argument alone, and are called
/// [`str_lowercase`] of them. What they are is not said.
pub assume_specification[ str::to_lowercase ](s: &str) -> (r: String)
    ensures
        r@ == str_lowercase(s@),
;

/// Assumed of `str::to_uppercase`: the characters of the string it returns
/// depend on the characters of its argument alone, and are called
/// [`str_uppercase`] of them. What they are is not said.
pub assume_specification[ str::to_uppercase ](s: &str) -> (r: String)
    ensures
        r@ == str_uppercase(s@),
;

/// Assumed of `String::push`: it appends the given character to the end of
/// the string and changes nothing else of it.
pub assume_specification[ String::push ](s: &mut String, ch: char)
    ensures
        final(s)@ == old(s)@.push(ch),
;

/// Calls `char::to_lowercase` and collects the characters that it yields into
/// a string. Assumed: these characters depend on `c` alone, and are called
/// [`char_lowercase`] of `c`. What they are is not said.
#[verifier::external_body]
pub(crate) fn lowercase_of(c: char) -> (r: String)
    ensures
        r@ == char_lowercase(c),
{
    c.to_lowercase().collect()
}

/// Formats a string slice with `{:?}`, which is the `Debug` implementation of
/// `str`. Assumed: what it writes depends on the characters of `value` alone,
/// and is called [`string_literal`] of them. That the text is a literal which
/// denotes `value` is not said.
#[verifier::external_body]
pub(crate) fn string_literal_of(value: &str) -> (r: String)
    ensures
        r@ == string_literal(value@),
{
    format!("{:?}", value)
}

} // verus!
