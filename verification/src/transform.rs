//! The casing transforms that turn a variant identifier into its name.

use vstd::prelude::*;
use vstd::std_specs::iter::IteratorSpec;
use vstd::string::StringExecFns;

use crate::std_specs::{
    char_is_lowercase, char_is_numeric, char_is_uppercase, char_lowercase, lowercase_of,
    str_lowercase, str_uppercase,
};
use crate::strings::str_eq;

verus! {

/// A casing transform, selected once for a whole enumeration.
#[derive(Clone, Copy, Debug, PartialEq, Eq, Structural)]
pub enum Transform {
    /// Lowercase words joined by `_`.
    SnakeCase,
    /// The whole identifier in uppercase.
    UpperCase,
    /// The whole identifier in lowercase.
    LowerCase,
    /// Lowercase words joined by `-`.
    KebabCase,
    /// The identifier as it is written.
    Identity,
}

/// A transform name that is not one of the known ones.
#[derive(Clone, Copy, Debug, PartialEq, Eq)]
pub struct UnknownCustomTransformError<'a> {
    /// The offending name.
    pub transform: &'a str,
}

/// Whether `c` is one of the two characters that already divide words.
pub open spec fn is_divider(c: char) -> bool {
    c == '_' || c == '-'
}

/// Whether `c` starts a new word after a lowercase letter: it is an uppercase
/// letter or a digit.
pub open spec fn starts_word(c: char) -> bool {
    char_is_uppercase(c) || char_is_numeric(c)
}

/// What one position contributes to the divided form, given the character
/// there, its lowercase mapping (`lower`), whether it is a lowercase letter,
/// and whether the character after it starts a word: the divider in place of
/// `_` or `-`; otherwise the lowercase mapping, followed by the divider where
/// a lowercase letter stands before the start of a word.
pub open spec fn assembled_piece(
    character: char,
    lower: Seq<char>,
    is_lowercase: bool,
    next_starts_word: bool,
    divider: char,
) -> Seq<char> {
    if is_divider(character) {
        seq![divider]
    } else if is_lowercase && next_starts_word {
        lower.push(divider)
    } else {
        lower
    }
}

/// What position `i` of `s` contributes to the divided form.
pub open spec fn piece(s: Seq<char>, i: int, divider: char) -> Seq<char> {
    assembled_piece(
        s[i],
        char_lowercase(s[i]),
        char_is_lowercase(s[i]),
        i + 1 < s.len() && starts_word(s[i + 1]),
        divider,
    )
}

/// The pieces of the first `n` positions of `s`, one after the other.
pub open spec fn divided_prefix(s: Seq<char>, n: nat, divider: char) -> Seq<char>
    decreases n,
{
    if n == 0 {
        Seq::empty()
    } else {
        divided_prefix(s, (n - 1) as nat, divider) + piece(s, n - 1, divider)
    }
}

/// `s` as lowercase words joined by `divider`.
pub open spec fn divided(s: Seq<char>, divider: char) -> Seq<char> {
    divided_prefix(s, s.len(), divider)
}

impl DeepView for Transform {
    type V = Transform;

    open spec fn deep_view(&self) -> Transform {
        *self
    }
}

impl Default for Transform {
    /// Snake case is the transform of an enumeration that names none.
    fn default() -> (transform: Self)
        ensures
            transform == Transform::SnakeCase,
    {
        Transform::SnakeCase
    }
}

impl Transform {
    /// The transform that a name denotes, if any. Kebab case has two spellings.
    pub open spec fn named(name: Seq<char>) -> Option<Transform> {
        if name == "snake_case"@ {
            Some(Transform::SnakeCase)
        } else if name == "upper_case"@ {
            Some(Transform::UpperCase)
        } else if name == "lower_case"@ {
            Some(Transform::LowerCase)
        } else if name == "kebab_case"@ || name == "kebab-case"@ {
            Some(Transform::KebabCase)
        } else if name == "none"@ {
            Some(Transform::Identity)
        } else {
            None
        }
    }

    /// The result of applying this transform to `s`.
    pub open spec fn applied(self, s: Seq<char>) -> Seq<char> {
        match self {
            Transform::SnakeCase => divided(s, '_'),
            Transform::KebabCase => divided(s, '-'),
            Transform::UpperCase => str_uppercase(s),
            Transform::LowerCase => str_lowercase(s),
            Transform::Identity => s,
        }
    }

    /// Looks a transform up by its name. The lookup is exact: no trimming, no
    /// case folding. A name that denotes no transform comes back in the error.
    pub fn from_str(s: &str) -> (found: Result<Self, UnknownCustomTransformError<'_>>)
        ensures
            match found {
                Ok(transform) => Self::named(s@) == Some(transform),
                Err(error) => Self::named(s@) is None && error.transform@ == s@,
            },
    {
        if str_eq(s, "snake_case") {
            Ok(Transform::SnakeCase)
        } else if str_eq(s, "upper_case") {
            Ok(Transform::UpperCase)
        } else if str_eq(s, "lower_case") {
            Ok(Transform::LowerCase)
        } else if str_eq(s, "kebab_case") || str_eq(s, "kebab-case") {
            Ok(Transform::KebabCase)
        } else if str_eq(s, "none") {
            Ok(Transform::Identity)
        } else {
            Err(UnknownCustomTransformError { transform: s })
        }
    }

    /// Applies this transform to an identifier.
    pub fn apply_transform(&self, s: &str) -> (transformed: String)
        ensures
            transformed@ == self.applied(s@),
    {
        match self {
            Transform::SnakeCase => divide(s, '_'),
            Transform::KebabCase => divide(s, '-'),
            Transform::UpperCase => s.to_uppercase(),
            Transform::LowerCase => s.to_lowercase(),
            Transform::Identity => s.to_owned(),
        }
    }
}

/// Appends to `string` what one character of the input contributes.
///
/// `lower` is the lowercase mapping of `character`; `is_lowercase` says whether
/// it is a lowercase letter; `next_starts_word` says whether the character
/// after it is an uppercase letter or a digit. The three are what the standard
/// library says of the characters; this function decides what follows from
/// them.
pub fn push_piece(
    string: &mut String,
    character: char,
    lower: &str,
    is_lowercase: bool,
    next_starts_word: bool,
    divider: char,
)
    ensures
        final(string)@ == old(string)@ + assembled_piece(
            character,
            lower@,
            is_lowercase,
            next_starts_word,
            divider,
        ),
{
    if character == '_' || character == '-' {
        string.push(divider);
    } else {
        string.append(lower);
        if is_lowercase && next_starts_word {
            string.push(divider);
        }
    }
}

/// Turns `s` into lowercase words joined by `divider`, in one pass that looks
/// one character ahead.
fn divide(s: &str, divider: char) -> (string: String)
    ensures
        string@ == divided(s@, divider),
{
    broadcast use vstd::string::group_string_axioms;

    let mut chars = s.chars();
    let mut string = String::new();
    let mut current = chars.next();
    let ghost mut done: int = 0;
    loop
        invariant
            0 <= done <= s@.len(),
            string@ == divided_prefix(s@, done as nat, divider),
            match current {
                Some(c) => done < s@.len() && c == s@[done] && chars.remaining() == s@.skip(
                    done + 1,
                ),
                None => done == s@.len(),
            },
        decreases s@.len() - done,
    {
        let character = match current {
            Some(character) => character,
            None => { return string; },
        };
        let upcoming = chars.next();
        proof {
            if done + 1 < s@.len() {
                assert(s@.skip(done + 1).drop_first() == s@.skip(done + 2));
            }
        }
        let next_starts_word = match upcoming {
            Some(next) => next.is_uppercase() || next.is_numeric(),
            None => false,
        };
        let lower = lowercase_of(character);
        push_piece(
            &mut string,
            character,
            lower.as_str(),
            character.is_lowercase(),
            next_starts_word,
            divider,
        );
        current = upcoming;
        proof {
            done = done + 1;
        }
    }
}

/// The text that reports an unknown transform: it quotes the offending name.
pub open spec fn unknown_transform_message(name: Seq<char>) -> Seq<char> {
    "Unknown transform '"@ + name + "'"@
}

impl<'a> UnknownCustomTransformError<'a> {
    /// The message that reports this error: it quotes the offending name.
    pub fn message(&self) -> (message: String)
        ensures
            message@ == unknown_transform_message(self.transform@),
    {
        let mut message = "Unknown transform '".to_owned();
        message.append(self.transform);
        message.append("'");
        message
    }
}

} // verus!
