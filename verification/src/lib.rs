//! Strings for the variants of an enumeration.
//!
//! From the declaration of an enumeration and the annotations written on it,
//! the crate works out a name for each variant, and generates two conversions:
//! one that parses a name into a default instance of the variant that takes
//! it, and one that writes an instance as the name of its variant.
//!
//! A derivation goes through these steps, each with a contract that says
//! exactly what it yields:
//!
//! - [`resolve`] finds the annotations and reads them: the casing transform of
//!   the enumeration, snake case unless it says otherwise, and the explicit
//!   names of a variant.
//! - [`transform`] turns an identifier into a name.
//! - [`plan`] gives each variant its input names and its output name, the last
//!   of them.
//! - [`emit`] puts the two conversions together and says what they compute;
//!   [`render`] writes them out as source text.
//! - [`derive`] is the whole: [`enum_variants_strings`].
//!
//! [`input`] holds the declaration as plain data, [`laws`] what is proved of
//! every derivation, and [`std_specs`] what is assumed of the standard library.

use vstd::prelude::*;

pub mod derive;
pub mod emit;
pub mod input;
pub mod laws;
pub mod plan;
pub mod render;
pub mod resolve;
pub mod std_specs;
pub mod strings;
pub mod transform;
pub mod view;

pub use derive::enum_variants_strings;

verus! {

/// The two conversions, as the capability that a derived implementation gives
/// an enumeration.
pub trait EnumVariantsStrings: Sized {
    /// Returns an instance of the variant of `Self` that matches `input` if
    /// there is one, else the possible matches.
    fn from_str(input: &str) -> Result<Self, &[&str]>;

    /// Returns the string representation of the variant of `self`.
    fn to_str(&self) -> &'static str;
}

} // verus!
