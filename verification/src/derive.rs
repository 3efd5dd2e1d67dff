//! The derivation as a whole: from the declaration of a type to the
//! conversions generated for it, or to the one error that stops it.

use vstd::prelude::*;

use crate::emit::{emit, emitted, GeneratedCode, GeneratedCodeView};
use crate::input::{DeriveInput, DeriveInputView};
use crate::plan::{plan, planned};
use crate::resolve::{
    resolve_type_transform, resolved_transform, ResolutionError, ResolutionErrorView,
};
use crate::view::result_view;

verus! {

/// What a derivation yields for a type.
///
/// Only an enumeration is derived for. Its transform is resolved first, then
/// its variants are planned in declaration order, and the first error met on
/// the way is the result; nothing is generated beside an error.
pub open spec fn derived(input: DeriveInputView) -> Result<
    GeneratedCodeView,
    ResolutionErrorView,
> {
    match input {
        DeriveInputView::Enum(definition) => match resolved_transform(definition.attrs) {
            Err(error) => Err(error),
            Ok(transform) => match planned(definition.variants, transform) {
                Err(error) => Err(error),
                Ok(plans) => Ok(emitted(definition.ident, plans)),
            },
        },
        _ => Err(ResolutionErrorView::NotAnEnum),
    }
}

/// Derives the two conversions for a type.
pub fn enum_variants_strings(input: &DeriveInput) -> (output: Result<
    GeneratedCode,
    ResolutionError,
>)
    ensures
        result_view(output) == derived(input.deep_view()),
        output matches Ok(code) ==> code.deep_view().wf(),
{
    match input {
        DeriveInput::Enum(definition) => {
            let transform = match resolve_type_transform(&definition.attrs) {
                Ok(transform) => transform,
                Err(error) => { return Err(error); },
            };
            match plan(definition, transform) {
                Ok(plans) => Ok(emit(definition.ident.as_str(), plans)),
                Err(error) => Err(error),
            }
        },
        _ => Err(ResolutionError::NotAnEnum),
    }
}

} // verus!
