//! Finding and reading the two annotations: the casing transform written on
//! the enumeration, and the explicit names written on a variant.

use vstd::prelude::*;

use crate::input::{Attribute, AttributeView, Meta, MetaView, Token, TokenView};
use crate::strings::str_eq;
use crate::transform::{unknown_transform_message, Transform, UnknownCustomTransformError};
use crate::view::result_view;

verus! {

/// The path of the annotation that gives a variant its names:
/// `#[enum_variants_strings_mappings("z", "zed", "zee")]`.
pub const CUSTOM_VARIANT_STRING_MAPPING: &'static str = "enum_variants_strings_mappings";

/// The path of the annotation that selects the casing transform of an
/// enumeration: `#[enum_variants_strings_transform(transform = "kebab_case")]`.
pub const CUSTOM_VARIANT_STRING_TRANSFORM: &'static str = "enum_variants_strings_transform";

/// Why a derivation stops. Each of these ends it at once, with no output.
#[derive(Clone, Debug, PartialEq, Eq)]
pub enum ResolutionError {
    /// The type is a structure or a union.
    NotAnEnum,
    /// The transform annotation is there, but not in the shape
    /// `transform = "name"`, or it is there more than once.
    MalformedTransformAttribute,
    /// The transform annotation names a transform that does not exist.
    UnknownTransform(String),
    /// The names annotation of a variant is there, but its arguments are not a
    /// list of one or more string literals.
    MalformedMappingAttribute,
}

/// The mathematical value of a [`ResolutionError`].
pub enum ResolutionErrorView {
    NotAnEnum,
    MalformedTransformAttribute,
    UnknownTransform(Seq<char>),
    MalformedMappingAttribute,
}

impl DeepView for ResolutionError {
    type V = ResolutionErrorView;

    open spec fn deep_view(&self) -> ResolutionErrorView {
        match self {
            ResolutionError::NotAnEnum => ResolutionErrorView::NotAnEnum,
            ResolutionError::MalformedTransformAttribute =>
                ResolutionErrorView::MalformedTransformAttribute,
            ResolutionError::UnknownTransform(name) => ResolutionErrorView::UnknownTransform(name@),
            ResolutionError::MalformedMappingAttribute =>
                ResolutionErrorView::MalformedMappingAttribute,
        }
    }
}

impl ResolutionErrorView {
    /// The text that reports the error.
    pub open spec fn message(self) -> Seq<char> {
        match self {
            ResolutionErrorView::NotAnEnum =>
                "Can only implement 'EnumVariantsStrings' on a enum"@,
            ResolutionErrorView::MalformedTransformAttribute =>
                "Invalid usage of \"enum_variants_strings_transform\", check docs for usage"@,
            ResolutionErrorView::UnknownTransform(name) => unknown_transform_message(name),
            ResolutionErrorView::MalformedMappingAttribute =>
                "Failed to parse string arguments in custom mapping"@,
        }
    }
}

impl ResolutionError {
    /// The message that reports this error to the author of the enumeration.
    pub fn message(&self) -> (message: String)
        ensures
            message@ == self.deep_view().message(),
    {
        match self {
            ResolutionError::NotAnEnum =>
                "Can only implement 'EnumVariantsStrings' on a enum".to_owned(),
            ResolutionError::MalformedTransformAttribute =>
                "Invalid usage of \"enum_variants_strings_transform\", check docs for usage"
                    .to_owned(),
            ResolutionError::UnknownTransform(name) => {
                let unknown = UnknownCustomTransformError { transform: name.as_str() };
                unknown.message()
            },
            ResolutionError::MalformedMappingAttribute =>
                "Failed to parse string arguments in custom mapping".to_owned(),
        }
    }
}

/// The position of the first annotation at or after `start` whose path is
/// `name`.
pub open spec fn first_named(attrs: Seq<AttributeView>, name: Seq<char>, start: int) -> Option<int>
    decreases attrs.len() - start,
{
    if start < 0 || start >= attrs.len() {
        None
    } else if attrs[start].path == name {
        Some(start)
    } else {
        first_named(attrs, name, start + 1)
    }
}

/// The transform name that an annotation carries: its arguments are exactly
/// the three tokens `transform`, `=` and a string literal.
pub open spec fn transform_argument(meta: MetaView) -> Option<Seq<char>> {
    match meta {
        MetaView::List(tokens) => if tokens.len() == 3 && tokens[0] == TokenView::Ident(
            "transform"@,
        ) && tokens[1] == TokenView::Punct('=') && tokens[2] is Str {
            Some(tokens[2]->Str_0)
        } else {
            None
        },
        _ => None,
    }
}

/// Whether the token at position `i` is what a list of string literals has
/// there: a string literal at an even position, a comma at an odd one.
pub open spec fn fits_string_list(tokens: Seq<TokenView>, i: int) -> bool {
    if i % 2 == 0 {
        tokens[i] is Str
    } else {
        tokens[i] == TokenView::Punct(',')
    }
}

/// Whether `tokens` is a list of string literals separated by commas. A comma
/// may follow the last literal.
pub open spec fn is_string_list(tokens: Seq<TokenView>) -> bool {
    forall|i: int| 0 <= i < tokens.len() ==> #[trigger] fits_string_list(tokens, i)
}

/// The values of the string literals of such a list, in order.
pub open spec fn listed_strings(tokens: Seq<TokenView>) -> Seq<Seq<char>> {
    Seq::new(((tokens.len() + 1) / 2) as nat, |k: int| tokens[2 * k]->Str_0)
}

/// The names that an annotation carries: its arguments are a list of one or
/// more string literals.
pub open spec fn mapping_arguments(meta: MetaView) -> Option<Seq<Seq<char>>> {
    match meta {
        MetaView::List(tokens) => if tokens.len() > 0 && is_string_list(tokens) {
            Some(listed_strings(tokens))
        } else {
            None
        },
        _ => None,
    }
}

/// The transform that the annotations of an enumeration select.
///
/// With no transform annotation it is snake case. With exactly one it is the
/// transform that the annotation names, provided that the annotation is
/// well-formed and the name is known.
pub open spec fn resolved_transform(attrs: Seq<AttributeView>) -> Result<
    Transform,
    ResolutionErrorView,
> {
    match first_named(attrs, CUSTOM_VARIANT_STRING_TRANSFORM@, 0) {
        None => Ok(Transform::SnakeCase),
        Some(first) => if first_named(attrs, CUSTOM_VARIANT_STRING_TRANSFORM@, first + 1)
            is Some {
            Err(ResolutionErrorView::MalformedTransformAttribute)
        } else {
            match transform_argument(attrs[first].meta) {
                None => Err(ResolutionErrorView::MalformedTransformAttribute),
                Some(name) => match Transform::named(name) {
                    Some(transform) => Ok(transform),
                    None => Err(ResolutionErrorView::UnknownTransform(name)),
                },
            }
        },
    }
}

/// The explicit names that the annotations of a variant give it, if any. The
/// first names annotation decides.
pub open spec fn resolved_mapping(attrs: Seq<AttributeView>) -> Result<
    Option<Seq<Seq<char>>>,
    ResolutionErrorView,
> {
    match first_named(attrs, CUSTOM_VARIANT_STRING_MAPPING@, 0) {
        None => Ok(None),
        Some(first) => match mapping_arguments(attrs[first].meta) {
            Some(names) => Ok(Some(names)),
            None => Err(ResolutionErrorView::MalformedMappingAttribute),
        },
    }
}

/// Finds the first annotation at or after `start` whose path is `name`.
pub fn find_attribute(attrs: &Vec<Attribute>, name: &str, start: usize) -> (found: Option<usize>)
    ensures
        match found {
            Some(index) => start <= index < attrs.len() && first_named(
                attrs.deep_view(),
                name@,
                start as int,
            ) == Some(index as int),
            None => first_named(attrs.deep_view(), name@, start as int) is None,
        },
{
    let mut index = start;
    while index < attrs.len()
        invariant
            start <= index,
            first_named(attrs.deep_view(), name@, start as int) == first_named(
                attrs.deep_view(),
                name@,
                index as int,
            ),
        decreases attrs.len() - index,
    {
        if str_eq(attrs[index].path.as_str(), name) {
            return Some(index);
        }
        index += 1;
    }
    None
}

/// Reads the transform name out of a transform annotation.
pub fn read_transform_argument(meta: &Meta) -> (read: Option<&String>)
    ensures
        match read {
            Some(name) => transform_argument(meta.deep_view()) == Some(name@),
            None => transform_argument(meta.deep_view()) is None,
        },
{
    match meta {
        Meta::List(tokens) => {
            if tokens.len() != 3 {
                return None;
            }
            match (&tokens[0], &tokens[1], &tokens[2]) {
                (Token::Ident(key), Token::Punct(sign), Token::Str(value)) => {
                    if str_eq(key.as_str(), "transform") && *sign == '=' {
                        Some(value)
                    } else {
                        None
                    }
                },
                _ => None,
            }
        },
        _ => None,
    }
}

/// Reads the names out of a names annotation.
pub fn read_mapping_arguments(meta: &Meta) -> (read: Option<Vec<String>>)
    ensures
        match read {
            Some(names) => mapping_arguments(meta.deep_view()) == Some(names.deep_view())
                && names.len() > 0,
            None => mapping_arguments(meta.deep_view()) is None,
        },
{
    match meta {
        Meta::List(tokens) => {
            let ghost view = tokens.deep_view();
            let mut names: Vec<String> = Vec::new();
            let mut index: usize = 0;
            while index < tokens.len()
                invariant
                    index <= tokens.len(),
                    view == tokens.deep_view(),
                    meta.deep_view() == MetaView::List(view),
                    forall|i: int| 0 <= i < index ==> #[trigger] fits_string_list(view, i),
                    names.len() == (index + 1) / 2,
                    forall|k: int|
                        0 <= k < names.len() ==> (#[trigger] names[k])@ == view[2 * k]->Str_0,
                decreases tokens.len() - index,
            {
                match &tokens[index] {
                    Token::Str(value) => {
                        if index % 2 != 0 {
                            assert(!fits_string_list(view, index as int));
                            return None;
                        }
                        names.push(value.clone());
                    },
                    Token::Punct(c) => {
                        if index % 2 != 1 || *c != ',' {
                            assert(!fits_string_list(view, index as int));
                            return None;
                        }
                    },
                    _ => {
                        assert(!fits_string_list(view, index as int));
                        return None;
                    },
                }
                assert(fits_string_list(view, index as int));
                index += 1;
            }
            if names.len() == 0 {
                return None;
            }
            assert(names.deep_view() =~= listed_strings(view));
            Some(names)
        },
        _ => None,
    }
}

/// Resolves the casing transform of an enumeration from the annotations
/// written on it.
pub fn resolve_type_transform(attrs: &Vec<Attribute>) -> (resolved: Result<
    Transform,
    ResolutionError,
>)
    ensures
        result_view(resolved) == resolved_transform(attrs.deep_view()),
{
    match find_attribute(attrs, CUSTOM_VARIANT_STRING_TRANSFORM, 0) {
        None => Ok(Transform::SnakeCase),
        Some(first) => {
            if find_attribute(attrs, CUSTOM_VARIANT_STRING_TRANSFORM, first + 1).is_some() {
                return Err(ResolutionError::MalformedTransformAttribute);
            }
            match read_transform_argument(&attrs[first].meta) {
                None => Err(ResolutionError::MalformedTransformAttribute),
                Some(name) => match Transform::from_str(name.as_str()) {
                    Ok(transform) => Ok(transform),
                    Err(unknown) => Err(
                        ResolutionError::UnknownTransform(unknown.transform.to_owned()),
                    ),
                },
            }
        },
    }
}

/// Resolves the explicit names of a variant from the annotations written on
/// it: `None` where it has none and takes its name from the transform.
pub fn resolve_variant_mapping(attrs: &Vec<Attribute>) -> (resolved: Result<
    Option<Vec<String>>,
    ResolutionError,
>)
    ensures
        result_view(resolved) == resolved_mapping(attrs.deep_view()),
        resolved matches Ok(Some(names)) ==> names.len() > 0,
        resolved matches Err(error) ==> error == ResolutionError::MalformedMappingAttribute,
{
    match find_attribute(attrs, CUSTOM_VARIANT_STRING_MAPPING, 0) {
        None => Ok(None),
        Some(first) => match read_mapping_arguments(&attrs[first].meta) {
            Some(names) => Ok(Some(names)),
            None => Err(ResolutionError::MalformedMappingAttribute),
        },
    }
}

} // verus!
