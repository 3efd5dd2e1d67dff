//! The declaration that a derivation starts from, as plain data: the
//! enumeration, its variants, and the annotations written on them.

use vstd::prelude::*;

use crate::strings::copy_strings;

verus! {

/// One token of an annotation's argument list.
#[derive(Clone, Debug, PartialEq, Eq)]
pub enum Token {
    /// An identifier.
    Ident(String),
    /// A single punctuation character.
    Punct(char),
    /// A string literal, by the value it denotes.
    Str(String),
    /// Any other token: a literal of another kind, a group, a lifetime.
    Other,
}

/// The mathematical value of a [`Token`].
pub enum TokenView {
    Ident(Seq<char>),
    Punct(char),
    Str(Seq<char>),
    Other,
}

impl DeepView for Token {
    type V = TokenView;

    open spec fn deep_view(&self) -> TokenView {
        match self {
            Token::Ident(name) => TokenView::Ident(name@),
            Token::Punct(c) => TokenView::Punct(*c),
            Token::Str(value) => TokenView::Str(value@),
            Token::Other => TokenView::Other,
        }
    }
}

/// What follows the path of an annotation.
#[derive(Clone, Debug, PartialEq, Eq)]
pub enum Meta {
    /// Nothing: `#[path]`.
    Path,
    /// A delimited argument list: `#[path(tokens)]`.
    List(Vec<Token>),
    /// A value: `#[path = value]`.
    NameValue,
}

/// The mathematical value of a [`Meta`].
pub enum MetaView {
    Path,
    List(Seq<TokenView>),
    NameValue,
}

impl DeepView for Meta {
    type V = MetaView;

    open spec fn deep_view(&self) -> MetaView {
        match self {
            Meta::Path => MetaView::Path,
            Meta::List(tokens) => MetaView::List(tokens.deep_view()),
            Meta::NameValue => MetaView::NameValue,
        }
    }
}

/// One annotation on an enumeration or on a variant.
#[derive(Clone, Debug, PartialEq, Eq)]
pub struct Attribute {
    /// The path as written; an annotation is recognised by it.
    pub path: String,
    /// What follows the path.
    pub meta: Meta,
}

/// The mathematical value of an [`Attribute`].
pub struct AttributeView {
    pub path: Seq<char>,
    pub meta: MetaView,
}

impl DeepView for Attribute {
    type V = AttributeView;

    open spec fn deep_view(&self) -> AttributeView {
        AttributeView { path: self.path@, meta: self.meta.deep_view() }
    }
}

/// The fields of a variant. They decide how a default instance of the variant
/// is written, and nothing about its names.
#[derive(Debug, PartialEq, Eq)]
pub enum Fields {
    /// Named fields, by their identifiers: `V { a, b }`.
    Named(Vec<String>),
    /// This many positional fields: `V(.., ..)`.
    Unnamed(usize),
    /// No field list at all: `V`.
    Unit,
}

/// The mathematical value of a [`Fields`].
pub enum FieldsView {
    Named(Seq<Seq<char>>),
    Unnamed(nat),
    Unit,
}

impl FieldsView {
    /// How many fields an instance has.
    pub open spec fn arity(self) -> nat {
        match self {
            FieldsView::Named(names) => names.len(),
            FieldsView::Unnamed(count) => count,
            FieldsView::Unit => 0,
        }
    }
}

impl Clone for Fields {
    fn clone(&self) -> (copy: Self)
        ensures
            copy.deep_view() == self.deep_view(),
    {
        match self {
            Fields::Named(names) => Fields::Named(copy_strings(names)),
            Fields::Unnamed(count) => Fields::Unnamed(*count),
            Fields::Unit => Fields::Unit,
        }
    }
}

impl DeepView for Fields {
    type V = FieldsView;

    open spec fn deep_view(&self) -> FieldsView {
        match self {
            Fields::Named(names) => FieldsView::Named(names.deep_view()),
            Fields::Unnamed(count) => FieldsView::Unnamed(*count as nat),
            Fields::Unit => FieldsView::Unit,
        }
    }
}

/// One variant of an enumeration.
#[derive(Clone, Debug, PartialEq, Eq)]
pub struct VariantDefinition {
    /// The variant's identifier.
    pub ident: String,
    /// The annotations on the variant, in source order.
    pub attrs: Vec<Attribute>,
    /// The variant's fields.
    pub fields: Fields,
}

/// The mathematical value of a [`VariantDefinition`].
pub struct VariantView {
    pub ident: Seq<char>,
    pub attrs: Seq<AttributeView>,
    pub fields: FieldsView,
}

impl DeepView for VariantDefinition {
    type V = VariantView;

    open spec fn deep_view(&self) -> VariantView {
        VariantView {
            ident: self.ident@,
            attrs: self.attrs.deep_view(),
            fields: self.fields.deep_view(),
        }
    }
}

/// An enumeration: its name, its annotations, and its variants in declaration
/// order.
#[derive(Clone, Debug, PartialEq, Eq)]
pub struct EnumDefinition {
    /// The type's identifier.
    pub ident: String,
    /// The annotations on the type, in source order.
    pub attrs: Vec<Attribute>,
    /// The variants, in declaration order.
    pub variants: Vec<VariantDefinition>,
}

/// The mathematical value of an [`EnumDefinition`].
pub struct EnumView {
    pub ident: Seq<char>,
    pub attrs: Seq<AttributeView>,
    pub variants: Seq<VariantView>,
}

impl DeepView for EnumDefinition {
    type V = EnumView;

    open spec fn deep_view(&self) -> EnumView {
        EnumView {
            ident: self.ident@,
            attrs: self.attrs.deep_view(),
            variants: self.variants.deep_view(),
        }
    }
}

/// The type that a derivation is asked for.
#[derive(Clone, Debug, PartialEq, Eq)]
pub enum DeriveInput {
    /// An enumeration.
    Enum(EnumDefinition),
    /// A structure.
    Struct,
    /// A union.
    Union,
}

/// The mathematical value of a [`DeriveInput`].
pub enum DeriveInputView {
    Enum(EnumView),
    Struct,
    Union,
}

impl DeepView for DeriveInput {
    type V = DeriveInputView;

    open spec fn deep_view(&self) -> DeriveInputView {
        match self {
            DeriveInput::Enum(definition) => DeriveInputView::Enum(definition.deep_view()),
            DeriveInput::Struct => DeriveInputView::Struct,
            DeriveInput::Union => DeriveInputView::Union,
        }
    }
}

} // verus!
