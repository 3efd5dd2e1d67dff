use enum_variants_strings::emit::GeneratedCode;
use enum_variants_strings::enum_variants_strings;
use enum_variants_strings::input::{
    Attribute, DeriveInput, EnumDefinition, Fields, Meta, Token, VariantDefinition,
};
use enum_variants_strings::render::{
    render_constructor, render_default_fields, render_from_string_arm, render_literals,
    render_pattern, render_to_string_arm,
};
use enum_variants_strings::resolve::ResolutionError;
use enum_variants_strings::strings::{join, str_eq};

fn mappings(names: &[&str]) -> Attribute {
    let mut tokens = Vec::new();
    for name in names {
        if !tokens.is_empty() {
            tokens.push(Token::Punct(','));
        }
        tokens.push(Token::Str(name.to_string()));
    }
    Attribute { path: "enum_variants_strings_mappings".to_string(), meta: Meta::List(tokens) }
}

fn variant(ident: &str, attrs: Vec<Attribute>, fields: Fields) -> VariantDefinition {
    VariantDefinition { ident: ident.to_string(), attrs, fields }
}

fn variants() -> GeneratedCode {
    let definition = EnumDefinition {
        ident: "Variants".to_string(),
        attrs: vec![],
        variants: vec![
            variant("X", vec![], Fields::Unit),
            variant("Y", vec![], Fields::Unnamed(0)),
            variant("Z", vec![mappings(&["z", "zee"])], Fields::Unnamed(1)),
            variant(
                "HelloWorld",
                vec![],
                Fields::Named(vec!["x".to_string(), "y".to_string()]),
            ),
        ],
    };
    enum_variants_strings(&DeriveInput::Enum(definition)).unwrap()
}

fn strings(items: &[&str]) -> Vec<String> {
    items.iter().map(|item| item.to_string()).collect()
}

#[test]
fn strings_are_compared_character_by_character() {
    assert!(str_eq("", ""));
    assert!(str_eq("zee", "zee"));
    assert!(str_eq("é٣", "é٣"));
    assert!(!str_eq("zee", "ze"));
    assert!(!str_eq("ze", "zee"));
    assert!(!str_eq("zee", "zeE"));
    assert!(!str_eq("", " "));
}

#[test]
fn parts_are_joined_with_the_separator_between_them() {
    assert_eq!(join(&strings(&[]), ", "), "");
    assert_eq!(join(&strings(&["a"]), ", "), "a");
    assert_eq!(join(&strings(&["a", "b", "c"]), " | "), "a | b | c");
    assert_eq!(join(&strings(&["", ""]), "-"), "-");
    assert_eq!(join(&strings(&["a", "b"]), ""), "ab");
}

#[test]
fn names_are_written_as_string_literals() {
    assert_eq!(
        render_literals(&strings(&["zee", "", "a\"b", "back\\slash", "line\nbreak"])),
        strings(&["\"zee\"", "\"\"", "\"a\\\"b\"", "\"back\\\\slash\"", "\"line\\nbreak\""])
    );
}

#[test]
fn default_instances_are_written_by_shape() {
    assert_eq!(render_constructor("X", &Fields::Unit), "Self::X");
    assert_eq!(render_constructor("Y", &Fields::Unnamed(0)), "Self::Y()");
    assert_eq!(render_constructor("Z", &Fields::Unnamed(1)), "Self::Z(Default::default())");
    assert_eq!(
        render_constructor("P", &Fields::Unnamed(2)),
        "Self::P(Default::default(), Default::default())"
    );
    assert_eq!(
        render_constructor("HelloWorld", &Fields::Named(strings(&["x", "y"]))),
        "Self::HelloWorld { x: Default::default(), y: Default::default() }"
    );
    assert_eq!(render_constructor("Empty", &Fields::Named(vec![])), "Self::Empty {  }");
    assert_eq!(
        render_default_fields(&Fields::Named(strings(&["only"]))),
        strings(&["only: Default::default()"])
    );
    assert_eq!(render_default_fields(&Fields::Unit), strings(&[]));
}

#[test]
fn patterns_leave_the_fields_out() {
    assert_eq!(render_pattern("X", &Fields::Unit), "Self::X");
    assert_eq!(render_pattern("Y", &Fields::Unnamed(0)), "Self::Y(..)");
    assert_eq!(render_pattern("Z", &Fields::Unnamed(3)), "Self::Z(..)");
    assert_eq!(
        render_pattern("HelloWorld", &Fields::Named(strings(&["x", "y"]))),
        "Self::HelloWorld { .. }"
    );
}

#[test]
fn arms_are_written_from_the_plan() {
    let variants = variants();
    let plans = variants.variants();
    assert_eq!(render_from_string_arm(&plans[0]), "\"x\" => Ok(Self::X)");
    assert_eq!(
        render_from_string_arm(&plans[2]),
        "\"z\" | \"zee\" => Ok(Self::Z(Default::default()))"
    );
    assert_eq!(render_to_string_arm(&plans[2]), "Self::Z(..) => \"zee\"");
    assert_eq!(render_to_string_arm(&plans[3]), "Self::HelloWorld { .. } => \"hello_world\"");
}

#[test]
fn the_implementation_is_written_out_in_full() {
    assert_eq!(
        variants().render(),
        "impl ::enum_variants_strings::EnumVariantsStrings for Variants { \
         fn from_str(input: &str) -> Result<Self, &[&str]> { match input { \
         \"x\" => Ok(Self::X), \
         \"y\" => Ok(Self::Y()), \
         \"z\" | \"zee\" => Ok(Self::Z(Default::default())), \
         \"hello_world\" => Ok(Self::HelloWorld { x: Default::default(), y: Default::default() }), \
         _ => Err(&[\"x\", \"y\", \"z\", \"zee\", \"hello_world\"]) } } \
         fn to_str(&self) -> &'static str { match self { \
         Self::X => \"x\", \
         Self::Y(..) => \"y\", \
         Self::Z(..) => \"zee\", \
         Self::HelloWorld { .. } => \"hello_world\" } } }"
    );
}

#[test]
fn the_written_implementation_is_an_item_of_two_functions() {
    let item: syn::ItemImpl = syn::parse_str(&variants().render()).unwrap();
    let functions: Vec<String> = item
        .items
        .iter()
        .map(|item| match item {
            syn::ImplItem::Fn(function) => function.sig.ident.to_string(),
            _ => panic!("only functions are generated"),
        })
        .collect();
    assert_eq!(functions, strings(&["from_str", "to_str"]));
}

#[test]
fn written_literals_denote_the_names() {
    let names = ["zee", "", "a\"b", "back\\slash", "line\nbreak", "tab\there", "é٣", "it's", "\0"];
    for (name, text) in names.iter().zip(render_literals(&strings(&names))) {
        let literal: syn::LitStr = syn::parse_str(&text).unwrap();
        assert_eq!(&literal.value(), name);
    }
}

#[test]
fn errors_are_written_as_compile_errors() {
    assert_eq!(
        ResolutionError::NotAnEnum.render(),
        "compile_error!(\"Can only implement 'EnumVariantsStrings' on a enum\");"
    );
    assert_eq!(
        ResolutionError::MalformedTransformAttribute.render(),
        "compile_error!(\"Invalid usage of \\\"enum_variants_strings_transform\\\", check docs for usage\");"
    );
    assert_eq!(
        ResolutionError::UnknownTransform("bogus".to_string()).render(),
        "compile_error!(\"Unknown transform 'bogus'\");"
    );
    assert_eq!(
        ResolutionError::MalformedMappingAttribute.render(),
        "compile_error!(\"Failed to parse string arguments in custom mapping\");"
    );
}

#[test]
fn a_written_error_is_one_macro_invocation_with_the_message() {
    let error = ResolutionError::UnknownTransform("a\"b".to_string());
    let invocation: syn::Macro = syn::parse_str(error.render().trim_end_matches(';')).unwrap();
    assert!(invocation.path.is_ident("compile_error"));
    let message: syn::LitStr = invocation.parse_body().unwrap();
    assert_eq!(message.value(), error.message());
}
