use enum_variants_strings::emit::{GeneratedCode, Instance};
use enum_variants_strings::enum_variants_strings;
use enum_variants_strings::input::{
    Attribute, DeriveInput, EnumDefinition, Fields, Meta, Token, VariantDefinition,
};
use enum_variants_strings::resolve::ResolutionError;
use enum_variants_strings::EnumVariantsStrings;

/// `#[enum_variants_strings_transform(transform = "<name>")]`
fn transform(name: &str) -> Attribute {
    Attribute {
        path: "enum_variants_strings_transform".to_string(),
        meta: Meta::List(vec![
            Token::Ident("transform".to_string()),
            Token::Punct('='),
            Token::Str(name.to_string()),
        ]),
    }
}

/// An enumeration of variants without fields, under the named transform.
fn units(ident: &str, name: &str, variants: &[&str]) -> DeriveInput {
    DeriveInput::Enum(EnumDefinition {
        ident: ident.to_string(),
        attrs: vec![transform(name)],
        variants: variants
            .iter()
            .map(|variant| VariantDefinition {
                ident: variant.to_string(),
                attrs: vec![],
                fields: Fields::Unit,
            })
            .collect(),
    })
}

fn derive(ident: &str, name: &str, variants: &[&str]) -> GeneratedCode {
    enum_variants_strings(&units(ident, name, variants)).unwrap()
}

fn unit(variant: usize) -> Instance {
    Instance { variant, fields: vec![] }
}

fn names(names: &[&str]) -> Vec<String> {
    names.iter().map(|name| name.to_string()).collect()
}

fn tokens_of(source: &str) -> String {
    let stream: proc_macro2::TokenStream = source.parse().unwrap();
    stream.to_string()
}

#[test]
fn none_transform() {
    #[derive(Debug, PartialEq)]
    enum EnumA {
        Foo,
        Bar,
    }

    impl EnumVariantsStrings for EnumA {
        fn from_str(input: &str) -> Result<Self, &[&str]> {
            match input {
                "Foo" => Ok(Self::Foo),
                "Bar" => Ok(Self::Bar),
                _ => Err(&["Foo", "Bar"])
            }
        }

        fn to_str(&self) -> &'static str {
            match self {
                Self::Foo => "Foo",
                Self::Bar => "Bar"
            }
        }
    }

    assert_eq!(EnumA::Foo.to_str(), "Foo");
    assert_eq!(EnumA::Bar.to_str(), "Bar");
    assert_eq!(EnumA::from_str("Bar"), Ok(EnumA::Bar));
    assert_eq!(EnumA::from_str("bar"), Err(&["Foo", "Bar"][..]));

    let enum_a = derive("EnumA", "none", &["Foo", "Bar"]);
    assert_eq!(
        tokens_of(&enum_a.render()),
        tokens_of(
            r#"impl ::enum_variants_strings::EnumVariantsStrings for EnumA {
                fn from_str(input: &str) -> Result<Self, &[&str]> {
                    match input {
                        "Foo" => Ok(Self::Foo),
                        "Bar" => Ok(Self::Bar),
                        _ => Err(&["Foo", "Bar"])
                    }
                }

                fn to_str(&self) -> &'static str {
                    match self {
                        Self::Foo => "Foo",
                        Self::Bar => "Bar"
                    }
                }
            }"#
        )
    );
    assert_eq!(enum_a.to_str(&unit(0)), "Foo");
    assert_eq!(enum_a.to_str(&unit(1)), "Bar");
    assert_eq!(enum_a.from_str("Bar"), Ok(unit(1)));
    assert_eq!(enum_a.from_str("bar"), Err(&names(&["Foo", "Bar"])));
}

#[test]
fn lower_case_transform() {
    #[derive(Debug, PartialEq)]
    enum EnumB {
        Foo,
        Bar,
    }

    impl EnumVariantsStrings for EnumB {
        fn from_str(input: &str) -> Result<Self, &[&str]> {
            match input {
                "foo" => Ok(Self::Foo),
                "bar" => Ok(Self::Bar),
                _ => Err(&["foo", "bar"])
            }
        }

        fn to_str(&self) -> &'static str {
            match self {
                Self::Foo => "foo",
                Self::Bar => "bar"
            }
        }
    }

    assert_eq!(EnumB::Foo.to_str(), "foo");
    assert_eq!(EnumB::Bar.to_str(), "bar");
    assert_eq!(EnumB::from_str("bar"), Ok(EnumB::Bar));
    assert_eq!(EnumB::from_str("Bar"), Err(&["foo", "bar"][..]));

    let enum_b = derive("EnumB", "lower_case", &["Foo", "Bar"]);
    assert_eq!(
        tokens_of(&enum_b.render()),
        tokens_of(
            r#"impl ::enum_variants_strings::EnumVariantsStrings for EnumB {
                fn from_str(input: &str) -> Result<Self, &[&str]> {
                    match input {
                        "foo" => Ok(Self::Foo),
                        "bar" => Ok(Self::Bar),
                        _ => Err(&["foo", "bar"])
                    }
                }

                fn to_str(&self) -> &'static str {
                    match self {
                        Self::Foo => "foo",
                        Self::Bar => "bar"
                    }
                }
            }"#
        )
    );
    assert_eq!(enum_b.to_str(&unit(0)), "foo");
    assert_eq!(enum_b.to_str(&unit(1)), "bar");
    assert_eq!(enum_b.from_str("bar"), Ok(unit(1)));
    assert_eq!(enum_b.from_str("Bar"), Err(&names(&["foo", "bar"])));
}

#[test]
fn upper_case_transform() {
    #[derive(Debug, PartialEq)]
    enum EnumC {
        Foo,
        Bar,
    }

    impl EnumVariantsStrings for EnumC {
        fn from_str(input: &str) -> Result<Self, &[&str]> {
            match input {
                "FOO" => Ok(Self::Foo),
                "BAR" => Ok(Self::Bar),
                _ => Err(&["FOO", "BAR"])
            }
        }

        fn to_str(&self) -> &'static str {
            match self {
                Self::Foo => "FOO",
                Self::Bar => "BAR"
            }
        }
    }

    assert_eq!(EnumC::Foo.to_str(), "FOO");
    assert_eq!(EnumC::Bar.to_str(), "BAR");
    assert_eq!(EnumC::from_str("BAR"), Ok(EnumC::Bar));
    assert_eq!(EnumC::from_str("Bar"), Err(&["FOO", "BAR"][..]));

    let enum_c = derive("EnumC", "upper_case", &["Foo", "Bar"]);
    assert_eq!(
        tokens_of(&enum_c.render()),
        tokens_of(
            r#"impl ::enum_variants_strings::EnumVariantsStrings for EnumC {
                fn from_str(input: &str) -> Result<Self, &[&str]> {
                    match input {
                        "FOO" => Ok(Self::Foo),
                        "BAR" => Ok(Self::Bar),
                        _ => Err(&["FOO", "BAR"])
                    }
                }

                fn to_str(&self) -> &'static str {
                    match self {
                        Self::Foo => "FOO",
                        Self::Bar => "BAR"
                    }
                }
            }"#
        )
    );
    assert_eq!(enum_c.to_str(&unit(0)), "FOO");
    assert_eq!(enum_c.to_str(&unit(1)), "BAR");
    assert_eq!(enum_c.from_str("BAR"), Ok(unit(1)));
    assert_eq!(enum_c.from_str("Bar"), Err(&names(&["FOO", "BAR"])));
}

#[test]
fn snake_case_transform() {
    #[derive(Debug, PartialEq)]
    enum EnumD {
        SomeMember1,
        SomeMemberFoo,
    }

    impl EnumVariantsStrings for EnumD {
        fn from_str(input: &str) -> Result<Self, &[&str]> {
            match input {
                "some_member_1" => Ok(Self::SomeMember1),
                "some_member_foo" => Ok(Self::SomeMemberFoo),
                _ => Err(&["some_member_1", "some_member_foo"])
            }
        }

        fn to_str(&self) -> &'static str {
            match self {
                Self::SomeMember1 => "some_member_1",
                Self::SomeMemberFoo => "some_member_foo"
            }
        }
    }

    assert_eq!(EnumD::SomeMember1.to_str(), "some_member_1");
    assert_eq!(EnumD::SomeMemberFoo.to_str(), "some_member_foo");

    let enum_d = derive("EnumD", "snake_case", &["SomeMember1", "SomeMemberFoo"]);
    assert_eq!(
        tokens_of(&enum_d.render()),
        tokens_of(
            r#"impl ::enum_variants_strings::EnumVariantsStrings for EnumD {
                fn from_str(input: &str) -> Result<Self, &[&str]> {
                    match input {
                        "some_member_1" => Ok(Self::SomeMember1),
                        "some_member_foo" => Ok(Self::SomeMemberFoo),
                        _ => Err(&["some_member_1", "some_member_foo"])
                    }
                }

                fn to_str(&self) -> &'static str {
                    match self {
                        Self::SomeMember1 => "some_member_1",
                        Self::SomeMemberFoo => "some_member_foo"
                    }
                }
            }"#
        )
    );
    assert_eq!(enum_d.to_str(&unit(0)), "some_member_1");
    assert_eq!(enum_d.to_str(&unit(1)), "some_member_foo");
    assert_eq!(EnumD::from_str("some_member_foo"), Ok(EnumD::SomeMemberFoo));
    assert_eq!(enum_d.from_str("some_member_foo"), Ok(unit(1)));
}

#[test]
fn kebab_case_transform_has_two_spellings() {
    for name in ["kebab_case", "kebab-case"] {
        let derived = derive("EnumE", name, &["SomeMember1", "SomeMemberFoo"]);
        assert_eq!(derived.to_str(&unit(0)), "some-member-1");
        assert_eq!(derived.to_str(&unit(1)), "some-member-foo");
        assert_eq!(derived.from_str("some-member-foo"), Ok(unit(1)));
        assert_eq!(
            derived.from_str("some_member_foo"),
            Err(&names(&["some-member-1", "some-member-foo"]))
        );
    }
}

#[test]
fn snake_case_is_the_transform_of_an_enumeration_that_names_none() {
    let definition = EnumDefinition {
        ident: "EnumF".to_string(),
        attrs: vec![Attribute { path: "derive".to_string(), meta: Meta::List(vec![]) }],
        variants: vec![VariantDefinition {
            ident: "SomeMemberFoo".to_string(),
            attrs: vec![Attribute { path: "doc".to_string(), meta: Meta::NameValue }],
            fields: Fields::Unit,
        }],
    };
    let derived = enum_variants_strings(&DeriveInput::Enum(definition)).unwrap();
    assert_eq!(derived.ident(), "EnumF");
    assert_eq!(derived.to_str(&unit(0)), "some_member_foo");
}

#[test]
fn an_unknown_transform_stops_the_derivation() {
    let outcome = enum_variants_strings(&units("EnumG", "bogus", &["Foo", "Bar"]));
    assert_eq!(outcome, Err(ResolutionError::UnknownTransform("bogus".to_string())));
    let error = outcome.unwrap_err();
    assert_eq!(error.message(), "Unknown transform 'bogus'");
    assert_eq!(error.render(), "compile_error!(\"Unknown transform 'bogus'\");");
}

#[test]
fn transform_names_are_matched_exactly() {
    for name in ["Snake_Case", "NONE", " none", "", "lowercase"] {
        assert_eq!(
            enum_variants_strings(&units("EnumH", name, &["Foo"])),
            Err(ResolutionError::UnknownTransform(name.to_string()))
        );
    }
}

#[test]
fn only_enumerations_are_derived_for() {
    for input in [DeriveInput::Struct, DeriveInput::Union] {
        let outcome = enum_variants_strings(&input);
        assert_eq!(outcome, Err(ResolutionError::NotAnEnum));
        assert_eq!(
            outcome.unwrap_err().message(),
            "Can only implement 'EnumVariantsStrings' on a enum"
        );
    }
}

#[test]
fn explicit_names_are_not_transformed() {
    let mut input = units("EnumI", "upper_case", &["Foo", "Bar"]);
    if let DeriveInput::Enum(definition) = &mut input {
        definition.variants[1].attrs.push(Attribute {
            path: "enum_variants_strings_mappings".to_string(),
            meta: Meta::List(vec![Token::Str("b".to_string()), Token::Punct(',')]),
        });
    }
    let derived = enum_variants_strings(&input).unwrap();
    assert_eq!(derived.to_str(&unit(0)), "FOO");
    assert_eq!(derived.to_str(&unit(1)), "b");
    assert_eq!(derived.from_str("BAR"), Err(&names(&["FOO", "b"])));
    assert_eq!(derived.from_str("b"), Ok(unit(1)));
}
