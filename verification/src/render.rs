//! The generated implementation as source text.

use vstd::prelude::*;
use vstd::string::StringExecFns;

use crate::emit::{GeneratedCode, GeneratedCodeView};
use crate::input::{Fields, FieldsView};
use crate::plan::{ResolvedPlan, ResolvedPlanView};
use crate::resolve::{ResolutionError, ResolutionErrorView};
use crate::std_specs::{string_literal, string_literal_of};
use crate::strings::{join, separated};

verus! {

/// One literal for each of the names.
pub open spec fn literals(names: Seq<Seq<char>>) -> Seq<Seq<char>> {
    Seq::new(names.len(), |i: int| string_literal(names[i]))
}

/// The initialisers of the fields of a default instance: each field takes the
/// default value of its type.
pub open spec fn default_fields(shape: FieldsView) -> Seq<Seq<char>> {
    match shape {
        FieldsView::Named(names) => Seq::new(
            names.len(),
            |i: int| names[i] + ": Default::default()"@,
        ),
        FieldsView::Unnamed(count) => Seq::new(count, |i: int| "Default::default()"@),
        FieldsView::Unit => Seq::empty(),
    }
}

/// The expression that builds the default instance of a variant.
pub open spec fn constructor_text(variant: Seq<char>, shape: FieldsView) -> Seq<char> {
    match shape {
        FieldsView::Named(_) => "Self::"@ + variant + " { "@ + separated(
            default_fields(shape),
            ", "@,
        ) + " }"@,
        FieldsView::Unnamed(_) => "Self::"@ + variant + "("@ + separated(
            default_fields(shape),
            ", "@,
        ) + ")"@,
        FieldsView::Unit => "Self::"@ + variant,
    }
}

/// The pattern that matches every instance of a variant, whatever its fields
/// hold.
pub open spec fn pattern_text(variant: Seq<char>, shape: FieldsView) -> Seq<char> {
    match shape {
        FieldsView::Named(_) => "Self::"@ + variant + " { .. }"@,
        FieldsView::Unnamed(_) => "Self::"@ + variant + "(..)"@,
        FieldsView::Unit => "Self::"@ + variant,
    }
}

/// The arm of the parsing function for one variant: any of its input names
/// gives its default instance.
pub open spec fn from_string_arm(plan: ResolvedPlanView) -> Seq<char> {
    separated(literals(plan.input_names), " | "@) + " => Ok("@ + constructor_text(
        plan.variant,
        plan.shape,
    ) + ")"@
}

/// The arm of the writing function for one variant: every instance of it gives
/// its output name.
pub open spec fn to_string_arm(plan: ResolvedPlanView) -> Seq<char> {
    pattern_text(plan.variant, plan.shape) + " => "@ + string_literal(plan.output_name)
}

/// The last arm of the parsing function: any other input fails with the list
/// of the accepted names.
pub open spec fn no_match_arm(possible_matches: Seq<Seq<char>>) -> Seq<char> {
    "_ => Err(&["@ + separated(literals(possible_matches), ", "@) + "])"@
}

/// The arms of the parsing function: one for each variant, in declaration
/// order, and the failing arm after them.
pub open spec fn from_string_arms(code: GeneratedCodeView) -> Seq<Seq<char>> {
    Seq::new(code.variants.len(), |i: int| from_string_arm(code.variants[i])).push(
        no_match_arm(code.possible_matches),
    )
}

/// The arms of the writing function: one for each variant, in declaration
/// order.
pub open spec fn to_string_arms(code: GeneratedCodeView) -> Seq<Seq<char>> {
    Seq::new(code.variants.len(), |i: int| to_string_arm(code.variants[i]))
}

/// The implementation of the two conversions for an enumeration, as source
/// text.
pub open spec fn rendered(code: GeneratedCodeView) -> Seq<char> {
    "impl ::enum_variants_strings::EnumVariantsStrings for "@ + code.ident
        + " { fn from_str(input: &str) -> Result<Self, &[&str]> { match input { "@ + separated(
        from_string_arms(code),
        ", "@,
    ) + " } } fn to_str(&self) -> &'static str { match self { "@ + separated(
        to_string_arms(code),
        ", "@,
    ) + " } } }"@
}

/// The source text that reports an error in place of an implementation.
pub open spec fn rendered_error(error: ResolutionErrorView) -> Seq<char> {
    "compile_error!("@ + string_literal(error.message()) + ");"@
}

/// Writes one literal for each of the names.
pub fn render_literals(names: &Vec<String>) -> (texts: Vec<String>)
    ensures
        texts.deep_view() == literals(names.deep_view()),
{
    let mut texts: Vec<String> = Vec::new();
    let mut index: usize = 0;
    while index < names.len()
        invariant
            index <= names.len(),
            texts.len() == index,
            forall|k: int| 0 <= k < index ==> (#[trigger] texts[k])@ == string_literal(names[k]@),
        decreases names.len() - index,
    {
        texts.push(string_literal_of(names[index].as_str()));
        index += 1;
    }
    assert(texts.deep_view() =~= literals(names.deep_view()));
    texts
}

/// Writes the initialisers of the fields of a default instance.
pub fn render_default_fields(shape: &Fields) -> (texts: Vec<String>)
    ensures
        texts.deep_view() == default_fields(shape.deep_view()),
{
    let mut texts: Vec<String> = Vec::new();
    match shape {
        Fields::Named(names) => {
            let mut index: usize = 0;
            while index < names.len()
                invariant
                    index <= names.len(),
                    texts.len() == index,
                    forall|k: int|
                        0 <= k < index ==> (#[trigger] texts[k])@ == names[k]@
                            + ": Default::default()"@,
                decreases names.len() - index,
            {
                let mut text = names[index].clone();
                text.append(": Default::default()");
                texts.push(text);
                index += 1;
            }
            assert(texts.deep_view() =~= default_fields(shape.deep_view()));
        },
        Fields::Unnamed(count) => {
            while texts.len() < *count
                invariant
                    texts.len() <= *count,
                    forall|k: int|
                        0 <= k < texts.len() ==> (#[trigger] texts[k])@ == "Default::default()"@,
                decreases *count - texts.len(),
            {
                texts.push("Default::default()".to_owned());
            }
            assert(texts.deep_view() =~= default_fields(shape.deep_view()));
        },
        Fields::Unit => {
            assert(texts.deep_view() =~= default_fields(shape.deep_view()));
        },
    }
    texts
}

/// Writes the expression that builds the default instance of a variant.
pub fn render_constructor(variant: &str, shape: &Fields) -> (text: String)
    ensures
        text@ == constructor_text(variant@, shape.deep_view()),
{
    let mut text = "Self::".to_owned();
    text.append(variant);
    match shape {
        Fields::Named(_) => {
            text.append(" { ");
            text.append(join(&render_default_fields(shape), ", ").as_str());
            text.append(" }");
        },
        Fields::Unnamed(_) => {
            text.append("(");
            text.append(join(&render_default_fields(shape), ", ").as_str());
            text.append(")");
        },
        Fields::Unit => {},
    }
    text
}

/// Writes the pattern that matches every instance of a variant.
pub fn render_pattern(variant: &str, shape: &Fields) -> (text: String)
    ensures
        text@ == pattern_text(variant@, shape.deep_view()),
{
    let mut text = "Self::".to_owned();
    text.append(variant);
    match shape {
        Fields::Named(_) => {
            text.append(" { .. }");
        },
        Fields::Unnamed(_) => {
            text.append("(..)");
        },
        Fields::Unit => {},
    }
    text
}

/// Writes the arm of the parsing function for one variant.
pub fn render_from_string_arm(plan: &ResolvedPlan) -> (text: String)
    ensures
        text@ == from_string_arm(plan.deep_view()),
{
    let mut text = join(&render_literals(plan.input_names()), " | ");
    text.append(" => Ok(");
    text.append(render_constructor(plan.variant().as_str(), plan.shape()).as_str());
    text.append(")");
    text
}

/// Writes the arm of the writing function for one variant.
pub fn render_to_string_arm(plan: &ResolvedPlan) -> (text: String)
    ensures
        text@ == to_string_arm(plan.deep_view()),
{
    let mut text = render_pattern(plan.variant().as_str(), plan.shape());
    text.append(" => ");
    text.append(string_literal_of(plan.output_name().as_str()).as_str());
    text
}

impl GeneratedCode {
    /// Writes the implementation out as source text: the parsing function with
    /// one arm for each variant and a last arm that fails, and the writing
    /// function with one arm for each variant.
    pub fn render(&self) -> (text: String)
        ensures
            text@ == rendered(self.deep_view()),
    {
        let plans = self.variants();
        let ghost code = self.deep_view();
        let mut from_arms: Vec<String> = Vec::new();
        let mut to_arms: Vec<String> = Vec::new();
        let mut index: usize = 0;
        while index < plans.len()
            invariant
                index <= plans.len(),
                plans.deep_view() == code.variants,
                from_arms.len() == index,
                to_arms.len() == index,
                forall|k: int|
                    0 <= k < index ==> (#[trigger] from_arms[k])@ == from_string_arm(
                        code.variants[k],
                    ),
                forall|k: int|
                    0 <= k < index ==> (#[trigger] to_arms[k])@ == to_string_arm(code.variants[k]),
            decreases plans.len() - index,
        {
            from_arms.push(render_from_string_arm(&plans[index]));
            to_arms.push(render_to_string_arm(&plans[index]));
            index += 1;
        }
        let mut no_match = "_ => Err(&[".to_owned();
        no_match.append(join(&render_literals(self.possible_matches()), ", ").as_str());
        no_match.append("])");
        from_arms.push(no_match);
        assert(from_arms.deep_view() =~= from_string_arms(code));
        assert(to_arms.deep_view() =~= to_string_arms(code));

        let mut text = "impl ::enum_variants_strings::EnumVariantsStrings for ".to_owned();
        text.append(self.ident().as_str());
        text.append(" { fn from_str(input: &str) -> Result<Self, &[&str]> { match input { ");
        text.append(join(&from_arms, ", ").as_str());
        text.append(" } } fn to_str(&self) -> &'static str { match self { ");
        text.append(join(&to_arms, ", ").as_str());
        text.append(" } } }");
        text
    }
}

impl ResolutionError {
    /// Writes out the source text that reports this error where the
    /// implementation would have been.
    pub fn render(&self) -> (text: String)
        ensures
            text@ == rendered_error(self.deep_view()),
    {
        let mut text = "compile_error!(".to_owned();
        text.append(string_literal_of(self.message().as_str()).as_str());
        text.append(");");
        text
    }
}

} // verus!
