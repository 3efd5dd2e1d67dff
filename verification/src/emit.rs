//! The two conversions that a derivation produces for an enumeration, and
//! what they compute: parsing a name into a default instance of a variant, and
//! writing an instance as the name of its variant.

use vstd::prelude::*;

use crate::input::{Fields, FieldsView};
use crate::plan::{ResolvedPlan, ResolvedPlanView};
use crate::strings::str_eq;
use crate::view::result_view;

verus! {

/// The value of one field of an instance.
#[derive(Clone, Debug, PartialEq, Eq)]
pub enum FieldValue {
    /// The default value of the field's type.
    Default,
    /// Some value that was set, described by its text.
    Given(String),
}

/// The mathematical value of a [`FieldValue`].
pub enum FieldValueView {
    Default,
    Given(Seq<char>),
}

impl DeepView for FieldValue {
    type V = FieldValueView;

    open spec fn deep_view(&self) -> FieldValueView {
        match self {
            FieldValue::Default => FieldValueView::Default,
            FieldValue::Given(text) => FieldValueView::Given(text@),
        }
    }
}

/// A value of an enumeration: one of its variants, with a value in each of
/// the variant's fields.
#[derive(Clone, Debug, PartialEq, Eq)]
pub struct Instance {
    /// The position of the variant in declaration order.
    pub variant: usize,
    /// The values of the variant's fields, in declaration order.
    pub fields: Vec<FieldValue>,
}

/// The mathematical value of an [`Instance`].
pub struct InstanceView {
    pub variant: nat,
    pub fields: Seq<FieldValueView>,
}

impl DeepView for Instance {
    type V = InstanceView;

    open spec fn deep_view(&self) -> InstanceView {
        InstanceView { variant: self.variant as nat, fields: self.fields.deep_view() }
    }
}

/// The instance of variant number `variant` in which every field has its
/// default value.
pub open spec fn default_instance(variant: nat, shape: FieldsView) -> InstanceView {
    InstanceView { variant, fields: Seq::new(shape.arity(), |k: int| FieldValueView::Default) }
}

/// The input names of the first `count` plans, one plan after the other.
pub open spec fn names_through(plans: Seq<ResolvedPlanView>, count: nat) -> Seq<Seq<char>>
    decreases count,
{
    if count == 0 {
        Seq::empty()
    } else {
        names_through(plans, (count - 1) as nat) + plans[count - 1].input_names
    }
}

/// Every name that parses into some variant, in declaration order. A name that
/// several variants take occurs once for each.
pub open spec fn accepted_names(plans: Seq<ResolvedPlanView>) -> Seq<Seq<char>> {
    names_through(plans, plans.len())
}

/// The position of the first plan at or after `start` that accepts `input`.
pub open spec fn first_accepting(plans: Seq<ResolvedPlanView>, input: Seq<char>, start: int)
    -> Option<int>
    decreases plans.len() - start,
{
    if start < 0 || start >= plans.len() {
        None
    } else if plans[start].accepts(input) {
        Some(start)
    } else {
        first_accepting(plans, input, start + 1)
    }
}

/// What a derivation generates for one enumeration: an implementation of the
/// two conversions, held as the data that its match arms are written from.
///
/// For the variant at each position there is one arm of the parsing function,
/// which matches any of the variant's input names and builds its default
/// instance, and one arm of the writing function, which matches the variant and
/// gives its output name. The parsing function ends in an arm that fails with
/// the list of all accepted names.
#[derive(Debug, PartialEq, Eq)]
pub struct GeneratedCode {
    ident: String,
    variants: Vec<ResolvedPlan>,
    possible_matches: Vec<String>,
}

/// The mathematical value of a [`GeneratedCode`].
pub struct GeneratedCodeView {
    /// The identifier of the enumeration.
    pub ident: Seq<char>,
    /// The plan behind the arms of each variant, in declaration order.
    pub variants: Seq<ResolvedPlanView>,
    /// The names that a failed parse reports.
    pub possible_matches: Seq<Seq<char>>,
}

impl GeneratedCodeView {
    /// Every plan is well-formed, and the reported names are the accepted ones.
    pub open spec fn wf(self) -> bool {
        &&& forall|i: int| 0 <= i < self.variants.len() ==> (#[trigger] self.variants[i]).wf()
        &&& self.possible_matches == accepted_names(self.variants)
    }

    /// What the parsing function returns for `input`: the default instance of
    /// the first variant that accepts it; where none does, the list of all
    /// accepted names.
    pub open spec fn parsed(self, input: Seq<char>) -> Result<InstanceView, Seq<Seq<char>>> {
        match first_accepting(self.variants, input, 0) {
            Some(variant) => Ok(default_instance(variant as nat, self.variants[variant].shape)),
            None => Err(self.possible_matches),
        }
    }

    /// Whether `instance` is of one of the variants.
    pub open spec fn has_variant_of(self, instance: InstanceView) -> bool {
        instance.variant < self.variants.len()
    }

    /// What the writing function returns for `instance`: the output name of
    /// its variant, whatever its fields hold.
    pub open spec fn stringified(self, instance: InstanceView) -> Seq<char> {
        self.variants[instance.variant as int].output_name
    }
}

impl DeepView for GeneratedCode {
    type V = GeneratedCodeView;

    closed spec fn deep_view(&self) -> GeneratedCodeView {
        GeneratedCodeView {
            ident: self.ident@,
            variants: self.variants.deep_view(),
            possible_matches: self.possible_matches.deep_view(),
        }
    }
}

/// What [`emit`] produces from the identifier of an enumeration and its plan.
pub open spec fn emitted(ident: Seq<char>, plans: Seq<ResolvedPlanView>) -> GeneratedCodeView {
    GeneratedCodeView { ident, variants: plans, possible_matches: accepted_names(plans) }
}

/// Whether `input` is one of `names`.
pub fn contains_name(names: &Vec<String>, input: &str) -> (found: bool)
    ensures
        found == names.deep_view().contains(input@),
{
    let mut index: usize = 0;
    while index < names.len()
        invariant
            index <= names.len(),
            forall|k: int| 0 <= k < index ==> names.deep_view()[k] != input@,
        decreases names.len() - index,
    {
        if str_eq(names[index].as_str(), input) {
            assert(names.deep_view()[index as int] == input@);
            return true;
        }
        index += 1;
    }
    false
}

impl Instance {
    /// The instance of the variant at position `variant`, with fields of the
    /// given shape, in which every field has its default value.
    pub fn default_of(variant: usize, shape: &Fields) -> (instance: Self)
        ensures
            instance.deep_view() == default_instance(variant as nat, shape.deep_view()),
    {
        let arity = match shape {
            Fields::Named(names) => names.len(),
            Fields::Unnamed(count) => *count,
            Fields::Unit => 0,
        };
        let mut fields: Vec<FieldValue> = Vec::new();
        while fields.len() < arity
            invariant
                fields.len() <= arity,
                forall|k: int|
                    0 <= k < fields.len() ==> (#[trigger] fields[k]) == FieldValue::Default,
            decreases arity - fields.len(),
        {
            fields.push(FieldValue::Default);
        }
        let instance = Instance { variant, fields };
        assert(instance.deep_view().fields =~= default_instance(
            variant as nat,
            shape.deep_view(),
        ).fields);
        instance
    }
}

/// Puts the conversions of an enumeration together from its plan.
pub fn emit(enum_ident: &str, plan: Vec<ResolvedPlan>) -> (code: GeneratedCode)
    ensures
        code.deep_view() == emitted(enum_ident@, plan.deep_view()),
        code.deep_view().wf(),
{
    let ghost plans = plan.deep_view();
    let mut possible_matches: Vec<String> = Vec::new();
    let mut index: usize = 0;
    while index < plan.len()
        invariant
            index <= plan.len(),
            plans == plan.deep_view(),
            possible_matches.deep_view() == names_through(plans, index as nat),
            forall|i: int| 0 <= i < index ==> (#[trigger] plans[i]).wf(),
        decreases plan.len() - index,
    {
        let names = plan[index].input_names();
        let ghost before = possible_matches.deep_view();
        let mut position: usize = 0;
        while position < names.len()
            invariant
                position <= names.len(),
                possible_matches.deep_view() == before + names.deep_view().take(position as int),
            decreases names.len() - position,
        {
            let ghost so_far = possible_matches.deep_view();
            possible_matches.push(names[position].clone());
            assert(possible_matches.deep_view() =~= so_far.push(
                names.deep_view()[position as int],
            ));
            assert(names.deep_view().take(position + 1) =~= names.deep_view().take(
                position as int,
            ).push(names.deep_view()[position as int]));
            position += 1;
        }
        assert(names.deep_view().take(names.len() as int) =~= names.deep_view());
        index += 1;
    }
    GeneratedCode { ident: enum_ident.to_owned(), variants: plan, possible_matches }
}

impl GeneratedCode {
    #[verifier::type_invariant]
    spec fn well_formed(self) -> bool {
        &&& forall|i: int|
            0 <= i < self.variants.len() ==> (#[trigger] self.variants.deep_view()[i]).wf()
        &&& self.possible_matches.deep_view() == accepted_names(self.variants.deep_view())
    }

    /// The identifier of the enumeration that the implementation is for.
    pub fn ident(&self) -> (ident: &String)
        ensures
            ident@ == self.deep_view().ident,
    {
        &self.ident
    }

    /// The plan behind the arms of each variant, in declaration order.
    pub fn variants(&self) -> (variants: &Vec<ResolvedPlan>)
        ensures
            variants.deep_view() == self.deep_view().variants,
            self.deep_view().wf(),
    {
        proof {
            use_type_invariant(self);
        }
        &self.variants
    }

    /// The names that a failed parse reports: every accepted name, in
    /// declaration order.
    pub fn possible_matches(&self) -> (names: &Vec<String>)
        ensures
            names.deep_view() == self.deep_view().possible_matches,
            names.deep_view() == accepted_names(self.deep_view().variants),
    {
        proof {
            use_type_invariant(self);
        }
        &self.possible_matches
    }

    /// What the generated parsing function computes: the default instance of
    /// the first variant, in declaration order, that takes `input` as one of
    /// its names. The comparison is exact. Where no variant takes it, the
    /// result is the list of all accepted names.
    pub fn from_str(&self, input: &str) -> (parsed: Result<Instance, &Vec<String>>)
        ensures
            result_view(parsed) == self.deep_view().parsed(input@),
    {
        let ghost plans = self.variants.deep_view();
        let mut index: usize = 0;
        while index < self.variants.len()
            invariant
                index <= self.variants.len(),
                plans == self.variants.deep_view(),
                first_accepting(plans, input@, 0) == first_accepting(plans, input@, index as int),
            decreases self.variants.len() - index,
        {
            let plan = &self.variants[index];
            if contains_name(plan.input_names(), input) {
                return Ok(Instance::default_of(index, plan.shape()));
            }
            index += 1;
        }
        Err(&self.possible_matches)
    }

    /// What the generated writing function computes: the output name of the
    /// variant that `instance` is of. The fields of the instance play no part.
    pub fn to_str(&self, instance: &Instance) -> (name: &str)
        requires
            self.deep_view().has_variant_of(instance.deep_view()),
        ensures
            name@ == self.deep_view().stringified(instance.deep_view()),
    {
        self.variants[instance.variant].output_name().as_str()
    }
}

} // verus!
