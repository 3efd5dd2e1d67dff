//! The plan of a derivation: for each variant, the names that parse into it,
//! the one name that it is written as, and the shape of its default instance.

use vstd::prelude::*;

use crate::input::{EnumDefinition, Fields, FieldsView, VariantDefinition, VariantView};
use crate::resolve::{
    resolve_variant_mapping, resolved_mapping, ResolutionError, ResolutionErrorView,
};
use crate::strings::copy_strings;
use crate::transform::Transform;
use crate::view::result_view;

verus! {

/// What was resolved for one variant.
///
/// A plan always has at least one input name, and its output name is the last
/// of them.
#[derive(Debug, PartialEq, Eq)]
pub struct ResolvedPlan {
    variant: String,
    input_names: Vec<String>,
    output_name: String,
    shape: Fields,
}

/// The mathematical value of a [`ResolvedPlan`].
pub struct ResolvedPlanView {
    /// The identifier of the variant.
    pub variant: Seq<char>,
    /// The names that parse into the variant, in the order they were given.
    pub input_names: Seq<Seq<char>>,
    /// The name that the variant is written as.
    pub output_name: Seq<char>,
    /// The fields that a default instance of the variant fills.
    pub shape: FieldsView,
}

impl ResolvedPlanView {
    /// There is at least one input name, and the output name is the last one.
    pub open spec fn wf(self) -> bool {
        &&& self.input_names.len() > 0
        &&& self.output_name == self.input_names.last()
    }

    /// Whether `input` is one of the names that parse into the variant.
    pub open spec fn accepts(self, input: Seq<char>) -> bool {
        self.input_names.contains(input)
    }
}

impl DeepView for ResolvedPlan {
    type V = ResolvedPlanView;

    closed spec fn deep_view(&self) -> ResolvedPlanView {
        ResolvedPlanView {
            variant: self.variant@,
            input_names: self.input_names.deep_view(),
            output_name: self.output_name@,
            shape: self.shape.deep_view(),
        }
    }
}

impl Clone for ResolvedPlan {
    fn clone(&self) -> (copy: Self)
        ensures
            copy.deep_view() == self.deep_view(),
    {
        proof {
            use_type_invariant(self);
        }
        let input_names = copy_strings(&self.input_names);
        proof {
            let copied = input_names.deep_view();
            let source = self.input_names.deep_view();
            assert(copied.len() == source.len());
            assert(copied.last() == source.last());
        }
        ResolvedPlan {
            variant: self.variant.clone(),
            input_names,
            output_name: self.output_name.clone(),
            shape: self.shape.clone(),
        }
    }
}

impl ResolvedPlan {
    #[verifier::type_invariant]
    spec fn well_formed(self) -> bool {
        &&& self.input_names@.len() > 0
        &&& self.output_name@ == self.input_names@.last()@
    }

    /// The plan of a variant that takes the given names. The last name is the
    /// one it is written as. There is no plan without a name.
    pub fn new(variant: String, input_names: Vec<String>, shape: Fields) -> (plan: Option<Self>)
        ensures
            match plan {
                Some(plan) => {
                    &&& input_names.len() > 0
                    &&& plan.deep_view() == (ResolvedPlanView {
                        variant: variant@,
                        input_names: input_names.deep_view(),
                        output_name: input_names.deep_view().last(),
                        shape: shape.deep_view(),
                    })
                },
                None => input_names.len() == 0,
            },
    {
        if input_names.len() == 0 {
            None
        } else {
            Some(Self::with_names(variant, input_names, shape))
        }
    }

    fn with_names(variant: String, input_names: Vec<String>, shape: Fields) -> (plan: Self)
        requires
            input_names.len() > 0,
        ensures
            plan.deep_view() == (ResolvedPlanView {
                variant: variant@,
                input_names: input_names.deep_view(),
                output_name: input_names.deep_view().last(),
                shape: shape.deep_view(),
            }),
            plan.deep_view().wf(),
    {
        let output_name = input_names[input_names.len() - 1].clone();
        ResolvedPlan { variant, input_names, output_name, shape }
    }

    /// The identifier of the variant.
    pub fn variant(&self) -> (variant: &String)
        ensures
            variant@ == self.deep_view().variant,
    {
        &self.variant
    }

    /// The names that parse into the variant: never empty.
    pub fn input_names(&self) -> (names: &Vec<String>)
        ensures
            names.deep_view() == self.deep_view().input_names,
            names.len() > 0,
            self.deep_view().wf(),
    {
        proof {
            use_type_invariant(self);
        }
        &self.input_names
    }

    /// The name that the variant is written as: the last of its input names.
    pub fn output_name(&self) -> (name: &String)
        ensures
            name@ == self.deep_view().output_name,
            self.deep_view().wf(),
    {
        proof {
            use_type_invariant(self);
        }
        &self.output_name
    }

    /// The fields that a default instance of the variant fills.
    pub fn shape(&self) -> (shape: &Fields)
        ensures
            shape.deep_view() == self.deep_view().shape,
    {
        &self.shape
    }
}

/// The plan of one variant: its explicit names where it has any, with the last
/// of them as the output name; otherwise the transformed identifier as its
/// only name.
pub open spec fn planned_variant(variant: VariantView, transform: Transform) -> Result<
    ResolvedPlanView,
    ResolutionErrorView,
> {
    match resolved_mapping(variant.attrs) {
        Err(error) => Err(error),
        Ok(Some(names)) => Ok(
            ResolvedPlanView {
                variant: variant.ident,
                input_names: names,
                output_name: names.last(),
                shape: variant.fields,
            },
        ),
        Ok(None) => Ok(
            ResolvedPlanView {
                variant: variant.ident,
                input_names: seq![transform.applied(variant.ident)],
                output_name: transform.applied(variant.ident),
                shape: variant.fields,
            },
        ),
    }
}

/// The plans of all variants, in declaration order. One malformed names
/// annotation anywhere fails the whole.
pub open spec fn planned(variants: Seq<VariantView>, transform: Transform) -> Result<
    Seq<ResolvedPlanView>,
    ResolutionErrorView,
> {
    if forall|i: int|
        0 <= i < variants.len() ==> (#[trigger] planned_variant(variants[i], transform)) is Ok {
        Ok(Seq::new(variants.len(), |i: int| planned_variant(variants[i], transform)->Ok_0))
    } else {
        Err(ResolutionErrorView::MalformedMappingAttribute)
    }
}

/// Plans one variant.
pub fn plan_variant(variant: &VariantDefinition, transform: Transform) -> (resolved: Result<
    ResolvedPlan,
    ResolutionError,
>)
    ensures
        result_view(resolved) == planned_variant(variant.deep_view(), transform),
        resolved matches Ok(plan) ==> plan.deep_view().wf(),
        resolved matches Err(error) ==> error == ResolutionError::MalformedMappingAttribute,
{
    let input_names = match resolve_variant_mapping(&variant.attrs) {
        Err(error) => { return Err(error); },
        Ok(Some(names)) => names,
        Ok(None) => {
            let mut names: Vec<String> = Vec::new();
            names.push(transform.apply_transform(variant.ident.as_str()));
            assert(names.deep_view() =~= seq![transform.applied(variant.ident@)]);
            names
        },
    };
    Ok(ResolvedPlan::with_names(variant.ident.clone(), input_names, variant.fields.clone()))
}

/// Plans every variant of an enumeration, in declaration order.
pub fn plan(definition: &EnumDefinition, transform: Transform) -> (resolved: Result<
    Vec<ResolvedPlan>,
    ResolutionError,
>)
    ensures
        result_view(resolved) == planned(definition.deep_view().variants, transform),
        resolved matches Ok(plans) ==> plans.len() == definition.variants.len(),
        resolved matches Err(error) ==> error == ResolutionError::MalformedMappingAttribute,
{
    let ghost variants = definition.deep_view().variants;
    let mut plans: Vec<ResolvedPlan> = Vec::new();
    let mut index: usize = 0;
    while index < definition.variants.len()
        invariant
            index <= definition.variants.len(),
            variants == definition.variants.deep_view(),
            plans.len() == index,
            forall|i: int|
                0 <= i < index ==> planned_variant(variants[i], transform) == Ok::<
                    ResolvedPlanView,
                    ResolutionErrorView,
                >((#[trigger] plans[i]).deep_view()),
        decreases definition.variants.len() - index,
    {
        match plan_variant(&definition.variants[index], transform) {
            Ok(plan) => {
                plans.push(plan);
            },
            Err(error) => {
                assert(!(planned_variant(variants[index as int], transform) is Ok));
                return Err(error);
            },
        }
        index += 1;
    }
    assert forall|i: int| 0 <= i < variants.len() implies (#[trigger] planned_variant(
        variants[i],
        transform,
    )) is Ok by {
        let plan = plans[i];
    }
    assert(plans.deep_view() =~= Seq::new(
        variants.len(),
        |i: int| planned_variant(variants[i], transform)->Ok_0,
    ));
    Ok(plans)
}

} // verus!
