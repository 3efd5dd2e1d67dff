//! What holds of every derivation: laws that relate the transforms, the plan
//! and the two generated conversions to one another.

use vstd::prelude::*;

use crate::derive::derived;
use crate::emit::{
    accepted_names, default_instance, first_accepting, names_through, GeneratedCodeView,
    InstanceView,
};
use crate::input::{AttributeView, DeriveInputView, EnumView, VariantView};
use crate::plan::{planned, planned_variant, ResolvedPlanView};
use crate::resolve::{first_named, resolved_mapping, resolved_transform};
use crate::std_specs::char_lowercase;
use crate::transform::{divided, divided_prefix, is_divider, piece, Transform};

verus! {

/// `text` with every `from` replaced by `to`.
pub open spec fn substituted(text: Seq<char>, from: char, to: char) -> Seq<char> {
    text.map_values(
        |c: char|
            if c == from {
                to
            } else {
                c
            },
    )
}

/// Whether a variant has no fields, so that it has one instance only.
pub open spec fn has_no_fields(variant: VariantView) -> bool {
    variant.fields.arity() == 0
}

/// Whether a variant takes its name from the transform: none of its
/// annotations is a names annotation.
pub open spec fn has_no_explicit_names(variant: VariantView) -> bool {
    resolved_mapping(variant.attrs) matches Ok(None)
}

/// The first annotation with a given path is one with that path, and none
/// before it has it; and there is none exactly when no annotation has the path.
pub proof fn first_named_is_first(attrs: Seq<AttributeView>, name: Seq<char>, start: int)
    requires
        0 <= start,
    ensures
        match first_named(attrs, name, start) {
            Some(found) => {
                &&& start <= found < attrs.len()
                &&& attrs[found].path == name
                &&& forall|j: int| start <= j < found ==> (#[trigger] attrs[j]).path != name
            },
            None => forall|j: int| start <= j < attrs.len() ==> (#[trigger] attrs[j]).path != name,
        },
    decreases attrs.len() - start,
{
    if start < attrs.len() && attrs[start].path != name {
        first_named_is_first(attrs, name, start + 1);
    }
}

/// The first variant that accepts a name is one that accepts it, and none
/// before it does; and there is none exactly when no variant accepts the name.
pub proof fn first_accepting_is_first(plans: Seq<ResolvedPlanView>, input: Seq<char>, start: int)
    requires
        0 <= start,
    ensures
        match first_accepting(plans, input, start) {
            Some(found) => {
                &&& start <= found < plans.len()
                &&& plans[found].accepts(input)
                &&& forall|j: int| start <= j < found ==> !(#[trigger] plans[j]).accepts(input)
            },
            None => forall|j: int|
                start <= j < plans.len() ==> !(#[trigger] plans[j]).accepts(input),
        },
    decreases plans.len() - start,
{
    if start < plans.len() && !plans[start].accepts(input) {
        first_accepting_is_first(plans, input, start + 1);
    }
}

/// A name is among the names of the first `count` plans exactly when one of
/// those plans accepts it.
pub proof fn names_through_holds_what_is_accepted(
    plans: Seq<ResolvedPlanView>,
    count: nat,
    input: Seq<char>,
)
    requires
        count <= plans.len(),
    ensures
        names_through(plans, count).contains(input) <==> exists|j: int|
            0 <= j < count && (#[trigger] plans[j]).accepts(input),
    decreases count,
{
    if count > 0 {
        let before = names_through(plans, (count - 1) as nat);
        let last = plans[count - 1].input_names;
        names_through_holds_what_is_accepted(plans, (count - 1) as nat, input);
        if (before + last).contains(input) {
            let all = before + last;
            let at = choose|at: int| 0 <= at < all.len() && all[at] == input;
            if at < before.len() {
                assert(before[at] == input);
                let j = choose|j: int| 0 <= j < count - 1 && (#[trigger] plans[j]).accepts(input);
                assert(0 <= j < count && plans[j].accepts(input));
            } else {
                assert(last[at - before.len()] == input);
                assert(plans[count - 1].accepts(input));
            }
        }
        if exists|j: int| 0 <= j < count && (#[trigger] plans[j]).accepts(input) {
            let j = choose|j: int| 0 <= j < count && (#[trigger] plans[j]).accepts(input);
            if j < count - 1 {
                assert(before.contains(input));
                let at = choose|at: int| 0 <= at < before.len() && before[at] == input;
                assert((before + last)[at] == input);
            } else {
                let at = choose|at: int| 0 <= at < last.len() && last[at] == input;
                assert((before + last)[before.len() + at] == input);
            }
        }
    }
}

/// Whatever is derived is well-formed: every variant has at least one input
/// name, its output name is the last of them, and the names that a failed
/// parse reports are the accepted ones.
pub proof fn derived_is_well_formed(input: DeriveInputView)
    ensures
        derived(input) matches Ok(code) ==> code.wf(),
{
    if let Ok(code) = derived(input) {
        let definition = input->Enum_0;
        let transform = resolved_transform(definition.attrs)->Ok_0;
        let plans = code.variants;
        assert forall|i: int| 0 <= i < plans.len() implies (#[trigger] plans[i]).wf() by {
            assert(planned_variant(definition.variants[i], transform) is Ok);
        }
    }
}

/// Parsing succeeds exactly on the accepted names. Where it fails, it reports
/// all of them: the input names of every variant, in declaration order.
pub proof fn parse_fails_on_unknown_names_only(code: GeneratedCodeView, input: Seq<char>)
    requires
        code.wf(),
    ensures
        code.parsed(input) is Err <==> !code.possible_matches.contains(input),
        code.parsed(input) is Err ==> code.parsed(input)->Err_0 == accepted_names(code.variants),
{
    first_accepting_is_first(code.variants, input, 0);
    names_through_holds_what_is_accepted(code.variants, code.variants.len(), input);
}

/// Every input name of a variant parses into that variant, with each field at
/// its default, unless a variant declared before it takes the same name.
pub proof fn every_name_parses(code: GeneratedCodeView, variant: int, name: Seq<char>)
    requires
        0 <= variant < code.variants.len(),
        code.variants[variant].accepts(name),
        forall|j: int| 0 <= j < variant ==> !(#[trigger] code.variants[j]).accepts(name),
    ensures
        code.parsed(name) matches Ok(instance) && instance == default_instance(
            variant as nat,
            code.variants[variant].shape,
        ),
{
    first_accepting_is_first(code.variants, name, 0);
}

/// Writing an instance and parsing what was written gives the default instance
/// of the same variant, unless a variant declared before it takes the name.
pub proof fn parse_of_written_name(code: GeneratedCodeView, instance: InstanceView)
    requires
        code.wf(),
        code.has_variant_of(instance),
        forall|j: int|
            0 <= j < instance.variant ==> !(#[trigger] code.variants[j]).accepts(
                code.stringified(instance),
            ),
    ensures
        code.parsed(code.stringified(instance)) matches Ok(parsed) && parsed == default_instance(
            instance.variant,
            code.variants[instance.variant as int].shape,
        ),
{
    let plan = code.variants[instance.variant as int];
    assert(plan.wf());
    assert(plan.input_names[plan.input_names.len() - 1] == plan.output_name);
    every_name_parses(code, instance.variant as int, code.stringified(instance));
}

/// The round trip: an instance of a variant without fields, written and parsed
/// again, is the same instance, unless a variant declared before it takes the
/// name that it is written as.
pub proof fn round_trip(code: GeneratedCodeView, instance: InstanceView)
    requires
        code.wf(),
        code.has_variant_of(instance),
        code.variants[instance.variant as int].shape.arity() == 0,
        instance.fields.len() == 0,
        forall|j: int|
            0 <= j < instance.variant ==> !(#[trigger] code.variants[j]).accepts(
                code.stringified(instance),
            ),
    ensures
        code.parsed(code.stringified(instance)) matches Ok(parsed) && parsed == instance,
{
    parse_of_written_name(code, instance);
    let shape = code.variants[instance.variant as int].shape;
    assert(default_instance(instance.variant, shape).fields =~= instance.fields);
}

/// The round trip for what is derived from an enumeration whose variants have
/// no fields: every instance, written and parsed again, is the same instance,
/// unless a variant declared before its own takes the name that it is written
/// as.
pub proof fn round_trip_of_derived(
    definition: EnumView,
    code: GeneratedCodeView,
    instance: InstanceView,
)
    requires
        derived(DeriveInputView::Enum(definition)) matches Ok(generated) && generated == code,
        forall|i: int|
            0 <= i < definition.variants.len() ==> has_no_fields(#[trigger] definition.variants[i]),
        instance.variant < definition.variants.len(),
        instance.fields.len() == 0,
        forall|j: int|
            0 <= j < instance.variant ==> !(#[trigger] code.variants[j]).accepts(
                code.stringified(instance),
            ),
    ensures
        code.parsed(code.stringified(instance)) matches Ok(parsed) && parsed == instance,
{
    derived_is_well_formed(DeriveInputView::Enum(definition));
    let transform = resolved_transform(definition.attrs)->Ok_0;
    let variant = definition.variants[instance.variant as int];
    assert(planned_variant(variant, transform) is Ok);
    round_trip(code, instance);
}

/// Where no variant of an enumeration has explicit names, the accepted names
/// are the transformed identifiers of its variants, one each, in declaration
/// order.
pub proof fn names_follow_declaration_order(definition: EnumView, code: GeneratedCodeView)
    requires
        derived(DeriveInputView::Enum(definition)) matches Ok(generated) && generated == code,
        forall|i: int|
            0 <= i < definition.variants.len() ==> has_no_explicit_names(
                #[trigger] definition.variants[i],
            ),
    ensures
        code.possible_matches == Seq::new(
            definition.variants.len(),
            |i: int|
                resolved_transform(definition.attrs)->Ok_0.applied(definition.variants[i].ident),
        ),
{
    let transform = resolved_transform(definition.attrs)->Ok_0;
    let expected = Seq::new(
        definition.variants.len(),
        |i: int| transform.applied(definition.variants[i].ident),
    );
    single_names_through(definition, transform, code.variants, code.variants.len());
    assert(expected.take(expected.len() as int) =~= expected);
}

proof fn single_names_through(
    definition: EnumView,
    transform: Transform,
    plans: Seq<ResolvedPlanView>,
    count: nat,
)
    requires
        planned(definition.variants, transform) matches Ok(planned) && planned == plans,
        count <= plans.len(),
        forall|i: int|
            0 <= i < definition.variants.len() ==> has_no_explicit_names(
                #[trigger] definition.variants[i],
            ),
    ensures
        names_through(plans, count) == Seq::new(
            definition.variants.len(),
            |i: int| transform.applied(definition.variants[i].ident),
        ).take(count as int),
    decreases count,
{
    let expected = Seq::new(
        definition.variants.len(),
        |i: int| transform.applied(definition.variants[i].ident),
    );
    if count > 0 {
        single_names_through(definition, transform, plans, (count - 1) as nat);
        let variant = definition.variants[count - 1];
        assert(plans[count - 1] == planned_variant(variant, transform)->Ok_0);
        assert(plans[count - 1].input_names =~= seq![transform.applied(variant.ident)]);
        assert(expected.take(count as int) =~= expected.take(count - 1) + seq![
            transform.applied(variant.ident),
        ]);
    } else {
        assert(names_through(plans, count) =~= expected.take(0));
    }
}

/// Two dividers segment an identifier alike: the two results have the same
/// length, and wherever they differ, each has its own divider.
pub proof fn same_segmentation(s: Seq<char>, first: char, second: char)
    ensures
        divided(s, first).len() == divided(s, second).len(),
        forall|i: int|
            0 <= i < divided(s, first).len() ==> {
                ||| divided(s, first)[i] == divided(s, second)[i]
                ||| divided(s, first)[i] == first && divided(s, second)[i] == second
            },
{
    same_segmentation_through(s, s.len(), first, second);
}

proof fn same_segmentation_through(s: Seq<char>, count: nat, first: char, second: char)
    requires
        count <= s.len(),
    ensures
        divided_prefix(s, count, first).len() == divided_prefix(s, count, second).len(),
        forall|i: int|
            0 <= i < divided_prefix(s, count, first).len() ==> {
                ||| divided_prefix(s, count, first)[i] == divided_prefix(s, count, second)[i]
                ||| divided_prefix(s, count, first)[i] == first && divided_prefix(
                    s,
                    count,
                    second,
                )[i] == second
            },
    decreases count,
{
    if count > 0 {
        same_segmentation_through(s, (count - 1) as nat, first, second);
    }
}

/// Kebab case is snake case with `-` in place of `_`.
///
/// This is stated for identifiers in which no character other than the two
/// dividers has an underscore in its lowercase mapping: nothing here says what
/// the lowercase mapping of a character holds.
pub proof fn kebab_case_is_snake_case_with_hyphens(s: Seq<char>)
    requires
        forall|i: int|
            0 <= i < s.len() && !is_divider(s[i]) ==> !char_lowercase(#[trigger] s[i]).contains(
                '_',
            ),
    ensures
        Transform::KebabCase.applied(s) == substituted(Transform::SnakeCase.applied(s), '_', '-'),
{
    kebab_through(s, s.len());
}

proof fn kebab_through(s: Seq<char>, count: nat)
    requires
        count <= s.len(),
        forall|i: int|
            0 <= i < s.len() && !is_divider(s[i]) ==> !char_lowercase(#[trigger] s[i]).contains(
                '_',
            ),
    ensures
        divided_prefix(s, count, '-') == substituted(divided_prefix(s, count, '_'), '_', '-'),
    decreases count,
{
    if count > 0 {
        kebab_through(s, (count - 1) as nat);
        let before = divided_prefix(s, (count - 1) as nat, '_');
        let snake = piece(s, count - 1, '_');
        let kebab = piece(s, count - 1, '-');
        let c = s[count - 1];
        if !is_divider(c) {
            let lower = char_lowercase(c);
            assert forall|k: int| 0 <= k < lower.len() implies lower[k] != '_' by {
                if lower[k] == '_' {
                    assert(lower.contains('_'));
                }
            }
        }
        assert(kebab =~= substituted(snake, '_', '-'));
        assert(substituted(before + snake, '_', '-') =~= substituted(before, '_', '-')
            + substituted(snake, '_', '-'));
    } else {
        assert(divided_prefix(s, count, '-') =~= substituted(
            divided_prefix(s, count, '_'),
            '_',
            '-',
        ));
    }
}

} // verus!
