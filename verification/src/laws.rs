//! Laws of the builder: what holds of every plan and of every state.

use vstd::prelude::*;
use crate::analyzer::{classified, head_of, Classified};
use crate::annotate::{annotated, may_annotate, may_parse, Parsed};
use crate::directive::{opens_no_group, requested};
use crate::generate::may_derive;
use crate::generate::derived;

use crate::plan::{
    bulk_method, bulk_methods, element_method, element_methods, planned, BuilderModel,
    FieldPlanModel, MethodKind, MethodModel, Obligation, Shape,
};
use crate::runtime::{push_outcome, set_outcome, BuilderState, ValueModel};
use crate::schema::{outer, ConfigErrorKind, FieldDecl, FieldModel, TypeDesc, Wrapper};
use crate::search::{first_from, lemma_first_from, lemma_first_from_is};

verus! {

/// A chain that the analysis finds is one of four: empty, `[Optional]`,
/// `[Repeated]` or `[Optional, Repeated]`. No wrapper is taken off twice.
pub proof fn law_chain_shapes(ty: TypeDesc)
    requires
        classified(ty) is Ok,
    ensures
        ({
            let chain = classified(ty)->Ok_0.chain;
            ||| chain == Seq::<Wrapper>::empty()
            ||| chain == seq![Wrapper::Optional]
            ||| chain == seq![Wrapper::Repeated]
            ||| chain == seq![Wrapper::Optional, Wrapper::Repeated]
        }),
{
    let chain = classified(ty)->Ok_0.chain;
    if chain.len() == 0 {
        assert(chain =~= Seq::<Wrapper>::empty());
    } else if chain.len() == 1 {
        if chain[0] == Wrapper::Optional {
            assert(chain =~= seq![Wrapper::Optional]);
        } else {
            assert(chain =~= seq![Wrapper::Repeated]);
        }
    } else {
        assert(chain =~= seq![Wrapper::Optional, Wrapper::Repeated]);
    }
}

/// Whether an annotated field is consistent: its chain, its value type and
/// its element type are those of its declared type, and a directive sits
/// under an outermost `Repeated`.
pub open spec fn consistent(field: FieldModel) -> bool {
    &&& classified(field.declared_type) == Ok::<Classified, ConfigErrorKind>(
        Classified { chain: field.chain, value: field.value_type, element: field.element_type },
    )
    &&& match field.directive {
        Some(_) => outer(field.chain) == Wrapper::Repeated,
        None => true,
    }
}

/// Annotation yields consistent fields only, under the declared name,
/// whatever the parse of the attribute came to.
pub proof fn law_annotation_is_consistent(decl: FieldDecl, directive: Parsed)
    requires
        annotated(decl, directive) is Ok,
    ensures
        consistent(annotated(decl, directive)->Ok_0),
        annotated(decl, directive)->Ok_0.name == decl.name@,
        annotated(decl, directive)->Ok_0.declared_type == decl.declared_type,
{
}

/// The obligation of a field follows from its declared type alone: a type
/// known as `Option` makes the field optional, one known as `Vec` gives it
/// the empty sequence as default, any other makes it required. The plan has
/// the declared name of the field.
pub proof fn law_obligation_follows_type(decl: FieldDecl, directive: Parsed)
    requires
        derived(decl, directive) is Ok,
    ensures
        derived(decl, directive)->Ok_0.name == decl.name@,
        derived(decl, directive)->Ok_0.obligation == if head_of(decl.declared_type) == Some("Option"@) {
            Obligation::Optional
        } else if head_of(decl.declared_type) == Some("Vec"@) {
            Obligation::DefaultsEmpty
        } else {
            Obligation::Required
        },
{
    reveal_strlit("Option");
    reveal_strlit("Vec");
    assert("Option"@ != "Vec"@) by {
        assert("Option"@.len() == 6);
        assert("Vec"@.len() == 3);
    }
}

/// What the parse of a field's leading attribute may have come to, one
/// outcome after the other. A field without attribute has no parse. An
/// attribute that is refused for its name or its shape gives that error.
/// A requested name is refused as malformed, or accepted as it stands if
/// no group opens in it: which of the two, the identifier parser decides.
pub proof fn law_parse_outcomes(decl: FieldDecl, directive: Parsed)
    requires
        may_parse(decl, directive),
    ensures
        match decl.leading_attribute() {
            None => directive is None,
            Some(attr) => match requested(attr) {
                Err(e) => directive == Some(Err::<Seq<char>, ConfigErrorKind>(e)),
                Ok(name) => {
                    ||| directive == Some(
                        Err::<Seq<char>, ConfigErrorKind>(ConfigErrorKind::MalformedDirective),
                    )
                    ||| (opens_no_group(name) && directive == Some(
                        Ok::<Seq<char>, ConfigErrorKind>(name),
                    ))
                },
            },
        },
{
}

/// What the annotation of a field may yield, one outcome after the other:
/// [`annotated`] of each parse that [`law_parse_outcomes`] lists. The
/// annotation of a field without attribute is decided by its type alone.
pub proof fn law_annotation_outcomes(
    decl: FieldDecl,
    field: Result<FieldModel, ConfigErrorKind>,
)
    requires
        may_annotate(decl, field),
    ensures
        match decl.leading_attribute() {
            None => field == annotated(decl, None),
            Some(attr) => match requested(attr) {
                Err(e) => field == annotated(decl, Some(Err(e))),
                Ok(name) => {
                    ||| field == annotated(
                        decl,
                        Some(Err(ConfigErrorKind::MalformedDirective)),
                    )
                    ||| (opens_no_group(name) && field == annotated(decl, Some(Ok(name))))
                },
            },
        },
{
    let directive = choose|directive: Parsed| #[trigger]
        may_parse(decl, directive) && field == annotated(decl, directive);
    law_parse_outcomes(decl, directive);
}

/// What the generation may give a field, one outcome after the other:
/// [`derived`] of each parse that [`law_parse_outcomes`] lists. The plan of
/// a field without attribute is decided by its type alone.
pub proof fn law_generation_outcomes(
    decl: FieldDecl,
    plan: Result<FieldPlanModel, ConfigErrorKind>,
)
    requires
        may_derive(decl, plan),
    ensures
        match decl.leading_attribute() {
            None => plan == derived(decl, None),
            Some(attr) => match requested(attr) {
                Err(e) => plan == derived(decl, Some(Err(e))),
                Ok(name) => {
                    ||| plan == derived(decl, Some(Err(ConfigErrorKind::MalformedDirective)))
                    ||| (opens_no_group(name) && plan == derived(decl, Some(Ok(name))))
                },
            },
        },
{
    let directive = choose|directive: Parsed| #[trigger]
        may_parse(decl, directive) && plan == derived(decl, directive);
    law_parse_outcomes(decl, directive);
}

/// A consistent field has a plan.
pub proof fn law_consistent_field_has_plan(field: FieldModel)
    requires
        consistent(field),
    ensures
        planned(field) is Ok,
{
}

/// Whether every required field of a state has been set.
pub open spec fn complete<V>(state: BuilderState<V>) -> bool {
    forall|i: int|
        0 <= i < state.slots.len() && state.plan.fields[i].obligation == Obligation::Required
            ==> (#[trigger] state.slots[i]) is Some
}

/// Whether no required field of a state has been set.
pub open spec fn none_required_set<V>(state: BuilderState<V>) -> bool {
    forall|i: int|
        0 <= i < state.slots.len() && state.plan.fields[i].obligation == Obligation::Required
            ==> (#[trigger] state.slots[i]) is None
}

/// Whether `first` is the first required field of a plan.
pub open spec fn first_required(plan: BuilderModel, first: int) -> bool {
    &&& 0 <= first < plan.fields.len()
    &&& plan.fields[first].obligation == Obligation::Required
    &&& forall|j: int|
        0 <= j < first ==> (#[trigger] plan.fields[j]).obligation != Obligation::Required
}

/// Whether every slot of a state is empty.
pub open spec fn drained<V>(state: BuilderState<V>) -> bool {
    forall|i: int| 0 <= i < state.slots.len() ==> (#[trigger] state.slots[i]) is None
}

/// Where a record has a required field and none of its required fields is
/// set, construction fails at the first required field in declaration
/// order. The slots before it are drained, the others are left as they were.
pub proof fn law_first_required_is_reported<V>(state: BuilderState<V>, first: int)
    requires
        state.wf(),
        first_required(state.plan, first),
        none_required_set(state),
    ensures
        state.built() == Err::<Seq<Option<ValueModel<V>>>, int>(first),
        forall|i: int| 0 <= i < first ==> (#[trigger] state.after_build().slots[i]) is None,
        forall|i: int|
            first <= i < state.slots.len() ==> (#[trigger] state.after_build().slots[i])
                == state.slots[i],
{
    assert(state.missing()(first));
    assert forall|j: int| 0 <= j < first implies !(#[trigger] state.missing()(j)) by {
        assert(state.plan.fields[j].obligation != Obligation::Required);
    }
    lemma_first_from_is(state.slots.len() as int, state.missing(), 0, first);
}

/// A new builder of a record with a required field fails at the first of
/// them.
pub proof fn law_new_builder_misses_first_required<V>(plan: BuilderModel, first: int)
    requires
        first_required(plan, first),
    ensures
        BuilderState::<V>::fresh(plan).built() == Err::<Seq<Option<ValueModel<V>>>, int>(first),
{
    law_first_required_is_reported(BuilderState::<V>::fresh(plan), first);
}

/// The builder of a record without fields constructs the record with no
/// setter called.
pub proof fn law_empty_record_builds<V>(plan: BuilderModel)
    requires
        plan.fields.len() == 0,
    ensures
        BuilderState::<V>::fresh(plan).wf(),
        BuilderState::<V>::fresh(plan).built() == Ok::<Seq<Option<ValueModel<V>>>, int>(
            Seq::empty(),
        ),
{
    let state = BuilderState::<V>::fresh(plan);
    assert(state.built()->Ok_0 =~= Seq::empty());
}

/// Construction fails exactly where a required field is not set, and then at
/// the first such field.
pub proof fn law_failure_is_first_missing<V>(state: BuilderState<V>)
    requires
        state.wf(),
    ensures
        state.built() is Ok <==> complete(state),
        state.built() matches Err(k) ==> {
            &&& 0 <= k < state.slots.len()
            &&& state.plan.fields[k].obligation == Obligation::Required
            &&& state.slots[k] is None
            &&& forall|j: int|
                0 <= j < k && state.plan.fields[j].obligation == Obligation::Required ==> (
                #[trigger] state.slots[j]) is Some
        },
{
    let n = state.slots.len() as int;
    lemma_first_from(n, state.missing(), 0);
    match state.first_missing() {
        Some(k) => {
            assert(state.missing()(k));
            assert(state.slots[k] is None);
            assert forall|j: int|
                0 <= j < k && state.plan.fields[j].obligation
                    == Obligation::Required implies (#[trigger] state.slots[j]) is Some by {
                assert(!state.missing()(j));
            }
        },
        None => {
            assert forall|i: int|
                0 <= i < state.slots.len() && state.plan.fields[i].obligation
                    == Obligation::Required implies (#[trigger] state.slots[i]) is Some by {
                assert(!state.missing()(i));
            }
        },
    }
}

/// Where every required field is set, construction succeeds and drains
/// every slot. Each field that was set gets exactly the value of its slot;
/// a field that was not set gets no value if it is optional and the empty
/// sequence if it is repeated.
pub proof fn law_complete_builder_builds<V>(state: BuilderState<V>)
    requires
        state.wf(),
        complete(state),
    ensures
        state.built() is Ok,
        state.built()->Ok_0.len() == state.slots.len(),
        forall|i: int|
            0 <= i < state.slots.len() && state.slots[i] is Some ==> (
            #[trigger] state.built()->Ok_0[i]) == state.slots[i],
        forall|i: int|
            0 <= i < state.slots.len() && state.slots[i] is None ==> (
            #[trigger] state.built()->Ok_0[i]) == if state.plan.fields[i].obligation
                == Obligation::Optional {
                None::<ValueModel<V>>
            } else {
                Some(ValueModel::Many(Seq::<V>::empty()))
            },
        drained(state.after_build()),
        state.after_build().wf(),
{
    law_failure_is_first_missing(state);
}

/// An optional field never makes construction fail, and where construction
/// succeeds it gets what its slot holds: no value if it was not set, the
/// value if it was.
pub proof fn law_optional_field<V>(state: BuilderState<V>, field: int)
    requires
        state.wf(),
        0 <= field < state.slots.len(),
        state.plan.fields[field].obligation == Obligation::Optional,
    ensures
        state.built() != Err::<Seq<Option<ValueModel<V>>>, int>(field),
        state.built() matches Ok(values) ==> values[field] == state.slots[field],
        complete(state) ==> state.built() is Ok,
{
    law_failure_is_first_missing(state);
}

/// A repeated field that was never set resolves to the empty sequence and
/// never makes construction fail.
pub proof fn law_repeated_defaults_to_empty<V>(state: BuilderState<V>, field: int)
    requires
        state.wf(),
        0 <= field < state.slots.len(),
        state.plan.fields[field].obligation == Obligation::DefaultsEmpty,
        state.slots[field] is None,
    ensures
        state.built() != Err::<Seq<Option<ValueModel<V>>>, int>(field),
        state.built() matches Ok(values) ==> values[field] == Some(
            ValueModel::Many(Seq::<V>::empty()),
        ),
{
    law_failure_is_first_missing(state);
}

/// The whole-value setter, where it is not refused, keeps the state well
/// formed, puts its value into the slot of its field, whatever the slot
/// held, and leaves the other slots alone.
pub proof fn law_set_replaces<V>(state: BuilderState<V>, field: int, value: ValueModel<V>)
    requires
        state.wf(),
        set_outcome(state, field, value) is Ok,
    ensures
        state.after_set(field, value).wf(),
        state.after_set(field, value).slots[field] == Some(value),
        forall|i: int|
            0 <= i < state.slots.len() && i != field ==> (#[trigger] state.after_set(
                field,
                value,
            ).slots[i]) == state.slots[i],
{
}

/// Setters of different fields commute: the state, and so the record that
/// is constructed from it, does not depend on the order of the calls.
pub proof fn law_setters_commute<V>(
    state: BuilderState<V>,
    first: int,
    a: ValueModel<V>,
    second: int,
    b: ValueModel<V>,
)
    requires
        state.wf(),
        state.has_field(first),
        state.has_field(second),
        first != second,
    ensures
        state.after_set(first, a).after_set(second, b) == state.after_set(second, b).after_set(
            first,
            a,
        ),
{
    assert(state.after_set(first, a).after_set(second, b).slots =~= state.after_set(
        second,
        b,
    ).after_set(first, a).slots);
}

/// The state after the per-element setter was called once for each of
/// `items`, in order.
pub open spec fn after_pushes<V>(state: BuilderState<V>, field: int, items: Seq<V>) -> BuilderState<
    V,
>
    decreases items.len(),
{
    if items.len() == 0 {
        state
    } else {
        after_pushes(state, field, items.drop_last()).after_push(field, items.last())
    }
}

/// Calls of the per-element setter accumulate their elements in call order,
/// after what the slot had accumulated before; the other slots are left
/// alone and the state stays well formed.
pub proof fn law_pushes_accumulate<V>(state: BuilderState<V>, field: int, items: Seq<V>)
    requires
        state.wf(),
        push_outcome(state, field) is Ok,
    ensures
        after_pushes(state, field, items).wf(),
        after_pushes(state, field, items).plan == state.plan,
        after_pushes(state, field, items).accumulated(field) == state.accumulated(field) + items,
        items.len() > 0 ==> after_pushes(state, field, items).slots[field] == Some(
            ValueModel::Many(state.accumulated(field) + items),
        ),
        forall|i: int|
            0 <= i < state.slots.len() && i != field ==> (#[trigger] after_pushes(
                state,
                field,
                items,
            ).slots[i]) == state.slots[i],
    decreases items.len(),
{
    if items.len() > 0 {
        law_pushes_accumulate(state, field, items.drop_last());
        assert(state.accumulated(field) + items =~= (state.accumulated(field)
            + items.drop_last()).push(items.last()));
    } else {
        assert(state.accumulated(field) + items =~= state.accumulated(field));
    }
}

/// Three calls of the per-element setter on an empty slot yield the three
/// elements in call order at construction; a whole-value setter called
/// after them replaces what they accumulated.
pub proof fn law_three_pushes_then_replace<V>(
    state: BuilderState<V>,
    field: int,
    a: V,
    b: V,
    c: V,
    replacement: Seq<V>,
)
    requires
        state.wf(),
        push_outcome(state, field) is Ok,
        state.slots[field] is None,
    ensures
        state.after_push(field, a).after_push(field, b).after_push(field, c).slots[field] == Some(
            ValueModel::Many(seq![a, b, c]),
        ),
        state.after_push(field, a).after_push(field, b).after_push(field, c).resolved(field)
            == Some(ValueModel::Many(seq![a, b, c])),
        state.after_push(field, a).after_push(field, b).after_push(field, c).after_set(
            field,
            ValueModel::Many(replacement),
        ).slots[field] == Some(ValueModel::Many(replacement)),
{
    let pushed = state.after_push(field, a).after_push(field, b).after_push(field, c);
    assert(pushed.accumulated(field) =~= seq![a, b, c]);
}

/// A plan is refused exactly where a directive sits on a field whose
/// outermost wrapper is not `Repeated`: the failure comes when the plan is
/// made. In a plan that is made, a per-element setter stands only on a
/// field that holds a sequence and defaults to the empty one.
pub proof fn law_directive_needs_repeated(field: FieldModel)
    ensures
        planned(field) is Err <==> (field.directive is Some && outer(field.chain)
            != Wrapper::Repeated),
        planned(field) matches Err(e) ==> e == ConfigErrorKind::MisplacedDirective,
        planned(field) matches Ok(plan) ==> (plan.element_setter is Some ==> plan.shape
            == Shape::Sequence && plan.obligation == Obligation::DefaultsEmpty),
{
}

/// Where the directive's singular name is the field's own name, the plan
/// has the per-element setter under that name and no whole-value setter.
pub proof fn law_same_name_suppresses_bulk_setter(field: FieldModel)
    requires
        field.directive == Some(field.name),
        outer(field.chain) == Wrapper::Repeated,
    ensures
        planned(field) is Ok,
        !planned(field)->Ok_0.bulk_setter,
        planned(field)->Ok_0.element_setter == Some(field.name),
{
}

/// Each whole-value setter in the list of methods belongs to a field whose
/// plan has one.
pub proof fn lemma_bulk_methods(fields: Seq<FieldPlanModel>, upto: int)
    requires
        0 <= upto <= fields.len(),
    ensures
        forall|k: int|
            0 <= k < bulk_methods(fields, upto).len() ==> {
                let method = #[trigger] bulk_methods(fields, upto)[k];
                &&& method.kind == MethodKind::Bulk
                &&& 0 <= method.field < upto
                &&& fields[method.field].bulk_setter
                &&& fields[method.field].name == method.name
            },
    decreases upto,
{
    if upto > 0 {
        lemma_bulk_methods(fields, upto - 1);
    }
}

/// The whole-value setter of a field stands in the list of whole-value
/// setters after those of the fields before it.
pub proof fn lemma_bulk_method_position(fields: Seq<FieldPlanModel>, upto: int, field: int)
    requires
        0 <= field < upto <= fields.len(),
        fields[field].bulk_setter,
    ensures
        bulk_methods(fields, field).len() < bulk_methods(fields, upto).len(),
        bulk_methods(fields, upto)[bulk_methods(fields, field).len() as int] == bulk_method(
            fields,
            field,
        ),
    decreases upto,
{
    if field < upto - 1 {
        lemma_bulk_method_position(fields, upto - 1, field);
    }
}

/// The whole-value setters of the first fields begin the list of those of
/// more fields.
pub proof fn lemma_bulk_methods_prefix(fields: Seq<FieldPlanModel>, fewer: int, upto: int)
    requires
        0 <= fewer <= upto <= fields.len(),
    ensures
        bulk_methods(fields, fewer).is_prefix_of(bulk_methods(fields, upto)),
    decreases upto,
{
    if fewer < upto {
        lemma_bulk_methods_prefix(fields, fewer, upto - 1);
    }
}

/// The per-element setters of the first fields begin the list of those of
/// more fields.
pub proof fn lemma_element_methods_prefix(fields: Seq<FieldPlanModel>, fewer: int, upto: int)
    requires
        0 <= fewer <= upto <= fields.len(),
    ensures
        element_methods(fields, fewer).is_prefix_of(element_methods(fields, upto)),
    decreases upto,
{
    if fewer < upto {
        lemma_element_methods_prefix(fields, fewer, upto - 1);
    }
}

/// Each per-element setter in the list of methods belongs to a field whose
/// plan has one, and has the name that the plan gives it.
pub proof fn lemma_element_methods(fields: Seq<FieldPlanModel>, upto: int)
    requires
        0 <= upto <= fields.len(),
    ensures
        forall|k: int|
            0 <= k < element_methods(fields, upto).len() ==> {
                let method = #[trigger] element_methods(fields, upto)[k];
                &&& method.kind == MethodKind::PerElement
                &&& 0 <= method.field < upto
                &&& fields[method.field].element_setter == Some(method.name)
            },
    decreases upto,
{
    if upto > 0 {
        lemma_element_methods(fields, upto - 1);
    }
}

/// The per-element setter of a field stands in the list of per-element
/// setters after those of the fields before it.
pub proof fn lemma_element_method_position(fields: Seq<FieldPlanModel>, upto: int, field: int)
    requires
        0 <= field < upto <= fields.len(),
        fields[field].element_setter is Some,
    ensures
        element_methods(fields, field).len() < element_methods(fields, upto).len(),
        element_methods(fields, upto)[element_methods(fields, field).len() as int]
            == element_method(fields, field),
    decreases upto,
{
    if field < upto - 1 {
        lemma_element_method_position(fields, upto - 1, field);
    }
}

/// Where the plan of a field has no whole-value setter, every method that
/// the builder has for the field is its per-element setter; and where the
/// plan has a per-element setter, the builder has that method. So of a
/// field whose directive has the field's own name only the per-element
/// setter exists.
pub proof fn law_suppressed_bulk_setter_is_not_emitted(plan: BuilderModel, field: int)
    requires
        0 <= field < plan.fields.len(),
        !plan.fields[field].bulk_setter,
    ensures
        forall|k: int|
            0 <= k < plan.emitted().len() && (#[trigger] plan.emitted()[k]).field == field ==> {
                &&& plan.emitted()[k].kind == MethodKind::PerElement
                &&& plan.fields[field].element_setter == Some(plan.emitted()[k].name)
            },
        plan.fields[field].element_setter is Some ==> plan.emitted().contains(
            element_method(plan.fields, field),
        ),
{
    let n = plan.fields.len() as int;
    lemma_bulk_methods(plan.fields, n);
    lemma_element_methods(plan.fields, n);
    let bulk = bulk_methods(plan.fields, n);
    let element = element_methods(plan.fields, n);
    assert forall|k: int|
        0 <= k < plan.emitted().len() && (#[trigger] plan.emitted()[k]).field == field implies {
        &&& plan.emitted()[k].kind == MethodKind::PerElement
        &&& plan.fields[field].element_setter == Some(plan.emitted()[k].name)
    } by {
        if k < bulk.len() {
            assert(plan.emitted()[k] == bulk[k]);
        } else {
            assert(plan.emitted()[k] == element[k - bulk.len()]);
        }
    }
    if plan.fields[field].element_setter is Some {
        lemma_element_method_position(plan.fields, n, field);
        let k = element_methods(plan.fields, field).len() as int;
        assert(plan.emitted()[bulk.len() + k] == element[k]);
    }
}

/// Whether the fields of a plan have names of their own, and no
/// per-element setter has the name of a field other than its own.
pub open spec fn distinct_names(plan: BuilderModel) -> bool {
    &&& forall|i: int, j: int|
        0 <= i < j < plan.fields.len() ==> (#[trigger] plan.fields[i]).name != (
        #[trigger] plan.fields[j]).name
    &&& forall|i: int, j: int|
        0 <= i < plan.fields.len() && 0 <= j < plan.fields.len() && i != j ==> (
        #[trigger] plan.fields[i]).element_setter != Some((#[trigger] plan.fields[j]).name)
    &&& forall|i: int, j: int|
        0 <= i < j < plan.fields.len() && plan.fields[i].element_setter is Some ==> (
        #[trigger] plan.fields[i]).element_setter != (#[trigger] plan.fields[j]).element_setter
}

/// Where the names of a plan are distinct, the name of a field stands for
/// its whole-value setter, if it has one, and the singular name of its
/// directive stands for its per-element setter.
pub proof fn law_distinct_names_resolve(plan: BuilderModel, field: int)
    requires
        distinct_names(plan),
        0 <= field < plan.fields.len(),
    ensures
        plan.fields[field].bulk_setter ==> plan.method_named(plan.fields[field].name) == Some(
            (field, MethodKind::Bulk),
        ),
        plan.fields[field].element_setter matches Some(name) ==> plan.method_named(name) == Some(
            (
                field,
                if plan.fields[field].bulk_setter && plan.fields[field].name == name {
                    MethodKind::Bulk
                } else {
                    MethodKind::PerElement
                },
            ),
        ),
{
    let n = plan.fields.len() as int;
    let own = plan.fields[field].name;
    if plan.fields[field].bulk_setter {
        assert(plan.bulk_named(own)(field));
        assert forall|j: int| 0 <= j < field implies !(#[trigger] plan.bulk_named(own)(j)) by {
            assert(plan.fields[j].name != plan.fields[field].name);
        }
        lemma_first_from_is(n, plan.bulk_named(own), 0, field);
    }
    if let Some(name) = plan.fields[field].element_setter {
        if !(plan.fields[field].bulk_setter && own == name) {
            assert(first_from(n, plan.bulk_named(name), 0) is None) by {
                lemma_first_from(n, plan.bulk_named(name), 0);
                if let Some(k) = first_from(n, plan.bulk_named(name), 0) {
                    assert(plan.bulk_named(name)(k));
                    assert(plan.fields[field].element_setter == Some(plan.fields[k].name));
                }
            }
            assert(plan.element_named(name)(field));
            assert forall|j: int| 0 <= j < field implies !(#[trigger] plan.element_named(name)(
                j,
            )) by {
                assert(plan.fields[j].element_setter != plan.fields[field].element_setter);
            }
            lemma_first_from_is(n, plan.element_named(name), 0, field);
        }
    }
}

/// Whether the method at a position of a list is the first of its name.
pub open spec fn first_of_name(methods: Seq<MethodModel>, position: int) -> bool {
    &&& 0 <= position < methods.len()
    &&& forall|j: int| 0 <= j < position ==> (#[trigger] methods[j]).name != methods[position].name
}

/// The method that a name stands for is the first method of that name in
/// the order in which the methods are emitted; a name stands for no method
/// only where no method has it.
pub proof fn law_name_means_first_emitted(plan: BuilderModel, name: Seq<char>)
    ensures
        match plan.method_named(name) {
            Some((field, kind)) => exists|k: int|
                {
                    &&& first_of_name(plan.emitted(), k)
                    &&& (#[trigger] plan.emitted()[k]).name == name
                    &&& plan.emitted()[k].field == field
                    &&& plan.emitted()[k].kind == kind
                },
            None => forall|k: int|
                0 <= k < plan.emitted().len() ==> (#[trigger] plan.emitted()[k]).name != name,
        },
{
    let n = plan.fields.len() as int;
    let bulk = bulk_methods(plan.fields, n);
    let element = element_methods(plan.fields, n);
    let emitted = plan.emitted();
    lemma_bulk_methods(plan.fields, n);
    lemma_element_methods(plan.fields, n);
    lemma_first_from(n, plan.bulk_named(name), 0);
    lemma_first_from(n, plan.element_named(name), 0);
    match first_from(n, plan.bulk_named(name), 0) {
        Some(field) => {
            assert(plan.bulk_named(name)(field));
            lemma_bulk_method_position(plan.fields, n, field);
            lemma_bulk_methods_prefix(plan.fields, field, n);
            lemma_bulk_methods(plan.fields, field);
            let k = bulk_methods(plan.fields, field).len() as int;
            assert(emitted[k] == bulk_method(plan.fields, field));
            assert forall|j: int| 0 <= j < k implies (#[trigger] emitted[j]).name != name by {
                let earlier = bulk_methods(plan.fields, field)[j];
                assert(emitted[j] == earlier);
                assert(!plan.bulk_named(name)(earlier.field));
            }
            assert(first_of_name(emitted, k));
        },
        None => {
            assert forall|j: int| 0 <= j < bulk.len() implies (#[trigger] emitted[j]).name
                != name by {
                assert(emitted[j] == bulk[j]);
                assert(!plan.bulk_named(name)(bulk[j].field));
            }
            match first_from(n, plan.element_named(name), 0) {
                Some(field) => {
                    assert(plan.element_named(name)(field));
                    lemma_element_method_position(plan.fields, n, field);
                    lemma_element_methods_prefix(plan.fields, field, n);
                    lemma_element_methods(plan.fields, field);
                    let at = element_methods(plan.fields, field).len() as int;
                    let k = bulk.len() + at;
                    assert(emitted[k] == element_method(plan.fields, field));
                    assert forall|j: int| 0 <= j < k implies (#[trigger] emitted[j]).name
                        != name by {
                        if j >= bulk.len() {
                            let earlier = element_methods(plan.fields, field)[j - bulk.len()];
                            assert(emitted[j] == element[j - bulk.len()]);
                            assert(element[j - bulk.len()] == earlier);
                            assert(!plan.element_named(name)(earlier.field));
                        }
                    }
                    assert(first_of_name(emitted, k));
                },
                None => {
                    assert forall|j: int| 0 <= j < emitted.len() implies (
                    #[trigger] emitted[j]).name != name by {
                        if j >= bulk.len() {
                            assert(emitted[j] == element[j - bulk.len()]);
                            assert(!plan.element_named(name)(element[j - bulk.len()].field));
                        }
                    }
                },
            }
        },
    }
}

/// Construction drains the builder: after a construction that succeeded, a
/// second one on the same builder, with nothing set in between, fails at the
/// first required field of the record.
pub proof fn law_second_construction_fails<V>(state: BuilderState<V>, first: int)
    requires
        state.wf(),
        state.built() is Ok,
        first_required(state.plan, first),
    ensures
        state.after_build().built() == Err::<Seq<Option<ValueModel<V>>>, int>(first),
{
    law_failure_is_first_missing(state);
    law_complete_builder_builds(state);
    law_first_required_is_reported(state.after_build(), first);
}

} // verus!
