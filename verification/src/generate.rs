//! Generation from declaration to plan: annotation, then synthesis.

use vstd::prelude::*;
use crate::annotate::{annotate, annotated, may_accept, may_annotate, may_parse, Parsed};
use crate::plan::{builder_name_of, planned, synthesize, BuilderSpec, FieldPlanModel};
use crate::schema::{ConfigError, ConfigErrorKind, FieldDecl, FieldModel, RecordDecl};

verus! {

/// The plan of a declared field, given what the parse of its leading
/// attribute came to: its annotation, then the decision table.
pub open spec fn derived(decl: FieldDecl, directive: Parsed) -> Result<
    FieldPlanModel,
    ConfigErrorKind,
> {
    match annotated(decl, directive) {
        Err(e) => Err(e),
        Ok(field) => planned(field),
    }
}

/// Whether the generation may give a field this plan or this error: it is
/// what [`derived`] gives for a parse that the field's attribute admits.
pub open spec fn may_derive(
    decl: FieldDecl,
    plan: Result<FieldPlanModel, ConfigErrorKind>,
) -> bool {
    exists|directive: Parsed| #[trigger]
        may_parse(decl, directive) && plan == derived(decl, directive)
}

/// Whether the generation may give a field a plan.
pub open spec fn may_plan(decl: FieldDecl) -> bool {
    exists|p: FieldPlanModel| #[trigger] may_derive(decl, Ok(p))
}

/// Derives the plan of the builder of a declared record. The first field,
/// in declaration order, that is rejected decides the error; no plan is
/// made of a record with such a field.
pub fn generate(decl: &RecordDecl) -> (plan: Result<BuilderSpec, ConfigError>)
    ensures
        match plan {
            Ok(s) => {
                &&& s@.record_name == decl.name@
                &&& s@.builder_name == builder_name_of(decl.name@)
                &&& s@.fields.len() == decl.fields@.len()
                &&& forall|i: int|
                    0 <= i < decl.fields@.len() ==> may_derive(
                        #[trigger] decl.fields@[i],
                        Ok(s@.fields[i]),
                    )
            },
            Err(e) => {
                &&& e.field < decl.fields@.len()
                &&& forall|j: int| 0 <= j < e.field ==> may_plan(#[trigger] decl.fields@[j])
                &&& may_derive(decl.fields@[e.field as int], Err(e.kind))
            },
        },
{
    let record = match annotate(decl) {
        Err(e) => {
            proof {
                assert forall|j: int| 0 <= j < e.field implies may_plan(
                    #[trigger] decl.fields@[j],
                ) by {
                    assert(may_accept(decl.fields@[j]));
                    let f = choose|f: FieldModel| #[trigger]
                        may_annotate(decl.fields@[j], Ok(f));
                    lemma_annotation_then_plan(decl.fields@[j], Ok(f));
                    assert(may_derive(decl.fields@[j], Ok(planned(f)->Ok_0)));
                }
                lemma_annotation_then_plan(decl.fields@[e.field as int], Err(e.kind));
            }
            return Err(e);
        },
        Ok(record) => record,
    };
    proof {
        assert forall|i: int| 0 <= i < decl.fields@.len() implies may_derive(
            #[trigger] decl.fields@[i],
            planned(record.fields@[i]@),
        ) by {
            lemma_annotation_then_plan(decl.fields@[i], Ok(record.fields@[i]@));
        }
    }
    match synthesize(&record) {
        Ok(plan) => {
            assert forall|i: int| 0 <= i < decl.fields@.len() implies may_derive(
                #[trigger] decl.fields@[i],
                Ok(plan@.fields[i]),
            ) by {
                assert(planned(record.fields@[i]@) == Ok::<FieldPlanModel, ConfigErrorKind>(
                    plan@.fields[i],
                ));
            }
            Ok(plan)
        },
        Err(e) => {
            assert forall|j: int| 0 <= j < e.field implies may_plan(
                #[trigger] decl.fields@[j],
            ) by {
                assert(planned(record.fields@[j]@) is Ok);
                assert(may_derive(decl.fields@[j], Ok(planned(record.fields@[j]@)->Ok_0)));
            }
            Err(e)
        },
    }
}

/// What the annotation of a field may yield decides what the generation
/// may give the field: the plan of the annotated field, or the error of
/// the annotation.
pub proof fn lemma_annotation_then_plan(decl: FieldDecl, field: Result<FieldModel, ConfigErrorKind>)
    requires
        may_annotate(decl, field),
    ensures
        may_derive(
            decl,
            match field {
                Ok(f) => planned(f),
                Err(e) => Err(e),
            },
        ),
        field matches Ok(f) ==> planned(f) is Ok,
{
    let directive = choose|directive: Parsed| #[trigger]
        may_parse(decl, directive) && field == annotated(decl, directive);
    assert(may_parse(decl, directive));
}

/// A field that annotation accepts has a plan: annotation admits a
/// directive only where the decision table does.
pub proof fn law_annotated_field_has_plan(decl: FieldDecl, directive: Parsed)
    requires
        annotated(decl, directive) is Ok,
    ensures
        planned(annotated(decl, directive)->Ok_0) is Ok,
        derived(decl, directive) is Ok,
{
}

} // verus!
