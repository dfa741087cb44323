//! Annotation: each declared field gets its wrapper chain, its element type
//! and its directive, or the record is rejected.

use vstd::prelude::*;
use crate::analyzer::{analyze, analyze_scalar, classified, classified_scalar};
use crate::directive::{admitted, outcome_view, parse_directive};
use crate::schema::{
    outer, outer_wrapper, AccessorDirective, ConfigError, ConfigErrorKind, Field, FieldDecl,
    FieldModel, Record, RecordDecl, Wrapper,
};

verus! {

/// What the parse of a field's leading attribute came to: `None` where the
/// field has no attribute, else the singular name or the error.
pub type Parsed = Option<Result<Seq<char>, ConfigErrorKind>>;

/// What the annotation of a declared field yields, given what the parse of
/// its leading attribute came to. The type is classified first; then an
/// error of the parse is handed on; last, a directive is admitted only
/// where the outermost wrapper is `Repeated`.
pub open spec fn annotated(decl: FieldDecl, directive: Parsed) -> Result<
    FieldModel,
    ConfigErrorKind,
> {
    match classified(decl.declared_type) {
        Err(e) => Err(e),
        Ok(c) => {
            let bare = FieldModel {
                name: decl.name@,
                declared_type: decl.declared_type,
                chain: c.chain,
                value_type: c.value,
                element_type: c.element,
                directive: None,
            };
            match directive {
                None => Ok(bare),
                Some(Err(e)) => Err(e),
                Some(Ok(name)) => if outer(c.chain) == Wrapper::Repeated {
                    Ok(FieldModel { directive: Some(name), ..bare })
                } else {
                    Err(ConfigErrorKind::MisplacedDirective)
                },
            }
        },
    }
}

/// The content of what the parse of an attribute came to.
pub open spec fn parsed_view(
    directive: Option<Result<AccessorDirective, ConfigErrorKind>>,
) -> Parsed {
    match directive {
        Some(outcome) => Some(outcome_view(outcome)),
        None => None,
    }
}

/// The content of the annotation of a field, or its error.
pub open spec fn field_view(field: Result<Field, ConfigErrorKind>) -> Result<
    FieldModel,
    ConfigErrorKind,
> {
    match field {
        Ok(f) => Ok(f@),
        Err(e) => Err(e),
    }
}

/// Whether the parse of the leading attribute of a field may have come to
/// this: nothing where the field has no attribute, else an outcome that
/// the directive parser admits for the attribute.
pub open spec fn may_parse(decl: FieldDecl, directive: Parsed) -> bool {
    match decl.leading_attribute() {
        None => directive is None,
        Some(attr) => directive matches Some(outcome) && admitted(attr, outcome),
    }
}

/// Whether the annotation of a field may yield this: it is what
/// [`annotated`] gives for a parse that the field's attribute admits.
pub open spec fn may_annotate(decl: FieldDecl, field: Result<FieldModel, ConfigErrorKind>) -> bool {
    exists|directive: Parsed| #[trigger]
        may_parse(decl, directive) && field == annotated(decl, directive)
}

/// Whether the annotation of a field may accept it.
pub open spec fn may_accept(decl: FieldDecl) -> bool {
    exists|f: FieldModel| #[trigger] may_annotate(decl, Ok(f))
}

/// Annotates a declared field, given what the parse of its leading
/// attribute came to.
pub fn annotate_with<'a>(
    decl: &'a FieldDecl,
    directive: Option<Result<AccessorDirective, ConfigErrorKind>>,
) -> (field: Result<Field<'a>, ConfigErrorKind>)
    ensures
        field_view(field) == annotated(*decl, parsed_view(directive)),
{
    let analysis = match analyze(&decl.declared_type) {
        Err(e) => {
            return Err(e);
        },
        Ok(a) => a,
    };
    let directive = match directive {
        None => None,
        Some(Err(e)) => {
            return Err(e);
        },
        Some(Ok(d)) => {
            if outer_wrapper(&analysis.chain) != Wrapper::Repeated {
                return Err(ConfigErrorKind::MisplacedDirective);
            }
            Some(d)
        },
    };
    Ok(
        Field {
            name: decl.name.as_str(),
            declared_type: &decl.declared_type,
            wrapper_chain: analysis.chain,
            value_type: analysis.value,
            element_type: analysis.element,
            directive,
        },
    )
}

/// Annotates one declared field: parses its leading attribute, if it has
/// one, and annotates the field with what the parse came to.
pub fn annotate_field<'a>(decl: &'a FieldDecl) -> (field: Result<Field<'a>, ConfigErrorKind>)
    ensures
        may_annotate(*decl, field_view(field)),
{
    let directive = if decl.attributes.len() > 0 {
        Some(parse_directive(&decl.attributes[0]))
    } else {
        None
    };
    let ghost parsed = parsed_view(directive);
    let field = annotate_with(decl, directive);
    assert(may_parse(*decl, parsed) && field_view(field) == annotated(*decl, parsed));
    field
}

/// Annotates the fields of a record in declaration order. The first field
/// that is rejected decides the error.
pub fn annotate<'a>(decl: &'a RecordDecl) -> (record: Result<Record<'a>, ConfigError>)
    ensures
        match record {
            Ok(r) => {
                &&& r.name@ == decl.name@
                &&& r.fields@.len() == decl.fields@.len()
                &&& forall|i: int|
                    0 <= i < decl.fields@.len() ==> may_annotate(
                        decl.fields@[i],
                        Ok((#[trigger] r.fields@[i])@),
                    )
            },
            Err(e) => {
                &&& e.field < decl.fields@.len()
                &&& forall|j: int| 0 <= j < e.field ==> may_accept(#[trigger] decl.fields@[j])
                &&& may_annotate(decl.fields@[e.field as int], Err(e.kind))
            },
        },
{
    let mut fields: Vec<Field<'a>> = Vec::new();
    let mut i: usize = 0;
    while i < decl.fields.len()
        invariant
            i <= decl.fields@.len(),
            fields@.len() == i,
            forall|k: int|
                0 <= k < i ==> may_annotate(decl.fields@[k], Ok((#[trigger] fields@[k])@)),
        decreases decl.fields@.len() - i,
    {
        match annotate_field(&decl.fields[i]) {
            Err(kind) => {
                assert forall|j: int| 0 <= j < i implies may_accept(
                    #[trigger] decl.fields@[j],
                ) by {
                    assert(may_annotate(decl.fields@[j], Ok(fields@[j]@)));
                }
                return Err(ConfigError { field: i, kind });
            },
            Ok(field) => {
                fields.push(field);
            },
        }
        i = i + 1;
    }
    Ok(Record { name: decl.name.as_str(), fields })
}

/// What the annotation of a declared field yields for a builder in which
/// every field holds one value: the attributes are not read, only an outer
/// `Option` counts as a wrapper, and there is no directive.
pub open spec fn scalar_annotated(decl: FieldDecl) -> Result<FieldModel, ConfigErrorKind> {
    match classified_scalar(decl.declared_type) {
        Err(e) => Err(e),
        Ok(c) => Ok(
            FieldModel {
                name: decl.name@,
                declared_type: decl.declared_type,
                chain: c.chain,
                value_type: c.value,
                element_type: c.element,
                directive: None,
            },
        ),
    }
}

/// Annotates one declared field for a builder in which every field holds
/// one value.
pub fn annotate_scalar<'a>(decl: &'a FieldDecl) -> (field: Result<Field<'a>, ConfigErrorKind>)
    ensures
        field_view(field) == scalar_annotated(*decl),
{
    match analyze_scalar(&decl.declared_type) {
        Err(e) => Err(e),
        Ok(analysis) => Ok(
            Field {
                name: decl.name.as_str(),
                declared_type: &decl.declared_type,
                wrapper_chain: analysis.chain,
                value_type: analysis.value,
                element_type: analysis.element,
                directive: None,
            },
        ),
    }
}

/// Annotates the fields of a record in declaration order for a builder in
/// which every field holds one value. The first field that is rejected
/// decides the error.
pub fn annotate_scalars<'a>(decl: &'a RecordDecl) -> (record: Result<Record<'a>, ConfigError>)
    ensures
        match record {
            Ok(r) => {
                &&& r.name@ == decl.name@
                &&& r.fields@.len() == decl.fields@.len()
                &&& forall|i: int|
                    0 <= i < decl.fields@.len() ==> (#[trigger] scalar_annotated(decl.fields@[i]))
                        == Ok::<FieldModel, ConfigErrorKind>(r.fields@[i]@)
            },
            Err(e) => {
                &&& e.field < decl.fields@.len()
                &&& forall|j: int|
                    0 <= j < e.field ==> (#[trigger] scalar_annotated(decl.fields@[j])) is Ok
                &&& scalar_annotated(decl.fields@[e.field as int]) == Err::<
                    FieldModel,
                    ConfigErrorKind,
                >(e.kind)
            },
        },
{
    let mut fields: Vec<Field<'a>> = Vec::new();
    let mut i: usize = 0;
    while i < decl.fields.len()
        invariant
            i <= decl.fields@.len(),
            fields@.len() == i,
            forall|k: int|
                0 <= k < i ==> (#[trigger] scalar_annotated(decl.fields@[k])) == Ok::<
                    FieldModel,
                    ConfigErrorKind,
                >(fields@[k]@),
        decreases decl.fields@.len() - i,
    {
        match annotate_scalar(&decl.fields[i]) {
            Err(kind) => {
                return Err(ConfigError { field: i, kind });
            },
            Ok(field) => {
                fields.push(field);
            },
        }
        i = i + 1;
    }
    Ok(Record { name: decl.name.as_str(), fields })
}

} // verus!
