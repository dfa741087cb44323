//! The plan of a record's diagnostic text: a template with one place for
//! the record's name and one for each field, and for each field the format
//! that its attribute asks for.

use vstd::prelude::*;
use crate::schema::same_text;

verus! {

/// An attribute on a field of a record that is to be shown.
#[derive(Clone, Debug, PartialEq, Eq)]
pub struct DebugAttribute {
    /// The attribute's name: `debug` in `#[debug = "{:?}"]`.
    pub name: String,
    /// The content of the string literal that the attribute assigns; `None`
    /// where the attribute is not of the form `name = "literal"`.
    pub value: Option<String>,
}

/// A field of a record that is to be shown, with its attributes in order.
#[derive(Clone, Debug, PartialEq, Eq)]
pub struct DebugField {
    pub name: String,
    pub attributes: Vec<DebugAttribute>,
}

/// Why the diagnostic text of a record cannot be planned.
#[derive(Clone, Copy, Debug, PartialEq, Eq, Structural)]
pub enum DebugErrorKind {
    /// The attribute is not named `debug`.
    UnsupportedAttribute,
    /// The attribute does not assign a string literal.
    NotAString,
}

/// An error of the diagnostic plan, with the positions of the field and of
/// the attribute that caused it.
#[derive(Clone, Copy, Debug, PartialEq, Eq, Structural)]
pub struct DebugError {
    pub field: usize,
    pub attribute: usize,
    pub kind: DebugErrorKind,
}

/// How a field is shown.
#[derive(Clone, Debug, PartialEq, Eq)]
pub enum FieldFormat {
    /// The field's name, a colon, and the value between double quotes.
    Quoted,
    /// The field's name, a colon, and the value in the given format.
    Custom(String),
}

/// The mathematical content of a [`FieldFormat`].
pub ghost enum FieldFormatModel {
    Quoted,
    Custom(Seq<char>),
}

impl View for FieldFormat {
    type V = FieldFormatModel;

    open spec fn view(&self) -> FieldFormatModel {
        match self {
            FieldFormat::Quoted => FieldFormatModel::Quoted,
            FieldFormat::Custom(format) => FieldFormatModel::Custom(format@),
        }
    }
}

/// A format that an attribute assigns to the field of a name.
#[derive(Clone, Debug, PartialEq, Eq)]
pub struct Assignment {
    pub field: String,
    pub format: String,
}

/// The mathematical content of an [`Assignment`]: the field's name and the
/// format.
pub open spec fn assignment_view(a: Assignment) -> (Seq<char>, Seq<char>) {
    (a.field@, a.format@)
}

/// The content of a list of assignments.
pub open spec fn assignments_view(list: Seq<Assignment>) -> Seq<(Seq<char>, Seq<char>)> {
    Seq::new(list.len(), |i: int| assignment_view(list[i]))
}

/// What an attribute is rejected with, if it is.
pub open spec fn rejected(attribute: DebugAttribute) -> Option<DebugErrorKind> {
    if attribute.name@ != "debug"@ {
        Some(DebugErrorKind::UnsupportedAttribute)
    } else if attribute.value is None {
        Some(DebugErrorKind::NotAString)
    } else {
        None
    }
}

/// The assignments of the first `upto` attributes of a field, in order.
pub open spec fn field_assignments(field: DebugField, upto: int) -> Seq<(Seq<char>, Seq<char>)>
    decreases upto,
{
    if upto <= 0 {
        Seq::empty()
    } else {
        field_assignments(field, upto - 1).push(
            (field.name@, field.attributes@[upto - 1].value->0@),
        )
    }
}

/// The assignments of the first `upto` fields, in order.
pub open spec fn record_assignments(fields: Seq<DebugField>, upto: int) -> Seq<
    (Seq<char>, Seq<char>),
>
    decreases upto,
{
    if upto <= 0 {
        Seq::empty()
    } else {
        record_assignments(fields, upto - 1) + field_assignments(
            fields[upto - 1],
            fields[upto - 1].attributes@.len() as int,
        )
    }
}

/// Whether `(field, attribute)` is the position of an attribute.
pub open spec fn is_attribute(fields: Seq<DebugField>, field: int, attribute: int) -> bool {
    0 <= field < fields.len() && 0 <= attribute < fields[field].attributes@.len()
}

/// Whether one attribute position comes before another: in an earlier
/// field, or earlier in the same field.
pub open spec fn comes_before(f1: int, a1: int, f2: int, a2: int) -> bool {
    f1 < f2 || (f1 == f2 && a1 < a2)
}

/// Collects the formats that the attributes assign, field by field and
/// attribute by attribute. The first attribute that is rejected decides the
/// error.
pub fn attribute_values(fields: &Vec<DebugField>) -> (values: Result<Vec<Assignment>, DebugError>)
    ensures
        match values {
            Ok(list) => {
                &&& assignments_view(list@) == record_assignments(fields@, fields@.len() as int)
                &&& forall|f: int, a: int|
                    is_attribute(fields@, f, a) ==> rejected(
                        #[trigger] fields@[f].attributes@[a],
                    ) is None
            },
            Err(e) => {
                &&& is_attribute(fields@, e.field as int, e.attribute as int)
                &&& rejected(fields@[e.field as int].attributes@[e.attribute as int]) == Some(
                    e.kind,
                )
                &&& forall|f: int, a: int|
                    is_attribute(fields@, f, a) && comes_before(
                        f,
                        a,
                        e.field as int,
                        e.attribute as int,
                    ) ==> rejected(#[trigger] fields@[f].attributes@[a]) is None
            },
        },
{
    let mut list: Vec<Assignment> = Vec::new();
    let mut f: usize = 0;
    while f < fields.len()
        invariant
            f <= fields@.len(),
            assignments_view(list@) == record_assignments(fields@, f as int),
            forall|i: int, a: int|
                is_attribute(fields@, i, a) && i < f ==> rejected(
                    #[trigger] fields@[i].attributes@[a],
                ) is None,
        decreases fields@.len() - f,
    {
        let field = &fields[f];
        let ghost before = assignments_view(list@);
        let mut a: usize = 0;
        assert(before + field_assignments(*field, 0) =~= before);
        while a < field.attributes.len()
            invariant
                f < fields@.len(),
                *field == fields@[f as int],
                a <= field.attributes@.len(),
                assignments_view(list@) == before + field_assignments(*field, a as int),
                forall|k: int| 0 <= k < a ==> rejected(#[trigger] field.attributes@[k]) is None,
                forall|i: int, k: int|
                    is_attribute(fields@, i, k) && i < f ==> rejected(
                        #[trigger] fields@[i].attributes@[k],
                    ) is None,
            decreases field.attributes@.len() - a,
        {
            let attribute = &field.attributes[a];
            if !same_text(attribute.name.as_str(), "debug") {
                return Err(
                    DebugError {
                        field: f,
                        attribute: a,
                        kind: DebugErrorKind::UnsupportedAttribute,
                    },
                );
            }
            match &attribute.value {
                None => {
                    return Err(
                        DebugError { field: f, attribute: a, kind: DebugErrorKind::NotAString },
                    );
                },
                Some(format) => {
                    let ghost sofar = assignments_view(list@);
                    list.push(Assignment { field: field.name.clone(), format: format.clone() });
                    assert(assignments_view(list@) =~= sofar.push((field.name@, format@)));
                    assert(assignments_view(list@) =~= before + field_assignments(*field, a + 1));
                },
            }
            a = a + 1;
        }
        f = f + 1;
    }
    Ok(list)
}

/// The format that a list of assignments gives to the field of a name: the
/// last that was assigned to that name.
pub open spec fn assigned(list: Seq<(Seq<char>, Seq<char>)>, name: Seq<char>) -> Option<Seq<char>>
    decreases list.len(),
{
    if list.len() == 0 {
        None
    } else if list.last().0 == name {
        Some(list.last().1)
    } else {
        assigned(list.drop_last(), name)
    }
}

/// Looks up the format that was assigned last to the field of a name.
pub fn lookup<'a>(list: &'a Vec<Assignment>, name: &str) -> (format: Option<&'a String>)
    ensures
        match format {
            Some(f) => assigned(assignments_view(list@), name@) == Some(f@),
            None => assigned(assignments_view(list@), name@) is None,
        },
{
    let mut i: usize = list.len();
    assert(assignments_view(list@).subrange(0, i as int) =~= assignments_view(list@));
    while i > 0
        invariant
            i <= list@.len(),
            assigned(assignments_view(list@), name@) == assigned(
                assignments_view(list@).subrange(0, i as int),
                name@,
            ),
        decreases i,
    {
        let ghost prefix = assignments_view(list@).subrange(0, i as int);
        assert(prefix.drop_last() =~= assignments_view(list@).subrange(0, i - 1));
        if same_text(list[i - 1].field.as_str(), name) {
            return Some(&list[i - 1].format);
        }
        i = i - 1;
    }
    None
}

/// The places of `count` fields in the template: `{}` for the first, `, {}`
/// for each one after it.
pub open spec fn places(count: nat) -> Seq<char>
    decreases count,
{
    if count == 0 {
        Seq::empty()
    } else if count == 1 {
        "{}"@
    } else {
        places((count - 1) as nat) + ", {}"@
    }
}

/// The template of a record with `count` fields: a place for the record's
/// name, then the places of the fields between escaped braces.
pub open spec fn template(count: nat) -> Seq<char> {
    "{} {{ "@ + places(count) + " }}"@
}

/// How each field is shown: in the format assigned to its name, or between
/// quotes where none was assigned.
pub open spec fn shown(list: Seq<(Seq<char>, Seq<char>)>, field: DebugField) -> FieldFormatModel {
    match assigned(list, field.name@) {
        Some(format) => FieldFormatModel::Custom(format),
        None => FieldFormatModel::Quoted,
    }
}

/// Plans the diagnostic text of a record: the template, and for each field
/// in order how it is shown.
pub fn fields_to_show(fields: &Vec<DebugField>, assignments: &Vec<Assignment>) -> (plan: (
    String,
    Vec<FieldFormat>,
))
    ensures
        plan.0@ == template(fields@.len()),
        plan.1@.len() == fields@.len(),
        forall|i: int|
            0 <= i < fields@.len() ==> (#[trigger] plan.1@[i])@ == shown(
                assignments_view(assignments@),
                fields@[i],
            ),
{
    let mut text = "{} {{ ".to_owned();
    let mut formats: Vec<FieldFormat> = Vec::new();
    let mut i: usize = 0;
    assert(text@ =~= "{} {{ "@ + places(0));
    while i < fields.len()
        invariant
            i <= fields@.len(),
            text@ == "{} {{ "@ + places(i as nat),
            formats@.len() == i,
            forall|k: int|
                0 <= k < i ==> (#[trigger] formats@[k])@ == shown(
                    assignments_view(assignments@),
                    fields@[k],
                ),
        decreases fields@.len() - i,
    {
        if i == 0 {
            text.append("{}");
        } else {
            text.append(", {}");
        }
        assert(text@ =~= "{} {{ "@ + places((i + 1) as nat));
        let format = match lookup(assignments, fields[i].name.as_str()) {
            Some(custom) => FieldFormat::Custom(custom.clone()),
            None => FieldFormat::Quoted,
        };
        formats.push(format);
        i = i + 1;
    }
    text.append(" }}");
    (text, formats)
}

} // verus!
