//! The builder synthesizer: from the annotated fields of a record to the
//! plan of its builder.

use vstd::prelude::*;
use crate::search::first_from;
use crate::schema::{
    holds_sequence, is_sequence, outer, outer_wrapper, same_text, text_of, ConfigError,
    ConfigErrorKind, Field, FieldModel, Record, Wrapper,
};

verus! {

/// How the builder stores a field.
#[derive(Clone, Copy, Debug, PartialEq, Eq, Structural)]
pub enum StorageKind {
    /// The declared type inside an option.
    Wrapped,
    /// The declared type as it is: it is an option already.
    Flattened,
    /// The declared sequence inside an option.
    WrappedSequence,
}

/// What a field owes when the record is constructed.
#[derive(Clone, Copy, Debug, PartialEq, Eq, Structural)]
pub enum Obligation {
    /// The field must have been set: its absence is an error.
    Required,
    /// An absent field resolves to no value.
    Optional,
    /// An absent field resolves to the empty sequence.
    DefaultsEmpty,
}

/// What the whole-value setter of a field takes.
#[derive(Clone, Copy, Debug, PartialEq, Eq, Structural)]
pub enum Shape {
    /// One element.
    Element,
    /// A sequence of elements.
    Sequence,
}

/// The plan of one field of the builder.
#[derive(Clone, Debug, PartialEq, Eq)]
pub struct FieldPlan {
    pub name: String,
    pub storage: StorageKind,
    pub obligation: Obligation,
    /// What the field holds when it is present, which is what the
    /// whole-value setter takes.
    pub shape: Shape,
    /// Whether the whole-value setter, named as the field, is emitted.
    pub bulk_setter: bool,
    /// The name of the per-element setter, where one is emitted.
    pub element_setter: Option<String>,
}

/// The plan of a builder: one field plan for each field of the record, in
/// declaration order.
#[derive(Clone, Debug, PartialEq, Eq)]
pub struct BuilderSpec {
    pub record_name: String,
    pub builder_name: String,
    pub fields: Vec<FieldPlan>,
}

/// The mathematical content of a [`FieldPlan`].
pub ghost struct FieldPlanModel {
    pub name: Seq<char>,
    pub storage: StorageKind,
    pub obligation: Obligation,
    pub shape: Shape,
    pub bulk_setter: bool,
    pub element_setter: Option<Seq<char>>,
}

/// The mathematical content of a [`BuilderSpec`].
pub ghost struct BuilderModel {
    pub record_name: Seq<char>,
    pub builder_name: Seq<char>,
    pub fields: Seq<FieldPlanModel>,
}

impl View for FieldPlan {
    type V = FieldPlanModel;

    open spec fn view(&self) -> FieldPlanModel {
        FieldPlanModel {
            name: self.name@,
            storage: self.storage,
            obligation: self.obligation,
            shape: self.shape,
            bulk_setter: self.bulk_setter,
            element_setter: text_of(self.element_setter),
        }
    }
}

impl View for BuilderSpec {
    type V = BuilderModel;

    open spec fn view(&self) -> BuilderModel {
        BuilderModel {
            record_name: self.record_name@,
            builder_name: self.builder_name@,
            fields: Seq::new(self.fields@.len(), |i: int| self.fields@[i]@),
        }
    }
}

/// The storage that the outermost wrapper decides.
pub open spec fn storage_for(head: Wrapper) -> StorageKind {
    match head {
        Wrapper::Bare => StorageKind::Wrapped,
        Wrapper::Optional => StorageKind::Flattened,
        Wrapper::Repeated => StorageKind::WrappedSequence,
    }
}

/// The obligation that the outermost wrapper decides.
pub open spec fn obligation_for(head: Wrapper) -> Obligation {
    match head {
        Wrapper::Bare => Obligation::Required,
        Wrapper::Optional => Obligation::Optional,
        Wrapper::Repeated => Obligation::DefaultsEmpty,
    }
}

/// The decision table, for one field. A directive is admitted only under an
/// outermost `Repeated`; it adds the per-element setter, and takes the
/// whole-value setter away where both would have the same name.
pub open spec fn planned(field: FieldModel) -> Result<FieldPlanModel, ConfigErrorKind> {
    let head = outer(field.chain);
    if field.directive is Some && head != Wrapper::Repeated {
        Err(ConfigErrorKind::MisplacedDirective)
    } else {
        Ok(
            FieldPlanModel {
                name: field.name,
                storage: storage_for(head),
                obligation: obligation_for(head),
                shape: if holds_sequence(field.chain) {
                    Shape::Sequence
                } else {
                    Shape::Element
                },
                bulk_setter: field.directive != Some(field.name),
                element_setter: field.directive,
            },
        )
    }
}

/// The name of the builder of a record.
pub open spec fn builder_name_of(record_name: Seq<char>) -> Seq<char> {
    record_name + "Builder"@
}

/// Applies the decision table to one field.
pub fn plan_field(field: &Field) -> (plan: Result<FieldPlan, ConfigErrorKind>)
    ensures
        match plan {
            Ok(p) => planned(field@) == Ok::<FieldPlanModel, ConfigErrorKind>(p@),
            Err(e) => planned(field@) == Err::<FieldPlanModel, ConfigErrorKind>(e),
        },
{
    let head = outer_wrapper(&field.wrapper_chain);
    let shape = if is_sequence(&field.wrapper_chain) {
        Shape::Sequence
    } else {
        Shape::Element
    };
    let (storage, obligation) = match head {
        Wrapper::Bare => (StorageKind::Wrapped, Obligation::Required),
        Wrapper::Optional => (StorageKind::Flattened, Obligation::Optional),
        Wrapper::Repeated => (StorageKind::WrappedSequence, Obligation::DefaultsEmpty),
    };
    match &field.directive {
        None => Ok(
            FieldPlan {
                name: field.name.to_owned(),
                storage,
                obligation,
                shape,
                bulk_setter: true,
                element_setter: None,
            },
        ),
        Some(directive) => {
            if head != Wrapper::Repeated {
                return Err(ConfigErrorKind::MisplacedDirective);
            }
            let collides = same_text(directive.singular_name.as_str(), field.name);
            Ok(
                FieldPlan {
                    name: field.name.to_owned(),
                    storage,
                    obligation,
                    shape,
                    bulk_setter: !collides,
                    element_setter: Some(directive.singular_name.clone()),
                },
            )
        },
    }
}

/// Whether the fields before `upto` all have a plan.
pub open spec fn all_planned(fields: Seq<Field>, upto: int) -> bool {
    forall|j: int| 0 <= j < upto ==> (#[trigger] planned(fields[j]@)) is Ok
}

/// Derives the plan of the builder of a record, field by field in
/// declaration order. The first field without a plan decides the error.
pub fn synthesize(record: &Record) -> (plan: Result<BuilderSpec, ConfigError>)
    ensures
        match plan {
            Ok(s) => {
                &&& s@.record_name == record.name@
                &&& s@.builder_name == builder_name_of(record.name@)
                &&& s@.fields.len() == record.fields@.len()
                &&& forall|i: int|
                    0 <= i < record.fields@.len() ==> (#[trigger] planned(record.fields@[i]@))
                        == Ok::<FieldPlanModel, ConfigErrorKind>(s@.fields[i])
            },
            Err(e) => {
                &&& e.field < record.fields@.len()
                &&& all_planned(record.fields@, e.field as int)
                &&& planned(record.fields@[e.field as int]@) == Err::<
                    FieldPlanModel,
                    ConfigErrorKind,
                >(e.kind)
            },
        },
{
    let mut fields: Vec<FieldPlan> = Vec::new();
    let mut i: usize = 0;
    while i < record.fields.len()
        invariant
            i <= record.fields@.len(),
            fields@.len() == i,
            forall|k: int|
                0 <= k < i ==> (#[trigger] planned(record.fields@[k]@)) == Ok::<
                    FieldPlanModel,
                    ConfigErrorKind,
                >(fields@[k]@),
        decreases record.fields@.len() - i,
    {
        match plan_field(&record.fields[i]) {
            Err(kind) => {
                return Err(ConfigError { field: i, kind });
            },
            Ok(plan) => {
                fields.push(plan);
            },
        }
        i = i + 1;
    }
    let record_name = record.name.to_owned();
    let builder_name = record.name.to_owned().concat("Builder");
    Ok(BuilderSpec { record_name, builder_name, fields })
}

/// The two kinds of setter.
#[derive(Clone, Copy, Debug, PartialEq, Eq, Structural)]
pub enum MethodKind {
    /// The whole-value setter: it replaces what the slot holds.
    Bulk,
    /// The per-element setter: it appends one element.
    PerElement,
}

/// A method that the builder has.
#[derive(Clone, Debug, PartialEq, Eq)]
pub struct Method {
    pub name: String,
    /// The position of the field that the method sets.
    pub field: usize,
    pub kind: MethodKind,
    /// What the method takes.
    pub takes: Shape,
}

/// The mathematical content of a [`Method`].
pub ghost struct MethodModel {
    pub name: Seq<char>,
    pub field: int,
    pub kind: MethodKind,
    pub takes: Shape,
}

impl View for Method {
    type V = MethodModel;

    open spec fn view(&self) -> MethodModel {
        MethodModel {
            name: self.name@,
            field: self.field as int,
            kind: self.kind,
            takes: self.takes,
        }
    }
}

/// The content of a list of methods.
pub open spec fn methods_view(methods: Seq<Method>) -> Seq<MethodModel> {
    Seq::new(methods.len(), |i: int| methods[i]@)
}

/// The whole-value setter of the field at a position.
pub open spec fn bulk_method(fields: Seq<FieldPlanModel>, field: int) -> MethodModel {
    MethodModel {
        name: fields[field].name,
        field,
        kind: MethodKind::Bulk,
        takes: fields[field].shape,
    }
}

/// The per-element setter of the field at a position.
pub open spec fn element_method(fields: Seq<FieldPlanModel>, field: int) -> MethodModel {
    MethodModel {
        name: fields[field].element_setter->0,
        field,
        kind: MethodKind::PerElement,
        takes: Shape::Element,
    }
}

/// The whole-value setters of the fields before `upto`, in declaration
/// order.
pub open spec fn bulk_methods(fields: Seq<FieldPlanModel>, upto: int) -> Seq<MethodModel>
    decreases upto,
{
    if upto <= 0 {
        Seq::empty()
    } else if fields[upto - 1].bulk_setter {
        bulk_methods(fields, upto - 1).push(bulk_method(fields, upto - 1))
    } else {
        bulk_methods(fields, upto - 1)
    }
}

/// The per-element setters of the fields before `upto`, in declaration
/// order.
pub open spec fn element_methods(fields: Seq<FieldPlanModel>, upto: int) -> Seq<MethodModel>
    decreases upto,
{
    if upto <= 0 {
        Seq::empty()
    } else if fields[upto - 1].element_setter is Some {
        element_methods(fields, upto - 1).push(element_method(fields, upto - 1))
    } else {
        element_methods(fields, upto - 1)
    }
}

impl BuilderModel {
    /// The methods of the builder in the order in which they are emitted:
    /// the whole-value setters first, then the per-element setters, each
    /// group in declaration order of the fields.
    pub open spec fn emitted(self) -> Seq<MethodModel> {
        bulk_methods(self.fields, self.fields.len() as int) + element_methods(
            self.fields,
            self.fields.len() as int,
        )
    }

    /// Whether the whole-value setter of a field is emitted under this name.
    pub open spec fn bulk_named(self, name: Seq<char>) -> spec_fn(int) -> bool {
        |field: int| self.fields[field].bulk_setter && self.fields[field].name == name
    }

    /// Whether the per-element setter of a field is emitted under this name.
    pub open spec fn element_named(self, name: Seq<char>) -> spec_fn(int) -> bool {
        |field: int| self.fields[field].element_setter == Some(name)
    }

    /// The method that a name stands for: the first whole-value setter of
    /// that name or, where there is none, the first per-element setter.
    pub open spec fn method_named(self, name: Seq<char>) -> Option<(int, MethodKind)> {
        match first_from(self.fields.len() as int, self.bulk_named(name), 0) {
            Some(field) => Some((field, MethodKind::Bulk)),
            None => match first_from(self.fields.len() as int, self.element_named(name), 0) {
                Some(field) => Some((field, MethodKind::PerElement)),
                None => None,
            },
        }
    }
}

impl BuilderSpec {
    /// Finds the method that a name stands for.
    pub fn find_method(&self, name: &str) -> (found: Option<(usize, MethodKind)>)
        ensures
            match found {
                Some((field, kind)) => self@.method_named(name@) == Some((field as int, kind)),
                None => self@.method_named(name@) is None,
            },
    {
        let n = self.fields.len();
        let mut i: usize = 0;
        while i < n
            invariant
                i <= n,
                n == self.fields@.len(),
                first_from(n as int, self@.bulk_named(name@), i as int) == first_from(
                    n as int,
                    self@.bulk_named(name@),
                    0,
                ),
            decreases n - i,
        {
            if self.fields[i].bulk_setter && same_text(self.fields[i].name.as_str(), name) {
                return Some((i, MethodKind::Bulk));
            }
            i = i + 1;
        }
        let mut k: usize = 0;
        while k < n
            invariant
                k <= n,
                n == self.fields@.len(),
                first_from(n as int, self@.bulk_named(name@), 0) is None,
                first_from(n as int, self@.element_named(name@), k as int) == first_from(
                    n as int,
                    self@.element_named(name@),
                    0,
                ),
            decreases n - k,
        {
            let hit = match &self.fields[k].element_setter {
                Some(setter) => same_text(setter.as_str(), name),
                None => false,
            };
            if hit {
                return Some((k, MethodKind::PerElement));
            }
            k = k + 1;
        }
        None
    }

    /// The methods of the builder, in the order in which they are emitted.
    pub fn methods(&self) -> (methods: Vec<Method>)
        ensures
            methods_view(methods@) == self@.emitted(),
    {
        let n = self.fields.len();
        let mut methods: Vec<Method> = Vec::new();
        let mut i: usize = 0;
        while i < n
            invariant
                i <= n,
                n == self.fields@.len(),
                methods_view(methods@) == bulk_methods(self@.fields, i as int),
            decreases n - i,
        {
            if self.fields[i].bulk_setter {
                methods.push(
                    Method {
                        name: self.fields[i].name.clone(),
                        field: i,
                        kind: MethodKind::Bulk,
                        takes: self.fields[i].shape,
                    },
                );
            }
            i = i + 1;
        }
        let mut k: usize = 0;
        while k < n
            invariant
                k <= n,
                n == self.fields@.len(),
                methods_view(methods@) == bulk_methods(self@.fields, n as int) + element_methods(
                    self@.fields,
                    k as int,
                ),
            decreases n - k,
        {
            let ghost before = methods_view(methods@);
            match &self.fields[k].element_setter {
                Some(setter) => {
                    methods.push(
                        Method {
                            name: setter.clone(),
                            field: k,
                            kind: MethodKind::PerElement,
                            takes: Shape::Element,
                        },
                    );
                    assert(methods_view(methods@) =~= before.push(
                        element_method(self@.fields, k as int),
                    ));
                },
                None => {},
            }
            assert(methods_view(methods@) =~= bulk_methods(self@.fields, n as int)
                + element_methods(self@.fields, k + 1));
            k = k + 1;
        }
        methods
    }
}

} // verus!
