//! The builder that a plan describes: one storage slot for each field, the
//! setters that the plan emits, and the construction of the record.

use vstd::prelude::*;
use crate::plan::{BuilderModel, BuilderSpec, MethodKind, Obligation, Shape};
use crate::search::first_from;

verus! {

/// A value that a field holds: one element or a sequence of elements.
#[derive(Clone, Debug, PartialEq, Eq)]
pub enum Value<V> {
    One(V),
    Many(Vec<V>),
}

/// The mathematical content of a [`Value`].
pub ghost enum ValueModel<V> {
    One(V),
    Many(Seq<V>),
}

impl<V> View for Value<V> {
    type V = ValueModel<V>;

    open spec fn view(&self) -> ValueModel<V> {
        match self {
            Value::One(v) => ValueModel::One(*v),
            Value::Many(vs) => ValueModel::Many(vs@),
        }
    }
}

/// The content of a storage slot, or of a field of the finished record.
pub open spec fn slot_view<V>(slot: Option<Value<V>>) -> Option<ValueModel<V>> {
    match slot {
        Some(v) => Some(v@),
        None => None,
    }
}

/// The shape of a value.
pub open spec fn shape_of<V>(value: ValueModel<V>) -> Shape {
    match value {
        ValueModel::One(_) => Shape::Element,
        ValueModel::Many(_) => Shape::Sequence,
    }
}

/// Whether a slot may stand in a field of this shape: it is empty or holds a
/// value of the shape.
pub open spec fn fits<V>(slot: Option<ValueModel<V>>, shape: Shape) -> bool {
    match slot {
        Some(v) => shape_of(v) == shape,
        None => true,
    }
}

/// The state of a builder: its plan and the content of each slot.
pub ghost struct BuilderState<V> {
    pub plan: BuilderModel,
    pub slots: Seq<Option<ValueModel<V>>>,
}

impl<V> BuilderState<V> {
    /// A state is well formed where it has one slot for each field and each
    /// slot that is set holds a value of the field's shape.
    pub open spec fn wf(self) -> bool {
        &&& self.slots.len() == self.plan.fields.len()
        &&& forall|i: int|
            0 <= i < self.slots.len() ==> fits(#[trigger] self.slots[i], self.plan.fields[i].shape)
    }

    /// The state of a new builder: every slot is empty.
    pub open spec fn fresh(plan: BuilderModel) -> BuilderState<V> {
        BuilderState { plan, slots: Seq::new(plan.fields.len(), |i: int| None) }
    }

    /// Whether a field has this position.
    pub open spec fn has_field(self, field: int) -> bool {
        0 <= field < self.plan.fields.len()
    }

    /// The state after the whole-value setter of a field.
    pub open spec fn after_set(self, field: int, value: ValueModel<V>) -> BuilderState<V> {
        BuilderState { slots: self.slots.update(field, Some(value)), ..self }
    }

    /// The elements that a slot has accumulated: none where it is empty.
    pub open spec fn accumulated(self, field: int) -> Seq<V> {
        match self.slots[field] {
            Some(ValueModel::Many(items)) => items,
            _ => Seq::empty(),
        }
    }

    /// The state after the per-element setter of a field: the element is
    /// appended to what the slot has accumulated.
    pub open spec fn after_push(self, field: int, item: V) -> BuilderState<V> {
        BuilderState {
            slots: self.slots.update(
                field,
                Some(ValueModel::Many(self.accumulated(field).push(item))),
            ),
            ..self
        }
    }

    /// Whether construction fails at a field: the field is required and its
    /// slot is empty.
    pub open spec fn missing_at(self, field: int) -> bool {
        self.plan.fields[field].obligation == Obligation::Required && self.slots[field] is None
    }

    /// `missing_at` as a predicate on positions.
    pub open spec fn missing(self) -> spec_fn(int) -> bool {
        |field: int| self.missing_at(field)
    }

    /// The first field, in declaration order, at which construction fails.
    pub open spec fn first_missing(self) -> Option<int> {
        first_from(self.slots.len() as int, self.missing(), 0)
    }

    /// What a field of the record gets from its slot. An empty slot gives no
    /// value, but for a sequence that defaults to the empty one.
    pub open spec fn resolved(self, field: int) -> Option<ValueModel<V>> {
        match self.slots[field] {
            Some(v) => Some(v),
            None => if self.plan.fields[field].obligation == Obligation::DefaultsEmpty {
                Some(ValueModel::Many(Seq::empty()))
            } else {
                None
            },
        }
    }

    /// What construction returns: the position of the first required field
    /// that is missing, or else the value of each field.
    pub open spec fn built(self) -> Result<Seq<Option<ValueModel<V>>>, int> {
        match self.first_missing() {
            Some(k) => Err(k),
            None => Ok(Seq::new(self.slots.len(), |i: int| self.resolved(i))),
        }
    }

    /// The state that construction leaves: the slots are drained in order,
    /// up to the field at which construction failed, or all of them.
    pub open spec fn after_build(self) -> BuilderState<V> {
        let stop = match self.first_missing() {
            Some(k) => k,
            None => self.slots.len() as int,
        };
        BuilderState {
            slots: Seq::new(
                self.slots.len(),
                |i: int|
                    if i < stop {
                        None
                    } else {
                        self.slots[i]
                    },
            ),
            ..self
        }
    }
}

/// The failure of a construction: a required field was never set.
#[derive(Clone, Debug, PartialEq, Eq)]
pub struct BuildError {
    /// The position of the field.
    pub field: usize,
    /// The name of the field.
    pub name: String,
}

impl BuildError {
    /// The text of the error: the field's name, then ` is required`.
    pub open spec fn message_text(self) -> Seq<char> {
        self.name@ + " is required"@
    }

    /// The text of the error.
    pub fn message(&self) -> (text: String)
        ensures
            text@ == self.message_text(),
    {
        self.name.clone().concat(" is required")
    }
}

/// The content of the fields of a finished record.
pub open spec fn record_view<V>(values: Seq<Option<Value<V>>>) -> Seq<Option<ValueModel<V>>> {
    Seq::new(values.len(), |i: int| slot_view(values[i]))
}

/// Why a call of a setter is refused.
#[derive(Clone, Copy, Debug, PartialEq, Eq, Structural)]
pub enum CallError {
    /// The builder has no field at this position.
    NoSuchField,
    /// The plan emits no such setter for the field, or no method of this
    /// name at all.
    NoSuchMethod,
    /// The argument has not the shape that the setter takes.
    WrongShape,
}

/// What the whole-value setter of a field answers to a value.
pub open spec fn set_outcome<V>(state: BuilderState<V>, field: int, value: ValueModel<V>) -> Result<
    (),
    CallError,
> {
    if !state.has_field(field) {
        Err(CallError::NoSuchField)
    } else if !state.plan.fields[field].bulk_setter {
        Err(CallError::NoSuchMethod)
    } else if shape_of(value) != state.plan.fields[field].shape {
        Err(CallError::WrongShape)
    } else {
        Ok(())
    }
}

/// What the per-element setter of a field answers.
pub open spec fn push_outcome<V>(state: BuilderState<V>, field: int) -> Result<(), CallError> {
    if !state.has_field(field) {
        Err(CallError::NoSuchField)
    } else if state.plan.fields[field].element_setter is None {
        Err(CallError::NoSuchMethod)
    } else if state.plan.fields[field].shape != Shape::Sequence {
        Err(CallError::WrongShape)
    } else {
        Ok(())
    }
}

/// What a call of a method by its name answers to an argument. The name
/// decides the field and the setter; a per-element setter takes one element.
pub open spec fn call_outcome<V>(
    state: BuilderState<V>,
    method: Seq<char>,
    argument: ValueModel<V>,
) -> Result<(), CallError> {
    match state.plan.method_named(method) {
        None => Err(CallError::NoSuchMethod),
        Some((field, MethodKind::Bulk)) => set_outcome(state, field, argument),
        Some((field, MethodKind::PerElement)) => match argument {
            ValueModel::One(_) => push_outcome(state, field),
            ValueModel::Many(_) => Err(CallError::WrongShape),
        },
    }
}

/// The state after a call of a method by its name that was not refused.
pub open spec fn after_call<V>(
    state: BuilderState<V>,
    method: Seq<char>,
    argument: ValueModel<V>,
) -> BuilderState<V> {
    match (state.plan.method_named(method), argument) {
        (Some((field, MethodKind::Bulk)), _) => state.after_set(field, argument),
        (Some((field, MethodKind::PerElement)), ValueModel::One(item)) => state.after_push(
            field,
            item,
        ),
        _ => state,
    }
}

/// A builder: the plan it was made from and one storage slot for each field.
#[derive(Debug)]
pub struct Builder<V> {
    plan: BuilderSpec,
    slots: Vec<Option<Value<V>>>,
}

impl<V> View for Builder<V> {
    type V = BuilderState<V>;

    closed spec fn view(&self) -> BuilderState<V> {
        BuilderState {
            plan: self.plan@,
            slots: Seq::new(self.slots@.len(), |i: int| slot_view(self.slots@[i])),
        }
    }
}

impl<V> Builder<V> {
    /// A builder is well formed where its state is. Every builder that
    /// [`Builder::new`] made is, and every method keeps it so.
    pub open spec fn wf(&self) -> bool {
        self@.wf()
    }

    /// A new builder for a plan, with every slot empty.
    pub fn new(plan: BuilderSpec) -> (builder: Builder<V>)
        ensures
            builder@ == BuilderState::<V>::fresh(plan@),
            builder.wf(),
    {
        let mut slots: Vec<Option<Value<V>>> = Vec::new();
        let mut i: usize = 0;
        while i < plan.fields.len()
            invariant
                i <= plan.fields@.len(),
                slots@.len() == i,
                forall|k: int| 0 <= k < i ==> slots@[k] is None,
            decreases plan.fields@.len() - i,
        {
            slots.push(None);
            i = i + 1;
        }
        let builder = Builder { plan, slots };
        assert(builder@.slots =~= BuilderState::<V>::fresh(plan@).slots);
        builder
    }

    /// The plan that the builder was made from.
    pub fn plan(&self) -> (plan: &BuilderSpec)
        ensures
            plan@ == self@.plan,
    {
        &self.plan
    }

    /// The whole-value setter of a field: replaces whatever the slot held.
    pub fn set(&mut self, field: usize, value: Value<V>) -> (outcome: Result<
        &mut Builder<V>,
        CallError,
    >)
        requires
            old(self).wf(),
        ensures
            match outcome {
                Ok(builder) => {
                    &&& set_outcome(old(self)@, field as int, value@) is Ok
                    &&& builder@ == old(self)@.after_set(field as int, value@)
                    &&& builder.wf()
                    &&& *final(self) == *final(builder)
                },
                Err(e) => {
                    &&& set_outcome(old(self)@, field as int, value@) == Err::<(), CallError>(e)
                    &&& *final(self) == *old(self)
                },
            },
    {
        if field >= self.plan.fields.len() {
            return Err(CallError::NoSuchField);
        }
        if !self.plan.fields[field].bulk_setter {
            return Err(CallError::NoSuchMethod);
        }
        let fits = match &value {
            Value::One(_) => self.plan.fields[field].shape == Shape::Element,
            Value::Many(_) => self.plan.fields[field].shape == Shape::Sequence,
        };
        if !fits {
            return Err(CallError::WrongShape);
        }
        self.slots.set(field, Some(value));
        assert(self@.slots =~= old(self)@.after_set(field as int, value@).slots);
        Ok(self)
    }

    /// The per-element setter of a field: appends one element to what the
    /// slot has accumulated, starting from the empty sequence.
    pub fn push(&mut self, field: usize, item: V) -> (outcome: Result<&mut Builder<V>, CallError>)
        requires
            old(self).wf(),
        ensures
            match outcome {
                Ok(builder) => {
                    &&& push_outcome(old(self)@, field as int) is Ok
                    &&& builder@ == old(self)@.after_push(field as int, item)
                    &&& builder.wf()
                    &&& *final(self) == *final(builder)
                },
                Err(e) => {
                    &&& push_outcome(old(self)@, field as int) == Err::<(), CallError>(e)
                    &&& *final(self) == *old(self)
                },
            },
    {
        if field >= self.plan.fields.len() {
            return Err(CallError::NoSuchField);
        }
        if self.plan.fields[field].element_setter.is_none() {
            return Err(CallError::NoSuchMethod);
        }
        if self.plan.fields[field].shape != Shape::Sequence {
            return Err(CallError::WrongShape);
        }
        let mut items = match self.slots[field].take() {
            Some(Value::Many(items)) => items,
            _ => Vec::new(),
        };
        items.push(item);
        self.slots.set(field, Some(Value::Many(items)));
        assert(self@.slots =~= old(self)@.after_push(field as int, item).slots);
        Ok(self)
    }

    /// Calls the setter that a name stands for.
    pub fn call(&mut self, method: &str, argument: Value<V>) -> (outcome: Result<
        &mut Builder<V>,
        CallError,
    >)
        requires
            old(self).wf(),
        ensures
            match outcome {
                Ok(builder) => {
                    &&& call_outcome(old(self)@, method@, argument@) is Ok
                    &&& builder@ == after_call(old(self)@, method@, argument@)
                    &&& builder.wf()
                    &&& *final(self) == *final(builder)
                },
                Err(e) => {
                    &&& call_outcome(old(self)@, method@, argument@) == Err::<(), CallError>(e)
                    &&& *final(self) == *old(self)
                },
            },
    {
        match self.plan.find_method(method) {
            None => Err(CallError::NoSuchMethod),
            Some((field, MethodKind::Bulk)) => self.set(field, argument),
            Some((field, MethodKind::PerElement)) => match argument {
                Value::One(item) => self.push(field, item),
                Value::Many(_) => Err(CallError::WrongShape),
            },
        }
    }

    /// Constructs the record. The slots are taken in declaration order; at
    /// the first required field whose slot is empty the construction stops
    /// with an error naming it, and the slots before it stay drained.
    pub fn build(&mut self) -> (record: Result<Vec<Option<Value<V>>>, BuildError>)
        requires
            old(self).wf(),
        ensures
            final(self).wf(),
            final(self)@ == old(self)@.after_build(),
            match record {
                Ok(values) => old(self)@.built() == Ok::<Seq<Option<ValueModel<V>>>, int>(
                    record_view(values@),
                ),
                Err(e) => {
                    &&& old(self)@.built() == Err::<Seq<Option<ValueModel<V>>>, int>(
                        e.field as int,
                    )
                    &&& e.name@ == old(self)@.plan.fields[e.field as int].name
                },
            },
    {
        let n = self.slots.len();
        let mut values: Vec<Option<Value<V>>> = Vec::new();
        let mut i: usize = 0;
        while i < n
            invariant
                i <= n,
                n == old(self).slots@.len(),
                old(self)@.wf(),
                self.plan == old(self).plan,
                self.slots@.len() == n,
                forall|j: int| 0 <= j < i ==> self.slots@[j] is None,
                forall|j: int| i <= j < n ==> self.slots@[j] == old(self).slots@[j],
                values@.len() == i,
                forall|j: int| 0 <= j < i ==> slot_view(values@[j]) == old(self)@.resolved(j),
                first_from(n as int, old(self)@.missing(), i as int) == old(self)@.first_missing(),
            decreases n - i,
        {
            let taken = self.slots[i].take();
            match taken {
                Some(v) => {
                    values.push(Some(v));
                },
                None => {
                    match self.plan.fields[i].obligation {
                        Obligation::Required => {
                            let name = self.plan.fields[i].name.clone();
                            assert(self@.slots =~= old(self)@.after_build().slots);
                            return Err(BuildError { field: i, name });
                        },
                        Obligation::Optional => {
                            values.push(None);
                        },
                        Obligation::DefaultsEmpty => {
                            values.push(Some(Value::Many(Vec::new())));
                        },
                    }
                },
            }
            i = i + 1;
        }
        assert(self@.slots =~= old(self)@.after_build().slots);
        assert(record_view(values@) =~= old(self)@.built()->Ok_0);
        Ok(values)
    }
}

} // verus!
