//! Restricted, model-shaped mutations with library-owned persistence.
//!
//! Generated mutations are the default. A restricted mutation serves an
//! existing flattened field that must bind one concrete identity or
//! compare-and-swap token: application code prepares the write (one row, or
//! a complete row set), and the library owns the resolver, the transaction,
//! the hooks, persistence, and the post-commit watch.

use vstd::prelude::*;
use crate::hooks::WriteSetRow;

verus! {

/// A lock or other owned capability held from preparation through commit
/// and post-commit signal dispatch.
pub trait WritePermit: Send {
    /// Called once the write has committed and its watch has run.
    fn committed(self: Box<Self>) {
    }
}

impl WritePermit for () {
}

/// The single model write prepared by a restricted mutation.
pub enum ModelWrite<A, M> {
    Insert(A),
    Update(A),
    Delete { model: M, active_model: A },
    Noop,
}

/// A prepared write plus the permit that serializes its read, compare, and
/// write window. Dropping the permit before it is told of the commit is the
/// application's failure-cleanup seam.
pub struct PreparedModelWrite<A, M> {
    pub write: ModelWrite<A, M>,
    pub permit: Box<dyn WritePermit>,
}

impl<A, M> PreparedModelWrite<A, M> {
    pub fn new<P: WritePermit + 'static>(write: ModelWrite<A, M>, permit: P) -> (prepared: Self)
        ensures
            prepared.write == write,
    {
        PreparedModelWrite { write, permit: Box::new(permit) }
    }
}

/// One member of a restricted write set. Update and delete carry the fetched
/// row beside the proposed one, so the write-set hook sees old and proposed
/// values.
pub enum ModelSetWrite<A, M> {
    Insert(A),
    Update { model: M, active_model: A },
    Delete { model: M, active_model: A },
}

impl<A, M> ModelSetWrite<A, M> {
    /// The proposed row.
    pub open spec fn proposed_spec(self) -> A {
        match self {
            ModelSetWrite::Insert(active_model) => active_model,
            ModelSetWrite::Update { active_model, .. } => active_model,
            ModelSetWrite::Delete { active_model, .. } => active_model,
        }
    }

    /// The write-set row this member presents to hooks.
    pub open spec fn as_row_spec(self) -> WriteSetRow<A, M> {
        match self {
            ModelSetWrite::Insert(active_model) => WriteSetRow::Create { active_model },
            ModelSetWrite::Update { model, active_model } => WriteSetRow::Update { old_model: model, active_model },
            ModelSetWrite::Delete { model, active_model } => WriteSetRow::Delete { old_model: model, active_model },
        }
    }

    /// The proposed row, for the per-row save hook.
    pub fn active_model_mut(&mut self) -> (active_model: &mut A)
        ensures
            *active_model == old(self).proposed_spec(),
            final(self).proposed_spec() == *final(active_model),
            final(self).as_row_spec().same_but_proposed(old(self).as_row_spec()),
    {
        match self {
            ModelSetWrite::Insert(active_model) => active_model,
            ModelSetWrite::Update { active_model, .. } => active_model,
            ModelSetWrite::Delete { active_model, .. } => active_model,
        }
    }

    /// This member as a write-set row: an insert is a create, and update and
    /// delete carry their fetched row as the old one.
    pub fn as_write_set_row(&mut self) -> (row: WriteSetRow<&mut A, &M>)
        ensures
            match (row, *old(self)) {
                (WriteSetRow::Create { active_model }, ModelSetWrite::Insert(proposed)) => {
                    &&& *active_model == proposed
                    &&& *final(self) == ModelSetWrite::<A, M>::Insert(*final(active_model))
                },
                (WriteSetRow::Update { old_model, active_model }, ModelSetWrite::Update { model, active_model: proposed }) => {
                    &&& *old_model == model
                    &&& *active_model == proposed
                    &&& *final(self) == ModelSetWrite::Update { model, active_model: *final(active_model) }
                },
                (WriteSetRow::Delete { old_model, active_model }, ModelSetWrite::Delete { model, active_model: proposed }) => {
                    &&& *old_model == model
                    &&& *active_model == proposed
                    &&& *final(self) == ModelSetWrite::Delete { model, active_model: *final(active_model) }
                },
                _ => false,
            },
    {
        match self {
            ModelSetWrite::Insert(active_model) => WriteSetRow::Create { active_model },
            ModelSetWrite::Update { model, active_model } => WriteSetRow::Update { old_model: model, active_model },
            ModelSetWrite::Delete { model, active_model } => WriteSetRow::Delete { old_model: model, active_model },
        }
    }
}

/// The rows one restricted set mutation writes, plus the permit serializing
/// its read, compare, and write window. Row order is the persistence order
/// and the order of the returned list.
pub struct PreparedModelSet<A, M> {
    pub writes: Vec<ModelSetWrite<A, M>>,
    pub permit: Box<dyn WritePermit>,
}

impl<A, M> PreparedModelSet<A, M> {
    pub fn new<P: WritePermit + 'static>(writes: Vec<ModelSetWrite<A, M>>, permit: P) -> (prepared: Self)
        ensures
            prepared.writes@ == writes@,
    {
        PreparedModelSet { writes, permit: Box::new(permit) }
    }
}

/// Schema declaration for one existing restricted mutation field. `Arg` is
/// the framework's argument declaration and `Action` its operation type.
pub struct RestrictedMutationField<Arg, Action> {
    pub name: String,
    pub action: Action,
    pub nullable: bool,
    pub arguments: Vec<Arg>,
    pub hook_owns_authorization: bool,
    pub returns_boolean: bool,
}

/// The output type a restricted field declares.
#[derive(Clone, Copy, Debug, PartialEq, Eq, Structural)]
pub enum OutputShape {
    /// A non-null boolean success flag.
    Boolean,
    /// The entity object, or null.
    NullableObject,
    /// The entity object, never null.
    Object,
    /// A non-null list of non-null entity objects.
    ObjectList,
}

/// What a restricted mutation answers once it has committed.
pub enum RestrictedReply<R> {
    /// Whether the prepared write affected any row.
    Flag(bool),
    /// The row written, if any.
    Row(Option<R>),
    /// The rows written, in persistence order.
    Rows(Vec<R>),
}

impl<Arg, Action> RestrictedMutationField<Arg, Action> {
    /// A field named `name` performing `action`: non-null, no arguments,
    /// entity guard enforced, returning the written row.
    pub fn new<N: Into<String>>(name: N, action: Action) -> (field: Self)
        ensures
            call_ensures(N::into, (name,), field.name),
            field.action == action,
            !field.nullable,
            field.arguments@.len() == 0,
            !field.hook_owns_authorization,
            !field.returns_boolean,
    {
        RestrictedMutationField {
            name: name.into(),
            action,
            nullable: false,
            arguments: Vec::new(),
            hook_owns_authorization: false,
            returns_boolean: false,
        }
    }

    /// The same field, declared nullable.
    pub fn nullable(self) -> (field: Self)
        ensures
            field == (RestrictedMutationField { nullable: true, ..self }),
    {
        let mut field = self;
        field.nullable = true;
        field
    }

    /// The same field with one more argument, after the ones it has.
    pub fn argument(self, argument: Arg) -> (field: Self)
        ensures
            field.arguments@ == self.arguments@.push(argument),
            field.name == self.name,
            field.action == self.action,
            field.nullable == self.nullable,
            field.hook_owns_authorization == self.hook_owns_authorization,
            field.returns_boolean == self.returns_boolean,
    {
        let mut field = self;
        field.arguments.push(argument);
        field
    }

    /// Skip the generated entity guard: the restricted hook performs the
    /// concrete identity and caller authorization itself.
    pub fn hook_owns_authorization(self) -> (field: Self)
        ensures
            field == (RestrictedMutationField { hook_owns_authorization: true, ..self }),
    {
        let mut field = self;
        field.hook_owns_authorization = true;
        field
    }

    /// Answer whether the prepared write affected a row instead of the row
    /// itself, preserving an existing success-flag contract.
    pub fn returns_boolean(self) -> (field: Self)
        ensures
            field == (RestrictedMutationField { returns_boolean: true, ..self }),
    {
        let mut field = self;
        field.returns_boolean = true;
        field
    }

    /// The output type of a single-row restricted field: the flag when it
    /// returns a boolean, else the object, nullable when declared so.
    pub fn row_output_shape(&self) -> (shape: OutputShape)
        ensures
            shape == if self.returns_boolean {
                OutputShape::Boolean
            } else if self.nullable {
                OutputShape::NullableObject
            } else {
                OutputShape::Object
            },
    {
        if self.returns_boolean {
            OutputShape::Boolean
        } else if self.nullable {
            OutputShape::NullableObject
        } else {
            OutputShape::Object
        }
    }

    /// The output type of a set restricted field: the flag when it returns
    /// a boolean, else the list. Nullability does not apply to a set.
    pub fn set_output_shape(&self) -> (shape: OutputShape)
        ensures
            shape == if self.returns_boolean { OutputShape::Boolean } else { OutputShape::ObjectList },
    {
        if self.returns_boolean {
            OutputShape::Boolean
        } else {
            OutputShape::ObjectList
        }
    }
}

/// What a single-row restricted mutation answers: whether a row was
/// written, or the row itself.
pub fn row_reply<R>(returns_boolean: bool, written: Option<R>) -> (reply: RestrictedReply<R>)
    ensures
        returns_boolean ==> reply == RestrictedReply::<R>::Flag(written is Some),
        !returns_boolean ==> reply == RestrictedReply::Row(written),
{
    if returns_boolean {
        RestrictedReply::Flag(written.is_some())
    } else {
        RestrictedReply::Row(written)
    }
}

/// What a set restricted mutation answers: whether any row was written, or
/// the rows in persistence order.
pub fn set_reply<R>(returns_boolean: bool, written: Vec<R>) -> (reply: RestrictedReply<R>)
    ensures
        returns_boolean ==> reply == RestrictedReply::<R>::Flag(written@.len() > 0),
        !returns_boolean ==> (reply matches RestrictedReply::Rows(rows) && rows@ == written@),
{
    if returns_boolean {
        RestrictedReply::Flag(written.len() > 0)
    } else {
        RestrictedReply::Rows(written)
    }
}

} // verus!
