//! The write-hook primitive: a Module's rule about a write, checked inside
//! the write's own transaction.
//!
//! A hook runs once per mutation over the mutation's complete write set,
//! after the rows have been fetched and the proposed values folded in, and
//! before anything is persisted. It sees each row's current and proposed
//! state together, it sees siblings, and rejecting it rolls the whole
//! mutation back.

use vstd::prelude::*;

verus! {

/// Which write a hook is looking at.
#[derive(Clone, Copy, Debug, PartialEq, Eq, Structural)]
pub enum WriteAction {
    Create,
    Update,
    Delete,
}

/// The operation a framework hook is asked about.
#[derive(Clone, Copy, Debug, PartialEq, Eq, Structural)]
pub enum Operation {
    Read,
    Create,
    Update,
    Delete,
}

/// A hook's answer. `Reject` aborts the mutation, rolls its transaction
/// back, and returns the reason to the caller as an error.
#[derive(Debug)]
pub enum Decision {
    Allow,
    Reject(String),
}

/// A framework guard's answer: allow, or block with an optional reason.
#[derive(Debug)]
pub enum Guard {
    Block(Option<String>),
    Allow,
}

impl Decision {
    /// A rejection carrying `reason`.
    pub fn reject<R: Into<String>>(reason: R) -> (decision: Self)
        ensures
            decision matches Decision::Reject(text) && call_ensures(R::into, (reason,), text),
    {
        Decision::Reject(reason.into())
    }
}

/// The write a hook sees for a framework operation; a read is no write.
pub open spec fn write_action_spec(operation: Operation) -> Option<WriteAction> {
    match operation {
        Operation::Read => None,
        Operation::Create => Some(WriteAction::Create),
        Operation::Update => Some(WriteAction::Update),
        Operation::Delete => Some(WriteAction::Delete),
    }
}

/// The write a hook sees for a framework operation; `None` for a read,
/// which the hooked builders never run a write hook for.
pub fn write_action(operation: Operation) -> (action: Option<WriteAction>)
    ensures
        action == write_action_spec(operation),
{
    match operation {
        Operation::Read => None,
        Operation::Create => Some(WriteAction::Create),
        Operation::Update => Some(WriteAction::Update),
        Operation::Delete => Some(WriteAction::Delete),
    }
}

/// The framework guard a Module hook's decision amounts to: an allow
/// allows, a rejection blocks with its reason.
pub fn guard_of(decision: Decision) -> (guard: Guard)
    ensures
        match decision {
            Decision::Allow => guard matches Guard::Allow,
            Decision::Reject(reason) => guard matches Guard::Block(Some(text)) && text == reason,
        },
{
    match decision {
        Decision::Allow => Guard::Allow,
        Decision::Reject(reason) => Guard::Block(Some(reason)),
    }
}

/// The message of the error a blocked guard becomes: its reason when it
/// gave one, else the fallback that names the guard.
pub fn guard_message(reason: Option<String>, fallback: &str) -> (message: String)
    ensures
        message@ == match reason {
            Some(text) => text@,
            None => fallback@,
        },
{
    match reason {
        Some(text) => text,
        None => fallback.to_owned(),
    }
}

/// One row in a mutation's write set: the proposed row the builder will
/// persist or delete, and for update and delete the row as fetched.
pub enum WriteSetRow<A, M> {
    Create { active_model: A },
    Update { old_model: M, active_model: A },
    Delete { old_model: M, active_model: A },
}

impl<A, M> WriteSetRow<A, M> {
    /// The proposed row.
    pub open spec fn proposed_spec(self) -> A {
        match self {
            WriteSetRow::Create { active_model } => active_model,
            WriteSetRow::Update { active_model, .. } => active_model,
            WriteSetRow::Delete { active_model, .. } => active_model,
        }
    }

    /// The fetched row; none for a create.
    pub open spec fn current_spec(self) -> Option<M> {
        match self {
            WriteSetRow::Create { .. } => None,
            WriteSetRow::Update { old_model, .. } => Some(old_model),
            WriteSetRow::Delete { old_model, .. } => Some(old_model),
        }
    }

    /// Whether two rows are the same write but for their proposed rows.
    pub open spec fn same_but_proposed(self, other: Self) -> bool {
        match (self, other) {
            (WriteSetRow::Create { .. }, WriteSetRow::Create { .. }) => true,
            (WriteSetRow::Update { old_model: a, .. }, WriteSetRow::Update { old_model: b, .. }) => a == b,
            (WriteSetRow::Delete { old_model: a, .. }, WriteSetRow::Delete { old_model: b, .. }) => a == b,
            _ => false,
        }
    }

    /// The proposed row the builder will persist or delete; amending it
    /// amends what is persisted.
    pub fn active_model_mut(&mut self) -> (active_model: &mut A)
        ensures
            *active_model == old(self).proposed_spec(),
            final(self).proposed_spec() == *final(active_model),
            final(self).same_but_proposed(*old(self)),
    {
        match self {
            WriteSetRow::Create { active_model } => active_model,
            WriteSetRow::Update { active_model, .. } => active_model,
            WriteSetRow::Delete { active_model, .. } => active_model,
        }
    }

    /// The proposed row.
    pub fn active_model(&self) -> (active_model: &A)
        ensures
            *active_model == self.proposed_spec(),
    {
        match self {
            WriteSetRow::Create { active_model } => active_model,
            WriteSetRow::Update { active_model, .. } => active_model,
            WriteSetRow::Delete { active_model, .. } => active_model,
        }
    }

    /// The fetched row for update and delete; `None` for a create.
    pub fn old_model(&self) -> (old_model: Option<&M>)
        ensures
            match old_model {
                Some(row) => self.current_spec() == Some(*row),
                None => self.current_spec() is None,
            },
    {
        match self {
            WriteSetRow::Create { .. } => None,
            WriteSetRow::Update { old_model, .. } => Some(old_model),
            WriteSetRow::Delete { old_model, .. } => Some(old_model),
        }
    }
}

/// Every row one mutation is about to write, addressed by index, together
/// with the action that writes them.
pub struct WriteSet<'rows, A, M> {
    action: WriteAction,
    rows: &'rows mut Vec<WriteSetRow<A, M>>,
}

impl<'rows, A, M> WriteSet<'rows, A, M> {
    pub closed spec fn action_spec(&self) -> WriteAction {
        self.action
    }

    pub closed spec fn rows_spec(&self) -> Seq<WriteSetRow<A, M>> {
        self.rows@
    }

    /// The write set of `action` over `rows`.
    pub fn new(action: WriteAction, rows: &'rows mut Vec<WriteSetRow<A, M>>) -> (write: Self)
        ensures
            write.action_spec() == action,
            write.rows_spec() == old(rows)@,
    {
        WriteSet { action, rows }
    }

    pub fn action(&self) -> (action: WriteAction)
        ensures
            action == self.action_spec(),
    {
        self.action
    }

    pub fn len(&self) -> (length: usize)
        ensures
            length == self.rows_spec().len(),
    {
        self.rows.len()
    }

    pub fn is_empty(&self) -> (empty: bool)
        ensures
            empty == (self.rows_spec().len() == 0),
    {
        self.rows.len() == 0
    }

    /// The row as the store holds it. `None` for a create, which has no
    /// prior row, and for an index past the end.
    pub fn current(&self, index: usize) -> (current: Option<&M>)
        ensures
            match current {
                Some(row) => index < self.rows_spec().len() && self.rows_spec()[index as int].current_spec() == Some(*row),
                None => index >= self.rows_spec().len() || self.rows_spec()[index as int].current_spec() is None,
            },
    {
        if index < self.rows.len() {
            self.rows[index].old_model()
        } else {
            None
        }
    }
    /// The row as this mutation proposes to leave it. Amending it here
    /// amends what is persisted; no other row changes.
    pub fn proposed(&mut self, index: usize) -> (proposed: Option<&mut A>)
        ensures
            final(self).action_spec() == old(self).action_spec(),
            final(self).rows_spec().len() == old(self).rows_spec().len(),
            forall|j: int| 0 <= j < old(self).rows_spec().len() && j != index
                ==> #[trigger] final(self).rows_spec()[j] == old(self).rows_spec()[j],
            match proposed {
                Some(row) => {
                    &&& index < old(self).rows_spec().len()
                    &&& *row == old(self).rows_spec()[index as int].proposed_spec()
                    &&& final(self).rows_spec()[index as int].proposed_spec() == *final(row)
                    &&& final(self).rows_spec()[index as int].same_but_proposed(old(self).rows_spec()[index as int])
                },
                None => index >= old(self).rows_spec().len() && final(self).rows_spec() == old(self).rows_spec(),
            },
    {
        if index < self.rows.len() {
            Some(self.rows[index].active_model_mut())
        } else {
            None
        }
    }
}

/// One Module rule about writes to one of its Models. `T` is the
/// mutation's own open transaction: a rule that depends on rows the
/// mutation is not writing reads them through it and sees a consistent
/// picture.
pub trait WriteHook<A, M, T> {
    /// Inspect, amend, or reject the write set.
    fn check(&self, write: &mut WriteSet<'_, A, M>, transaction: &T) -> Decision;
}

/// Runs one Module hook as the framework's set-level hook: a read runs no
/// hook and is allowed; a write of any kind (create, update, or delete)
/// shows the hook exactly the given rows under the write's own action, and
/// the decision the hook returned becomes the guard, so an allow allows and
/// a rejection blocks with the hook's reason.
pub fn run_write_hook<'r, A, M, T, K: WriteHook<A, M, T>>(
    hook: &K,
    operation: Operation,
    rows: &'r mut Vec<WriteSetRow<A, M>>,
    transaction: &T,
) -> (guard: Guard)
    ensures
        operation == Operation::Read ==> (guard matches Guard::Allow) && final(rows)@ == old(rows)@,
        operation != Operation::Read ==> exists|write: &mut WriteSet<'r, A, M>, decision: Decision| {
            &&& Some(write.action_spec()) == write_action_spec(operation)
            &&& write.rows_spec() == old(rows)@
            &&& #[trigger] call_ensures(K::check, (hook, write, transaction), decision)
            &&& match decision {
                Decision::Allow => guard matches Guard::Allow,
                Decision::Reject(reason) => guard == Guard::Block(Some(reason)),
            }
        },
        guard matches Guard::Block(reason) ==> reason is Some,
{
    let action = match write_action(operation) {
        None => {
            return Guard::Allow;
        },
        Some(action) => action,
    };
    let mut write = WriteSet::new(action, rows);
    let check = K::check;
    let decision = check(hook, &mut write, transaction);
    let guard = guard_of(decision);
    guard
}

} // verus!
