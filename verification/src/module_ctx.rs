//! What a Module's own code meets at request time: the outcome of its
//! atomic work, and the errors its resolvers' arguments raise.
//!
//! A transaction commits when the work returns `Ok` and rolls back when it
//! returns `Err`, so a conflict reported as data still has to be returned
//! through `Ok`. The caller's error leads, because it is the one they can
//! act on; a rollback that also failed is appended rather than replacing it
//! or vanishing.

use vstd::prelude::*;
use crate::text::push_str;

verus! {

/// How a Module's atomic work ends its transaction.
#[derive(Clone, Copy, Debug, PartialEq, Eq, Structural)]
pub enum TransactionEnd {
    Commit,
    Rollback,
}

/// A transaction whose work returned `Ok` commits; one whose work
/// returned `Err` rolls back.
pub fn transaction_end<T, E>(work: &Result<T, E>) -> (end: TransactionEnd)
    ensures
        end == (if work is Ok { TransactionEnd::Commit } else { TransactionEnd::Rollback }),
{
    match work {
        Ok(_) => TransactionEnd::Commit,
        Err(_) => TransactionEnd::Rollback,
    }
}

/// The message of work that failed when its rollback failed too: the
/// work's own message first, then the rollback's.
pub fn rollback_failed_message(error: &str, rollback: &str) -> (message: String)
    ensures
        message@ == error@ + "; the transaction also failed to roll back: "@ + rollback@,
{
    let mut message = error.to_owned();
    push_str(&mut message, "; the transaction also failed to roll back: ");
    push_str(&mut message, rollback);
    message
}

/// The message of a resolver argument that could not be read: the field,
/// the argument, and why.
pub fn argument_error_message(field: &str, argument: &str, error: &str) -> (message: String)
    ensures
        message@ == field@ + ": could not read argument "@ + argument@ + ": "@ + error@,
{
    let mut message = field.to_owned();
    push_str(&mut message, ": could not read argument ");
    push_str(&mut message, argument);
    push_str(&mut message, ": ");
    push_str(&mut message, error);
    message
}

} // verus!
