//! What can go wrong while the service works: its own errors and those of the system below it.

use vstd::prelude::*;

use crate::linux::runtime_error::RuntimeError;

verus! {

/// Why the service cannot go on.
#[derive(Debug, PartialEq, Eq)]
pub enum ServiceError {
    /// A condition that the service itself checks.
    Runtime(RuntimeError),
    /// A call into the system failed with this `errno`.
    Os(i32),
    /// The secure bits of the process could not be read, for this `errno`.
    SecureBits(i32),
    /// The capabilities of the process could not be read, for the reason that is given.
    Capabilities(String),
    /// The system names a page size that no page can have.
    PageSizeOutOfRange,
    /// The working directory belongs to a user or a group that has no entry in the system's
    /// database.
    OwnerUnknown,
}

/// Why an operation failed that runs steps of its caller.
#[derive(Debug, PartialEq, Eq)]
pub enum Failure<E> {
    /// The operation itself failed.
    Service(ServiceError),
    /// A step that the caller supplied failed.
    Outside(E),
}

/// The error that a step of the caller leaves behind, if it failed.
pub open spec fn errors_of<T, E>(outcome: Result<T, E>) -> Seq<Failure<E>> {
    match outcome {
        Ok(_) => seq![],
        Err(e) => seq![Failure::Outside(e)],
    }
}

pub(crate) fn single<E>(failure: Failure<E>) -> (r: Vec<Failure<E>>)
    ensures
        r@ == seq![failure],
{
    let mut r: Vec<Failure<E>> = Vec::new();
    r.push(failure);
    r
}

pub(crate) fn error_of<E>(outcome: Result<(), E>) -> (r: Vec<Failure<E>>)
    ensures
        r@ == errors_of(outcome),
{
    match outcome {
        Ok(_) => Vec::new(),
        Err(e) => single(Failure::Outside(e)),
    }
}

} // verus!
