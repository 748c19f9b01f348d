//! What destructors make of failures.
//!
//! A destructor that fails panics, so that the failure is noticed. While the thread is panicking
//! already it must not, because that would abort the process: then it warns.

use vstd::prelude::*;

use crate::text::concat2;
use crate::util::{panic_message, try_extract_error_message, PanicPayload};

verus! {

/// What a destructor does at its end.
#[derive(Debug, PartialEq, Eq)]
pub enum Disposal {
    /// Nothing, because nothing failed.
    Quiet,
    /// Warns with this message.
    Warn(String),
    /// Panics with what failed.
    Panic,
}

/// Whether `r` is what a destructor does that failed, if it did, with the given message, on a thread
/// that is panicking or not.
pub open spec fn disposes(r: Disposal, failure: Option<Seq<char>>, panicking: bool) -> bool {
    match failure {
        None => r is Quiet,
        Some(message) => if panicking {
            r matches Disposal::Warn(warning) && warning@ == message
        } else {
            r is Panic
        },
    }
}

/// After the thread of a `JoinGuard` has been joined: `panic` is what the thread panicked with.
pub fn after_join(panic: Option<PanicPayload<'_>>, panicking: bool) -> (r: Disposal)
    ensures
        disposes(
            r,
            match panic {
                Some(payload) => Some(
                    "Joining thread in the destructor of JoinGuard failed: "@ + panic_message(
                        payload,
                    ),
                ),
                None => None,
            },
            panicking,
        ),
{
    match panic {
        None => Disposal::Quiet,
        Some(payload) => if panicking {
            let message = try_extract_error_message(payload);
            Disposal::Warn(
                concat2("Joining thread in the destructor of JoinGuard failed: ", message.as_str()),
            )
        } else {
            Disposal::Panic
        },
    }
}

fn after_signal(what: &str, error: Option<&str>, panicking: bool) -> (r: Disposal)
    ensures
        disposes(
            r,
            match error {
                Some(e) => Some(what@ + e@),
                None => None,
            },
            panicking,
        ),
{
    match error {
        None => Disposal::Quiet,
        Some(e) => if panicking {
            Disposal::Warn(concat2(what, e))
        } else {
            Disposal::Panic
        },
    }
}

/// After a listening runtime has signalled the welcome thread to shut down: `error` is why it could
/// not.
pub fn after_shutdown(error: Option<&str>, panicking: bool) -> (r: Disposal)
    ensures
        disposes(
            r,
            match error {
                Some(e) => Some("signaling welcome thread failed: "@ + e@),
                None => None,
            },
            panicking,
        ),
{
    after_signal("signaling welcome thread failed: ", error, panicking)
}

/// After an environment has signalled its thread to end: `error` is why it could not.
pub fn after_environment_drop(error: Option<&str>, panicking: bool) -> (r: Disposal)
    ensures
        disposes(
            r,
            match error {
                Some(e) => Some("Environment panicked while destructing: "@ + e@),
                None => None,
            },
            panicking,
        ),
{
    after_signal("Environment panicked while destructing: ", error, panicking)
}

/// The warning for a page of shared memory that could not be unmapped.
pub fn unmap_warning(error: &str) -> (r: String)
    ensures
        r@ == "unmapping of shared memory failed: "@ + error@,
{
    concat2("unmapping of shared memory failed: ", error)
}

/// The panic that the destruction of shared memory passes on once all resources have been destroyed
/// and all pages unmapped: of what the destructors panicked with, in their order, the first.
pub open spec fn first_panic_of<P>(outcomes: Seq<Result<(), P>>) -> Option<P>
    decreases outcomes.len(),
{
    if outcomes.len() == 0 {
        None
    } else {
        match outcomes[0] {
            Err(panic) => Some(panic),
            Ok(_) => first_panic_of(outcomes.drop_first()),
        }
    }
}

/// A destructor never panics while its thread is panicking, and it is quiet exactly if nothing
/// failed.
pub proof fn law_no_panic_while_panicking(
    r: Disposal,
    failure: Option<Seq<char>>,
    panicking: bool,
)
    requires
        disposes(r, failure, panicking),
    ensures
        panicking ==> r !is Panic,
        r is Quiet <==> failure is None,
{
}

/// The panic that is passed on is one of those that there were, and none came before it.
pub proof fn law_first_panic_is_first<P>(outcomes: Seq<Result<(), P>>, i: int)
    requires
        0 <= i < outcomes.len(),
        outcomes[i] is Err,
        forall|k: int| 0 <= k < i ==> outcomes[k] is Ok,
    ensures
        first_panic_of(outcomes) == Some(outcomes[i]->Err_0),
    decreases i,
{
    if i > 0 {
        assert(outcomes[0] is Ok);
        law_first_panic_is_first(outcomes.drop_first(), i - 1);
    }
}

} // verus!
