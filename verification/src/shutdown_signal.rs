//! The request to shut the service down.

use vstd::prelude::*;

verus! {

/// Travels the way of the errors and ends the service when it arrives.
#[derive(Debug, PartialEq, Eq)]
pub struct ShutdownSignal {}

impl ShutdownSignal {
    /// What the log says about the request.
    pub fn message(&self) -> (r: String)
        ensures
            r@ == "Service shutdown requested."@,
    {
        "Service shutdown requested.".to_string()
    }
}

} // verus!
