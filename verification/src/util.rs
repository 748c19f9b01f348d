//! Messages on the console, and what a thread that panicked left behind.

use vstd::prelude::*;

use crate::text::{concat2, concat3};

verus! {

/// What the environment has to say about a variable.
#[derive(Debug, PartialEq, Eq)]
pub enum EnvReading {
    Value(String),
    NotPresent,
    NotUnicode,
}

/// The value of the environment variable `name`, if it is set. A value that is not text is an error,
/// with the message that the service ends with.
pub fn get_optional_env_var(name: &str, reading: EnvReading) -> (r: Result<Option<String>, String>)
    ensures
        match reading {
            EnvReading::Value(value) => r == Ok::<Option<String>, String>(Some(value)),
            EnvReading::NotPresent => r == Ok::<Option<String>, String>(None),
            EnvReading::NotUnicode => r matches Err(message) && message@
                == "environment variable '"@ + name@ + "' is not a valid UTF8-string"@,
        },
{
    match reading {
        EnvReading::Value(value) => Ok(Some(value)),
        EnvReading::NotPresent => Ok(None),
        EnvReading::NotUnicode => Err(
            concat3("environment variable '", name, "' is not a valid UTF8-string"),
        ),
    }
}

/// The line on the console for a warning.
pub fn warning_line(msg: &str) -> (r: String)
    ensures
        r@ == "garnd: WARNING! "@ + msg@,
{
    concat2("garnd: WARNING! ", msg)
}

/// The message with which the service ends when it fails early.
pub fn early_failure_line(message: &str) -> (r: String)
    ensures
        r@ == "garnd: "@ + message@,
{
    concat2("garnd: ", message)
}

/// What a panic carries.
#[derive(Debug, PartialEq, Eq)]
pub enum PanicPayload<'a> {
    Str(&'a str),
    Text(&'a String),
    /// A value of any other type, as its `Debug` form.
    Other(String),
}

/// The text that a panic carries, or else the payload's `Debug` form.
pub open spec fn panic_message(payload: PanicPayload<'_>) -> Seq<char> {
    match payload {
        PanicPayload::Str(s) => s@,
        PanicPayload::Text(s) => s@,
        PanicPayload::Other(debug) => debug@,
    }
}

/// The message of a panic: the text that it carries, or else the payload's `Debug` form.
pub fn try_extract_error_message(payload: PanicPayload<'_>) -> (r: String)
    ensures
        r@ == panic_message(payload),
{
    match payload {
        PanicPayload::Str(s) => s.to_string(),
        PanicPayload::Text(s) => s.clone(),
        PanicPayload::Other(debug) => debug,
    }
}

} // verus!
