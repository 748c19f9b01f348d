//! What clients and the service say to each other.

use vstd::prelude::*;

verus! {

/// What a client asks of the service. The name is a text, `String` for one that is held.
#[derive(Debug, PartialEq, Eq)]
pub enum WelcomeRequest<S = String> {
    OpenEnvironment(S),
}

/// How the service answers.
#[derive(Debug, Copy, Clone, PartialEq, Eq)]
pub enum WelcomeResponse {
    MalformedRequest,
    InternalError,
    OpenEnvironmentOk,
}

/// What a client asks of an environment.
#[derive(Debug, PartialEq, Eq)]
pub enum EnvironmentRequest<S = String> {
    OpenMutex(S),
}

/// How an environment answers. A mutex is given by its page and its offset in the page.
#[derive(Debug, Copy, Clone, PartialEq, Eq)]
pub enum EnvironmentResponse {
    MalformedRequest,
    InternalError,
    OpenMutexOk(usize, usize),
}

impl View for WelcomeRequest<String> {
    type V = WelcomeRequest<Seq<char>>;

    open spec fn view(&self) -> WelcomeRequest<Seq<char>> {
        match self {
            WelcomeRequest::OpenEnvironment(name) => WelcomeRequest::OpenEnvironment(name@),
        }
    }
}

impl View for EnvironmentRequest<String> {
    type V = EnvironmentRequest<Seq<char>>;

    open spec fn view(&self) -> EnvironmentRequest<Seq<char>> {
        match self {
            EnvironmentRequest::OpenMutex(name) => EnvironmentRequest::OpenMutex(name@),
        }
    }
}

} // verus!
