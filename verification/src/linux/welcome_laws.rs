//! What can be relied on of the thread that welcomes clients.

use vstd::prelude::*;
use vstd::utf8::{encode_utf8, encode_utf8_decode_utf8, encode_utf8_valid_utf8};

use crate::linux::service_error::Failure;
use crate::linux::welcome_thread::{
    happened, Revents, WelcomeAction, WelcomeEvent, WelcomePhase, WelcomeState,
};
use crate::protocol::{WelcomeRequest, WelcomeResponse};

verus! {

/// An environment is only made where there is none of that name, and a client is only handed over
/// to an environment that exists.
pub open spec fn sound<V, E>(state: WelcomeState<V, E>) -> bool {
    match state.phase {
        WelcomePhase::Creating { name } => !state.environments.contains_key(name),
        WelcomePhase::Admitting { name, created } => created is None
            <==> state.environments.contains_key(name),
        _ => true,
    }
}

/// The error that an event carries.
pub open spec fn error_in<V, E>(event: WelcomeEvent<Seq<char>, Seq<u8>, V, E>) -> Option<E> {
    match event {
        WelcomeEvent::CloseEventCreated(Err(e)) => Some(e),
        WelcomeEvent::Listened(Err(e)) => Some(e),
        WelcomeEvent::Polled(Err(e)) => Some(e),
        WelcomeEvent::ShutdownEventRead(Err(e)) => Some(e),
        WelcomeEvent::CloseEventRead(Err(e)) => Some(e),
        WelcomeEvent::NameReceived(Err(e)) => Some(e),
        WelcomeEvent::RequestReceived(Err(e)) => Some(e),
        WelcomeEvent::EnvironmentCreated(Err(e)) => Some(e),
        WelcomeEvent::Responded(Err(e)) => Some(e),
        _ => None,
    }
}

/// The thread begins in a sound state and never leaves the sound states. A client is handed over
/// only to an environment that is there.
pub proof fn law_states_stay_sound<V, E>(
    state: WelcomeState<V, E>,
    event: WelcomeEvent<Seq<char>, Seq<u8>, V, E>,
)
    requires
        sound(state),
        state.expects(event),
    ensures
        sound(WelcomeState::<V, E>::start().state),
        sound(state.next(event).state),
        state.next(event).action matches WelcomeAction::AddClient(name)
            ==> state.next(event).state.environments.contains_key(name),
        state.next(event).action matches WelcomeAction::CreateEnvironment(name)
            ==> !state.next(event).state.environments.contains_key(name),
{
}

/// No error is lost: it is reported at once, or, where an environment could not be made, as the
/// first one after the client has been answered.
pub proof fn law_errors_are_reported<V, E>(
    state: WelcomeState<V, E>,
    event: WelcomeEvent<Seq<char>, Seq<u8>, V, E>,
    answered: Result<(), E>,
)
    requires
        state.expects(event),
    ensures
        error_in(event) matches Some(e) ==> {
            let after = state.next(event);
            if event is EnvironmentCreated {
                let later = after.state.next(WelcomeEvent::Responded(answered));
                &&& after.state.phase == WelcomePhase::<Seq<char>, V, E>::Declining { error: e }
                &&& later.reports.len() > 0
                &&& later.reports[0] == Failure::Outside(e)
            } else {
                after.reports.contains(Failure::Outside(e))
            }
        },
{
    if let Some(e) = error_in(event) {
        let reports = state.next(event).reports;
        if event is EnvironmentCreated {
        } else if event is Responded && state.phase is Declining {
            assert(reports[1] == Failure::Outside(e));
        } else {
            assert(reports[0] == Failure::Outside(e));
        }
    }
}

/// When the service is shut down, nothing else is done any more: the event is read, and the thread
/// ends.
pub proof fn law_shutdown_comes_first<V, E>(
    state: WelcomeState<V, E>,
    revents: Revents,
    read: Result<(), E>,
)
    requires
        state.phase is Polling,
        happened(revents.shutdown),
    ensures
        ({
            let reading = state.next(WelcomeEvent::Polled(Ok(revents)));
            let read = reading.state.next(WelcomeEvent::ShutdownEventRead(read));
            &&& reading.action is ReadShutdownEvent
            &&& reading.state.environments == state.environments
            &&& read.action is Stop
            &&& read.state.environments == state.environments
        }),
{
}

/// A thread that has ended expects nothing, and the thread asks for its end exactly when it has
/// ended.
pub proof fn law_stop_is_final<V, E>(
    state: WelcomeState<V, E>,
    event: WelcomeEvent<Seq<char>, Seq<u8>, V, E>,
)
    ensures
        state.phase is Stopped ==> !state.expects(event),
        state.expects(event) ==> (state.next(event).action is Stop
            <==> state.next(event).state.phase is Stopped),
{
}

/// Whatever a client asks and however it fails to take the answer, the thread goes on.
pub proof fn law_clients_do_not_stop_the_thread<V, E>(
    state: WelcomeState<V, E>,
    event: WelcomeEvent<Seq<char>, Seq<u8>, V, E>,
)
    requires
        state.expects(event),
        event is RequestReceived || event is RequestParsed || event is EnvironmentCreated
            || event is Responded || event is ClientAdded,
    ensures
        state.next(event).action !is Stop,
{
}

/// A request that is not UTF-8, or that is no request, is answered as malformed, and nothing else
/// comes of it.
pub proof fn law_malformed_requests_are_refused<V, E>(
    state: WelcomeState<V, E>,
    bytes: Seq<u8>,
    sent: Result<(), E>,
)
    requires
        state.phase is ReceivingRequest,
    ensures
        ({
            let received = state.next(WelcomeEvent::RequestReceived(Ok(bytes)));
            let refused = if received.action is ParseRequest {
                received.state.next(WelcomeEvent::RequestParsed(None))
            } else {
                received
            };
            let after = refused.state.next(WelcomeEvent::Responded(sent));
            &&& refused.action == WelcomeAction::<Seq<char>>::Respond(
                WelcomeResponse::MalformedRequest,
            )
            &&& after.action is Poll
            &&& after.state.environments == state.environments
        }),
{
}

/// A client that sends a text has exactly that text parsed.
pub proof fn law_requests_are_read_as_sent<V, E>(state: WelcomeState<V, E>, text: Seq<char>)
    requires
        state.phase is ReceivingRequest,
    ensures
        state.next(WelcomeEvent::RequestReceived(Ok(encode_utf8(text)))).action
            == WelcomeAction::ParseRequest(text),
{
    encode_utf8_valid_utf8(text);
    encode_utf8_decode_utf8(text);
}

/// The first client that asks for an environment has it made; it is known from then on exactly if
/// the client has been told so. Every later client is handed over to that same environment.
pub proof fn law_environments_are_shared<V, E>(
    state: WelcomeState<V, E>,
    name: Seq<char>,
    environment: V,
    told: Result<(), E>,
)
    requires
        state.phase is Parsing,
        !state.environments.contains_key(name),
    ensures
        ({
            let request = WelcomeEvent::RequestParsed(Some(WelcomeRequest::OpenEnvironment(name)));
            let creating = state.next(request);
            let admitting = creating.state.next(WelcomeEvent::EnvironmentCreated(Ok(environment)));
            let after = admitting.state.next(WelcomeEvent::Responded(told));
            &&& creating.action == WelcomeAction::CreateEnvironment(name)
            &&& admitting.action == WelcomeAction::<Seq<char>>::Respond(
                WelcomeResponse::OpenEnvironmentOk,
            )
            &&& after.state.environments == if told is Ok {
                state.environments.insert(name, environment)
            } else {
                state.environments
            }
            &&& told is Ok ==> {
                let again = WelcomeState::<V, E> {
                    phase: WelcomePhase::Parsing,
                    ..after.state
                }.next(request);
                let joining = again.state.next(WelcomeEvent::Responded(Ok(())));
                &&& again.action == WelcomeAction::<Seq<char>>::Respond(
                    WelcomeResponse::OpenEnvironmentOk,
                )
                &&& joining.action == WelcomeAction::AddClient(name)
                &&& joining.state.environments == after.state.environments
                &&& joining.state.environments[name] == environment
            }
        }),
{
}

/// The environments that are known change in two ways only: one is added that a client has been
/// told of, and one is removed that has said that it has closed.
pub proof fn law_environments_change_by_name<V, E>(
    state: WelcomeState<V, E>,
    event: WelcomeEvent<Seq<char>, Seq<u8>, V, E>,
    name: Seq<char>,
)
    requires
        sound(state),
        state.expects(event),
    ensures
        ({
            let before = state.environments;
            let after = state.next(event).state.environments;
            &&& before.contains_key(name) && after.contains_key(name) ==> after[name]
                == before[name]
            &&& !before.contains_key(name) && after.contains_key(name) ==> state.phase
                == (WelcomePhase::<Seq<char>, V, E>::Admitting { name, created: Some(after[name]) })
                && (event matches WelcomeEvent::Responded(sent) && sent is Ok)
            &&& before.contains_key(name) && !after.contains_key(name) ==> event
                == WelcomeEvent::<Seq<char>, Seq<u8>, V, E>::NameReceived(Ok(name))
        }),
{
}

} // verus!
