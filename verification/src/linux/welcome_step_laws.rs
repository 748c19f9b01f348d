//! What each step of the thread that welcomes clients does, in terms of what goes into it and what
//! comes out.

use vstd::prelude::*;
use vstd::utf8::{decode_utf8, valid_utf8};

use crate::linux::runtime_error::RuntimeError;
use crate::linux::service_error::{Failure, ServiceError};
use crate::linux::welcome_thread::{
    WelcomeAction, WelcomeEvent, WelcomePhase, WelcomeStep, WelcomeThread,
};
use crate::protocol::{WelcomeRequest, WelcomeResponse};

verus! {

/// The outcome of an action, as the thread is told it.
pub type Told<V, E> = WelcomeEvent<String, Vec<u8>, V, E>;

/// What comes of a step: the thread as it goes on, and what is to be done.
pub type Done<V, E> = (WelcomeThread<V, E>, WelcomeStep<E>);

/// The thread begins without environments, by making the event that tells of closed ones: one on which
/// nothing is pending, which does not block and is closed on `exec`.
pub proof fn law_the_thread_begins<V, E>(r: Done<V, E>)
    requires
        call_ensures(WelcomeThread::<V, E>::start, (), r),
    ensures
        forall|name: Seq<char>| !#[trigger] r.0@.environments.contains_key(name),
        r.0@.phase is CreatingCloseEvent,
        r.1.reports@.len() == 0,
        r.1.action == (WelcomeAction::<String>::CreateCloseEvent { start: 0, flags: 0x80800 }),
{
}

/// An environment is known under its name exactly if there is one.
pub proof fn law_environments_are_known_by_name<V, E>(
    thread: &WelcomeThread<V, E>,
    name: &str,
    r: Option<&V>,
)
    requires
        call_ensures(WelcomeThread::<V, E>::environment, (thread, name), r),
    ensures
        r is Some <==> thread@.environments.contains_key(name@),
        r matches Some(environment) ==> *environment == thread@.environments[name@],
{
}

/// Clients can come once the event has been made and the socket listens, as many of them as the system
/// allows waiting. What goes wrong before that, or while the thread waits, ends it.
pub proof fn law_the_thread_gets_ready<V, E>(
    thread: WelcomeThread<V, E>,
    told: Told<V, E>,
    r: Done<V, E>,
)
    requires
        call_ensures(WelcomeThread::<V, E>::next, (thread, told), r),
    ensures
        told matches WelcomeEvent::CloseEventCreated(Ok(_)) ==> r.0@.phase is Listening
            && r.1.action == (WelcomeAction::<String>::Listen { backlog: 4096 }),
        told matches WelcomeEvent::Listened(Ok(_)) ==> r.0@.phase is Polling && r.1.action == (
        WelcomeAction::<String>::Poll { events: 1 }),
        (told matches WelcomeEvent::CloseEventCreated(made) && made is Err) || (told matches
            WelcomeEvent::Listened(listened) && listened is Err) || (told matches
            WelcomeEvent::Polled(polled) && polled is Err) ==> r.0@.phase is Stopped
            && r.1.action is Stop,
        told is CloseEventCreated || told is Listened || told is Polled || (told matches
            WelcomeEvent::NameReceived(received) && received is Err) ==> r.0@.environments
            == thread@.environments,
{
}

/// Of what has happened, a shutdown comes first, then an environment that has closed, and then a
/// client; where nothing has happened, the thread waits again. A welcome socket on which something
/// has happened but nothing can be read has broken down, and the thread ends.
pub proof fn law_what_happens_is_dealt_with<V, E>(
    thread: WelcomeThread<V, E>,
    told: Told<V, E>,
    r: Done<V, E>,
    welcome: Option<i16>,
)
    requires
        call_ensures(WelcomeThread::<V, E>::next, (thread, told), r),
        match told {
            WelcomeEvent::Polled(Ok(revents)) => {
                &&& revents.shutdown is None || revents.shutdown == Some(0i16)
                &&& revents.close_env is None || revents.close_env == Some(0i16)
                &&& welcome == revents.welcome
            },
            WelcomeEvent::NameReceived(Ok(_)) => thread@.phase == (WelcomePhase::<
                Seq<char>,
                V,
                E,
            >::ReceivingName { welcome }),
            _ => false,
        },
    ensures
        match welcome {
            Some(bits) => if bits == 0 {
                &&& r.0@.phase is Polling
                &&& r.1.action == (WelcomeAction::<String>::Poll { events: 1 })
                &&& r.1.reports@.len() == 0
            } else if bits & 1 == 1 {
                &&& r.0@.phase is ReceivingRequest
                &&& r.1.action is ReceiveRequest
                &&& r.1.reports@.len() == 0
            } else {
                &&& r.0@.phase is Stopped
                &&& r.1.action is Stop
                &&& r.1.reports@.len() == 1
                &&& r.1.reports@[0] == Failure::<E>::Service(
                    ServiceError::Runtime(RuntimeError::WelcomeSocketFailed),
                )
            },
            None => {
                &&& r.0@.phase is Polling
                &&& r.1.action == (WelcomeAction::<String>::Poll { events: 1 })
                &&& r.1.reports@.len() == 0
            },
        },
{
}

/// A shutdown is dealt with before anything else that has happened, and it ends the thread. Then an
/// environment that has closed is dealt with: its event is read, and whether or not that succeeds,
/// its name is received; what has been said of clients meanwhile is not forgotten.
pub proof fn law_shutdown_and_closing_come_first<V, E>(
    thread: WelcomeThread<V, E>,
    told: Told<V, E>,
    r: Done<V, E>,
)
    requires
        call_ensures(WelcomeThread::<V, E>::next, (thread, told), r),
    ensures
        told matches WelcomeEvent::Polled(Ok(revents)) ==> {
            let shut_down = revents.shutdown is Some && revents.shutdown != Some(0i16);
            let closed = revents.close_env is Some && revents.close_env != Some(0i16);
            &&& shut_down ==> r.0@.phase is ReadingShutdownEvent && r.1.action is ReadShutdownEvent
            &&& !shut_down && closed ==> r.1.action is ReadCloseEvent && r.0@.phase == (
            WelcomePhase::<Seq<char>, V, E>::ReadingCloseEvent { welcome: revents.welcome })
            &&& !shut_down && !closed ==> r.1.action !is ReadShutdownEvent && r.1.action
                !is ReadCloseEvent
        },
        told is ShutdownEventRead ==> r.0@.phase is Stopped && r.1.action is Stop
            && r.0@.environments == thread@.environments,
        told is CloseEventRead ==> {
            &&& r.1.action is ReceiveName
            &&& r.0@.environments == thread@.environments
            &&& thread@.phase matches WelcomePhase::ReadingCloseEvent { welcome } ==> r.0@.phase
                == (WelcomePhase::<Seq<char>, V, E>::ReceivingName { welcome })
        },
{
}

/// An environment that has said that it has closed is forgotten, it and no other.
pub proof fn law_closed_environments_are_forgotten<V, E>(
    thread: WelcomeThread<V, E>,
    name: String,
    r: Done<V, E>,
    other: Seq<char>,
)
    requires
        call_ensures(
            WelcomeThread::<V, E>::next,
            (thread, WelcomeEvent::NameReceived(Ok(name))),
            r,
        ),
    ensures
        r.0@.environments == thread@.environments.remove(name@),
        !r.0@.environments.contains_key(name@),
        other != name@ ==> (r.0@.environments.contains_key(other)
            <==> thread@.environments.contains_key(other)),
        r.0@.environments.contains_key(other) ==> r.0@.environments[other]
            == thread@.environments[other],
{
}

/// Who asks for an environment after it has said that it has closed, has it made anew, as long as it
/// has not been made again meanwhile.
pub proof fn law_closed_environments_are_made_anew<V, E>(
    thread: WelcomeThread<V, E>,
    name: String,
    r: Done<V, E>,
    later: WelcomeThread<V, E>,
    asked: String,
    answer: Done<V, E>,
)
    requires
        call_ensures(
            WelcomeThread::<V, E>::next,
            (thread, WelcomeEvent::NameReceived(Ok(name))),
            r,
        ),
        later@.environments == r.0@.environments,
        asked@ == name@,
        call_ensures(
            WelcomeThread::<V, E>::next,
            (later, WelcomeEvent::RequestParsed(Some(WelcomeRequest::OpenEnvironment(asked)))),
            answer,
        ),
    ensures
        answer.1.action matches WelcomeAction::CreateEnvironment(made) && made@ == name@,
{
}

/// The bytes of a request are read as UTF-8. What is no UTF-8, and what is no request, is answered as
/// malformed. Who asks for an environment that is known is let in; otherwise it is made, under the
/// name that is asked for.
pub proof fn law_requests_are_understood<V, E>(
    thread: WelcomeThread<V, E>,
    told: Told<V, E>,
    r: Done<V, E>,
)
    requires
        call_ensures(WelcomeThread::<V, E>::next, (thread, told), r),
    ensures
        match told {
            WelcomeEvent::RequestReceived(Ok(bytes)) => if valid_utf8(bytes@) {
                &&& r.0@.phase is Parsing
                &&& r.1.action matches WelcomeAction::ParseRequest(text) && text@ == decode_utf8(
                    bytes@,
                )
            } else {
                &&& r.0@.phase is Refusing
                &&& r.1.action == WelcomeAction::<String>::Respond(
                    WelcomeResponse::MalformedRequest,
                )
            },
            WelcomeEvent::RequestReceived(Err(_)) => r.0@.phase is Polling && r.1.action == (
            WelcomeAction::<String>::Poll { events: 1 }),
            WelcomeEvent::RequestParsed(Some(WelcomeRequest::OpenEnvironment(name))) => {
                if thread@.environments.contains_key(name@) {
                    &&& r.0@.phase == (WelcomePhase::<Seq<char>, V, E>::Admitting {
                        name: name@,
                        created: None,
                    })
                    &&& r.1.action == WelcomeAction::<String>::Respond(
                        WelcomeResponse::OpenEnvironmentOk,
                    )
                } else {
                    &&& r.0@.phase == (WelcomePhase::<Seq<char>, V, E>::Creating { name: name@ })
                    &&& r.1.action matches WelcomeAction::CreateEnvironment(made) && made@ == name@
                }
            },
            WelcomeEvent::RequestParsed(None) => r.0@.phase is Refusing && r.1.action
                == WelcomeAction::<String>::Respond(WelcomeResponse::MalformedRequest),
            _ => true,
        },
        told is RequestReceived || told is RequestParsed ==> r.0@.environments
            == thread@.environments,
{
}

/// An environment that has been made is offered to the client who asked for it; where it could not be
/// made, the client is told of an internal error, and nothing is known of it.
pub proof fn law_new_environments_are_offered<V, E>(
    thread: WelcomeThread<V, E>,
    name: Seq<char>,
    created: Result<V, E>,
    r: Done<V, E>,
)
    requires
        thread@.phase == (WelcomePhase::<Seq<char>, V, E>::Creating { name }),
        call_ensures(
            WelcomeThread::<V, E>::next,
            (thread, WelcomeEvent::EnvironmentCreated(created)),
            r,
        ),
    ensures
        r.0@.environments == thread@.environments,
        r.1.reports@.len() == 0,
        match created {
            Ok(environment) => {
                &&& r.0@.phase == (WelcomePhase::<Seq<char>, V, E>::Admitting {
                    name,
                    created: Some(environment),
                })
                &&& r.1.action == WelcomeAction::<String>::Respond(
                    WelcomeResponse::OpenEnvironmentOk,
                )
            },
            Err(error) => {
                &&& r.0@.phase == (WelcomePhase::<Seq<char>, V, E>::Declining { error })
                &&& r.1.action == WelcomeAction::<String>::Respond(WelcomeResponse::InternalError)
            },
        },
{
}

/// Once a client has got its answer, the thread waits again. A client that has been told that its
/// environment is open gets into it: into the new one, which is known from then on under the name that
/// was asked for, or into the old one of that name, by an action of its own. An environment of which
/// nobody could be told is not known.
pub proof fn law_answers_have_their_consequences<V, E>(
    thread: WelcomeThread<V, E>,
    sent: Result<(), E>,
    r: Done<V, E>,
)
    requires
        call_ensures(
            WelcomeThread::<V, E>::next,
            (thread, WelcomeEvent::Responded(sent)),
            r,
        ),
    ensures
        match thread@.phase {
            WelcomePhase::Admitting { name, created: Some(environment) } => if sent is Ok {
                &&& r.0@.environments == thread@.environments.insert(name, environment)
                &&& r.0@.phase is Polling
                &&& r.1.action == (WelcomeAction::<String>::Poll { events: 1 })
            } else {
                &&& r.0@.environments == thread@.environments
                &&& r.0@.phase is Polling
                &&& r.1.action == (WelcomeAction::<String>::Poll { events: 1 })
            },
            WelcomePhase::Admitting { name, created: None } => if sent is Ok {
                &&& r.0@.environments == thread@.environments
                &&& r.0@.phase is AddingClient
                &&& r.1.action matches WelcomeAction::AddClient(joined) && joined@ == name
            } else {
                &&& r.0@.environments == thread@.environments
                &&& r.0@.phase is Polling
                &&& r.1.action == (WelcomeAction::<String>::Poll { events: 1 })
            },
            _ => {
                &&& r.0@.environments == thread@.environments
                &&& r.0@.phase is Polling
                &&& r.1.action == (WelcomeAction::<String>::Poll { events: 1 })
            },
        },
{
}

/// A client that has been handed over is no concern of the thread any more: it waits again.
pub proof fn law_clients_are_handed_over<V, E>(thread: WelcomeThread<V, E>, r: Done<V, E>)
    requires
        call_ensures(WelcomeThread::<V, E>::next, (thread, WelcomeEvent::ClientAdded), r),
    ensures
        r.0@.environments == thread@.environments,
        r.0@.phase is Polling,
        r.1.action == (WelcomeAction::<String>::Poll { events: 1 }),
        r.1.reports@.len() == 0,
{
}

/// Every error is reported with the step that it turns up in, but for an environment that could not be
/// made: there the client is answered first, and then both errors are reported, in their order.
/// Nothing else is reported but that the welcome socket has broken down.
pub proof fn law_every_error_is_reported<V, E>(
    thread: WelcomeThread<V, E>,
    told: Told<V, E>,
    r: Done<V, E>,
)
    requires
        call_ensures(WelcomeThread::<V, E>::next, (thread, told), r),
        thread@.expects(told@),
    ensures
        match told {
            WelcomeEvent::CloseEventCreated(Err(e)) => r.1.reports@ == seq![Failure::Outside(e)],
            WelcomeEvent::Listened(Err(e)) => r.1.reports@ == seq![Failure::Outside(e)],
            WelcomeEvent::Polled(Err(e)) => r.1.reports@ == seq![Failure::Outside(e)],
            WelcomeEvent::ShutdownEventRead(Err(e)) => r.1.reports@ == seq![Failure::Outside(e)],
            WelcomeEvent::CloseEventRead(Err(e)) => r.1.reports@ == seq![Failure::Outside(e)],
            WelcomeEvent::NameReceived(Err(e)) => r.1.reports@ == seq![Failure::Outside(e)] && (
            r.0@.phase is Stopped && r.1.action is Stop),
            WelcomeEvent::RequestReceived(Err(e)) => r.1.reports@ == seq![Failure::Outside(e)],
            WelcomeEvent::Responded(sent) => {
                let declined = match thread@.phase {
                    WelcomePhase::Declining { error } => seq![Failure::Outside(error)],
                    _ => seq![],
                };
                match sent {
                    Ok(_) => r.1.reports@ == declined,
                    Err(e) => r.1.reports@ == declined.push(Failure::Outside(e)),
                }
            },
            WelcomeEvent::Polled(Ok(_)) => r.1.action !is Stop ==> r.1.reports@.len() == 0,
            WelcomeEvent::NameReceived(Ok(_)) => r.1.action !is Stop ==> r.1.reports@.len() == 0,
            _ => r.1.reports@.len() == 0,
        },
{
}

/// Whether an event is the outcome of an action.
pub open spec fn is_outcome_of<V, E>(told: Told<V, E>, action: WelcomeAction<String>) -> bool {
    match action {
        WelcomeAction::CreateCloseEvent { .. } => told is CloseEventCreated,
        WelcomeAction::Listen { .. } => told is Listened,
        WelcomeAction::Poll { .. } => told is Polled,
        WelcomeAction::ReadShutdownEvent => told is ShutdownEventRead,
        WelcomeAction::ReadCloseEvent => told is CloseEventRead,
        WelcomeAction::ReceiveName => told is NameReceived,
        WelcomeAction::ReceiveRequest => told is RequestReceived,
        WelcomeAction::ParseRequest(_) => told is RequestParsed,
        WelcomeAction::CreateEnvironment(_) => told is EnvironmentCreated,
        WelcomeAction::Respond(_) => told is Responded,
        WelcomeAction::AddClient(_) => told is ClientAdded,
        WelcomeAction::Stop => false,
    }
}

/// What the thread expects is the outcome of the action that it has asked for, whatever that outcome
/// is, and nothing else.
pub proof fn law_outcomes_are_expected<V, E>(
    thread: WelcomeThread<V, E>,
    told: Told<V, E>,
    r: Done<V, E>,
    outcome: Told<V, E>,
    expected: bool,
)
    requires
        thread@.expects(told@),
        call_ensures(WelcomeThread::<V, E>::next, (thread, told), r),
        call_ensures(WelcomeThread::<V, E>::expects, (&r.0, &outcome), expected),
    ensures
        expected == is_outcome_of(outcome, r.1.action),
        expected == r.0@.expects(outcome@),
{
}

/// At its beginning, too, the thread expects the outcome of the action that it has asked for.
pub proof fn law_first_outcome_is_expected<V, E>(
    r: Done<V, E>,
    outcome: Told<V, E>,
    expected: bool,
)
    requires
        call_ensures(WelcomeThread::<V, E>::start, (), r),
        call_ensures(WelcomeThread::<V, E>::expects, (&r.0, &outcome), expected),
    ensures
        expected == is_outcome_of(outcome, r.1.action),
        expected == r.0@.expects(outcome@),
{
}

} // verus!
