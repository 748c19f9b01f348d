use garnd::linux::runtime_error::RuntimeError;
use garnd::linux::service_error::{Failure, ServiceError};
use garnd::linux::welcome_thread::{
    Revents, WelcomeAction, WelcomeEvent, WelcomeStep, WelcomeThread, POLLIN,
};
use garnd::protocol::{WelcomeRequest, WelcomeResponse};

type Thread = WelcomeThread<u32, &'static str>;
type Event = WelcomeEvent<String, Vec<u8>, u32, &'static str>;
type Step = WelcomeStep<&'static str>;

const QUIET: Revents = Revents { shutdown: Some(0), close_env: Some(0), welcome: Some(0) };
const REQUEST: Revents = Revents { shutdown: Some(0), close_env: Some(0), welcome: Some(POLLIN) };

const POLL: WelcomeAction = WelcomeAction::Poll { events: POLLIN };

fn go(thread: Thread, event: Event) -> (Thread, Step) {
    assert!(thread.expects(&event));
    thread.next(event)
}

fn step(action: WelcomeAction) -> Step {
    WelcomeStep { reports: vec![], action }
}

fn failed(error: &'static str, action: WelcomeAction) -> Step {
    WelcomeStep { reports: vec![Failure::Outside(error)], action }
}

/// A thread that waits for something to happen.
fn polling() -> Thread {
    let (thread, first) = Thread::start();
    assert_eq!(first, step(WelcomeAction::CreateCloseEvent {
            start: 0,
            flags: libc::EFD_CLOEXEC | libc::EFD_NONBLOCK,
        }));
    let (thread, next) = go(thread, WelcomeEvent::CloseEventCreated(Ok(())));
    assert_eq!(next, step(WelcomeAction::Listen { backlog: libc::SOMAXCONN }));
    let (thread, next) = go(thread, WelcomeEvent::Listened(Ok(())));
    assert_eq!(next, step(POLL));
    thread
}

/// Hands the thread a request for an environment.
fn request(thread: Thread, name: &str) -> (Thread, Step) {
    let (thread, next) = go(thread, WelcomeEvent::Polled(Ok(REQUEST)));
    assert_eq!(next, step(WelcomeAction::ReceiveRequest));
    let mut bytes = name.as_bytes().to_vec();
    bytes.push(0);
    let (thread, next) = go(thread, WelcomeEvent::RequestReceived(Ok(bytes)));
    assert_eq!(next, step(WelcomeAction::ParseRequest(format!("{name}\0"))));
    let parsed = WelcomeRequest::OpenEnvironment(name.to_string());
    go(thread, WelcomeEvent::RequestParsed(Some(parsed)))
}

/// Opens an environment that does not exist yet.
fn open(thread: Thread, name: &str, environment: u32) -> Thread {
    let (thread, next) = request(thread, name);
    assert_eq!(next, step(WelcomeAction::CreateEnvironment(name.to_string())));
    let (thread, next) = go(thread, WelcomeEvent::EnvironmentCreated(Ok(environment)));
    assert_eq!(next, step(WelcomeAction::Respond(WelcomeResponse::OpenEnvironmentOk)));
    let (thread, next) = go(thread, WelcomeEvent::Responded(Ok(())));
    assert_eq!(next, step(POLL));
    thread
}

#[test]
fn poll_bit_is_that_of_the_kernel() {
    assert_eq!(POLLIN, libc::POLLIN);
}

#[test]
fn thread_ends_when_it_cannot_be_set_up() {
    let (thread, _) = Thread::start();
    let (_, next) = go(thread, WelcomeEvent::CloseEventCreated(Err("EMFILE")));
    assert_eq!(next, failed("EMFILE", WelcomeAction::Stop));
    let (thread, _) = Thread::start();
    let (thread, _) = go(thread, WelcomeEvent::CloseEventCreated(Ok(())));
    let (_, next) = go(thread, WelcomeEvent::Listened(Err("EADDRINUSE")));
    assert_eq!(next, failed("EADDRINUSE", WelcomeAction::Stop));
}

#[test]
fn thread_ends_when_poll_fails() {
    let (_, next) = go(polling(), WelcomeEvent::Polled(Err("EINTR")));
    assert_eq!(next, failed("EINTR", WelcomeAction::Stop));
}

#[test]
fn nothing_happens_without_an_event() {
    let (thread, next) = go(polling(), WelcomeEvent::Polled(Ok(QUIET)));
    assert_eq!(next, step(POLL));
    let unknown = Revents { shutdown: None, close_env: None, welcome: None };
    let (_, next) = go(thread, WelcomeEvent::Polled(Ok(unknown)));
    assert_eq!(next, step(POLL));
}

#[test]
fn shutdown_wins() {
    let all = Revents { shutdown: Some(1), close_env: Some(1), welcome: Some(1) };
    let (thread, next) = go(polling(), WelcomeEvent::Polled(Ok(all)));
    assert_eq!(next, step(WelcomeAction::ReadShutdownEvent));
    let (_, next) = go(thread, WelcomeEvent::ShutdownEventRead(Ok(())));
    assert_eq!(next, step(WelcomeAction::Stop));
    let (thread, _) = go(polling(), WelcomeEvent::Polled(Ok(all)));
    let (_, next) = go(thread, WelcomeEvent::ShutdownEventRead(Err("EAGAIN")));
    assert_eq!(next, failed("EAGAIN", WelcomeAction::Stop));
}

#[test]
fn a_thread_that_has_ended_expects_nothing() {
    let (thread, _) = go(polling(), WelcomeEvent::Polled(Err("EINTR")));
    assert!(!thread.expects(&WelcomeEvent::Polled(Ok(QUIET))));
    assert!(!thread.expects(&WelcomeEvent::ClientAdded));
}

#[test]
fn only_the_outcome_of_the_last_action_is_expected() {
    let thread = polling();
    assert!(thread.expects(&WelcomeEvent::Polled(Err("x"))));
    assert!(!thread.expects(&WelcomeEvent::Listened(Ok(()))));
    assert!(!thread.expects(&WelcomeEvent::Responded(Ok(()))));
}

#[test]
fn a_broken_welcome_socket_ends_the_thread() {
    let broken = Revents { welcome: Some(libc::POLLHUP), ..QUIET };
    let (_, next) = go(polling(), WelcomeEvent::Polled(Ok(broken)));
    let failure = Failure::Service(ServiceError::Runtime(RuntimeError::WelcomeSocketFailed));
    assert_eq!(next, WelcomeStep { reports: vec![failure], action: WelcomeAction::Stop });
    let both = Revents { welcome: Some(POLLIN | libc::POLLHUP), ..QUIET };
    let (_, next) = go(polling(), WelcomeEvent::Polled(Ok(both)));
    assert_eq!(next, step(WelcomeAction::ReceiveRequest));
}

#[test]
fn a_request_that_is_not_received_is_reported() {
    let (thread, _) = go(polling(), WelcomeEvent::Polled(Ok(REQUEST)));
    let (_, next) = go(thread, WelcomeEvent::RequestReceived(Err("ECONNABORTED")));
    assert_eq!(next, failed("ECONNABORTED", POLL));
}

#[test]
fn bytes_that_are_no_text_are_refused() {
    let (thread, _) = go(polling(), WelcomeEvent::Polled(Ok(REQUEST)));
    let (thread, next) = go(thread, WelcomeEvent::RequestReceived(Ok(vec![0xc3, 0x28])));
    assert_eq!(next, step(WelcomeAction::Respond(WelcomeResponse::MalformedRequest)));
    let (_, next) = go(thread, WelcomeEvent::Responded(Ok(())));
    assert_eq!(next, step(POLL));
}

#[test]
fn text_is_decoded() {
    let (thread, _) = go(polling(), WelcomeEvent::Polled(Ok(REQUEST)));
    let bytes = vec![0x67, 0xc3, 0xa4, 0xf0, 0x9f, 0xa6, 0x80, 0];
    let (_, next) = go(thread, WelcomeEvent::RequestReceived(Ok(bytes)));
    assert_eq!(next, step(WelcomeAction::ParseRequest("g\u{e4}\u{1f980}\0".to_string())));
}

#[test]
fn text_that_is_no_request_is_refused() {
    let (thread, _) = go(polling(), WelcomeEvent::Polled(Ok(REQUEST)));
    let (thread, _) = go(thread, WelcomeEvent::RequestReceived(Ok(vec![0; 4])));
    let (thread, next) = go(thread, WelcomeEvent::RequestParsed(None));
    assert_eq!(next, step(WelcomeAction::Respond(WelcomeResponse::MalformedRequest)));
    let (_, next) = go(thread, WelcomeEvent::Responded(Err("EPIPE")));
    assert_eq!(next, failed("EPIPE", POLL));
}

#[test]
fn a_new_environment_is_known_by_its_name() {
    let thread = open(polling(), "env", 1);
    assert_eq!(thread.environment("env"), Some(&1));
    assert_eq!(thread.environment("other"), None);
}

#[test]
fn a_known_environment_is_shared() {
    let thread = open(polling(), "env", 1);
    let (thread, next) = request(thread, "env");
    assert_eq!(next, step(WelcomeAction::Respond(WelcomeResponse::OpenEnvironmentOk)));
    let (thread, next) = go(thread, WelcomeEvent::Responded(Ok(())));
    assert_eq!(next, step(WelcomeAction::AddClient("env".to_string())));
    let (thread, next) = go(thread, WelcomeEvent::ClientAdded);
    assert_eq!(next, step(POLL));
    assert_eq!(thread.environment("env"), Some(&1));
}

#[test]
fn a_client_that_is_not_told_gets_no_environment() {
    let (thread, _) = request(polling(), "env");
    let (thread, _) = go(thread, WelcomeEvent::EnvironmentCreated(Ok(1)));
    let (thread, next) = go(thread, WelcomeEvent::Responded(Err("EPIPE")));
    assert_eq!(next, failed("EPIPE", POLL));
    assert_eq!(thread.environment("env"), None);
    let thread = open(thread, "env", 2);
    let (thread, _) = request(thread, "env");
    let (thread, next) = go(thread, WelcomeEvent::Responded(Err("EPIPE")));
    assert_eq!(next, failed("EPIPE", POLL));
    assert_eq!(thread.environment("env"), Some(&2));
}

#[test]
fn an_environment_that_cannot_be_made_is_an_internal_error() {
    let (thread, _) = request(polling(), "env");
    let (thread, next) = go(thread, WelcomeEvent::EnvironmentCreated(Err("EAGAIN")));
    assert_eq!(next, step(WelcomeAction::Respond(WelcomeResponse::InternalError)));
    let (thread, next) = go(thread, WelcomeEvent::Responded(Ok(())));
    assert_eq!(next, failed("EAGAIN", POLL));
    assert_eq!(thread.environment("env"), None);
}

#[test]
fn both_errors_are_reported_when_the_answer_fails_too() {
    let (thread, _) = request(polling(), "env");
    let (thread, _) = go(thread, WelcomeEvent::EnvironmentCreated(Err("EAGAIN")));
    let (_, next) = go(thread, WelcomeEvent::Responded(Err("EPIPE")));
    assert_eq!(
        next,
        WelcomeStep {
            reports: vec![Failure::Outside("EAGAIN"), Failure::Outside("EPIPE")],
            action: POLL,
        }
    );
}

#[test]
fn a_closed_environment_is_forgotten() {
    let thread = open(open(polling(), "a", 1), "b", 2);
    let closed = Revents { close_env: Some(POLLIN), ..QUIET };
    let (thread, next) = go(thread, WelcomeEvent::Polled(Ok(closed)));
    assert_eq!(next, step(WelcomeAction::ReadCloseEvent));
    let (thread, next) = go(thread, WelcomeEvent::CloseEventRead(Ok(())));
    assert_eq!(next, step(WelcomeAction::ReceiveName));
    let (thread, next) = go(thread, WelcomeEvent::NameReceived(Ok("a".to_string())));
    assert_eq!(next, step(POLL));
    assert_eq!(thread.environment("a"), None);
    assert_eq!(thread.environment("b"), Some(&2));
    let thread = open(thread, "a", 3);
    assert_eq!(thread.environment("a"), Some(&3));
}

#[test]
fn a_request_is_served_after_an_environment_has_closed() {
    let closed = Revents { close_env: Some(POLLIN), ..REQUEST };
    let (thread, _) = go(polling(), WelcomeEvent::Polled(Ok(closed)));
    let (thread, next) = go(thread, WelcomeEvent::CloseEventRead(Err("EAGAIN")));
    assert_eq!(next, failed("EAGAIN", WelcomeAction::ReceiveName));
    let (_, next) = go(thread, WelcomeEvent::NameReceived(Ok("gone".to_string())));
    assert_eq!(next, step(WelcomeAction::ReceiveRequest));
}

#[test]
fn a_name_that_does_not_come_ends_the_thread() {
    let closed = Revents { close_env: Some(POLLIN), ..REQUEST };
    let (thread, _) = go(polling(), WelcomeEvent::Polled(Ok(closed)));
    let (thread, _) = go(thread, WelcomeEvent::CloseEventRead(Ok(())));
    let (_, next) = go(thread, WelcomeEvent::NameReceived(Err("disconnected")));
    assert_eq!(next, failed("disconnected", WelcomeAction::Stop));
}
