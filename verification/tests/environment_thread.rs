use std::cell::Cell;

use garnd::linux::environment_thread::{
    Admission, EnvironmentAction, EnvironmentEvent, EnvironmentStep, EnvironmentThread, Readiness,
    ResourceType, CLIENT_EVENTS, EPOLLIN, EPOLLRDHUP,
};
use garnd::linux::runtime_error::RuntimeError;
use garnd::linux::service_error::{Failure, ServiceError};
use garnd::linux::shm_allocator::ShmAllocator;
use garnd::linux::shm_page::PageSteps;
use garnd::linux::socket_set::SocketSet;
use garnd::protocol::{EnvironmentRequest, EnvironmentResponse};

type Thread = EnvironmentThread<&'static str>;
type Event = EnvironmentEvent<String, Vec<u8>, Vec<Readiness>, &'static str>;
type Action = EnvironmentAction<String, &'static str>;
type Step = EnvironmentStep<&'static str>;

const ADD: i32 = 5;
const DROP: i32 = 6;
const MUTEX: ResourceType = ResourceType { type_id: 7, name: "Mutex", size: 40, align: 8 };

fn go(thread: Thread, event: Event) -> (Thread, Step) {
    assert!(thread.expects(&event));
    thread.next(event)
}

fn step(action: Action) -> Step {
    EnvironmentStep { reports: vec![], answer: None, closes: vec![], action }
}

fn failed(error: &'static str, action: Action) -> Step {
    EnvironmentStep { reports: vec![Failure::Outside(error)], answer: None, closes: vec![], action }
}

fn refused(error: &'static str, closes: Vec<i32>, action: Action) -> Step {
    EnvironmentStep {
        reports: vec![Failure::Outside(error)],
        answer: Some(Admission::Refused),
        closes,
        action,
    }
}

fn wait(max_events: usize) -> Action {
    EnvironmentAction::Wait { max_events }
}

fn register(fd: i32, events: u32) -> Action {
    EnvironmentAction::Register { fd, data: fd as u64, events }
}

fn readable(fd: i32) -> Readiness {
    Readiness { data: fd as u64, events: EPOLLIN }
}

fn hung_up(fd: i32) -> Readiness {
    Readiness { data: fd as u64, events: EPOLLIN | EPOLLRDHUP }
}

fn started() -> Thread {
    let shm = ShmAllocator::with_page_size(64);
    let (thread, first) = Thread::start("env".to_string(), ADD, DROP, Ok(shm));
    assert_eq!(first, step(EnvironmentAction::CreateEpoll { flags: libc::EPOLL_CLOEXEC }));
    thread
}

/// Steps that make a page on the given file.
fn page<E>(
    created: Result<i32, E>,
) -> PageSteps<
    impl FnOnce(&'static str, u32) -> Result<i32, E>,
    impl FnOnce(i32, i64) -> Result<(), E>,
    impl FnOnce(i32, i32) -> Result<(), E>,
    impl FnOnce(i32, usize, i32, i32) -> Result<(), E>,
> {
    PageSteps {
        create: |_, _| created,
        resize: |_, _| Ok(()),
        seal: |_, _| Ok(()),
        map: |_, _, _, _| Ok(()),
    }
}

/// A mutex that cannot be initialised.
fn no_mutex() -> Result<(), &'static str> {
    Err("no mutex")
}

/// A thread that waits for clients.
fn waiting() -> Thread {
    let (thread, next) = go(started(), EnvironmentEvent::EpollCreated(Ok(())));
    assert_eq!(next, step(register(ADD, EPOLLIN)));
    let (thread, next) = go(thread, EnvironmentEvent::Registered(Ok(())));
    assert_eq!(next, step(register(DROP, EPOLLIN)));
    let (thread, next) = go(thread, EnvironmentEvent::Registered(Ok(())));
    assert_eq!(next, step(wait(1)));
    thread
}

/// Takes in a client.
fn join(thread: Thread, fd: i32) -> (Thread, Step) {
    let (thread, next) = go(thread, EnvironmentEvent::Waited(Ok(vec![readable(ADD)])));
    assert_eq!(next, step(EnvironmentAction::ReadAddListenerEvent));
    let (thread, next) = go(thread, EnvironmentEvent::AddListenerEventRead(Ok(())));
    assert_eq!(next, step(EnvironmentAction::ReceiveListener));
    let (thread, next) = go(thread, EnvironmentEvent::ListenerReceived(fd));
    assert_eq!(next, step(register(fd, CLIENT_EVENTS)));
    let (thread, next) = go(thread, EnvironmentEvent::Registered(Ok(())));
    assert_eq!(next.answer, Some(Admission::Admitted));
    (thread, EnvironmentStep { answer: None, ..next })
}

/// A thread with the clients 10 and 11.
fn with_clients() -> Thread {
    let (thread, next) = join(waiting(), 10);
    assert_eq!(next, step(wait(2)));
    let (thread, next) = join(thread, 11);
    assert_eq!(next, step(wait(3)));
    thread
}

/// Lets a client ask for a mutex.
fn ask(thread: Thread, fd: i32, name: &str) -> Thread {
    let (thread, next) = go(thread, EnvironmentEvent::Waited(Ok(vec![readable(fd)])));
    assert_eq!(next, step(EnvironmentAction::ReceiveRequest { fd }));
    let bytes = name.as_bytes().to_vec();
    let (thread, next) = go(thread, EnvironmentEvent::RequestReceived(Ok(bytes)));
    assert_eq!(next, step(EnvironmentAction::ParseRequest(name.to_string())));
    let parsed = EnvironmentRequest::OpenMutex(name.to_string());
    let (thread, next) = go(thread, EnvironmentEvent::RequestParsed(Some(parsed)));
    assert_eq!(next, step(EnvironmentAction::OpenMutex));
    thread
}

fn answer(fd: i32, page: usize, offset: usize, page_fd: i32) -> Action {
    EnvironmentAction::Respond {
        fd,
        response: EnvironmentResponse::OpenMutexOk(page, offset),
        page: Some(page_fd),
    }
}

fn internal_error(fd: i32) -> Action {
    EnvironmentAction::Respond { fd, response: EnvironmentResponse::InternalError, page: None }
}

fn refusal(fd: i32) -> Action {
    EnvironmentAction::Respond { fd, response: EnvironmentResponse::MalformedRequest, page: None }
}

#[test]
fn epoll_bits_are_those_of_the_kernel() {
    assert_eq!(EPOLLIN, libc::EPOLLIN as u32);
    assert_eq!(EPOLLRDHUP, libc::EPOLLRDHUP as u32);
    assert_eq!(CLIENT_EVENTS, (libc::EPOLLIN | libc::EPOLLRDHUP) as u32);
}

#[test]
fn sockets_form_a_set() {
    let mut sockets = SocketSet::new();
    assert!(sockets.is_empty());
    assert!(sockets.insert(3));
    assert!(!sockets.insert(3));
    assert!(sockets.insert(4));
    assert_eq!(sockets.len(), 2);
    assert!(sockets.remove(&3));
    assert!(!sockets.remove(&3));
    assert!(!sockets.is_empty());
    assert!(sockets.insert(9));
    let mut left = sockets.into_sockets();
    left.sort();
    assert_eq!(left, vec![4, 9]);
}

#[test]
fn an_environment_without_memory_closes() {
    let failure = Failure::Service(ServiceError::Runtime(RuntimeError::GetPageSizeFailed));
    let (thread, first) = Thread::start("env".to_string(), ADD, DROP, Err(failure));
    let failure = Failure::Service(ServiceError::Runtime(RuntimeError::GetPageSizeFailed));
    assert_eq!(first, step(EnvironmentAction::Report(failure)));
    let (thread, next) = go(thread, EnvironmentEvent::Reported(Ok(())));
    assert_eq!(next, step(EnvironmentAction::SendName("env".to_string())));
    let (thread, next) = go(thread, EnvironmentEvent::NameSent(Ok(())));
    assert_eq!(next, step(EnvironmentAction::WriteCloseEvent { value: 1 }));
    let (thread, next) = go(thread, EnvironmentEvent::CloseEventWritten(Ok(())));
    assert_eq!(next, step(EnvironmentAction::Stop));
    assert_eq!(thread.finish(), (None, vec![]));
}

#[test]
fn everything_that_goes_wrong_while_closing_is_reported() {
    let (thread, next) = go(started(), EnvironmentEvent::EpollCreated(Err("EMFILE")));
    assert_eq!(next, step(EnvironmentAction::Report(Failure::Outside("EMFILE"))));
    let (thread, next) = go(thread, EnvironmentEvent::Reported(Err("no report")));
    assert_eq!(next, step(EnvironmentAction::SendName("env".to_string())));
    let (thread, next) = go(thread, EnvironmentEvent::NameSent(Err("no name")));
    assert_eq!(next, step(EnvironmentAction::WriteCloseEvent { value: 1 }));
    let (_, next) = go(thread, EnvironmentEvent::CloseEventWritten(Err("no bell")));
    assert_eq!(
        next,
        EnvironmentStep {
            reports: vec![
                Failure::Outside("no report"),
                Failure::Outside("no name"),
                Failure::Outside("no bell"),
            ],
            answer: None,
            closes: vec![],
            action: EnvironmentAction::Stop,
        }
    );
}

#[test]
fn events_that_cannot_be_watched_close_the_environment() {
    let (thread, _) = go(started(), EnvironmentEvent::EpollCreated(Ok(())));
    let (_, next) = go(thread, EnvironmentEvent::Registered(Err("first")));
    assert_eq!(next, step(EnvironmentAction::Report(Failure::Outside("first"))));
    let (thread, _) = go(started(), EnvironmentEvent::EpollCreated(Ok(())));
    let (thread, _) = go(thread, EnvironmentEvent::Registered(Ok(())));
    let (_, next) = go(thread, EnvironmentEvent::Registered(Err("second")));
    assert_eq!(next, step(EnvironmentAction::Report(Failure::Outside("second"))));
}

#[test]
fn a_wait_that_fails_closes_the_environment() {
    let (_, next) = go(waiting(), EnvironmentEvent::Waited(Err("EINTR")));
    assert_eq!(next, step(EnvironmentAction::Report(Failure::Outside("EINTR"))));
}

#[test]
fn clients_are_taken_in() {
    let (teardown, mut sockets) = with_clients().finish();
    sockets.sort();
    assert_eq!(sockets, vec![10, 11]);
    assert_eq!(teardown.unwrap().pages, Vec::<i32>::new());
}

#[test]
fn a_client_that_cannot_be_taken_in_is_reported() {
    let announced = EnvironmentEvent::Waited(Ok(vec![readable(ADD)]));
    let (thread, _) = go(waiting(), announced);
    let (thread, next) = go(thread, EnvironmentEvent::AddListenerEventRead(Err("EAGAIN")));
    assert_eq!(next, refused("EAGAIN", vec![], wait(1)));
    let (thread, _) = go(thread, EnvironmentEvent::Waited(Ok(vec![readable(ADD)])));
    let (thread, _) = go(thread, EnvironmentEvent::AddListenerEventRead(Ok(())));
    assert!(!thread.expects(&EnvironmentEvent::ListenerReceived(-1)));
    let (thread, _) = go(thread, EnvironmentEvent::ListenerReceived(10));
    let (thread, next) = go(thread, EnvironmentEvent::Registered(Err("ENOSPC")));
    assert_eq!(next, refused("ENOSPC", vec![10], wait(1)));
    assert_eq!(thread.finish().1, Vec::<i32>::new());
}

#[test]
fn a_dropped_environment_ends() {
    let dropped = vec![readable(DROP), readable(ADD)];
    let (thread, next) = go(waiting(), EnvironmentEvent::Waited(Ok(dropped)));
    assert_eq!(next, step(EnvironmentAction::ReadDropEvent));
    let (thread, next) = go(thread, EnvironmentEvent::DropEventRead(Err("EAGAIN")));
    assert_eq!(next, failed("EAGAIN", EnvironmentAction::Stop));
    assert!(!thread.expects(&EnvironmentEvent::Waited(Ok(vec![]))));
    let (thread, _) = go(waiting(), EnvironmentEvent::Waited(Ok(vec![readable(DROP)])));
    let (_, next) = go(thread, EnvironmentEvent::DropEventRead(Ok(())));
    assert_eq!(next, step(EnvironmentAction::Stop));
}

#[test]
fn a_client_that_leaves_is_forgotten() {
    let (thread, next) = go(with_clients(), EnvironmentEvent::Waited(Ok(vec![hung_up(10)])));
    assert_eq!(next, EnvironmentStep { reports: vec![], answer: None, closes: vec![10], action: wait(2) });
    assert_eq!(thread.finish().1, vec![11]);
}

#[test]
fn the_environment_closes_with_its_last_client() {
    let left = vec![hung_up(10), hung_up(11), readable(ADD)];
    let (thread, next) = go(with_clients(), EnvironmentEvent::Waited(Ok(left)));
    assert_eq!(
        next,
        EnvironmentStep {
            reports: vec![],
            answer: None,
            closes: vec![10, 11],
            action: EnvironmentAction::SendName("env".to_string()),
        }
    );
    let (thread, next) = go(thread, EnvironmentEvent::NameSent(Ok(())));
    assert_eq!(next, step(EnvironmentAction::WriteCloseEvent { value: 1 }));
    let (thread, next) = go(thread, EnvironmentEvent::CloseEventWritten(Err("EBADF")));
    assert_eq!(next, failed("EBADF", EnvironmentAction::Stop));
    assert_eq!(thread.finish().1, Vec::<i32>::new());
}

#[test]
fn a_stranger_that_leaves_changes_nothing() {
    let (thread, next) = go(with_clients(), EnvironmentEvent::Waited(Ok(vec![hung_up(12)])));
    assert_eq!(next, step(wait(3)));
    assert_eq!(thread.finish().1.len(), 2);
}

#[test]
fn events_are_dealt_with_in_order() {
    let events = vec![hung_up(10), readable(11), readable(ADD)];
    let (thread, next) = go(with_clients(), EnvironmentEvent::Waited(Ok(events)));
    let receive = EnvironmentAction::ReceiveRequest { fd: 11 };
    assert_eq!(next, EnvironmentStep { reports: vec![], answer: None, closes: vec![10], action: receive });
    let (thread, next) = go(thread, EnvironmentEvent::RequestReceived(Err("ECONNRESET")));
    assert_eq!(next, failed("ECONNRESET", EnvironmentAction::ReadAddListenerEvent));
    let (_, next) = go(thread, EnvironmentEvent::AddListenerEventRead(Err("EAGAIN")));
    assert_eq!(next, refused("EAGAIN", vec![], wait(2)));
}

#[test]
fn malformed_requests_are_refused() {
    let (thread, _) = go(with_clients(), EnvironmentEvent::Waited(Ok(vec![readable(10)])));
    let (thread, next) = go(thread, EnvironmentEvent::RequestReceived(Ok(vec![0xff])));
    assert_eq!(next, step(refusal(10)));
    let (thread, next) = go(thread, EnvironmentEvent::Responded(Err("EPIPE")));
    assert_eq!(next, failed("EPIPE", wait(3)));
    let (thread, _) = go(thread, EnvironmentEvent::Waited(Ok(vec![readable(11)])));
    let (thread, _) = go(thread, EnvironmentEvent::RequestReceived(Ok(vec![0; 8])));
    let (thread, next) = go(thread, EnvironmentEvent::RequestParsed(None));
    assert_eq!(next, step(refusal(11)));
    let (_, next) = go(thread, EnvironmentEvent::Responded(Ok(())));
    assert_eq!(next, step(wait(3)));
}

#[test]
fn a_mutex_is_made_for_the_first_client() {
    let thread = ask(with_clients(), 10, "m");
    let written = Cell::new(None);
    let (thread, next) = thread.open_mutex(
        MUTEX,
        || Ok("mutex"),
        PageSteps {
            create: |_, _| Ok(20),
            resize: |fd, size| if (fd, size) == (20, 64) { Ok(()) } else { Err("wrong size") },
            seal: |_, _| Ok(()),
            map: |_, _, _, _| Ok(()),
        },
        |mutex, page, offset| written.set(Some((mutex, page, offset))),
    );
    assert_eq!(written.get(), Some(("mutex", 0, 0)));
    assert_eq!(next, step(answer(10, 0, 0, 20)));
    let (thread, next) = go(thread, EnvironmentEvent::Responded(Ok(())));
    assert_eq!(next, step(wait(3)));
    let teardown = thread.finish().0.unwrap();
    assert_eq!(teardown.pages, vec![20]);
    assert_eq!(teardown.destructions.len(), 1);
    assert_eq!(teardown.destructions[0].name, "m");
}

#[test]
fn a_mutex_is_shared_by_all_clients() {
    let (thread, _) = ask(with_clients(), 10, "m").open_mutex(MUTEX, || Ok(()), page(Ok(20)), |_, _, _| ());
    let (thread, _) = go(thread, EnvironmentEvent::Responded(Ok(())));
    let (thread, next) = ask(thread, 11, "n").open_mutex(MUTEX, || Ok(()), page(Ok(21)), |_, _, _| ());
    assert_eq!(next, step(answer(11, 1, 0, 21)));
    let (thread, _) = go(thread, EnvironmentEvent::Responded(Ok(())));
    let (_, next) =
        ask(thread, 11, "m").open_mutex(MUTEX, no_mutex, page(Err("no page")), |_, _, _| {
            panic!("nothing is written")
        });
    assert_eq!(next, step(answer(11, 0, 0, 20)));
}

#[test]
fn a_mutex_that_cannot_be_made_is_an_internal_error() {
    let (thread, next) =
        ask(with_clients(), 10, "m").open_mutex(MUTEX, || Ok(()), page(Err("EMFILE")), |_, _, _| {
            panic!("nothing is written")
        });
    assert_eq!(next, step(internal_error(10)));
    let (thread, next) = go(thread, EnvironmentEvent::Responded(Ok(())));
    assert_eq!(next, failed("EMFILE", wait(3)));
    let (thread, next) =
        ask(thread, 10, "m").open_mutex(MUTEX, || Ok(()), page(Err("EMFILE")), |_, _, _| ());
    assert_eq!(next, step(internal_error(10)));
    let (_, next) = go(thread, EnvironmentEvent::Responded(Err("EPIPE")));
    assert_eq!(
        next,
        EnvironmentStep {
            reports: vec![Failure::Outside("EMFILE"), Failure::Outside("EPIPE")],
            answer: None,
            closes: vec![],
            action: wait(3),
        }
    );
}

#[test]
fn a_mutex_that_cannot_be_initialised_leaves_the_memory_alone() {
    let (thread, next) = ask(with_clients(), 10, "m").open_mutex(
        MUTEX,
        no_mutex,
        PageSteps {
            create: |_, _| panic!("no page is made"),
            resize: |_, _| Ok(()),
            seal: |_, _| Ok(()),
            map: |_, _, _, _| Ok(()),
        },
        |_, _, _| panic!("nothing is written"),
    );
    assert_eq!(next, step(internal_error(10)));
    let (thread, next) = go(thread, EnvironmentEvent::Responded(Err("EPIPE")));
    assert_eq!(
        next,
        EnvironmentStep {
            reports: vec![Failure::Outside("no mutex"), Failure::Outside("EPIPE")],
            answer: None,
            closes: vec![],
            action: wait(3),
        }
    );
    let (thread, next) =
        ask(thread, 10, "m").open_mutex(MUTEX, || Ok(()), page(Ok(20)), |_, _, _| ());
    assert_eq!(next, step(answer(10, 0, 0, 20)));
    let (thread, _) = go(thread, EnvironmentEvent::Responded(Ok(())));
    let small = ResourceType { size: 1, align: 1, ..MUTEX };
    let (thread, next) = ask(thread, 10, "n").open_mutex(small, no_mutex, page(Ok(21)), |_, _, _| ());
    assert_eq!(next, step(internal_error(10)));
    let teardown = thread.finish().0.unwrap();
    assert_eq!((teardown.pages, teardown.destructions.len()), (vec![20], 1));
}

#[test]
fn a_resource_of_another_type_is_an_internal_error() {
    let (thread, _) = ask(with_clients(), 10, "m").open_mutex(MUTEX, || Ok(()), page(Ok(20)), |_, _, _| ());
    let (thread, _) = go(thread, EnvironmentEvent::Responded(Ok(())));
    let other = ResourceType { type_id: 8, name: "Queue", ..MUTEX };
    let (thread, next) = ask(thread, 11, "m").open_mutex(other, || Ok(()), page(Ok(21)), |_, _, _| ());
    assert_eq!(next, step(internal_error(11)));
    let (_, next) = go(thread, EnvironmentEvent::Responded(Ok(())));
    let mismatch = RuntimeError::ResourceTypeMismatch {
        requested_type: "Queue",
        resource_type: "<unavailable at runtime>",
    };
    assert_eq!(
        next,
        EnvironmentStep {
            reports: vec![Failure::Service(ServiceError::Runtime(mismatch))],
            answer: None,
            closes: vec![],
            action: wait(3),
        }
    );
}

#[test]
fn a_lost_answer_is_reported() {
    let (thread, _) = ask(with_clients(), 10, "m").open_mutex(MUTEX, || Ok(()), page(Ok(20)), |_, _, _| ());
    let (_, next) = go(thread, EnvironmentEvent::Responded(Err("EPIPE")));
    assert_eq!(next, failed("EPIPE", wait(3)));
}

/// What a thread does from its start on to announce that the environment closes, and whether it has
/// ended.
fn announcements(first: (Thread, Step), events: Vec<Event>) -> (Vec<Action>, bool) {
    let (mut thread, mut next) = first;
    let mut announced = vec![];
    let mut ended = false;
    for event in events.into_iter().map(Some).chain([None]) {
        match next.action {
            EnvironmentAction::SendName(_) | EnvironmentAction::WriteCloseEvent { .. } => {
                announced.push(next.action)
            }
            EnvironmentAction::Stop => ended = true,
            _ => {}
        }
        match event {
            Some(event) => (thread, next) = go(thread, event),
            None => break,
        }
    }
    (announced, ended)
}

#[test]
fn the_end_is_announced_once_and_only_without_a_drop() {
    let start = || {
        Thread::start("env".to_string(), ADD, DROP, Ok(ShmAllocator::with_page_size(64)))
    };
    let beginning = || -> Vec<Event> {
        vec![
            EnvironmentEvent::EpollCreated(Ok(())),
            EnvironmentEvent::Registered(Ok(())),
            EnvironmentEvent::Registered(Ok(())),
            EnvironmentEvent::Waited(Ok(vec![readable(ADD)])),
            EnvironmentEvent::AddListenerEventRead(Ok(())),
            EnvironmentEvent::ListenerReceived(10),
            EnvironmentEvent::Registered(Ok(())),
        ]
    };
    let announced = || {
        vec![
            EnvironmentAction::SendName("env".to_string()),
            EnvironmentAction::WriteCloseEvent { value: 1 },
        ]
    };
    let mut dropped = beginning();
    dropped.push(EnvironmentEvent::Waited(Ok(vec![readable(DROP), hung_up(10)])));
    dropped.push(EnvironmentEvent::DropEventRead(Ok(())));
    assert_eq!(announcements(start(), dropped), (vec![], true));
    let mut left = beginning();
    left.push(EnvironmentEvent::Waited(Ok(vec![hung_up(10), readable(DROP)])));
    left.push(EnvironmentEvent::NameSent(Ok(())));
    left.push(EnvironmentEvent::CloseEventWritten(Ok(())));
    assert_eq!(announcements(start(), left), (announced(), true));
    let mut broken = beginning();
    broken.push(EnvironmentEvent::Waited(Err("EINTR")));
    broken.push(EnvironmentEvent::Reported(Err("gone")));
    broken.push(EnvironmentEvent::NameSent(Err("gone")));
    broken.push(EnvironmentEvent::CloseEventWritten(Err("EBADF")));
    assert_eq!(announcements(start(), broken), (announced(), true));
    assert_eq!(announcements(start(), beginning()), (vec![], false));
}
