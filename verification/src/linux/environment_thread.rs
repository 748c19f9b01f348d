//! The thread of an environment: it takes in clients, opens mutexes for them and ends when the last
//! client has left.
//!
//! The thread is given as what it does next. [`EnvironmentThread::start`] names the first action;
//! each time an action has been carried out, its outcome goes into [`EnvironmentThread::next`],
//! which says what has to be reported and closed and names the next action. A mutex is opened by
//! [`EnvironmentThread::open_mutex`].

use vstd::prelude::*;
use vstd::utf8::{decode_utf8, valid_utf8};

use crate::linux::runtime_error::RuntimeError;
use crate::linux::service_error::{error_of, errors_of, single, Failure, ServiceError};
use crate::linux::settings::{EPOLL_CLOEXEC, EVENT_TRIGGER};
use crate::linux::shm_allocator::{
    constructed, destroys_all, may_build, may_make_page, moving, ClientResourceLocation,
    ShmAllocator, ShmView, Teardown,
};
use crate::linux::shm_page::PageSteps;
use crate::linux::socket_set::{all_open, SocketSet};
use crate::protocol::{EnvironmentRequest, EnvironmentResponse};
use crate::text::text_from_utf8;

verus! {

/// The bit by which `epoll` says that there is something to read.
pub const EPOLLIN: u32 = 0x1;

/// The bit by which `epoll` says that the client has closed the connection.
pub const EPOLLRDHUP: u32 = 0x2000;

/// The bits that a client's socket is watched for.
pub const CLIENT_EVENTS: u32 = 0x2001;

/// What `epoll` says of a file: the number that the file was registered with, and the bits.
#[derive(Debug, Copy, Clone, PartialEq, Eq)]
pub struct Readiness {
    pub data: u64,
    pub events: u32,
}

/// The number that a file is registered with.
pub open spec fn data_of(fd: i32) -> u64 {
    #[verifier::truncate]
    (fd as u64)
}

/// The file that was registered with a number.
pub open spec fn fd_of(data: u64) -> i32 {
    #[verifier::truncate]
    (data as i32)
}

fn epoll_data(fd: i32) -> (r: u64)
    ensures
        r == data_of(fd),
{
    #[verifier::truncate]
    (fd as u64)
}

fn registered_fd(data: u64) -> (r: i32)
    ensures
        r == fd_of(data),
{
    #[verifier::truncate]
    (data as i32)
}

/// What the thread asks for.
#[derive(Debug, PartialEq, Eq)]
pub enum EnvironmentAction<S, E> {
    /// Make the `epoll` instance.
    CreateEpoll { flags: i32 },
    /// Register a file with `epoll`.
    Register { fd: i32, data: u64, events: u32 },
    /// Wait until `epoll` has something to say, at most of so many files.
    Wait { max_events: usize },
    /// Read the event by which new clients are announced.
    ReadAddListenerEvent,
    /// Receive the socket of a new client.
    ReceiveListener,
    /// Read the event by which the environment is dropped.
    ReadDropEvent,
    /// Receive a request from a client, filled up with zero bytes to the size of a request.
    ReceiveRequest { fd: i32 },
    /// Make a request of the text.
    ParseRequest(S),
    /// Open the mutex, by [`EnvironmentThread::open_mutex`].
    OpenMutex,
    /// Answer a client, and pass it the file of a page where there is one.
    Respond { fd: i32, response: EnvironmentResponse, page: Option<i32> },
    /// Report the error, and say whether it could be reported.
    Report(Failure<E>),
    /// Tell the owner of the environment the name of the one that closes.
    SendName(S),
    /// Write the event by which the environment tells that it has closed.
    WriteCloseEvent { value: u64 },
    /// End the thread, with what [`EnvironmentThread::finish`] leaves to do.
    Stop,
}

/// The outcome of an action.
pub enum EnvironmentEvent<S, B, R, E> {
    EpollCreated(Result<(), E>),
    Registered(Result<(), E>),
    Waited(Result<R, E>),
    AddListenerEventRead(Result<(), E>),
    ListenerReceived(i32),
    DropEventRead(Result<(), E>),
    RequestReceived(Result<B, E>),
    RequestParsed(Option<EnvironmentRequest<S>>),
    Responded(Result<(), E>),
    Reported(Result<(), E>),
    NameSent(Result<(), E>),
    CloseEventWritten(Result<(), E>),
}

/// What the owner is told of a client that it has handed over.
#[derive(Debug, Copy, Clone, PartialEq, Eq)]
pub enum Admission {
    /// The client has been taken in.
    Admitted,
    /// The client could not be taken in.
    Refused,
}

/// What the thread is in the middle of.
pub enum EnvironmentPhase<S, E> {
    CreatingEpoll,
    RegisteringAddListener,
    RegisteringDrop,
    Waiting,
    ReadingAddListenerEvent,
    ReceivingListener,
    RegisteringListener { fd: i32 },
    ReadingDropEvent,
    ReceivingRequest { fd: i32 },
    Parsing { fd: i32 },
    /// The client is told that its request is malformed.
    Refusing,
    OpeningMutex { fd: i32, name: S },
    /// The client is told where the mutex is, or that it could not be opened.
    Answering { failure: Option<Failure<E>> },
    /// The error is reported for which the environment closes.
    Reporting,
    /// `unreported` is why the error could not be reported.
    SendingName { unreported: Option<E> },
    /// `unsent` is why the name could not be sent.
    WritingCloseEvent { unreported: Option<E>, unsent: Option<E> },
    Stopped,
}

/// The state of the thread: its name, the two events that it is told by, its phase, the sockets of
/// its clients, what `epoll` has said and has not been dealt with yet, and the shared memory.
pub struct EnvironmentState<E> {
    pub name: Seq<char>,
    pub add_listener: i32,
    pub drop_event: i32,
    pub phase: EnvironmentPhase<Seq<char>, E>,
    pub sockets: Set<i32>,
    pub pending: Seq<Readiness>,
    pub shm: Option<ShmView>,
}

/// What an outcome leads to: the next state, the errors that are reported, in order, what the owner
/// is told of a client that it has handed over, the sockets that are closed, and the next action.
pub struct EnvironmentOutcome<E> {
    pub state: EnvironmentState<E>,
    pub reports: Seq<Failure<E>>,
    pub answer: Option<Admission>,
    pub closes: Seq<i32>,
    pub action: EnvironmentAction<Seq<char>, E>,
}

impl<E> EnvironmentOutcome<E> {
    /// The same, and the owner is told.
    pub open spec fn answering(self, admission: Admission) -> EnvironmentOutcome<E> {
        EnvironmentOutcome { answer: Some(admission), ..self }
    }
}

/// The errors of steps that have gone before, if there are any.
pub open spec fn kept<E>(error: Option<E>) -> Seq<Failure<E>> {
    match error {
        Some(e) => seq![Failure::Outside(e)],
        None => seq![],
    }
}

/// Where a mutex is, if it could be opened.
pub type Opened<E> = Result<ClientResourceLocation, Failure<E>>;

/// A type of resources: its identity, what it is called, and the space that a resource takes.
#[derive(Debug, Copy, Clone, PartialEq, Eq)]
pub struct ResourceType {
    pub type_id: u128,
    pub name: &'static str,
    pub size: usize,
    pub align: usize,
}

/// How the opening of a resource ends: one that exists is used again if it is of the type that is
/// asked for. One that does not is initialised, and only where that succeeds is it moved into shared
/// memory. `made` is what the making of a page can lead to.
pub open spec fn opened<E, T, I: FnOnce() -> Result<T, E>, W: FnOnce(T, usize, usize)>(
    before: ShmView,
    name: Seq<char>,
    wanted: ResourceType,
    init: I,
    made: spec_fn(Result<i32, E>) -> bool,
    write: W,
    after: ShmView,
    r: Opened<E>,
) -> bool {
    if !before.slots.contains_key(name) {
        exists|initialised: Result<T, E>| #[trigger]
            call_ensures(init, (), initialised) && match initialised {
                Err(e) => after == before && r == Err::<ClientResourceLocation, Failure<E>>(
                    Failure::Outside(e),
                ),
                Ok(resource) => constructed(
                    before,
                    name,
                    wanted.type_id,
                    wanted.size as int,
                    wanted.align as int,
                    made,
                    moving(resource, write),
                    after,
                    r,
                ),
            }
    } else {
        let there: Opened<E> = if before.slots[name].type_id == wanted.type_id {
            Ok(before.location(before.slots[name]))
        } else {
            Err(
                Failure::Service(
                    ServiceError::Runtime(
                        RuntimeError::ResourceTypeMismatch {
                            requested_type: wanted.name,
                            resource_type: "<unavailable at runtime>",
                        },
                    ),
                ),
            )
        };
        after == before && r == there
    }
}

impl<E> EnvironmentState<E> {
    /// Where the thread begins, with the shared memory or the reason why there is none.
    pub open spec fn start(
        name: Seq<char>,
        add_listener: i32,
        drop_event: i32,
        shm: Result<ShmView, Failure<E>>,
    ) -> EnvironmentOutcome<E> {
        let state = EnvironmentState {
            name,
            add_listener,
            drop_event,
            phase: EnvironmentPhase::CreatingEpoll,
            sockets: Set::empty(),
            pending: seq![],
            shm: shm.ok(),
        };
        match shm {
            Ok(_) => state.goes(
                EnvironmentPhase::CreatingEpoll,
                seq![],
                seq![],
                EnvironmentAction::CreateEpoll { flags: EPOLL_CLOEXEC },
            ),
            Err(failure) => state.fails(failure),
        }
    }

    pub open spec fn with_phase(self, phase: EnvironmentPhase<Seq<char>, E>) -> EnvironmentState<
        E,
    > {
        EnvironmentState { phase, ..self }
    }

    /// Goes on to `phase` with `action`.
    pub open spec fn goes(
        self,
        phase: EnvironmentPhase<Seq<char>, E>,
        reports: Seq<Failure<E>>,
        closes: Seq<i32>,
        action: EnvironmentAction<Seq<char>, E>,
    ) -> EnvironmentOutcome<E> {
        EnvironmentOutcome {
            state: EnvironmentState { phase, ..self },
            reports,
            answer: None,
            closes,
            action,
        }
    }

    /// Ends the thread.
    pub open spec fn stops(self, reports: Seq<Failure<E>>) -> EnvironmentOutcome<E> {
        self.goes(EnvironmentPhase::Stopped, reports, seq![], EnvironmentAction::Stop)
    }

    /// Reports the error and then tells the owner that the environment closes.
    pub open spec fn fails(self, failure: Failure<E>) -> EnvironmentOutcome<E> {
        self.goes(
            EnvironmentPhase::Reporting,
            seq![],
            seq![],
            EnvironmentAction::Report(failure),
        )
    }

    /// Registers one of the two events that the thread is told by.
    pub open spec fn registers(
        self,
        phase: EnvironmentPhase<Seq<char>, E>,
        fd: i32,
    ) -> EnvironmentOutcome<E> {
        self.goes(
            phase,
            seq![],
            seq![],
            EnvironmentAction::Register { fd, data: data_of(fd), events: EPOLLIN },
        )
    }

    /// Turns to what `epoll` has said next, and waits where everything has been dealt with.
    ///
    /// A client that has closed the connection is forgotten and its socket closed. Where it was the
    /// last one, the environment closes.
    pub open spec fn continues(
        self,
        reports: Seq<Failure<E>>,
        closes: Seq<i32>,
    ) -> EnvironmentOutcome<E>
        decreases self.pending.len(),
    {
        if self.pending.len() == 0 {
            self.goes(
                EnvironmentPhase::Waiting,
                reports,
                closes,
                EnvironmentAction::Wait { max_events: (self.sockets.len() + 1) as usize },
            )
        } else {
            let readiness = self.pending[0];
            let fd = fd_of(readiness.data);
            let rest = EnvironmentState { pending: self.pending.drop_first(), ..self };
            if readiness.data == data_of(self.add_listener) {
                rest.goes(
                    EnvironmentPhase::ReadingAddListenerEvent,
                    reports,
                    closes,
                    EnvironmentAction::ReadAddListenerEvent,
                )
            } else if readiness.data == data_of(self.drop_event) {
                rest.goes(
                    EnvironmentPhase::ReadingDropEvent,
                    reports,
                    closes,
                    EnvironmentAction::ReadDropEvent,
                )
            } else if readiness.events & EPOLLRDHUP != 0 {
                let left = EnvironmentState { sockets: rest.sockets.remove(fd), ..rest };
                let closes = if rest.sockets.contains(fd) {
                    closes.push(fd)
                } else {
                    closes
                };
                if left.sockets.is_empty() {
                    left.goes(
                        EnvironmentPhase::SendingName { unreported: None },
                        reports,
                        closes,
                        EnvironmentAction::SendName(self.name),
                    )
                } else {
                    left.continues(reports, closes)
                }
            } else {
                rest.goes(
                    EnvironmentPhase::ReceivingRequest { fd },
                    reports,
                    closes,
                    EnvironmentAction::ReceiveRequest { fd },
                )
            }
        }
    }

    /// Tells a client that its request is malformed.
    pub open spec fn refuses(self, fd: i32) -> EnvironmentOutcome<E> {
        self.goes(
            EnvironmentPhase::Refusing,
            seq![],
            seq![],
            EnvironmentAction::Respond {
                fd,
                response: EnvironmentResponse::MalformedRequest,
                page: None,
            },
        )
    }

    /// Tells a client where the mutex is, or that it could not be opened.
    pub open spec fn answers(self, fd: i32, r: Opened<E>) -> EnvironmentOutcome<E> {
        match r {
            Ok(location) => self.goes(
                EnvironmentPhase::Answering { failure: None },
                seq![],
                seq![],
                EnvironmentAction::Respond {
                    fd,
                    response: EnvironmentResponse::OpenMutexOk(location.page, location.offset),
                    page: Some(location.fd),
                },
            ),
            Err(failure) => self.goes(
                EnvironmentPhase::Answering { failure: Some(failure) },
                seq![],
                seq![],
                EnvironmentAction::Respond {
                    fd,
                    response: EnvironmentResponse::InternalError,
                    page: None,
                },
            ),
        }
    }

    /// Whether the event is the outcome of the action that the thread has asked for.
    pub open spec fn expects(
        self,
        event: EnvironmentEvent<Seq<char>, Seq<u8>, Seq<Readiness>, E>,
    ) -> bool {
        match self.phase {
            EnvironmentPhase::CreatingEpoll => event is EpollCreated,
            EnvironmentPhase::RegisteringAddListener
            | EnvironmentPhase::RegisteringDrop
            | EnvironmentPhase::RegisteringListener { .. } => event is Registered,
            EnvironmentPhase::Waiting => event is Waited,
            EnvironmentPhase::ReadingAddListenerEvent => event is AddListenerEventRead,
            EnvironmentPhase::ReceivingListener => event matches EnvironmentEvent::ListenerReceived(
                fd,
            ) && fd >= 0,
            EnvironmentPhase::ReadingDropEvent => event is DropEventRead,
            EnvironmentPhase::ReceivingRequest { .. } => event is RequestReceived,
            EnvironmentPhase::Parsing { .. } => event is RequestParsed,
            EnvironmentPhase::Refusing
            | EnvironmentPhase::Answering { .. } => event is Responded,
            EnvironmentPhase::Reporting => event is Reported,
            EnvironmentPhase::SendingName { .. } => event is NameSent,
            EnvironmentPhase::WritingCloseEvent { .. } => event is CloseEventWritten,
            EnvironmentPhase::OpeningMutex { .. } | EnvironmentPhase::Stopped => false,
        }
    }

    /// What the outcome of the action leads to that the thread has asked for.
    pub open spec fn next(
        self,
        event: EnvironmentEvent<Seq<char>, Seq<u8>, Seq<Readiness>, E>,
    ) -> EnvironmentOutcome<E> {
        match event {
            EnvironmentEvent::EpollCreated(Err(e)) => self.fails(Failure::Outside(e)),
            EnvironmentEvent::EpollCreated(Ok(_)) => self.registers(
                EnvironmentPhase::RegisteringAddListener,
                self.add_listener,
            ),
            EnvironmentEvent::Registered(r) => match self.phase {
                EnvironmentPhase::RegisteringListener { fd } => match r {
                    Ok(_) => EnvironmentState {
                        sockets: self.sockets.insert(fd),
                        ..self
                    }.continues(seq![], seq![]).answering(Admission::Admitted),
                    Err(_) => self.continues(errors_of(r), seq![fd]).answering(Admission::Refused),
                },
                _ => match r {
                    Err(e) => self.fails(Failure::Outside(e)),
                    Ok(_) => if self.phase is RegisteringAddListener {
                        self.registers(EnvironmentPhase::RegisteringDrop, self.drop_event)
                    } else {
                        self.continues(seq![], seq![])
                    },
                },
            },
            EnvironmentEvent::Waited(Err(e)) => self.fails(Failure::Outside(e)),
            EnvironmentEvent::Waited(Ok(readiness)) => EnvironmentState {
                pending: readiness,
                ..self
            }.continues(seq![], seq![]),
            EnvironmentEvent::AddListenerEventRead(r) => match r {
                Ok(_) => self.goes(
                    EnvironmentPhase::ReceivingListener,
                    seq![],
                    seq![],
                    EnvironmentAction::ReceiveListener,
                ),
                Err(_) => self.continues(errors_of(r), seq![]).answering(Admission::Refused),
            },
            EnvironmentEvent::ListenerReceived(fd) => self.goes(
                EnvironmentPhase::RegisteringListener { fd },
                seq![],
                seq![],
                EnvironmentAction::Register { fd, data: data_of(fd), events: CLIENT_EVENTS },
            ),
            EnvironmentEvent::DropEventRead(r) => self.stops(errors_of(r)),
            EnvironmentEvent::RequestReceived(r) => match r {
                Ok(bytes) => if valid_utf8(bytes) {
                    self.goes(
                        EnvironmentPhase::Parsing { fd: self.phase->ReceivingRequest_fd },
                        seq![],
                        seq![],
                        EnvironmentAction::ParseRequest(decode_utf8(bytes)),
                    )
                } else {
                    self.refuses(self.phase->ReceivingRequest_fd)
                },
                Err(_) => self.continues(errors_of(r), seq![]),
            },
            EnvironmentEvent::RequestParsed(r) => match r {
                Some(EnvironmentRequest::OpenMutex(name)) => self.goes(
                    EnvironmentPhase::OpeningMutex { fd: self.phase->Parsing_fd, name },
                    seq![],
                    seq![],
                    EnvironmentAction::OpenMutex,
                ),
                None => self.refuses(self.phase->Parsing_fd),
            },
            EnvironmentEvent::Responded(r) => match self.phase {
                EnvironmentPhase::Answering { failure: Some(failure) } => self.continues(
                    seq![failure] + errors_of(r),
                    seq![],
                ),
                _ => self.continues(errors_of(r), seq![]),
            },
            EnvironmentEvent::Reported(r) => self.goes(
                EnvironmentPhase::SendingName { unreported: r.err() },
                seq![],
                seq![],
                EnvironmentAction::SendName(self.name),
            ),
            EnvironmentEvent::NameSent(r) => self.goes(
                EnvironmentPhase::WritingCloseEvent {
                    unreported: self.phase->SendingName_unreported,
                    unsent: r.err(),
                },
                seq![],
                seq![],
                EnvironmentAction::WriteCloseEvent { value: EVENT_TRIGGER },
            ),
            EnvironmentEvent::CloseEventWritten(r) => self.stops(
                kept(self.phase->WritingCloseEvent_unreported) + kept(
                    self.phase->WritingCloseEvent_unsent,
                ) + errors_of(r),
            ),
        }
    }

    /// The shared memory is there until the environment closes, and all sockets are open.
    pub open spec fn wf(self) -> bool {
        &&& all_open(self.sockets)
        &&& self.phase matches EnvironmentPhase::RegisteringListener { fd } ==> fd >= 0
        &&& match self.phase {
            EnvironmentPhase::Reporting
            | EnvironmentPhase::SendingName { .. }
            | EnvironmentPhase::WritingCloseEvent { .. }
            | EnvironmentPhase::Stopped => true,
            _ => self.shm is Some,
        }
    }
}

impl<E> View for EnvironmentAction<String, E> {
    type V = EnvironmentAction<Seq<char>, E>;

    open spec fn view(&self) -> EnvironmentAction<Seq<char>, E> {
        match *self {
            EnvironmentAction::CreateEpoll { flags } => EnvironmentAction::CreateEpoll { flags },
            EnvironmentAction::Register { fd, data, events } => EnvironmentAction::Register {
                fd,
                data,
                events,
            },
            EnvironmentAction::Wait { max_events } => EnvironmentAction::Wait { max_events },
            EnvironmentAction::ReadAddListenerEvent => EnvironmentAction::ReadAddListenerEvent,
            EnvironmentAction::ReceiveListener => EnvironmentAction::ReceiveListener,
            EnvironmentAction::ReadDropEvent => EnvironmentAction::ReadDropEvent,
            EnvironmentAction::ReceiveRequest { fd } => EnvironmentAction::ReceiveRequest { fd },
            EnvironmentAction::ParseRequest(text) => EnvironmentAction::ParseRequest(text@),
            EnvironmentAction::OpenMutex => EnvironmentAction::OpenMutex,
            EnvironmentAction::Respond { fd, response, page } => EnvironmentAction::Respond {
                fd,
                response,
                page,
            },
            EnvironmentAction::Report(failure) => EnvironmentAction::Report(failure),
            EnvironmentAction::SendName(name) => EnvironmentAction::SendName(name@),
            EnvironmentAction::WriteCloseEvent { value } => EnvironmentAction::WriteCloseEvent {
                value,
            },
            EnvironmentAction::Stop => EnvironmentAction::Stop,
        }
    }
}

impl<E> View for EnvironmentEvent<String, Vec<u8>, Vec<Readiness>, E> {
    type V = EnvironmentEvent<Seq<char>, Seq<u8>, Seq<Readiness>, E>;

    open spec fn view(&self) -> EnvironmentEvent<Seq<char>, Seq<u8>, Seq<Readiness>, E> {
        match *self {
            EnvironmentEvent::EpollCreated(r) => EnvironmentEvent::EpollCreated(r),
            EnvironmentEvent::Registered(r) => EnvironmentEvent::Registered(r),
            EnvironmentEvent::Waited(Ok(readiness)) => EnvironmentEvent::Waited(Ok(readiness@)),
            EnvironmentEvent::Waited(Err(e)) => EnvironmentEvent::Waited(Err(e)),
            EnvironmentEvent::AddListenerEventRead(r) => EnvironmentEvent::AddListenerEventRead(r),
            EnvironmentEvent::ListenerReceived(fd) => EnvironmentEvent::ListenerReceived(fd),
            EnvironmentEvent::DropEventRead(r) => EnvironmentEvent::DropEventRead(r),
            EnvironmentEvent::RequestReceived(Ok(bytes)) => EnvironmentEvent::RequestReceived(
                Ok(bytes@),
            ),
            EnvironmentEvent::RequestReceived(Err(e)) => EnvironmentEvent::RequestReceived(Err(e)),
            EnvironmentEvent::RequestParsed(Some(request)) => EnvironmentEvent::RequestParsed(
                Some(request@),
            ),
            EnvironmentEvent::RequestParsed(None) => EnvironmentEvent::RequestParsed(None),
            EnvironmentEvent::Responded(r) => EnvironmentEvent::Responded(r),
            EnvironmentEvent::Reported(r) => EnvironmentEvent::Reported(r),
            EnvironmentEvent::NameSent(r) => EnvironmentEvent::NameSent(r),
            EnvironmentEvent::CloseEventWritten(r) => EnvironmentEvent::CloseEventWritten(r),
        }
    }
}

impl<E> View for EnvironmentPhase<String, E> {
    type V = EnvironmentPhase<Seq<char>, E>;

    open spec fn view(&self) -> EnvironmentPhase<Seq<char>, E> {
        match *self {
            EnvironmentPhase::CreatingEpoll => EnvironmentPhase::CreatingEpoll,
            EnvironmentPhase::RegisteringAddListener => EnvironmentPhase::RegisteringAddListener,
            EnvironmentPhase::RegisteringDrop => EnvironmentPhase::RegisteringDrop,
            EnvironmentPhase::Waiting => EnvironmentPhase::Waiting,
            EnvironmentPhase::ReadingAddListenerEvent => EnvironmentPhase::ReadingAddListenerEvent,
            EnvironmentPhase::ReceivingListener => EnvironmentPhase::ReceivingListener,
            EnvironmentPhase::RegisteringListener { fd } => EnvironmentPhase::RegisteringListener {
                fd,
            },
            EnvironmentPhase::ReadingDropEvent => EnvironmentPhase::ReadingDropEvent,
            EnvironmentPhase::ReceivingRequest { fd } => EnvironmentPhase::ReceivingRequest { fd },
            EnvironmentPhase::Parsing { fd } => EnvironmentPhase::Parsing { fd },
            EnvironmentPhase::Refusing => EnvironmentPhase::Refusing,
            EnvironmentPhase::OpeningMutex { fd, name } => EnvironmentPhase::OpeningMutex {
                fd,
                name: name@,
            },
            EnvironmentPhase::Answering { failure } => EnvironmentPhase::Answering { failure },
            EnvironmentPhase::Reporting => EnvironmentPhase::Reporting,
            EnvironmentPhase::SendingName { unreported } => EnvironmentPhase::SendingName {
                unreported,
            },
            EnvironmentPhase::WritingCloseEvent { unreported, unsent } => {
                EnvironmentPhase::WritingCloseEvent { unreported, unsent }
            },
            EnvironmentPhase::Stopped => EnvironmentPhase::Stopped,
        }
    }
}

/// What comes next is not a matter of the phase that has been gone through.
proof fn lemma_continues_from_any_phase<E>(
    state: EnvironmentState<E>,
    phase: EnvironmentPhase<Seq<char>, E>,
    reports: Seq<Failure<E>>,
    closes: Seq<i32>,
)
    ensures
        state.with_phase(phase).continues(reports, closes) == state.continues(reports, closes),
    decreases state.pending.len(),
{
    if state.pending.len() > 0 {
        let fd = fd_of(state.pending[0].data);
        let left = EnvironmentState {
            pending: state.pending.drop_first(),
            sockets: state.sockets.remove(fd),
            ..state
        };
        lemma_continues_from_any_phase(left, phase, reports, closes);
        lemma_continues_from_any_phase(left, phase, reports, closes.push(fd));
    }
}

/// What the thread wants next: the errors have to be reported, in order, the owner has to be told of
/// the client that it has handed over, if there is anything to tell, the sockets have to be closed,
/// and then the action has to be carried out.
#[derive(Debug, PartialEq, Eq)]
pub struct EnvironmentStep<E> {
    pub reports: Vec<Failure<E>>,
    pub answer: Option<Admission>,
    pub closes: Vec<i32>,
    pub action: EnvironmentAction<String, E>,
}

impl<E> EnvironmentStep<E> {
    fn answering(self, admission: Admission) -> (r: Self)
        ensures
            r == (EnvironmentStep { answer: Some(admission), ..self }),
    {
        EnvironmentStep { answer: Some(admission), ..self }
    }
}

/// The thread of an environment.
pub struct EnvironmentThread<E> {
    name: String,
    add_listener: i32,
    drop_event: i32,
    phase: EnvironmentPhase<String, E>,
    sockets: SocketSet,
    events: Vec<Readiness>,
    position: usize,
    shm: Option<ShmAllocator>,
}

impl<E> View for EnvironmentThread<E> {
    type V = EnvironmentState<E>;

    closed spec fn view(&self) -> EnvironmentState<E> {
        EnvironmentState {
            name: self.name@,
            add_listener: self.add_listener,
            drop_event: self.drop_event,
            phase: self.phase@,
            sockets: self.sockets@,
            pending: self.events@.skip(self.position as int),
            shm: match self.shm {
                Some(shm) => Some(shm@),
                None => None,
            },
        }
    }
}

/// The shared memory that an allocator stands for, if there is one.
pub open spec fn shm_view<E>(shm: Result<ShmAllocator, Failure<E>>) -> Result<
    ShmView,
    Failure<E>,
> {
    match shm {
        Ok(shm) => Ok(shm@),
        Err(failure) => Err(failure),
    }
}

/// Whether the thread and its step are what `outcome` says.
pub open spec fn is_outcome<E>(
    r: (EnvironmentThread<E>, EnvironmentStep<E>),
    outcome: EnvironmentOutcome<E>,
) -> bool {
    &&& r.0@ == outcome.state
    &&& r.1.reports@ == outcome.reports
    &&& r.1.answer == outcome.answer
    &&& r.1.closes@ == outcome.closes
    &&& r.1.action@ == outcome.action
}

impl<E> EnvironmentThread<E> {
    /// The thread's own bookkeeping is in order, and so is its state.
    pub closed spec fn wf(&self) -> bool {
        &&& self@.wf()
        &&& self.position <= self.events@.len()
        &&& self.shm matches Some(shm) ==> shm.wf()
    }

    /// A thread whose bookkeeping is in order is in an orderly state, and so is its memory.
    pub proof fn lemma_wf(&self)
        requires
            self.wf(),
        ensures
            self@.wf(),
            self@.shm matches Some(shm) ==> shm.wf(),
    {
        if let Some(shm) = &self.shm {
            shm.lemma_wf();
        }
    }

    fn go(
        self,
        phase: EnvironmentPhase<String, E>,
        reports: Vec<Failure<E>>,
        closes: Vec<i32>,
        action: EnvironmentAction<String, E>,
    ) -> (r: (Self, EnvironmentStep<E>))
        requires
            self.wf(),
            self@.with_phase(phase@).wf(),
        ensures
            r.0.wf(),
            is_outcome(r, self@.goes(phase@, reports@, closes@, action@)),
    {
        (EnvironmentThread { phase, ..self }, EnvironmentStep { reports, answer: None, closes, action })
    }

    /// The thread at its beginning, with the first action. `shm` is the shared memory for it, if it
    /// could be set up, and the two descriptors are those of the events by which new clients are
    /// announced and by which the environment is dropped.
    pub fn start(
        name: String,
        add_listener: i32,
        drop_event: i32,
        shm: Result<ShmAllocator, Failure<E>>,
    ) -> (r: (Self, EnvironmentStep<E>))
        requires
            shm matches Ok(shm) ==> shm.wf(),
        ensures
            r.0.wf(),
            is_outcome(
                r,
                EnvironmentState::start(name@, add_listener, drop_event, shm_view(shm)),
            ),
    {
        let (phase, shm, action) = match shm {
            Ok(shm) => (EnvironmentPhase::CreatingEpoll, Some(shm), EnvironmentAction::CreateEpoll { flags: EPOLL_CLOEXEC }),
            Err(failure) => (EnvironmentPhase::Reporting, None, EnvironmentAction::Report(failure)),
        };
        let thread = EnvironmentThread {
            name,
            add_listener,
            drop_event,
            phase,
            sockets: SocketSet::new(),
            events: Vec::new(),
            position: 0,
            shm,
        };
        assert(thread@.pending =~= seq![]);
        (
            thread,
            EnvironmentStep { reports: Vec::new(), answer: None, closes: Vec::new(), action },
        )
    }

    fn stop(self, reports: Vec<Failure<E>>) -> (r: (Self, EnvironmentStep<E>))
        requires
            self.wf(),
        ensures
            r.0.wf(),
            is_outcome(r, self@.stops(reports@)),
    {
        self.go(EnvironmentPhase::Stopped, reports, Vec::new(), EnvironmentAction::Stop)
    }

    /// Reports the error and then tells the owner that the environment closes.
    fn report_error_and_close(self, failure: Failure<E>) -> (r: (Self, EnvironmentStep<E>))
        requires
            self.wf(),
        ensures
            r.0.wf(),
            is_outcome(r, self@.fails(failure)),
    {
        self.go(
            EnvironmentPhase::Reporting,
            Vec::new(),
            Vec::new(),
            EnvironmentAction::Report(failure),
        )
    }

    fn register(self, phase: EnvironmentPhase<String, E>, fd: i32) -> (r: (
        Self,
        EnvironmentStep<E>,
    ))
        requires
            self.wf(),
            self@.with_phase(phase@).wf(),
        ensures
            r.0.wf(),
            is_outcome(r, self@.registers(phase@, fd)),
    {
        self.go(
            phase,
            Vec::new(),
            Vec::new(),
            EnvironmentAction::Register { fd, data: epoll_data(fd), events: EPOLLIN },
        )
    }

    fn refuse(self, fd: i32) -> (r: (Self, EnvironmentStep<E>))
        requires
            self.wf(),
            self@.shm is Some,
        ensures
            r.0.wf(),
            is_outcome(r, self@.refuses(fd)),
    {
        self.go(
            EnvironmentPhase::Refusing,
            Vec::new(),
            Vec::new(),
            EnvironmentAction::Respond {
                fd,
                response: EnvironmentResponse::MalformedRequest,
                page: None,
            },
        )
    }

    /// Turns to what `epoll` has said next, and waits where everything has been dealt with.
    #[verifier::loop_isolation(false)]
    fn proceed(self, reports: Vec<Failure<E>>, closes: Vec<i32>) -> (r: (
        Self,
        EnvironmentStep<E>,
    ))
        requires
            self.wf(),
            self@.shm is Some,
        ensures
            r.0.wf(),
            is_outcome(r, self@.continues(reports@, closes@)),
    {
        let ghost outcome = self@.continues(reports@, closes@);
        let mut this = self;
        let mut closes = closes;
        while this.position < this.events.len()
            invariant
                this.wf(),
                this@.shm is Some,
                this@.continues(reports@, closes@) == outcome,
            decreases this.events@.len() - this.position,
        {
            let ghost before = this@;
            let readiness = this.events[this.position];
            this.position = this.position + 1;
            assert(before.pending[0] == readiness);
            assert(before.pending.drop_first() =~= this@.pending);
            if readiness.data == epoll_data(this.add_listener) {
                return this.go(
                    EnvironmentPhase::ReadingAddListenerEvent,
                    reports,
                    closes,
                    EnvironmentAction::ReadAddListenerEvent,
                );
            }
            if readiness.data == epoll_data(this.drop_event) {
                return this.go(
                    EnvironmentPhase::ReadingDropEvent,
                    reports,
                    closes,
                    EnvironmentAction::ReadDropEvent,
                );
            }
            let fd: i32 = registered_fd(readiness.data);
            if readiness.events & EPOLLRDHUP == 0 {
                return this.go(
                    EnvironmentPhase::ReceivingRequest { fd },
                    reports,
                    closes,
                    EnvironmentAction::ReceiveRequest { fd },
                );
            }
            if this.sockets.remove(&fd) {
                closes.push(fd);
            }
            if this.sockets.is_empty() {
                let name = this.name.clone();
                return this.go(
                    EnvironmentPhase::SendingName { unreported: None },
                    reports,
                    closes,
                    EnvironmentAction::SendName(name),
                );
            }
        }
        let max_events: usize = this.sockets.len() + 1;
        this.go(
            EnvironmentPhase::Waiting,
            reports,
            closes,
            EnvironmentAction::Wait { max_events },
        )
    }

    /// Whether the event is the outcome of the action that the thread has asked for.
    pub fn expects(&self, event: &EnvironmentEvent<String, Vec<u8>, Vec<Readiness>, E>) -> (r: bool)
        ensures
            r == self@.expects(event@),
    {
        match (&self.phase, event) {
            (EnvironmentPhase::CreatingEpoll, EnvironmentEvent::EpollCreated(_)) => true,
            (EnvironmentPhase::RegisteringAddListener, EnvironmentEvent::Registered(_)) => true,
            (EnvironmentPhase::RegisteringDrop, EnvironmentEvent::Registered(_)) => true,
            (EnvironmentPhase::RegisteringListener { .. }, EnvironmentEvent::Registered(_)) => true,
            (EnvironmentPhase::Waiting, EnvironmentEvent::Waited(_)) => true,
            (
                EnvironmentPhase::ReadingAddListenerEvent,
                EnvironmentEvent::AddListenerEventRead(_),
            ) => true,
            (EnvironmentPhase::ReceivingListener, EnvironmentEvent::ListenerReceived(fd)) => *fd
                >= 0,
            (EnvironmentPhase::ReadingDropEvent, EnvironmentEvent::DropEventRead(_)) => true,
            (EnvironmentPhase::ReceivingRequest { .. }, EnvironmentEvent::RequestReceived(_)) => {
                true
            },
            (EnvironmentPhase::Parsing { .. }, EnvironmentEvent::RequestParsed(_)) => true,
            (EnvironmentPhase::Refusing, EnvironmentEvent::Responded(_)) => true,
            (EnvironmentPhase::Answering { .. }, EnvironmentEvent::Responded(_)) => true,
            (EnvironmentPhase::Reporting, EnvironmentEvent::Reported(_)) => true,
            (EnvironmentPhase::SendingName { .. }, EnvironmentEvent::NameSent(_)) => true,
            (
                EnvironmentPhase::WritingCloseEvent { .. },
                EnvironmentEvent::CloseEventWritten(_),
            ) => true,
            _ => false,
        }
    }

    /// What it means that a file has or has not been registered.
    fn handle_registered(self, registered: Result<(), E>) -> (r: (Self, EnvironmentStep<E>))
        requires
            self.wf(),
            self@.phase is RegisteringAddListener || self@.phase is RegisteringDrop
                || self@.phase is RegisteringListener,
        ensures
            r.0.wf(),
            is_outcome(r, self@.next(EnvironmentEvent::Registered(registered))),
    {
        let mut this = self;
        match (&this.phase, registered) {
            (EnvironmentPhase::RegisteringListener { fd }, Ok(_)) => {
                let fd: i32 = *fd;
                this.sockets.insert(fd);
                let (thread, step) = this.proceed(Vec::new(), Vec::new());
                (thread, step.answering(Admission::Admitted))
            },
            (EnvironmentPhase::RegisteringListener { fd }, Err(e)) => {
                let mut closes: Vec<i32> = Vec::new();
                closes.push(*fd);
                assert(closes@ =~= seq![self@.phase->RegisteringListener_fd]);
                let (thread, step) = this.proceed(single(Failure::Outside(e)), closes);
                (thread, step.answering(Admission::Refused))
            },
            (_, Err(e)) => this.report_error_and_close(Failure::Outside(e)),
            (EnvironmentPhase::RegisteringAddListener, Ok(_)) => {
                let fd: i32 = this.drop_event;
                this.register(EnvironmentPhase::RegisteringDrop, fd)
            },
            _ => this.proceed(Vec::new(), Vec::new()),
        }
    }

    /// What a request leads to that has come in as `bytes`.
    fn receive_request(self, bytes: Vec<u8>) -> (r: (Self, EnvironmentStep<E>))
        requires
            self.wf(),
            self@.phase is ReceivingRequest,
        ensures
            r.0.wf(),
            is_outcome(r, self@.next(EnvironmentEvent::RequestReceived(Ok(bytes@)))),
    {
        let fd: i32 = match self.phase {
            EnvironmentPhase::ReceivingRequest { fd } => fd,
            _ => -1,
        };
        match text_from_utf8(bytes) {
            Some(text) => self.go(
                EnvironmentPhase::Parsing { fd },
                Vec::new(),
                Vec::new(),
                EnvironmentAction::ParseRequest(text),
            ),
            None => self.refuse(fd),
        }
    }

    /// What it means that a client has or has not got its answer.
    fn handle_responded(self, sent: Result<(), E>) -> (r: (Self, EnvironmentStep<E>))
        requires
            self.wf(),
            self@.phase is Refusing || self@.phase is Answering,
        ensures
            r.0.wf(),
            is_outcome(r, self@.next(EnvironmentEvent::Responded(sent))),
    {
        let EnvironmentThread {
            name,
            add_listener,
            drop_event,
            phase,
            sockets,
            events,
            position,
            shm,
        } = self;
        let mut reports: Vec<Failure<E>> = match phase {
            EnvironmentPhase::Answering { failure: Some(failure) } => single(failure),
            _ => Vec::new(),
        };
        let mut unsent = error_of(sent);
        reports.append(&mut unsent);
        let this = EnvironmentThread {
            name,
            add_listener,
            drop_event,
            phase: EnvironmentPhase::Waiting,
            sockets,
            events,
            position,
            shm,
        };
        proof {
            lemma_continues_from_any_phase(
                self@,
                EnvironmentPhase::Waiting,
                reports@,
                Seq::<i32>::empty(),
            );
        }
        this.proceed(reports, Vec::new())
    }

    /// What it means that the owner has or has not been told the name, for an environment that
    /// closes.
    fn announce_close_event(self, sent: Result<(), E>) -> (r: (Self, EnvironmentStep<E>))
        requires
            self.wf(),
            self@.phase is SendingName,
        ensures
            r.0.wf(),
            is_outcome(r, self@.next(EnvironmentEvent::NameSent(sent))),
    {
        let EnvironmentThread {
            name,
            add_listener,
            drop_event,
            phase,
            sockets,
            events,
            position,
            shm,
        } = self;
        let unreported = match phase {
            EnvironmentPhase::SendingName { unreported } => unreported,
            _ => None,
        };
        let unsent = sent.err();
        (
            EnvironmentThread {
                name,
                add_listener,
                drop_event,
                phase: EnvironmentPhase::WritingCloseEvent { unreported, unsent },
                sockets,
                events,
                position,
                shm,
            },
            EnvironmentStep {
                reports: Vec::new(),
                answer: None,
                closes: Vec::new(),
                action: EnvironmentAction::WriteCloseEvent { value: EVENT_TRIGGER },
            },
        )
    }

    /// What it means that the event has or has not been written by which the environment tells that
    /// it has closed: whatever went wrong on the way is reported, and the thread ends.
    fn end_announcement(self, written: Result<(), E>) -> (r: (Self, EnvironmentStep<E>))
        requires
            self.wf(),
            self@.phase is WritingCloseEvent,
        ensures
            r.0.wf(),
            is_outcome(r, self@.next(EnvironmentEvent::CloseEventWritten(written))),
    {
        let EnvironmentThread {
            name,
            add_listener,
            drop_event,
            phase,
            sockets,
            events,
            position,
            shm,
        } = self;
        let (unreported, unsent) = match phase {
            EnvironmentPhase::WritingCloseEvent { unreported, unsent } => (unreported, unsent),
            _ => (None, None),
        };
        let mut reports: Vec<Failure<E>> = Vec::new();
        if let Some(e) = unreported {
            reports.push(Failure::Outside(e));
        }
        if let Some(e) = unsent {
            reports.push(Failure::Outside(e));
        }
        if let Err(e) = written {
            reports.push(Failure::Outside(e));
        }
        assert(reports@ =~= self@.next(EnvironmentEvent::CloseEventWritten(written)).reports);
        let this = EnvironmentThread {
            name,
            add_listener,
            drop_event,
            phase: EnvironmentPhase::Stopped,
            sockets,
            events,
            position,
            shm,
        };
        this.stop(reports)
    }

    /// What the outcome of the action leads to that the thread has asked for.
    pub fn next(self, event: EnvironmentEvent<String, Vec<u8>, Vec<Readiness>, E>) -> (r: (
        Self,
        EnvironmentStep<E>,
    ))
        requires
            self.wf(),
            self@.expects(event@),
        ensures
            r.0.wf(),
            is_outcome(r, self@.next(event@)),
    {
        let mut this = self;
        match event {
            EnvironmentEvent::EpollCreated(Err(e)) => this.report_error_and_close(
                Failure::Outside(e),
            ),
            EnvironmentEvent::EpollCreated(Ok(_)) => {
                let fd: i32 = this.add_listener;
                this.register(EnvironmentPhase::RegisteringAddListener, fd)
            },
            EnvironmentEvent::Registered(registered) => this.handle_registered(registered),
            EnvironmentEvent::Waited(Err(e)) => this.report_error_and_close(Failure::Outside(e)),
            EnvironmentEvent::Waited(Ok(readiness)) => {
                this.events = readiness;
                this.position = 0;
                assert(this@.pending =~= readiness@);
                this.proceed(Vec::new(), Vec::new())
            },
            EnvironmentEvent::AddListenerEventRead(Err(e)) => {
                let (thread, step) = this.proceed(single(Failure::Outside(e)), Vec::new());
                (thread, step.answering(Admission::Refused))
            },
            EnvironmentEvent::AddListenerEventRead(Ok(_)) => this.go(
                EnvironmentPhase::ReceivingListener,
                Vec::new(),
                Vec::new(),
                EnvironmentAction::ReceiveListener,
            ),
            EnvironmentEvent::ListenerReceived(fd) => this.go(
                EnvironmentPhase::RegisteringListener { fd },
                Vec::new(),
                Vec::new(),
                EnvironmentAction::Register { fd, data: epoll_data(fd), events: CLIENT_EVENTS },
            ),
            EnvironmentEvent::DropEventRead(read) => this.stop(error_of(read)),
            EnvironmentEvent::RequestReceived(Ok(bytes)) => this.receive_request(bytes),
            EnvironmentEvent::RequestReceived(Err(e)) => this.proceed(
                single(Failure::Outside(e)),
                Vec::new(),
            ),
            EnvironmentEvent::RequestParsed(request) => {
                let fd: i32 = match this.phase {
                    EnvironmentPhase::Parsing { fd } => fd,
                    _ => -1,
                };
                match request {
                    Some(EnvironmentRequest::OpenMutex(name)) => this.go(
                        EnvironmentPhase::OpeningMutex { fd, name },
                        Vec::new(),
                        Vec::new(),
                        EnvironmentAction::OpenMutex,
                    ),
                    None => this.refuse(fd),
                }
            },
            EnvironmentEvent::Responded(sent) => this.handle_responded(sent),
            EnvironmentEvent::Reported(reported) => {
                let name = this.name.clone();
                this.go(
                    EnvironmentPhase::SendingName { unreported: reported.err() },
                    Vec::new(),
                    Vec::new(),
                    EnvironmentAction::SendName(name),
                )
            },
            EnvironmentEvent::NameSent(sent) => this.announce_close_event(sent),
            EnvironmentEvent::CloseEventWritten(written) => this.end_announcement(written),
        }
    }

    /// Opens the mutex that a client has asked for and has the client told where it is. `mutex` is
    /// the type of mutexes.
    ///
    /// Where there is no such mutex yet, and only there, `init` makes one. Once it has succeeded, the
    /// mutex is moved into shared memory, as by [`ShmAllocator::move_into_shm`]: the steps make the
    /// file of a page, where one is needed, and `write` moves the mutex into its slot. The shared
    /// memory is not touched where `init` fails.
    pub fn open_mutex<T, I, C, R, S, M, W>(
        self,
        mutex: ResourceType,
        init: I,
        steps: PageSteps<C, R, S, M>,
        write: W,
    ) -> (r: (Self, EnvironmentStep<E>)) where
        I: FnOnce() -> Result<T, E>,
        C: FnOnce(&'static str, u32) -> Result<i32, E>,
        R: FnOnce(i32, i64) -> Result<(), E>,
        S: FnOnce(i32, i32) -> Result<(), E>,
        M: FnOnce(i32, usize, i32, i32) -> Result<(), E>,
        W: FnOnce(T, usize, usize),

        requires
            self.wf(),
            self@.phase is OpeningMutex,
            mutex.align > 0,
            !(self@.shm->0).slots.contains_key(self@.phase->OpeningMutex_name) ==> call_requires(
                init,
                (),
            ),
            forall|resource: T| #[trigger]
                call_ensures(init, (), Ok::<T, E>(resource)) && may_make_page(
                    self@.shm->0,
                    self@.phase->OpeningMutex_name,
                    mutex.size as int,
                    mutex.align as int,
                ) ==> steps.callable((self@.shm->0).page_size as usize),
            forall|resource: T, page: usize, offset: usize|
                call_ensures(init, (), Ok::<T, E>(resource)) && may_build(
                    self@.shm->0,
                    self@.phase->OpeningMutex_name,
                    mutex.size as int,
                    mutex.align as int,
                    steps.outcomes((self@.shm->0).page_size as usize),
                    page,
                    offset,
                ) ==> #[trigger] call_requires(write, (resource, page, offset)),
        ensures
            r.0.wf(),
            mutex_opened(
                self@,
                mutex,
                init,
                steps.outcomes((self@.shm->0).page_size as usize),
                write,
                r,
            ),
    {
        let EnvironmentThread {
            name: env_name,
            add_listener,
            drop_event,
            phase,
            sockets,
            events,
            position,
            shm,
        } = self;
        let (fd, name) = match phase {
            EnvironmentPhase::OpeningMutex { fd, name } => (fd, name),
            _ => (-1i32, String::new()),
        };
        let mut shm = shm.unwrap();
        let ghost made = steps.outcomes::<E>((self@.shm->0).page_size as usize);
        let location = match shm.find_resource(name.as_str(), mutex.type_id, mutex.name) {
            Ok(Some(location)) => Ok(location),
            Ok(None) => match init() {
                Ok(resource) => shm.move_into_shm(
                    name.as_str(),
                    mutex.type_id,
                    mutex.size,
                    mutex.align,
                    resource,
                    steps,
                    write,
                ),
                Err(e) => Err(Failure::Outside(e)),
            },
            Err(e) => Err(Failure::Service(ServiceError::Runtime(e))),
        };
        let ghost grown = shm@;
        assert(opened(
            self@.shm->0,
            self@.phase->OpeningMutex_name,
            mutex,
            init,
            made,
            write,
            grown,
            location,
        ));
        let (phase, response, page) = match location {
            Ok(location) => (
                EnvironmentPhase::Answering { failure: None },
                EnvironmentResponse::OpenMutexOk(location.page, location.offset),
                Some(location.fd),
            ),
            Err(failure) => (
                EnvironmentPhase::Answering { failure: Some(failure) },
                EnvironmentResponse::InternalError,
                None,
            ),
        };
        let r = (
            EnvironmentThread {
                name: env_name,
                add_listener,
                drop_event,
                phase,
                sockets,
                events,
                position,
                shm: Some(shm),
            },
            EnvironmentStep {
                reports: Vec::new(),
                answer: None,
                closes: Vec::new(),
                action: EnvironmentAction::Respond { fd, response, page },
            },
        );
        assert(is_outcome(
            r,
            EnvironmentState { shm: Some(grown), ..self@ }.answers(
                self@.phase->OpeningMutex_fd,
                location,
            ),
        ));
        r
    }

    /// What is left to do when the thread has ended: first the shared memory is torn down, where
    /// there is any, and then the sockets are closed.
    pub fn finish(self) -> (r: (Option<Teardown>, Vec<i32>))
        requires
            self.wf(),
        ensures
            match self@.shm {
                Some(shm) => r.0 matches Some(teardown) && teardown.pages@ == shm.pages
                    && teardown.page_size == shm.page_size && destroys_all(shm, teardown.destructions@),
                None => r.0 is None,
            },
            r.1@.to_set() == self@.sockets,
            r.1@.no_duplicates(),
    {
        let teardown = match self.shm {
            Some(shm) => Some(shm.teardown()),
            None => None,
        };
        (teardown, self.sockets.into_sockets())
    }
}

/// How the opening of a mutex ends for the thread: whether it could be opened or not, the client is
/// answered.
pub open spec fn mutex_opened<E, T, I: FnOnce() -> Result<T, E>, W: FnOnce(T, usize, usize)>(
    before: EnvironmentState<E>,
    mutex: ResourceType,
    init: I,
    made: spec_fn(Result<i32, E>) -> bool,
    write: W,
    r: (EnvironmentThread<E>, EnvironmentStep<E>),
) -> bool {
    exists|shm: ShmView, location: Opened<E>| #[trigger]
        opened(
            before.shm->0,
            before.phase->OpeningMutex_name,
            mutex,
            init,
            made,
            write,
            shm,
            location,
        ) && is_outcome(
            r,
            EnvironmentState { shm: Some(shm), ..before }.answers(
                before.phase->OpeningMutex_fd,
                location,
            ),
        )
}

} // verus!
