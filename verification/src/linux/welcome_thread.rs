//! The thread that welcomes clients: it opens environments for them and forgets environments that
//! have closed.
//!
//! The thread is given as what it does next. [`WelcomeThread::start`] names the first action; each
//! time an action has been carried out, its outcome goes into [`WelcomeThread::next`], which says
//! what has to be reported and names the next action.

use vstd::hash_map::StringHashMap;
use vstd::prelude::*;
use vstd::utf8::{decode_utf8, valid_utf8};

use crate::linux::runtime_error::RuntimeError;
use crate::linux::service_error::{error_of, errors_of, single, Failure, ServiceError};
use crate::linux::settings::{EVENT_FLAGS, EVENT_START, SOMAXCONN};
use crate::protocol::{WelcomeRequest, WelcomeResponse};
use crate::text::text_from_utf8;

verus! {

/// The bit by which `poll` says that there is something to read.
pub const POLLIN: i16 = 1;

/// What `poll` says of the three things that the thread waits for. There is nothing where the
/// system sets a bit that is not known.
#[derive(Debug, Copy, Clone, PartialEq, Eq)]
pub struct Revents {
    pub shutdown: Option<i16>,
    pub close_env: Option<i16>,
    pub welcome: Option<i16>,
}

/// Whether `poll` says anything at all.
pub open spec fn happened(revents: Option<i16>) -> bool {
    revents matches Some(bits) && bits != 0
}

/// Whether there is something to read.
pub open spec fn readable(revents: Option<i16>) -> bool {
    revents matches Some(bits) && bits & POLLIN == POLLIN
}

fn any(revents: Option<i16>) -> (r: bool)
    ensures
        r == happened(revents),
{
    match revents {
        Some(bits) => bits != 0,
        None => false,
    }
}

/// What the thread asks for.
#[derive(Debug, PartialEq, Eq)]
pub enum WelcomeAction<S = String> {
    /// Make the event by which environments tell that they have closed.
    CreateCloseEvent { start: u32, flags: i32 },
    /// Listen on the welcome socket, on which so many clients can wait.
    Listen { backlog: i32 },
    /// Wait until one of these events happens, however long it takes.
    Poll { events: i16 },
    /// Read the event by which the service is shut down.
    ReadShutdownEvent,
    /// Read the event by which environments tell that they have closed.
    ReadCloseEvent,
    /// Receive the name of an environment that has closed.
    ReceiveName,
    /// Accept a client and receive its request, filled up with zero bytes to the size of a request.
    ReceiveRequest,
    /// Make a request of the text.
    ParseRequest(S),
    /// Make an environment of this name for the client.
    CreateEnvironment(S),
    /// Answer the client.
    Respond(WelcomeResponse),
    /// Hand the client over to the environment of this name.
    AddClient(S),
    /// Drop all environments and end the thread.
    Stop,
}

/// The outcome of an action: `V` is an environment, and `E` an error.
pub enum WelcomeEvent<S, B, V, E> {
    CloseEventCreated(Result<(), E>),
    Listened(Result<(), E>),
    Polled(Result<Revents, E>),
    ShutdownEventRead(Result<(), E>),
    CloseEventRead(Result<(), E>),
    NameReceived(Result<S, E>),
    RequestReceived(Result<B, E>),
    RequestParsed(Option<WelcomeRequest<S>>),
    EnvironmentCreated(Result<V, E>),
    Responded(Result<(), E>),
    ClientAdded,
}

/// What the thread is in the middle of.
pub enum WelcomePhase<S, V, E> {
    CreatingCloseEvent,
    Listening,
    Polling,
    ReadingShutdownEvent,
    /// `welcome` is what `poll` has said of the welcome socket.
    ReadingCloseEvent { welcome: Option<i16> },
    ReceivingName { welcome: Option<i16> },
    ReceivingRequest,
    Parsing,
    /// The client is told that its request is malformed.
    Refusing,
    Creating { name: S },
    /// The client is told that no environment could be made.
    Declining { error: E },
    /// The client is told that the environment is open. It has just been created or is an old one.
    Admitting { name: S, created: Option<V> },
    AddingClient,
    Stopped,
}

/// The state of the thread: its phase, and the environments by their names.
pub struct WelcomeState<V, E> {
    pub phase: WelcomePhase<Seq<char>, V, E>,
    pub environments: Map<Seq<char>, V>,
}

/// What an outcome leads to: the next state, the errors that are reported, in order, and the next
/// action.
pub struct WelcomeOutcome<V, E> {
    pub state: WelcomeState<V, E>,
    pub reports: Seq<Failure<E>>,
    pub action: WelcomeAction<Seq<char>>,
}

impl<V, E> WelcomeState<V, E> {
    /// Where the thread begins.
    pub open spec fn start() -> WelcomeOutcome<V, E> {
        WelcomeOutcome {
            state: WelcomeState {
                phase: WelcomePhase::CreatingCloseEvent,
                environments: Map::empty(),
            },
            reports: seq![],
            action: WelcomeAction::CreateCloseEvent { start: EVENT_START, flags: EVENT_FLAGS },
        }
    }

    /// Goes on to `phase` with `action`.
    pub open spec fn goes(
        self,
        phase: WelcomePhase<Seq<char>, V, E>,
        reports: Seq<Failure<E>>,
        action: WelcomeAction<Seq<char>>,
    ) -> WelcomeOutcome<V, E> {
        WelcomeOutcome { state: WelcomeState { phase, ..self }, reports, action }
    }

    /// Ends the thread.
    pub open spec fn stops(self, reports: Seq<Failure<E>>) -> WelcomeOutcome<V, E> {
        self.goes(WelcomePhase::Stopped, reports, WelcomeAction::Stop)
    }

    /// Waits for something to happen.
    pub open spec fn polls(self, reports: Seq<Failure<E>>) -> WelcomeOutcome<V, E> {
        self.goes(WelcomePhase::Polling, reports, WelcomeAction::Poll { events: POLLIN })
    }

    /// Turns to the welcome socket, of which `poll` has said `welcome`.
    pub open spec fn serves(self, welcome: Option<i16>) -> WelcomeOutcome<V, E> {
        if !happened(welcome) {
            self.polls(seq![])
        } else if !readable(welcome) {
            self.stops(
                seq![
                    Failure::Service(ServiceError::Runtime(RuntimeError::WelcomeSocketFailed)),
                ],
            )
        } else {
            self.goes(
                WelcomePhase::ReceivingRequest,
                seq![],
                WelcomeAction::ReceiveRequest,
            )
        }
    }

    /// Tells the client that its request is malformed.
    pub open spec fn refuses(self) -> WelcomeOutcome<V, E> {
        self.goes(
            WelcomePhase::Refusing,
            seq![],
            WelcomeAction::Respond(WelcomeResponse::MalformedRequest),
        )
    }

    /// Tells the client that the environment is open.
    pub open spec fn admits(self, name: Seq<char>, created: Option<V>) -> WelcomeOutcome<V, E> {
        self.goes(
            WelcomePhase::Admitting { name, created },
            seq![],
            WelcomeAction::Respond(WelcomeResponse::OpenEnvironmentOk),
        )
    }

    /// Opens the environment for the client: the one of that name, or a new one if there is none.
    pub open spec fn opens(self, name: Seq<char>) -> WelcomeOutcome<V, E> {
        if self.environments.contains_key(name) {
            self.admits(name, None)
        } else {
            self.goes(
                WelcomePhase::Creating { name },
                seq![],
                WelcomeAction::CreateEnvironment(name),
            )
        }
    }

    /// Whether the event is the outcome of the action that the thread has asked for.
    pub open spec fn expects(self, event: WelcomeEvent<Seq<char>, Seq<u8>, V, E>) -> bool {
        match self.phase {
            WelcomePhase::CreatingCloseEvent => event is CloseEventCreated,
            WelcomePhase::Listening => event is Listened,
            WelcomePhase::Polling => event is Polled,
            WelcomePhase::ReadingShutdownEvent => event is ShutdownEventRead,
            WelcomePhase::ReadingCloseEvent { .. } => event is CloseEventRead,
            WelcomePhase::ReceivingName { .. } => event is NameReceived,
            WelcomePhase::ReceivingRequest => event is RequestReceived,
            WelcomePhase::Parsing => event is RequestParsed,
            WelcomePhase::Creating { .. } => event is EnvironmentCreated,
            WelcomePhase::Refusing
            | WelcomePhase::Declining { .. }
            | WelcomePhase::Admitting { .. } => event is Responded,
            WelcomePhase::AddingClient => event is ClientAdded,
            WelcomePhase::Stopped => false,
        }
    }

    /// What the outcome of the action leads to that the thread has asked for.
    pub open spec fn next(
        self,
        event: WelcomeEvent<Seq<char>, Seq<u8>, V, E>,
    ) -> WelcomeOutcome<V, E> {
        match event {
            WelcomeEvent::CloseEventCreated(r) => match r {
                Ok(_) => self.goes(WelcomePhase::Listening, seq![], WelcomeAction::Listen { backlog: SOMAXCONN }),
                Err(_) => self.stops(errors_of(r)),
            },
            WelcomeEvent::Listened(r) => match r {
                Ok(_) => self.polls(seq![]),
                Err(_) => self.stops(errors_of(r)),
            },
            WelcomeEvent::Polled(r) => match r {
                Ok(revents) => if happened(revents.shutdown) {
                    self.goes(
                        WelcomePhase::ReadingShutdownEvent,
                        seq![],
                        WelcomeAction::ReadShutdownEvent,
                    )
                } else if happened(revents.close_env) {
                    self.goes(
                        WelcomePhase::ReadingCloseEvent { welcome: revents.welcome },
                        seq![],
                        WelcomeAction::ReadCloseEvent,
                    )
                } else {
                    self.serves(revents.welcome)
                },
                Err(_) => self.stops(errors_of(r)),
            },
            WelcomeEvent::ShutdownEventRead(r) => self.stops(errors_of(r)),
            WelcomeEvent::CloseEventRead(r) => self.goes(
                WelcomePhase::ReceivingName { welcome: self.phase->ReadingCloseEvent_welcome },
                errors_of(r),
                WelcomeAction::ReceiveName,
            ),
            WelcomeEvent::NameReceived(r) => match r {
                Ok(name) => WelcomeState {
                    environments: self.environments.remove(name),
                    ..self
                }.serves(self.phase->ReceivingName_welcome),
                Err(_) => self.stops(errors_of(r)),
            },
            WelcomeEvent::RequestReceived(r) => match r {
                Ok(bytes) => if valid_utf8(bytes) {
                    self.goes(
                        WelcomePhase::Parsing,
                        seq![],
                        WelcomeAction::ParseRequest(decode_utf8(bytes)),
                    )
                } else {
                    self.refuses()
                },
                Err(_) => self.polls(errors_of(r)),
            },
            WelcomeEvent::RequestParsed(r) => match r {
                Some(WelcomeRequest::OpenEnvironment(name)) => self.opens(name),
                None => self.refuses(),
            },
            WelcomeEvent::EnvironmentCreated(r) => match r {
                Ok(environment) => self.admits(self.phase->Creating_name, Some(environment)),
                Err(error) => self.goes(
                    WelcomePhase::Declining { error },
                    seq![],
                    WelcomeAction::Respond(WelcomeResponse::InternalError),
                ),
            },
            WelcomeEvent::Responded(r) => match self.phase {
                WelcomePhase::Declining { error } => self.polls(
                    seq![Failure::Outside(error)] + errors_of(r),
                ),
                WelcomePhase::Admitting { name, created } => if r is Err {
                    self.polls(errors_of(r))
                } else {
                    match created {
                        Some(environment) => WelcomeState {
                            environments: self.environments.insert(name, environment),
                            ..self
                        }.polls(seq![]),
                        None => self.goes(
                            WelcomePhase::AddingClient,
                            seq![],
                            WelcomeAction::AddClient(name),
                        ),
                    }
                },
                _ => self.polls(errors_of(r)),
            },
            WelcomeEvent::ClientAdded => self.polls(seq![]),
        }
    }
}

impl View for WelcomeAction<String> {
    type V = WelcomeAction<Seq<char>>;

    open spec fn view(&self) -> WelcomeAction<Seq<char>> {
        match self {
            WelcomeAction::CreateCloseEvent { start, flags } => WelcomeAction::CreateCloseEvent {
                start: *start,
                flags: *flags,
            },
            WelcomeAction::Listen { backlog } => WelcomeAction::Listen { backlog: *backlog },
            WelcomeAction::Poll { events } => WelcomeAction::Poll { events: *events },
            WelcomeAction::ReadShutdownEvent => WelcomeAction::ReadShutdownEvent,
            WelcomeAction::ReadCloseEvent => WelcomeAction::ReadCloseEvent,
            WelcomeAction::ReceiveName => WelcomeAction::ReceiveName,
            WelcomeAction::ReceiveRequest => WelcomeAction::ReceiveRequest,
            WelcomeAction::ParseRequest(text) => WelcomeAction::ParseRequest(text@),
            WelcomeAction::CreateEnvironment(name) => WelcomeAction::CreateEnvironment(name@),
            WelcomeAction::Respond(response) => WelcomeAction::Respond(*response),
            WelcomeAction::AddClient(name) => WelcomeAction::AddClient(name@),
            WelcomeAction::Stop => WelcomeAction::Stop,
        }
    }
}

impl<V, E> View for WelcomeEvent<String, Vec<u8>, V, E> {
    type V = WelcomeEvent<Seq<char>, Seq<u8>, V, E>;

    open spec fn view(&self) -> WelcomeEvent<Seq<char>, Seq<u8>, V, E> {
        match *self {
            WelcomeEvent::CloseEventCreated(r) => WelcomeEvent::CloseEventCreated(r),
            WelcomeEvent::Listened(r) => WelcomeEvent::Listened(r),
            WelcomeEvent::Polled(r) => WelcomeEvent::Polled(r),
            WelcomeEvent::ShutdownEventRead(r) => WelcomeEvent::ShutdownEventRead(r),
            WelcomeEvent::CloseEventRead(r) => WelcomeEvent::CloseEventRead(r),
            WelcomeEvent::NameReceived(Ok(name)) => WelcomeEvent::NameReceived(Ok(name@)),
            WelcomeEvent::NameReceived(Err(e)) => WelcomeEvent::NameReceived(Err(e)),
            WelcomeEvent::RequestReceived(Ok(bytes)) => WelcomeEvent::RequestReceived(Ok(bytes@)),
            WelcomeEvent::RequestReceived(Err(e)) => WelcomeEvent::RequestReceived(Err(e)),
            WelcomeEvent::RequestParsed(Some(request)) => WelcomeEvent::RequestParsed(
                Some(request@),
            ),
            WelcomeEvent::RequestParsed(None) => WelcomeEvent::RequestParsed(None),
            WelcomeEvent::EnvironmentCreated(r) => WelcomeEvent::EnvironmentCreated(r),
            WelcomeEvent::Responded(r) => WelcomeEvent::Responded(r),
            WelcomeEvent::ClientAdded => WelcomeEvent::ClientAdded,
        }
    }
}

impl<V, E> View for WelcomePhase<String, V, E> {
    type V = WelcomePhase<Seq<char>, V, E>;

    open spec fn view(&self) -> WelcomePhase<Seq<char>, V, E> {
        match *self {
            WelcomePhase::CreatingCloseEvent => WelcomePhase::CreatingCloseEvent,
            WelcomePhase::Listening => WelcomePhase::Listening,
            WelcomePhase::Polling => WelcomePhase::Polling,
            WelcomePhase::ReadingShutdownEvent => WelcomePhase::ReadingShutdownEvent,
            WelcomePhase::ReadingCloseEvent { welcome } => WelcomePhase::ReadingCloseEvent {
                welcome,
            },
            WelcomePhase::ReceivingName { welcome } => WelcomePhase::ReceivingName { welcome },
            WelcomePhase::ReceivingRequest => WelcomePhase::ReceivingRequest,
            WelcomePhase::Parsing => WelcomePhase::Parsing,
            WelcomePhase::Refusing => WelcomePhase::Refusing,
            WelcomePhase::Creating { name } => WelcomePhase::Creating { name: name@ },
            WelcomePhase::Declining { error } => WelcomePhase::Declining { error },
            WelcomePhase::Admitting { name, created } => WelcomePhase::Admitting {
                name: name@,
                created,
            },
            WelcomePhase::AddingClient => WelcomePhase::AddingClient,
            WelcomePhase::Stopped => WelcomePhase::Stopped,
        }
    }
}

/// What the thread wants next: the errors have to be reported, in order, and then the action has to
/// be carried out.
#[derive(Debug, PartialEq, Eq)]
pub struct WelcomeStep<E> {
    pub reports: Vec<Failure<E>>,
    pub action: WelcomeAction,
}

/// The thread that welcomes clients.
#[verifier::reject_recursive_types(V)]
pub struct WelcomeThread<V, E> {
    phase: WelcomePhase<String, V, E>,
    environments: StringHashMap<V>,
}

impl<V, E> View for WelcomeThread<V, E> {
    type V = WelcomeState<V, E>;

    closed spec fn view(&self) -> WelcomeState<V, E> {
        WelcomeState { phase: self.phase@, environments: self.environments@ }
    }
}

/// Whether the thread and its step are what `outcome` says.
pub open spec fn is_outcome<V, E>(
    r: (WelcomeThread<V, E>, WelcomeStep<E>),
    outcome: WelcomeOutcome<V, E>,
) -> bool {
    &&& r.0@ == outcome.state
    &&& r.1.reports@ == outcome.reports
    &&& r.1.action@ == outcome.action
}

impl<V, E> WelcomeThread<V, E> {
    /// The thread at its beginning, with the first action.
    pub fn start() -> (r: (Self, WelcomeStep<E>))
        ensures
            is_outcome(r, WelcomeState::start()),
    {
        (
            WelcomeThread {
                phase: WelcomePhase::CreatingCloseEvent,
                environments: StringHashMap::new(),
            },
            WelcomeStep { reports: Vec::new(), action: WelcomeAction::CreateCloseEvent { start: EVENT_START, flags: EVENT_FLAGS } },
        )
    }

    /// The environment of the given name.
    pub fn environment(&self, name: &str) -> (r: Option<&V>)
        ensures
            match r {
                Some(environment) => self@.environments.contains_key(name@) && *environment
                    == self@.environments[name@],
                None => !self@.environments.contains_key(name@),
            },
    {
        self.environments.get(name)
    }

    /// Whether the event is the outcome of the action that the thread has asked for.
    pub fn expects(&self, event: &WelcomeEvent<String, Vec<u8>, V, E>) -> (r: bool)
        ensures
            r == self@.expects(event@),
    {
        match (&self.phase, event) {
            (WelcomePhase::CreatingCloseEvent, WelcomeEvent::CloseEventCreated(_)) => true,
            (WelcomePhase::Listening, WelcomeEvent::Listened(_)) => true,
            (WelcomePhase::Polling, WelcomeEvent::Polled(_)) => true,
            (WelcomePhase::ReadingShutdownEvent, WelcomeEvent::ShutdownEventRead(_)) => true,
            (WelcomePhase::ReadingCloseEvent { .. }, WelcomeEvent::CloseEventRead(_)) => true,
            (WelcomePhase::ReceivingName { .. }, WelcomeEvent::NameReceived(_)) => true,
            (WelcomePhase::ReceivingRequest, WelcomeEvent::RequestReceived(_)) => true,
            (WelcomePhase::Parsing, WelcomeEvent::RequestParsed(_)) => true,
            (WelcomePhase::Creating { .. }, WelcomeEvent::EnvironmentCreated(_)) => true,
            (WelcomePhase::Refusing, WelcomeEvent::Responded(_)) => true,
            (WelcomePhase::Declining { .. }, WelcomeEvent::Responded(_)) => true,
            (WelcomePhase::Admitting { .. }, WelcomeEvent::Responded(_)) => true,
            (WelcomePhase::AddingClient, WelcomeEvent::ClientAdded) => true,
            _ => false,
        }
    }

    fn go(
        environments: StringHashMap<V>,
        phase: WelcomePhase<String, V, E>,
        reports: Vec<Failure<E>>,
        action: WelcomeAction,
    ) -> (r: (Self, WelcomeStep<E>))
        ensures
            r.0@ == (WelcomeState { phase: phase@, environments: environments@ }),
            r.1.reports@ == reports@,
            r.1.action@ == action@,
    {
        (WelcomeThread { phase, environments }, WelcomeStep { reports, action })
    }

    fn stop(environments: StringHashMap<V>, reports: Vec<Failure<E>>) -> (r: (
        Self,
        WelcomeStep<E>,
    ))
        ensures
            forall|state: WelcomeState<V, E>|
                state.environments == environments@ ==> is_outcome(
                    r,
                    #[trigger] state.stops(reports@),
                ),
    {
        Self::go(environments, WelcomePhase::Stopped, reports, WelcomeAction::Stop)
    }

    fn poll(environments: StringHashMap<V>, reports: Vec<Failure<E>>) -> (r: (
        Self,
        WelcomeStep<E>,
    ))
        ensures
            forall|state: WelcomeState<V, E>|
                state.environments == environments@ ==> is_outcome(
                    r,
                    #[trigger] state.polls(reports@),
                ),
    {
        Self::go(environments, WelcomePhase::Polling, reports, WelcomeAction::Poll { events: POLLIN })
    }

    fn serve(environments: StringHashMap<V>, welcome: Option<i16>) -> (r: (Self, WelcomeStep<E>))
        ensures
            forall|state: WelcomeState<V, E>|
                state.environments == environments@ ==> is_outcome(
                    r,
                    #[trigger] state.serves(welcome),
                ),
    {
        match welcome {
            Some(bits) if bits != 0 => {
                if bits & POLLIN != POLLIN {
                    let failed = Failure::Service(
                        ServiceError::Runtime(RuntimeError::WelcomeSocketFailed),
                    );
                    Self::stop(environments, single(failed))
                } else {
                    Self::go(
                        environments,
                        WelcomePhase::ReceivingRequest,
                        Vec::new(),
                        WelcomeAction::ReceiveRequest,
                    )
                }
            },
            _ => Self::poll(environments, Vec::new()),
        }
    }

    fn refuse(environments: StringHashMap<V>) -> (r: (Self, WelcomeStep<E>))
        ensures
            forall|state: WelcomeState<V, E>|
                state.environments == environments@ ==> is_outcome(r, #[trigger] state.refuses()),
    {
        Self::go(
            environments,
            WelcomePhase::Refusing,
            Vec::new(),
            WelcomeAction::Respond(WelcomeResponse::MalformedRequest),
        )
    }

    /// What a request leads to that has come in as `bytes`.
    fn receive_request(environments: StringHashMap<V>, bytes: Vec<u8>) -> (r: (
        Self,
        WelcomeStep<E>,
    ))
        ensures
            forall|state: WelcomeState<V, E>|
                state.environments == environments@ ==> is_outcome(
                    r,
                    #[trigger] state.next(WelcomeEvent::RequestReceived(Ok(bytes@))),
                ),
    {
        match text_from_utf8(bytes) {
            Some(text) => Self::go(
                environments,
                WelcomePhase::Parsing,
                Vec::new(),
                WelcomeAction::ParseRequest(text),
            ),
            None => Self::refuse(environments),
        }
    }

    /// Opens the environment of the given name for the client.
    fn handle_open_environment(environments: StringHashMap<V>, name: String) -> (r: (
        Self,
        WelcomeStep<E>,
    ))
        ensures
            forall|state: WelcomeState<V, E>|
                state.environments == environments@ ==> is_outcome(
                    r,
                    #[trigger] state.opens(name@),
                ),
    {
        if environments.contains_key(name.as_str()) {
            Self::go(
                environments,
                WelcomePhase::Admitting { name, created: None },
                Vec::new(),
                WelcomeAction::Respond(WelcomeResponse::OpenEnvironmentOk),
            )
        } else {
            Self::go(
                environments,
                WelcomePhase::Creating { name: name.clone() },
                Vec::new(),
                WelcomeAction::CreateEnvironment(name),
            )
        }
    }

    /// What it means that the client has or has not got its answer.
    fn handle_responded(
        phase: WelcomePhase<String, V, E>,
        environments: StringHashMap<V>,
        sent: Result<(), E>,
    ) -> (r: (Self, WelcomeStep<E>))
        ensures
            is_outcome(
                r,
                (WelcomeState { phase: phase@, environments: environments@ }).next(
                    WelcomeEvent::Responded(sent),
                ),
            ),
    {
        let mut environments = environments;
        match phase {
            WelcomePhase::Declining { error } => {
                let mut reports = single(Failure::Outside(error));
                let mut unsent = error_of(sent);
                reports.append(&mut unsent);
                Self::poll(environments, reports)
            },
            WelcomePhase::Admitting { name, created } => {
                if sent.is_err() {
                    return Self::poll(environments, error_of(sent));
                }
                match created {
                    Some(environment) => {
                        environments.insert(name, environment);
                        Self::poll(environments, Vec::new())
                    },
                    None => Self::go(
                        environments,
                        WelcomePhase::AddingClient,
                        Vec::new(),
                        WelcomeAction::AddClient(name),
                    ),
                }
            },
            _ => Self::poll(environments, error_of(sent)),
        }
    }

    /// What the outcome of the action leads to that the thread has asked for.
    pub fn next(self, event: WelcomeEvent<String, Vec<u8>, V, E>) -> (r: (Self, WelcomeStep<E>))
        requires
            self@.expects(event@),
        ensures
            is_outcome(r, self@.next(event@)),
    {
        let WelcomeThread { phase, environments } = self;
        let mut environments = environments;
        match event {
            WelcomeEvent::CloseEventCreated(Ok(_)) => Self::go(
                environments,
                WelcomePhase::Listening,
                Vec::new(),
                WelcomeAction::Listen { backlog: SOMAXCONN },
            ),
            WelcomeEvent::CloseEventCreated(Err(e)) => Self::stop(
                environments,
                single(Failure::Outside(e)),
            ),
            WelcomeEvent::Listened(Ok(_)) => Self::poll(environments, Vec::new()),
            WelcomeEvent::Listened(Err(e)) => Self::stop(environments, single(Failure::Outside(e))),
            WelcomeEvent::Polled(Ok(revents)) => {
                if any(revents.shutdown) {
                    Self::go(
                        environments,
                        WelcomePhase::ReadingShutdownEvent,
                        Vec::new(),
                        WelcomeAction::ReadShutdownEvent,
                    )
                } else if any(revents.close_env) {
                    Self::go(
                        environments,
                        WelcomePhase::ReadingCloseEvent { welcome: revents.welcome },
                        Vec::new(),
                        WelcomeAction::ReadCloseEvent,
                    )
                } else {
                    Self::serve(environments, revents.welcome)
                }
            },
            WelcomeEvent::Polled(Err(e)) => Self::stop(environments, single(Failure::Outside(e))),
            WelcomeEvent::ShutdownEventRead(read) => Self::stop(environments, error_of(read)),
            WelcomeEvent::CloseEventRead(read) => {
                let welcome = match phase {
                    WelcomePhase::ReadingCloseEvent { welcome } => welcome,
                    _ => None,
                };
                Self::go(
                    environments,
                    WelcomePhase::ReceivingName { welcome },
                    error_of(read),
                    WelcomeAction::ReceiveName,
                )
            },
            WelcomeEvent::NameReceived(Ok(name)) => {
                let welcome = match phase {
                    WelcomePhase::ReceivingName { welcome } => welcome,
                    _ => None,
                };
                environments.remove(name.as_str());
                Self::serve(environments, welcome)
            },
            WelcomeEvent::NameReceived(Err(e)) => Self::stop(
                environments,
                single(Failure::Outside(e)),
            ),
            WelcomeEvent::RequestReceived(Ok(bytes)) => Self::receive_request(environments, bytes),
            WelcomeEvent::RequestReceived(Err(e)) => Self::poll(
                environments,
                single(Failure::Outside(e)),
            ),
            WelcomeEvent::RequestParsed(Some(WelcomeRequest::OpenEnvironment(name))) => {
                Self::handle_open_environment(environments, name)
            },
            WelcomeEvent::RequestParsed(None) => Self::refuse(environments),
            WelcomeEvent::EnvironmentCreated(created) => {
                let (phase, response) = match (phase, created) {
                    (WelcomePhase::Creating { name }, Ok(environment)) => (
                        WelcomePhase::Admitting { name, created: Some(environment) },
                        WelcomeResponse::OpenEnvironmentOk,
                    ),
                    (_, Err(error)) => (
                        WelcomePhase::Declining { error },
                        WelcomeResponse::InternalError,
                    ),
                    (phase, _) => (phase, WelcomeResponse::InternalError),
                };
                Self::go(environments, phase, Vec::new(), WelcomeAction::Respond(response))
            },
            WelcomeEvent::Responded(sent) => Self::handle_responded(phase, environments, sent),
            WelcomeEvent::ClientAdded => Self::poll(environments, Vec::new()),
        }
    }
}

} // verus!
