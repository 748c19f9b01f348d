//! The life of the service: from the start over the sockets to the thread that welcomes clients.

use nix::sys::socket::UnixAddr;
use vstd::prelude::*;
use vstd::utf8::encode_utf8;

use crate::linux::privileges::{
    check_privileges, privileges_checked, PrivilegeFacts, UNCHECKED_WARNING,
};
use crate::linux::runtime_error::RuntimeError;
use crate::linux::service_error::{Failure, ServiceError};
use crate::linux::settings::{
    AF_UNIX, EVENT_FLAGS, EVENT_START, EVENT_TRIGGER, SA_RESTART, SOCK_CLOEXEC, SOCK_SEQPACKET,
};
use crate::linux::system::{abstract_address, address_answer, ADDRESS_SIZE, ENAMETOOLONG};
use crate::linux::working_dir::{setup_working_dir, working_dir_checked};
use crate::teardown::{after_shutdown, disposes, Disposal};
use crate::text::{concat2, join_path};

verus! {

/// The error of the kernel for an address that somebody else has taken.
pub const EADDRINUSE: i32 = 98;

/// The signal that asks a process to end.
pub const SIGTERM: i32 = 15;

/// The signal of an interrupt from the terminal.
pub const SIGINT: i32 = 2;

/// How far the service has got.
pub trait State {

}

/// Nothing has been set up yet.
#[derive(Debug, PartialEq, Eq)]
pub struct Uninit {}

/// The sockets are open, but nobody listens on them.
#[derive(Debug, PartialEq, Eq)]
pub struct Ready {
    pub welcome_socket: i32,
    pub shutdown_event: i32,
}

/// Clients are welcome.
#[derive(Debug, PartialEq, Eq)]
pub struct Listening {
    pub shutdown_event: i32,
}

impl State for Uninit {

}

impl State for Ready {

}

impl State for Listening {

}

/// The service in one of its states.
#[derive(Debug, PartialEq, Eq)]
pub struct Runtime<S: State> {
    pub working_dir_path: String,
    pub state_data: S,
}

/// What the system answers while the welcome socket is set up.
pub struct SocketFacts {
    pub socket: Result<i32, i32>,
    pub credentials: Result<(), i32>,
    pub address: Result<UnixAddr, i32>,
    pub bound: Result<(), i32>,
    pub event: Result<i32, i32>,
}

impl SocketFacts {
    /// The welcome socket and the shutdown event, or the first error. An address that is taken means
    /// that the service is running already.
    pub open spec fn outcome(self) -> Result<Ready, ServiceError> {
        if let Err(errno) = self.socket {
            Err(ServiceError::Os(errno))
        } else if let Err(errno) = self.credentials {
            Err(ServiceError::Os(errno))
        } else if let Err(errno) = self.address {
            Err(ServiceError::Os(errno))
        } else if let Err(errno) = self.bound {
            bind_error(errno)
        } else if let Err(errno) = self.event {
            Err(ServiceError::Os(errno))
        } else {
            Ok(Ready { welcome_socket: self.socket->Ok_0, shutdown_event: self.event->Ok_0 })
        }
    }
}

/// What an error in binding the welcome socket means.
pub open spec fn bind_error(errno: i32) -> Result<Ready, ServiceError> {
    if errno == EADDRINUSE {
        Err(ServiceError::Runtime(RuntimeError::ServiceAlreadyRunning))
    } else {
        Err(ServiceError::Os(errno))
    }
}

/// The steps in which the welcome socket is set up, in their order.
pub struct SocketSteps<O, C, B, V> {
    /// Opens a socket of the given family and kind, with the given flags.
    pub open: O,
    /// Says whether the socket passes the credentials of its peers.
    pub pass_credentials: C,
    /// Binds the socket to an address.
    pub bind: B,
    /// Makes an event that counts from the given value, with the given flags.
    pub create_event: V,
}

impl<O, C, B, V> SocketSteps<O, C, B, V> where
    O: FnOnce(i32, i32, i32) -> Result<i32, i32>,
    C: FnOnce(i32, bool) -> Result<(), i32>,
    B: FnOnce(i32, UnixAddr) -> Result<(), i32>,
    V: FnOnce(u32, i32) -> Result<i32, i32>,
 {
    /// Whether the socket of the given abstract name can be set up by the steps: each one can be
    /// called once those before it have succeeded.
    pub open spec fn callable(self, abstract_name: Seq<char>) -> bool {
        &&& call_requires(self.open, (AF_UNIX, SOCK_SEQPACKET, SOCK_CLOEXEC))
        &&& forall|socket: i32| #[trigger]
            call_ensures(
                self.open,
                (AF_UNIX, SOCK_SEQPACKET, SOCK_CLOEXEC),
                Ok::<i32, i32>(socket),
            ) ==> call_requires(self.pass_credentials, (socket, true))
        &&& forall|socket: i32, passing: Result<(), i32>, name: &str, address: UnixAddr|
            #[trigger] call_ensures(self.pass_credentials, (socket, true), passing) && passing is Ok
                && name@ == abstract_name && #[trigger] address_answer(
                name,
                Ok::<UnixAddr, i32>(address),
            ) ==> call_requires(self.bind, (socket, address))
        &&& forall|socket: i32, address: UnixAddr, bound: Result<(), i32>| #[trigger]
            call_ensures(self.bind, (socket, address), bound) && bound is Ok ==> call_requires(
                self.create_event,
                (EVENT_START, EVENT_FLAGS),
            )
    }

    /// Whether the steps have led to `r`: to a Unix socket that keeps the bounds of messages, is
    /// closed on `exec`, passes the credentials of its peers and is bound to the abstract address of
    /// the given name, with an event on which nothing is pending; or to the error of the first step
    /// that failed. A name that does not fit into an address is found out before the binding.
    pub open spec fn set_up(self, abstract_name: Seq<char>, r: Result<Ready, ServiceError>) -> bool {
        exists|facts: SocketFacts|
            {
                &&& r == #[trigger] facts.outcome()
                &&& call_ensures(self.open, (AF_UNIX, SOCK_SEQPACKET, SOCK_CLOEXEC), facts.socket)
                &&& facts.socket matches Ok(socket) ==> {
                    &&& call_ensures(self.pass_credentials, (socket, true), facts.credentials)
                    &&& facts.credentials is Ok ==> {
                        &&& exists|name: &str|
                            name@ == abstract_name && #[trigger] address_answer(
                                name,
                                facts.address,
                            )
                        &&& if encode_utf8(abstract_name).len() < ADDRESS_SIZE {
                            facts.address is Ok
                        } else {
                            facts.address == Err::<UnixAddr, i32>(ENAMETOOLONG)
                        }
                        &&& facts.address matches Ok(address) ==> {
                            &&& call_ensures(self.bind, (socket, address), facts.bound)
                            &&& facts.bound is Ok ==> call_ensures(
                                self.create_event,
                                (EVENT_START, EVENT_FLAGS),
                                facts.event,
                            )
                        }
                    }
                }
            }
    }
}

/// Sets up the welcome socket, under the abstract name of the two parts, and the event that ends the
/// service. The steps are called in their order, up to the first that fails.
pub fn setup_socket<O, C, B, V>(
    name_prefix: &str,
    abstract_name: &str,
    steps: SocketSteps<O, C, B, V>,
) -> (r: Result<Ready, ServiceError>) where
    O: FnOnce(i32, i32, i32) -> Result<i32, i32>,
    C: FnOnce(i32, bool) -> Result<(), i32>,
    B: FnOnce(i32, UnixAddr) -> Result<(), i32>,
    V: FnOnce(u32, i32) -> Result<i32, i32>,

    requires
        steps.callable(name_prefix@ + abstract_name@),
    ensures
        steps.set_up(name_prefix@ + abstract_name@, r),
{
    let SocketSteps { open, pass_credentials, bind, create_event } = steps;
    let ghost mut facts: SocketFacts = arbitrary();
    let opened = open(AF_UNIX, SOCK_SEQPACKET, SOCK_CLOEXEC);
    proof {
        facts.socket = opened;
    }
    let socket: i32 = match opened {
        Ok(socket) => socket,
        Err(errno) => {
            assert(facts.outcome() == Err::<Ready, ServiceError>(ServiceError::Os(errno)));
            return Err(ServiceError::Os(errno));
        },
    };
    let passing = pass_credentials(socket, true);
    proof {
        facts.credentials = passing;
    }
    match passing {
        Ok(_) => {},
        Err(errno) => {
            assert(facts.outcome() == Err::<Ready, ServiceError>(ServiceError::Os(errno)));
            return Err(ServiceError::Os(errno));
        },
    }
    let name = concat2(name_prefix, abstract_name);
    let named = abstract_address(name.as_str());
    proof {
        facts.address = named;
    }
    let address = match named {
        Ok(address) => address,
        Err(errno) => {
            assert(facts.outcome() == Err::<Ready, ServiceError>(ServiceError::Os(errno)));
            return Err(ServiceError::Os(errno));
        },
    };
    let bound = bind(socket, address);
    proof {
        facts.bound = bound;
    }
    match bound {
        Ok(_) => {},
        Err(errno) => {
            assert(facts.outcome() == bind_error(errno));
            if errno == EADDRINUSE {
                return Err(ServiceError::Runtime(RuntimeError::ServiceAlreadyRunning));
            }
            return Err(ServiceError::Os(errno));
        },
    }
    let event = create_event(EVENT_START, EVENT_FLAGS);
    proof {
        facts.event = event;
    }
    match event {
        Ok(shutdown_event) => {
            assert(facts.outcome() == Ok::<Ready, ServiceError>(
                Ready { welcome_socket: socket, shutdown_event },
            ));
            Ok(Ready { welcome_socket: socket, shutdown_event })
        },
        Err(errno) => {
            assert(facts.outcome() == Err::<Ready, ServiceError>(ServiceError::Os(errno)));
            Err(ServiceError::Os(errno))
        },
    }
}

impl Runtime<Uninit> {
    /// A service that works in the given directory, or in the default one where none is given.
    pub fn new(working_dir_name: Option<&str>, default_working_dir: &str) -> (r: Self)
        ensures
            r.working_dir_path@ == (match working_dir_name {
                Some(dir) => dir@,
                None => default_working_dir@,
            }),
    {
        let dir: &str = match working_dir_name {
            Some(dir) => dir,
            None => default_working_dir,
        };
        Runtime { working_dir_path: dir.to_string(), state_data: Uninit {  } }
    }

    /// Checks the privileges of the process and its working directory, and then sets up the sockets.
    ///
    /// `is_there` can be called only once the privileges have been checked, and the steps of
    /// [`setup_socket`] only once the working directory has been checked as well.
    pub fn init<E, W, S, X, D, O, C, B, V>(
        self,
        debug_mode: bool,
        warn: W,
        read_secure_bits: S,
        is_there: X,
        is_dir: D,
        name_prefix: &str,
        abstract_name: &str,
        steps: SocketSteps<O, C, B, V>,
    ) -> (r: Result<Runtime<Ready>, Failure<E>>) where
        W: FnOnce(&'static str),
        S: FnOnce() -> (i32, i32),
        X: FnOnce(&str) -> Result<bool, E>,
        D: FnOnce(&str) -> Result<bool, E>,
        O: FnOnce(i32, i32, i32) -> Result<i32, i32>,
        C: FnOnce(i32, bool) -> Result<(), i32>,
        B: FnOnce(i32, UnixAddr) -> Result<(), i32>,
        V: FnOnce(u32, i32) -> Result<i32, i32>,

        requires
            debug_mode ==> call_requires(warn, (UNCHECKED_WARNING,)),
            forall|facts: PrivilegeFacts|
                !debug_mode && #[trigger] facts.secure_bits_are_next() ==> call_requires(
                    read_secure_bits,
                    (),
                ),
            forall|privileges: Result<(), ServiceError>, dir: &str|
                #[trigger] privileges_checked(debug_mode, warn, read_secure_bits, privileges)
                    && privileges is Ok && dir@ == self.working_dir_path@
                    ==> #[trigger] call_requires(is_there, (dir,)),
            forall|dir: &str|
                dir@ == self.working_dir_path@ && call_ensures(
                    is_there,
                    (dir,),
                    Ok::<bool, E>(true),
                ) ==> #[trigger] call_requires(is_dir, (dir,)),
            forall|privileges: Result<(), ServiceError>, dir: &str, checked: Result<(), Failure<E>>|
                #[trigger] privileges_checked(debug_mode, warn, read_secure_bits, privileges)
                    && privileges is Ok && dir@ == self.working_dir_path@
                    && #[trigger] working_dir_checked(
                    Some(dir),
                    debug_mode,
                    is_there,
                    is_dir,
                    checked,
                ) && checked is Ok ==> steps.callable(name_prefix@ + abstract_name@),
        ensures
            exists|privileges: Result<(), ServiceError>| #[trigger]
                privileges_checked(debug_mode, warn, read_secure_bits, privileges) && match privileges {
                    Err(e) => r == Err::<Runtime<Ready>, Failure<E>>(Failure::Service(e)),
                    Ok(_) => exists|dir: &str, checked: Result<(), Failure<E>>|
                        {
                            &&& #[trigger] working_dir_checked(
                                Some(dir),
                                debug_mode,
                                is_there,
                                is_dir,
                                checked,
                            )
                            &&& dir@ == self.working_dir_path@
                            &&& match checked {
                                Err(e) => r == Err::<Runtime<Ready>, Failure<E>>(e),
                                Ok(_) => exists|opened: Result<Ready, ServiceError>| #[trigger]
                                    steps.set_up(name_prefix@ + abstract_name@, opened)
                                        && match opened {
                                        Err(e) => r == Err::<Runtime<Ready>, Failure<E>>(
                                            Failure::Service(e),
                                        ),
                                        Ok(ready) => r == Ok::<Runtime<Ready>, Failure<E>>(
                                            Runtime {
                                                working_dir_path: self.working_dir_path,
                                                state_data: ready,
                                            },
                                        ),
                                    },
                            }
                        },
                },
    {
        match check_privileges(debug_mode, warn, read_secure_bits) {
            Ok(_) => {},
            Err(e) => return Err(Failure::Service(e)),
        }
        let checked = setup_working_dir(
            Some(self.working_dir_path.as_str()),
            debug_mode,
            is_there,
            is_dir,
        );
        match checked {
            Ok(_) => {},
            Err(e) => return Err(e),
        }
        match setup_socket(name_prefix, abstract_name, steps) {
            Ok(ready) => Ok(
                Runtime { working_dir_path: self.working_dir_path, state_data: ready },
            ),
            Err(e) => Err(Failure::Service(e)),
        }
    }
}

impl Runtime<Ready> {
    /// The path of a log file of the given name: it lies in the working directory.
    pub fn log_file_path(&self, file_name: &str) -> (r: String)
        ensures
            r@ == crate::text::joined_path(self.working_dir_path@, file_name@),
    {
        join_path(self.working_dir_path.as_str(), file_name)
    }

    /// Makes the signals that end the process trigger the shutdown event, and then starts the thread
    /// that welcomes clients.
    ///
    /// `publish_event` leaves the event to the signal handler. Then the handler is made known for the
    /// two signals, each by its own step, so that both signals are blocked while it runs. Then `spawn`
    /// gets the welcome socket and the shutdown event. The steps are called in this order: each one
    /// can be called only once those before it have succeeded.
    pub fn listen<E, P, I, J, T>(
        self,
        publish_event: P,
        handle_termination: I,
        handle_interrupt: J,
        spawn: T,
    ) -> (r: Result<Runtime<Listening>, E>) where
        P: FnOnce(i32),
        I: FnOnce(SignalHandling) -> Result<(), E>,
        J: FnOnce(SignalHandling) -> Result<(), E>,
        T: FnOnce(i32, i32) -> Result<(), E>,

        requires
            call_requires(publish_event, (self.state_data.shutdown_event,)),
            call_ensures(publish_event, (self.state_data.shutdown_event,), ()) ==> call_requires(
                handle_termination,
                (handling(SIGTERM),),
            ),
            forall|terminating: Result<(), E>| #[trigger]
                call_ensures(handle_termination, (handling(SIGTERM),), terminating)
                    && terminating is Ok ==> call_requires(handle_interrupt, (handling(SIGINT),)),
            forall|interrupting: Result<(), E>| #[trigger]
                call_ensures(handle_interrupt, (handling(SIGINT),), interrupting)
                    && interrupting is Ok ==> call_requires(
                    spawn,
                    (self.state_data.welcome_socket, self.state_data.shutdown_event),
                ),
        ensures
            call_ensures(publish_event, (self.state_data.shutdown_event,), ()),
            exists|terminating: Result<(), E>| #[trigger]
                call_ensures(handle_termination, (handling(SIGTERM),), terminating)
                    && match terminating {
                    Err(e) => r == Err::<Runtime<Listening>, E>(e),
                    Ok(_) => exists|interrupting: Result<(), E>| #[trigger]
                        call_ensures(handle_interrupt, (handling(SIGINT),), interrupting)
                            && match interrupting {
                            Err(e) => r == Err::<Runtime<Listening>, E>(e),
                            Ok(_) => exists|spawned: Result<(), E>| #[trigger]
                                call_ensures(
                                    spawn,
                                    (self.state_data.welcome_socket, self.state_data.shutdown_event),
                                    spawned,
                                ) && match spawned {
                                    Err(e) => r == Err::<Runtime<Listening>, E>(e),
                                    Ok(_) => r == Ok::<Runtime<Listening>, E>(
                                        Runtime {
                                            working_dir_path: self.working_dir_path,
                                            state_data: Listening {
                                                shutdown_event: self.state_data.shutdown_event,
                                            },
                                        },
                                    ),
                                },
                        },
                },
    {
        let Ready { welcome_socket, shutdown_event } = self.state_data;
        publish_event(shutdown_event);
        match handle_termination(handling_of(SIGTERM)) {
            Ok(_) => {},
            Err(e) => return Err(e),
        }
        match handle_interrupt(handling_of(SIGINT)) {
            Ok(_) => {},
            Err(e) => return Err(e),
        }
        match spawn(welcome_socket, shutdown_event) {
            Ok(_) => {},
            Err(e) => return Err(e),
        }
        Ok(
            Runtime {
                working_dir_path: self.working_dir_path,
                state_data: Listening { shutdown_event },
            },
        )
    }
}

impl Runtime<Listening> {
    /// Tells the welcome thread to end, when the service is dropped on a thread that is panicking or
    /// not. `write` fails with what the error says.
    pub fn signal_shutdown<W>(&self, panicking: bool, write: W) -> (r: Disposal) where
        W: FnOnce(i32, u64) -> Result<(), String>,

        requires
            call_requires(write, (self.state_data.shutdown_event, EVENT_TRIGGER)),
        ensures
            exists|written: Result<(), String>| #[trigger]
                call_ensures(write, (self.state_data.shutdown_event, EVENT_TRIGGER), written)
                    && disposes(
                    r,
                    match written {
                        Ok(_) => None,
                        Err(e) => Some("signaling welcome thread failed: "@ + e@),
                    },
                    panicking,
                ),
    {
        match write(self.state_data.shutdown_event, EVENT_TRIGGER) {
            Ok(_) => after_shutdown(None, panicking),
            Err(e) => after_shutdown(Some(e.as_str()), panicking),
        }
    }
}

/// How a signal is to be handled: which signals are blocked meanwhile, and with which flags.
#[derive(Debug, Copy, Clone, PartialEq, Eq)]
pub struct SignalHandling {
    pub signal: i32,
    pub blocked: (i32, i32),
    pub flags: i32,
}

/// How a signal that ends the process is handled: all such signals are blocked meanwhile, and calls
/// into the system go on afterwards.
pub open spec fn handling(signal: i32) -> SignalHandling {
    SignalHandling { signal, blocked: (SIGTERM, SIGINT), flags: SA_RESTART }
}

fn handling_of(signal: i32) -> (r: SignalHandling)
    ensures
        r == handling(signal),
{
    SignalHandling { signal, blocked: (SIGTERM, SIGINT), flags: SA_RESTART }
}

/// What the handler of a termination signal has to do.
#[derive(Debug, PartialEq, Eq)]
pub enum TerminationAction {
    /// End the process at once, with the given status, after the warning.
    Exit { status: i32, warning: &'static str },
    /// Write the value to the event.
    Trigger { event: i32, value: i64 },
}

/// What to do about a termination signal. There is no event to trigger before one has been left to
/// the handler, which -1 stands for.
pub fn on_termination_signal(shutdown_event: i32) -> (r: TerminationAction)
    ensures
        shutdown_event == -1 ==> (r matches TerminationAction::Exit { status, warning } && status
            == -1 && warning@
            == "Termination requested in an early or invalid state of the program, exiting immediately."@),
        shutdown_event != -1 ==> r == (TerminationAction::Trigger {
            event: shutdown_event,
            value: 1,
        }),
{
    if shutdown_event == -1 {
        TerminationAction::Exit {
            status: -1,
            warning:
                "Termination requested in an early or invalid state of the program, exiting immediately.",
        }
    } else {
        TerminationAction::Trigger { event: shutdown_event, value: 1 }
    }
}

/// The service is taken to be running already exactly if its socket could be opened and named, and
/// the address turned out to be in use. It gets ready exactly if no step fails.
pub proof fn law_second_service_is_recognised(facts: SocketFacts)
    ensures
        facts.outcome() == Err::<Ready, ServiceError>(
            ServiceError::Runtime(RuntimeError::ServiceAlreadyRunning),
        ) <==> facts.socket is Ok && facts.credentials is Ok && facts.address is Ok && facts.bound
            == Err::<(), i32>(EADDRINUSE),
        facts.outcome() is Ok <==> facts.socket is Ok && facts.credentials is Ok && facts.address
            is Ok && facts.bound is Ok && facts.event is Ok,
{
}

/// A log file lies directly in the working directory, whatever time its name tells.
pub proof fn law_log_files_lie_in_the_working_directory(
    dir: Seq<char>,
    datetime: Seq<char>,
)
    ensures
        ({
            let name = "errors_"@ + datetime + ".log"@;
            crate::text::joined_path(dir, name) == if dir.len() == 0 || dir.last() == '/' {
                dir + name
            } else {
                dir + seq!['/'] + name
            }
        }),
{
    reveal_strlit("errors_");
    assert(("errors_"@ + datetime + ".log"@)[0] == 'e');
}

} // verus!
