//! What the steps in the life of the service do, in terms of what goes into them and what comes out.

use nix::sys::socket::UnixAddr;
use rustix::net::SocketAddrUnix;
use vstd::prelude::*;
use vstd::utf8::encode_utf8;

use crate::linux::environment::{environment_started, Environment};
use crate::linux::global_listener::GlobalListener;
use crate::linux::privileges::privileges_checked;
use crate::linux::privileges_laws::{
    is_without_capabilities, is_without_the_root_group, runs_as_the_group, runs_as_the_user,
};
use crate::linux::runtime::{
    handling, on_termination_signal, setup_socket, Listening, Ready, Runtime, SignalHandling, SocketFacts,
    SocketSteps, TerminationAction, Uninit,
};
use crate::linux::runtime_error::RuntimeError;
use crate::linux::service_error::{Failure, ServiceError};
use crate::linux::settings::{
    AF_UNIX, EVENT_FLAGS, EVENT_START, SOCK_CLOEXEC, SOCK_SEQPACKET,
};
use crate::linux::state::State;
use crate::linux::system::{
    address_answer, no_new_privileges_answer, socket_address_answer, status_answer, ADDRESS_SIZE,
    ENAMETOOLONG,
};
use crate::linux::working_dir::{working_dir_checked, FileStatus};
use crate::linux::working_dir_laws::{is_owned_by_the_group, is_owned_by_the_user};
use crate::teardown::Disposal;
use crate::text::join_path;

verus! {

/// What the system has answered when the welcome socket has been set up, or has not.
proof fn lemma_set_up<O, C, B, V>(
    abstract_name: Seq<char>,
    steps: SocketSteps<O, C, B, V>,
    r: Result<Ready, ServiceError>,
) -> (facts: SocketFacts) where
    O: FnOnce(i32, i32, i32) -> Result<i32, i32>,
    C: FnOnce(i32, bool) -> Result<(), i32>,
    B: FnOnce(i32, UnixAddr) -> Result<(), i32>,
    V: FnOnce(u32, i32) -> Result<i32, i32>,

    requires
        steps.set_up(abstract_name, r),
    ensures
        r == facts.outcome(),
        call_ensures(steps.open, (1i32, 5i32, 0x80000i32), facts.socket),
        facts.socket matches Ok(socket) ==> {
            &&& call_ensures(steps.pass_credentials, (socket, true), facts.credentials)
            &&& facts.credentials is Ok ==> {
                &&& exists|name: &str|
                    name@ == abstract_name && #[trigger] address_answer(name, facts.address)
                &&& if encode_utf8(abstract_name).len() < 108 {
                    facts.address is Ok
                } else {
                    facts.address == Err::<UnixAddr, i32>(36i32)
                }
                &&& facts.address matches Ok(address) ==> {
                    &&& call_ensures(steps.bind, (socket, address), facts.bound)
                    &&& facts.bound is Ok ==> call_ensures(
                        steps.create_event,
                        (0u32, 0x80800i32),
                        facts.event,
                    )
                }
            }
        },
        facts.credentials is Ok ==> facts.credentials == Ok::<(), i32>(()),
        facts.bound is Ok ==> facts.bound == Ok::<(), i32>(()),
        facts.address matches Ok(address) ==> facts.address == Ok::<UnixAddr, i32>(address),
{
    let facts = choose|facts: SocketFacts|
        {
            &&& r == #[trigger] facts.outcome()
            &&& call_ensures(steps.open, (AF_UNIX, SOCK_SEQPACKET, SOCK_CLOEXEC), facts.socket)
            &&& facts.socket matches Ok(socket) ==> {
                &&& call_ensures(steps.pass_credentials, (socket, true), facts.credentials)
                &&& facts.credentials is Ok ==> {
                    &&& exists|name: &str|
                        name@ == abstract_name && #[trigger] address_answer(name, facts.address)
                    &&& if encode_utf8(abstract_name).len() < ADDRESS_SIZE {
                        facts.address is Ok
                    } else {
                        facts.address == Err::<UnixAddr, i32>(ENAMETOOLONG)
                    }
                    &&& facts.address matches Ok(address) ==> {
                        &&& call_ensures(steps.bind, (socket, address), facts.bound)
                        &&& facts.bound is Ok ==> call_ensures(
                            steps.create_event,
                            (EVENT_START, EVENT_FLAGS),
                            facts.event,
                        )
                    }
                }
            }
        };
    assert(facts.credentials is Ok ==> facts.credentials->Ok_0 == ());
    assert(facts.bound is Ok ==> facts.bound->Ok_0 == ());
    facts
}

/// What the steps have done when the sockets are ready.
proof fn lemma_ready<O, C, B, V>(
    abstract_name: Seq<char>,
    steps: SocketSteps<O, C, B, V>,
    ready: Ready,
) where
    O: FnOnce(i32, i32, i32) -> Result<i32, i32>,
    C: FnOnce(i32, bool) -> Result<(), i32>,
    B: FnOnce(i32, UnixAddr) -> Result<(), i32>,
    V: FnOnce(u32, i32) -> Result<i32, i32>,

    requires
        steps.set_up(abstract_name, Ok(ready)),
    ensures
        call_ensures(steps.open, (1i32, 5i32, 0x80000i32), Ok::<i32, i32>(ready.welcome_socket)),
        call_ensures(
            steps.pass_credentials,
            (ready.welcome_socket, true),
            Ok::<(), i32>(()),
        ),
        exists|name: &str, address: UnixAddr|
            name@ == abstract_name && #[trigger] address_answer(name, Ok(address))
                && #[trigger] call_ensures(
                steps.bind,
                (ready.welcome_socket, address),
                Ok::<(), i32>(()),
            ),
        call_ensures(steps.create_event, (0u32, 0x80800i32), Ok::<i32, i32>(ready.shutdown_event)),
{
    let facts = lemma_set_up(abstract_name, steps, Ok(ready));
    let name = choose|name: &str|
        name@ == abstract_name && #[trigger] address_answer(name, facts.address);
    let address = facts.address->Ok_0;
    assert(address_answer(name, Ok(address)));
    assert(call_ensures(steps.bind, (ready.welcome_socket, address), Ok::<(), i32>(())));
}

/// A service that gets ready has a Unix socket that keeps the bounds of messages and is closed on
/// `exec`, which passes the credentials of its peers and is bound to the abstract address of its two
/// names in a row, and an event on which nothing is pending, which does not block and is closed on
/// `exec`. Those two, and no others, are what it goes on with.
pub proof fn law_sockets_are_set_up<O, C, B, V>(
    name_prefix: &str,
    abstract_name: &str,
    steps: SocketSteps<O, C, B, V>,
    ready: Ready,
) where
    O: FnOnce(i32, i32, i32) -> Result<i32, i32>,
    C: FnOnce(i32, bool) -> Result<(), i32>,
    B: FnOnce(i32, UnixAddr) -> Result<(), i32>,
    V: FnOnce(u32, i32) -> Result<i32, i32>,

    requires
        call_ensures(
            setup_socket::<O, C, B, V>,
            (name_prefix, abstract_name, steps),
            Ok::<Ready, ServiceError>(ready),
        ),
    ensures
        call_ensures(steps.open, (1i32, 5i32, 0x80000i32), Ok::<i32, i32>(ready.welcome_socket)),
        call_ensures(
            steps.pass_credentials,
            (ready.welcome_socket, true),
            Ok::<(), i32>(()),
        ),
        exists|name: &str, address: UnixAddr|
            name@ == name_prefix@ + abstract_name@ && #[trigger] address_answer(name, Ok(address))
                && #[trigger] call_ensures(
                steps.bind,
                (ready.welcome_socket, address),
                Ok::<(), i32>(()),
            ),
        call_ensures(steps.create_event, (0u32, 0x80800i32), Ok::<i32, i32>(ready.shutdown_event)),
        encode_utf8(name_prefix@ + abstract_name@).len() < 108,
{
    let name = name_prefix@ + abstract_name@;
    assert(steps.set_up(name, Ok(ready)));
    lemma_ready(name, steps, ready);
    let facts = lemma_set_up(name, steps, Ok(ready));
}

/// A service that does not get ready fails with its first step that fails. A name that is too long is
/// found out before anything is bound, and an address that is taken means that the service is running
/// already.
pub proof fn law_sockets_fail_with_a_step<O, C, B, V>(
    name_prefix: &str,
    abstract_name: &str,
    steps: SocketSteps<O, C, B, V>,
    e: ServiceError,
) where
    O: FnOnce(i32, i32, i32) -> Result<i32, i32>,
    C: FnOnce(i32, bool) -> Result<(), i32>,
    B: FnOnce(i32, UnixAddr) -> Result<(), i32>,
    V: FnOnce(u32, i32) -> Result<i32, i32>,

    requires
        call_ensures(
            setup_socket::<O, C, B, V>,
            (name_prefix, abstract_name, steps),
            Err::<Ready, ServiceError>(e),
        ),
    ensures
        exists|opened: Result<i32, i32>| #[trigger]
            call_ensures(steps.open, (1i32, 5i32, 0x80000i32), opened) && match opened {
                Err(errno) => e == ServiceError::Os(errno),
                Ok(socket) => exists|passing: Result<(), i32>| #[trigger]
                    call_ensures(steps.pass_credentials, (socket, true), passing) && match passing {
                        Err(errno) => e == ServiceError::Os(errno),
                        Ok(_) => if encode_utf8(name_prefix@ + abstract_name@).len() >= 108 {
                            e == ServiceError::Os(36)
                        } else {
                            exists|name: &str, address: UnixAddr, bound: Result<(), i32>|
                                {
                                    &&& name@ == name_prefix@ + abstract_name@
                                    &&& #[trigger] address_answer(name, Ok(address))
                                    &&& #[trigger] call_ensures(
                                        steps.bind,
                                        (socket, address),
                                        bound,
                                    )
                                    &&& match bound {
                                        Err(errno) => e == if errno == 98 {
                                            ServiceError::Runtime(
                                                RuntimeError::ServiceAlreadyRunning,
                                            )
                                        } else {
                                            ServiceError::Os(errno)
                                        },
                                        Ok(_) => exists|created: i32| #[trigger]
                                            call_ensures(
                                                steps.create_event,
                                                (0u32, 0x80800i32),
                                                Err::<i32, i32>(created),
                                            ) && e == ServiceError::Os(created),
                                    }
                                }
                        },
                    },
            },
{
    let abstract_name = name_prefix@ + abstract_name@;
    assert(steps.set_up(abstract_name, Err(e)));
    let facts = lemma_set_up(abstract_name, steps, Err(e));
    if facts.socket is Ok && facts.credentials is Ok && encode_utf8(abstract_name).len() < 108 {
        let socket = facts.socket->Ok_0;
        let name = choose|name: &str|
            name@ == abstract_name && #[trigger] address_answer(name, facts.address);
        let address = facts.address->Ok_0;
        assert(address_answer(name, Ok(address)));
        assert(call_ensures(steps.bind, (socket, address), facts.bound));
        if facts.bound is Ok {
            assert(facts.event == Err::<i32, i32>(facts.event->Err_0));
        }
    }
}

/// A service works in the directory that it is given, or else in the default one.
pub proof fn law_services_have_a_directory(
    given: Option<&str>,
    default_dir: &str,
    r: Runtime<Uninit>,
)
    requires
        call_ensures(Runtime::<Uninit>::new, (given, default_dir), r),
    ensures
        given matches Some(dir) ==> r.working_dir_path@ == dir@,
        given is None ==> r.working_dir_path@ == default_dir@,
{
}

/// A service that gets ready keeps its working directory, and it has passed all checks: it runs
/// without privileges, but for debug mode, it works in a directory that is its own, and its sockets
/// are set up.
pub proof fn law_ready_services_have_been_checked<E, W, S, X, D, O, C, B, V>(
    service: Runtime<Uninit>,
    debug_mode: bool,
    warn: W,
    read_secure_bits: S,
    is_there: X,
    is_dir: D,
    name_prefix: &str,
    abstract_name: &str,
    steps: SocketSteps<O, C, B, V>,
    r: Runtime<Ready>,
) where
    W: FnOnce(&'static str),
    S: FnOnce() -> (i32, i32),
    X: FnOnce(&str) -> Result<bool, E>,
    D: FnOnce(&str) -> Result<bool, E>,
    O: FnOnce(i32, i32, i32) -> Result<i32, i32>,
    C: FnOnce(i32, bool) -> Result<(), i32>,
    B: FnOnce(i32, UnixAddr) -> Result<(), i32>,
    V: FnOnce(u32, i32) -> Result<i32, i32>,

    requires
        call_ensures(
            Runtime::<Uninit>::init::<E, W, S, X, D, O, C, B, V>,
            (
                service,
                debug_mode,
                warn,
                read_secure_bits,
                is_there,
                is_dir,
                name_prefix,
                abstract_name,
                steps,
            ),
            Ok::<Runtime<Ready>, Failure<E>>(r),
        ),
    ensures
        r.working_dir_path@ == service.working_dir_path@,
        !debug_mode ==> {
            &&& runs_as_the_user()
            &&& runs_as_the_group()
            &&& is_without_the_root_group()
            &&& is_without_capabilities()
            &&& no_new_privileges_answer(Ok(true))
            &&& exists|bits: i32, errno: i32| #[trigger]
                call_ensures(read_secure_bits, (), (bits, errno)) && bits != -1 && bits & 0xff
                    == 0xef
        },
        exists|dir: &str, status: FileStatus|
            {
                &&& dir@ == service.working_dir_path@
                &&& call_ensures(is_there, (dir,), Ok::<bool, E>(true))
                &&& call_ensures(is_dir, (dir,), Ok::<bool, E>(true))
                &&& #[trigger] status_answer(dir, Ok(status))
                &&& !debug_mode ==> is_owned_by_the_user(status) && is_owned_by_the_group(status)
                    && status.mode & 0o7777 == 0o755
            },
        call_ensures(
            steps.open,
            (1i32, 5i32, 0x80000i32),
            Ok::<i32, i32>(r.state_data.welcome_socket),
        ),
        exists|name: &str, address: UnixAddr|
            name@ == name_prefix@ + abstract_name@ && #[trigger] address_answer(name, Ok(address))
                && #[trigger] call_ensures(
                steps.bind,
                (r.state_data.welcome_socket, address),
                Ok::<(), i32>(()),
            ),
        call_ensures(
            steps.create_event,
            (0u32, 0x80800i32),
            Ok::<i32, i32>(r.state_data.shutdown_event),
        ),
{
    let unit = Ok::<(), ServiceError>(());
    let privileges = choose|privileges: Result<(), ServiceError>| #[trigger]
        privileges_checked(debug_mode, warn, read_secure_bits, privileges) && privileges is Ok;
    assert(privileges->Ok_0 == ());
    assert(privileges == unit);
    let (dir, checked) = choose|dir: &str, checked: Result<(), Failure<E>>|
        {
            &&& #[trigger] working_dir_checked(Some(dir), debug_mode, is_there, is_dir, checked)
            &&& dir@ == service.working_dir_path@
            &&& checked is Ok
        };
    assert(checked->Ok_0 == ());
    assert(checked == Ok::<(), Failure<E>>(()));
    if !debug_mode {
        crate::linux::privileges_laws::lemma_accepted(warn, read_secure_bits);
    }
    crate::linux::working_dir_laws::lemma_accepted::<E, X, D>(dir, debug_mode, is_there, is_dir);
    assert(steps.set_up(name_prefix@ + abstract_name@, Ok(r.state_data)));
    lemma_ready(name_prefix@ + abstract_name@, steps, r.state_data);
}

/// A service that does not get ready fails with the first of its checks that fails: the privileges,
/// then the working directory, then the sockets.
pub proof fn law_services_fail_with_a_check<E, W, S, X, D, O, C, B, V>(
    service: Runtime<Uninit>,
    debug_mode: bool,
    warn: W,
    read_secure_bits: S,
    is_there: X,
    is_dir: D,
    name_prefix: &str,
    abstract_name: &str,
    steps: SocketSteps<O, C, B, V>,
    failure: Failure<E>,
) where
    W: FnOnce(&'static str),
    S: FnOnce() -> (i32, i32),
    X: FnOnce(&str) -> Result<bool, E>,
    D: FnOnce(&str) -> Result<bool, E>,
    O: FnOnce(i32, i32, i32) -> Result<i32, i32>,
    C: FnOnce(i32, bool) -> Result<(), i32>,
    B: FnOnce(i32, UnixAddr) -> Result<(), i32>,
    V: FnOnce(u32, i32) -> Result<i32, i32>,

    requires
        call_ensures(
            Runtime::<Uninit>::init::<E, W, S, X, D, O, C, B, V>,
            (
                service,
                debug_mode,
                warn,
                read_secure_bits,
                is_there,
                is_dir,
                name_prefix,
                abstract_name,
                steps,
            ),
            Err::<Runtime<Ready>, Failure<E>>(failure),
        ),
    ensures
        (failure matches Failure::Service(e) && privileges_checked(
            debug_mode,
            warn,
            read_secure_bits,
            Err(e),
        )) || (exists|privileges: Result<(), ServiceError>| #[trigger]
            privileges_checked(debug_mode, warn, read_secure_bits, privileges) && privileges is Ok)
            && exists|dir: &str, checked: Result<(), Failure<E>>|
            {
                &&& #[trigger] working_dir_checked(Some(dir), debug_mode, is_there, is_dir, checked)
                &&& dir@ == service.working_dir_path@
                &&& match checked {
                    Err(e) => failure == e,
                    Ok(_) => failure matches Failure::Service(e) && steps.set_up(
                        name_prefix@ + abstract_name@,
                        Err(e),
                    ),
                }
            },
{
}

/// The file of a log lies under its name in the working directory: the path ends in the name, begins
/// with the directory, and there is one separator in between and nothing else.
pub proof fn law_log_files_lie_in_their_directory(
    service: &Runtime<Ready>,
    file_name: &str,
    r: String,
)
    requires
        call_ensures(Runtime::<Ready>::log_file_path, (service, file_name), r),
        file_name@.len() > 0,
        file_name@[0] != '/',
    ensures
        service.working_dir_path@.is_prefix_of(r@),
        r@.skip(r@.len() - file_name@.len()) == file_name@,
        service.working_dir_path@.len() > 0 ==> r@[r@.len() - file_name@.len() - 1] == '/',
        r@.len() == service.working_dir_path@.len() + file_name@.len() + if
            service.working_dir_path@.len() > 0 && service.working_dir_path@.last() != '/' {
            1int
        } else {
            0int
        },
{
    assert(r@.skip(r@.len() - file_name@.len()) =~= file_name@);
}

/// A service that listens has left its event to the signal handler, has both signals handled, each
/// while both are blocked and so that calls into the system go on, and has started the thread with its
/// own socket and event. It keeps its directory and its event.
pub proof fn law_listening_services_can_be_ended<E, P, I, J, T>(
    service: Runtime<Ready>,
    publish_event: P,
    handle_termination: I,
    handle_interrupt: J,
    spawn: T,
    r: Result<Runtime<Listening>, E>,
) where
    P: FnOnce(i32),
    I: FnOnce(SignalHandling) -> Result<(), E>,
    J: FnOnce(SignalHandling) -> Result<(), E>,
    T: FnOnce(i32, i32) -> Result<(), E>,

    requires
        call_ensures(
            Runtime::<Ready>::listen::<E, P, I, J, T>,
            (service, publish_event, handle_termination, handle_interrupt, spawn),
            r,
        ),
    ensures
        call_ensures(publish_event, (service.state_data.shutdown_event,), ()),
        ({
            let termination = SignalHandling {
                signal: 15,
                blocked: (15i32, 2i32),
                flags: 0x1000_0000,
            };
            let interrupt = SignalHandling {
                signal: 2,
                blocked: (15i32, 2i32),
                flags: 0x1000_0000,
            };
            let files = (service.state_data.welcome_socket, service.state_data.shutdown_event);
            match r {
                Ok(listening) => {
                    &&& call_ensures(handle_termination, (termination,), Ok::<(), E>(()))
                    &&& call_ensures(handle_interrupt, (interrupt,), Ok::<(), E>(()))
                    &&& call_ensures(spawn, files, Ok::<(), E>(()))
                    &&& listening.working_dir_path@ == service.working_dir_path@
                    &&& listening.state_data.shutdown_event == service.state_data.shutdown_event
                },
                Err(e) => {
                    ||| call_ensures(handle_termination, (termination,), Err::<(), E>(e))
                    ||| call_ensures(handle_termination, (termination,), Ok::<(), E>(()))
                        && call_ensures(handle_interrupt, (interrupt,), Err::<(), E>(e))
                    ||| call_ensures(handle_termination, (termination,), Ok::<(), E>(()))
                        && call_ensures(handle_interrupt, (interrupt,), Ok::<(), E>(()))
                        && call_ensures(spawn, files, Err::<(), E>(e))
                },
            }
        }),
{
    assert forall|done: Result<(), E>| #[trigger]
        call_ensures(handle_termination, (handling(15),), done) && done is Ok implies call_ensures(
        handle_termination,
        (handling(15),),
        Ok::<(), E>(()),
    ) by {
        assert(done->Ok_0 == ());
        assert(done == Ok::<(), E>(done->Ok_0));
    }
    assert forall|done: Result<(), E>| #[trigger]
        call_ensures(handle_interrupt, (handling(2),), done) && done is Ok implies call_ensures(
        handle_interrupt,
        (handling(2),),
        Ok::<(), E>(()),
    ) by {
        assert(done->Ok_0 == ());
        assert(done == Ok::<(), E>(done->Ok_0));
    }
    let files = (service.state_data.welcome_socket, service.state_data.shutdown_event);
    assert forall|done: Result<(), E>| #[trigger]
        call_ensures(spawn, files, done) && done is Ok implies call_ensures(
        spawn,
        files,
        Ok::<(), E>(()),
    ) by {
        assert(done->Ok_0 == ());
        assert(done == Ok::<(), E>(done->Ok_0));
    }
}

/// A service that is dropped triggers its own event. That succeeds quietly; where it does not, the
/// failure ends in a panic, or, on a thread that is panicking already, in a warning that tells the
/// error.
pub proof fn law_dropped_services_trigger_their_event<W>(
    service: &Runtime<Listening>,
    panicking: bool,
    write: W,
    r: Disposal,
) where W: FnOnce(i32, u64) -> Result<(), String>
    requires
        call_ensures(Runtime::<Listening>::signal_shutdown::<W>, (service, panicking, write), r),
    ensures
        exists|written: Result<(), String>| #[trigger]
            call_ensures(write, (service.state_data.shutdown_event, 1u64), written) && match (
                written,
                r,
            ) {
                (Ok(_), Disposal::Quiet) => true,
                (Err(e), Disposal::Warn(warning)) => panicking && warning@
                    == "signaling welcome thread failed: "@ + e@,
                (Err(_), Disposal::Panic) => !panicking,
                _ => false,
            },
{
}

/// A termination signal triggers the event that has been left to the handler, whichever it is, with
/// one. The process ends at once only where none has been left.
pub proof fn law_signals_trigger_the_event(shutdown_event: i32, r: TerminationAction)
    requires
        call_ensures(on_termination_signal, (shutdown_event,), r),
    ensures
        match r {
            TerminationAction::Trigger { event, value } => event == shutdown_event && value == 1
                && shutdown_event != -1,
            TerminationAction::Exit { status, warning } => shutdown_event == -1 && status == -1,
        },
{
}

/// An environment that starts has an event for new clients and one for its end, each made on its own
/// with nothing pending on it, and its thread has been started with its name and with those two, in
/// this order. Otherwise it fails with its first step that fails.
pub proof fn law_environments_start<E, A, D, T>(
    name: &str,
    create_add_listener_event: A,
    create_drop_event: D,
    spawn: T,
    r: Result<Environment, E>,
) where
    A: FnOnce(u32, i32) -> Result<i32, E>,
    D: FnOnce(u32, i32) -> Result<i32, E>,
    T: FnOnce(String, i32, i32) -> Result<(), E>,

    requires
        call_ensures(
            Environment::new::<E, A, D, T>,
            (name, create_add_listener_event, create_drop_event, spawn),
            r,
        ),
    ensures
        match r {
            Ok(environment) => {
                &&& call_ensures(
                    create_add_listener_event,
                    (0u32, 0x80800i32),
                    Ok::<i32, E>(environment.add_listener_event),
                )
                &&& call_ensures(
                    create_drop_event,
                    (0u32, 0x80800i32),
                    Ok::<i32, E>(environment.drop_event),
                )
                &&& exists|text: String|
                    text@ == name@ && #[trigger] call_ensures(
                        spawn,
                        (text, environment.add_listener_event, environment.drop_event),
                        Ok::<(), E>(()),
                    )
            },
            Err(e) => {
                ||| call_ensures(create_add_listener_event, (0u32, 0x80800i32), Err::<i32, E>(e))
                ||| call_ensures(create_drop_event, (0u32, 0x80800i32), Err::<i32, E>(e)) && exists|
                    added: i32,
                | #[trigger]
                    call_ensures(
                        create_add_listener_event,
                        (0u32, 0x80800i32),
                        Ok::<i32, E>(added),
                    )
                ||| exists|text: String, added: i32, dropped: i32|
                    {
                        &&& text@ == name@
                        &&& call_ensures(
                            create_add_listener_event,
                            (0u32, 0x80800i32),
                            Ok::<i32, E>(added),
                        )
                        &&& call_ensures(
                            create_drop_event,
                            (0u32, 0x80800i32),
                            Ok::<i32, E>(dropped),
                        )
                        &&& #[trigger] call_ensures(
                            spawn,
                            (text, added, dropped),
                            Err::<(), E>(e),
                        )
                    }
            },
        },
{
    assert(environment_started(
        name@,
        create_add_listener_event,
        create_drop_event,
        spawn,
        r,
    ));
    if let Ok(environment) = r {
        let text = choose|text: String, spawned: Result<(), E>|
            text@ == name@ && #[trigger] call_ensures(
                spawn,
                (text, environment.add_listener_event, environment.drop_event),
                spawned,
            ) && spawned is Ok;
        assert((text.1)->Ok_0 == ());
        assert(text.1 == Ok::<(), E>((text.1)->Ok_0));
    }
    if let Err(e) = r {
        let added = choose|added: Result<i32, E>| #[trigger]
            call_ensures(create_add_listener_event, (0u32, 0x80800i32), added) && (added is Err
                ==> added == Err::<i32, E>(e)) && (added matches Ok(add_listener_event) ==> exists|
                dropped: Result<i32, E>,
            | #[trigger]
                call_ensures(create_drop_event, (0u32, 0x80800i32), dropped) && match dropped {
                    Err(error) => error == e,
                    Ok(drop_event) => exists|text: String, spawned: Result<(), E>|
                        text@ == name@ && #[trigger] call_ensures(
                            spawn,
                            (text, add_listener_event, drop_event),
                            spawned,
                        ) && spawned == Err::<(), E>(e),
                });
        if let Ok(add_listener_event) = added {
            assert(call_ensures(
                create_add_listener_event,
                (0u32, 0x80800i32),
                Ok::<i32, E>(add_listener_event),
            ));
            let dropped = choose|dropped: Result<i32, E>| #[trigger]
                call_ensures(create_drop_event, (0u32, 0x80800i32), dropped) && match dropped {
                    Err(error) => error == e,
                    Ok(drop_event) => exists|text: String, spawned: Result<(), E>|
                        text@ == name@ && #[trigger] call_ensures(
                            spawn,
                            (text, add_listener_event, drop_event),
                            spawned,
                        ) && spawned == Err::<(), E>(e),
                };
            if let Ok(drop_event) = dropped {
                assert(call_ensures(
                    create_drop_event,
                    (0u32, 0x80800i32),
                    Ok::<i32, E>(drop_event),
                ));
            }
        }
    }
}

/// A client gets into an environment by its own socket: that is sent, then the event for new clients
/// is triggered with one, and then the thread's answer is what comes of it. Before that, the first
/// step that fails decides.
pub proof fn law_clients_get_the_answer_of_the_thread<E, S, W, A>(
    environment: &Environment,
    socket: i32,
    send: S,
    write: W,
    receive_answer: A,
    r: Result<(), E>,
) where
    S: FnOnce(i32) -> Result<(), E>,
    W: FnOnce(i32, u64) -> Result<(), E>,
    A: FnOnce() -> Result<Result<(), E>, E>,

    requires
        call_ensures(
            Environment::insert_socket::<E, S, W, A>,
            (environment, socket, send, write, receive_answer),
            r,
        ),
    ensures
        ({
            let sent = call_ensures(send, (socket,), Ok::<(), E>(()));
            let announced = sent && call_ensures(
                write,
                (environment.add_listener_event, 1u64),
                Ok::<(), E>(()),
            );
            match r {
                Ok(_) => announced && call_ensures(
                    receive_answer,
                    (),
                    Ok::<Result<(), E>, E>(Ok::<(), E>(())),
                ),
                Err(e) => {
                    ||| call_ensures(send, (socket,), Err::<(), E>(e))
                    ||| sent && call_ensures(
                        write,
                        (environment.add_listener_event, 1u64),
                        Err::<(), E>(e),
                    )
                    ||| announced && call_ensures(receive_answer, (), Err::<Result<(), E>, E>(e))
                    ||| announced && call_ensures(
                        receive_answer,
                        (),
                        Ok::<Result<(), E>, E>(Err::<(), E>(e)),
                    )
                },
            }
        }),
{
    assert forall|done: Result<(), E>| #[trigger]
        call_ensures(send, (socket,), done) && done is Ok implies call_ensures(
        send,
        (socket,),
        Ok::<(), E>(()),
    ) by {
        assert(done->Ok_0 == ());
        assert(done == Ok::<(), E>(done->Ok_0));
    }
    assert forall|done: Result<(), E>| #[trigger]
        call_ensures(write, (environment.add_listener_event, 1u64), done) && done is Ok implies call_ensures(
        write,
        (environment.add_listener_event, 1u64),
        Ok::<(), E>(()),
    ) by {
        assert(done->Ok_0 == ());
        assert(done == Ok::<(), E>(done->Ok_0));
    }
    assert forall|answer: Result<Result<(), E>, E>| #[trigger]
        call_ensures(receive_answer, (), answer) && (answer matches Ok(told)
            && told is Ok) implies call_ensures(
        receive_answer,
        (),
        Ok::<Result<(), E>, E>(Ok::<(), E>(())),
    ) by {
        assert((answer->Ok_0)->Ok_0 == ());
        assert(answer->Ok_0 == Ok::<(), E>((answer->Ok_0)->Ok_0));
    }
}

/// An environment that is dropped triggers its own event for that, with one. That succeeds quietly;
/// where it does not, the failure ends in a panic, or, on a thread that is panicking already, in a
/// warning that tells the error.
pub proof fn law_dropped_environments_trigger_their_event<W>(
    environment: &Environment,
    panicking: bool,
    write: W,
    r: Disposal,
) where W: FnOnce(i32, u64) -> Result<(), String>
    requires
        call_ensures(Environment::signal_drop::<W>, (environment, panicking, write), r),
    ensures
        exists|written: Result<(), String>| #[trigger]
            call_ensures(write, (environment.drop_event, 1u64), written) && match (written, r) {
                (Ok(_), Disposal::Quiet) => true,
                (Err(e), Disposal::Warn(warning)) => panicking && warning@
                    == "Environment panicked while destructing: "@ + e@,
                (Err(_), Disposal::Panic) => !panicking,
                _ => false,
            },
{
}

/// The socket that all clients know lies under its name in the working directory that is given, or else
/// in the default one.
pub proof fn law_the_listener_lies_in_the_directory(
    given: Option<&str>,
    default_dir: &str,
    sock_name: &str,
    state: State,
    path: String,
)
    requires
        call_ensures(State::new, (given, default_dir, sock_name), state),
        call_ensures(
            join_path,
            (
                match given {
                    Some(dir) => dir,
                    None => default_dir,
                },
                sock_name,
            ),
            path,
        ),
    ensures
        given matches Some(dir) ==> state.dir() == dir@,
        given is None ==> state.dir() == default_dir@,
        state.sock_name() == sock_name@,
        state.listener().path() == path@,
{
}

/// What a state and its listener hold is what is handed out.
pub proof fn law_states_hand_out_what_they_hold(
    state: &State,
    dir: &str,
    listener: &GlobalListener,
    path: &str,
)
    requires
        call_ensures(State::working_dir, (state,), dir),
        call_ensures(State::global_listener, (state,), listener),
        call_ensures(GlobalListener::sock_path, (listener,), path),
    ensures
        dir@ == state.dir(),
        path@ == state.listener().path(),
{
}

/// A path makes an address exactly if it has no zero byte and is not too long, and of the two faults
/// the zero byte comes first. What makes the address is the whole path.
pub proof fn law_paths_make_addresses(listener: &GlobalListener, r: Result<SocketAddrUnix, i32>)
    requires
        call_ensures(GlobalListener::address, (listener,), r),
    ensures
        exists|path: &str|
            path@ == listener.path() && #[trigger] socket_address_answer(path, r),
        r is Ok <==> !encode_utf8(listener.path()).contains(0) && encode_utf8(listener.path()).len()
            <= 108,
        r matches Err(errno) ==> errno == if encode_utf8(listener.path()).contains(0) {
            22i32
        } else {
            36i32
        },
{
}

} // verus!
