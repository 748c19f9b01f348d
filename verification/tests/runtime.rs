use std::cell::RefCell;

use garnd::linux::runtime::{
    on_termination_signal, setup_socket, Listening, Ready, Runtime, SignalHandling, SocketSteps,
    TerminationAction, Uninit, EADDRINUSE, SIGINT, SIGTERM,
};
use garnd::linux::runtime_error::RuntimeError;
use garnd::linux::service_error::{Failure, ServiceError};
use garnd::teardown::Disposal;
use nix::sys::socket::UnixAddr;

/// The steps in which a socket of the given name is set up, with their outcomes.
fn socket_steps(
    name: &str,
    socket: Result<i32, i32>,
    credentials: Result<(), i32>,
    bound: Result<(), i32>,
    event: Result<i32, i32>,
) -> SocketSteps<
    impl FnOnce(i32, i32, i32) -> Result<i32, i32>,
    impl FnOnce(i32, bool) -> Result<(), i32>,
    impl FnOnce(i32, UnixAddr) -> Result<(), i32>,
    impl FnOnce(u32, i32) -> Result<i32, i32>,
> {
    let expected = format!("garn_{name}");
    SocketSteps {
        open: move |family, kind, flags| {
            let expected = (libc::AF_UNIX, libc::SOCK_SEQPACKET, libc::SOCK_CLOEXEC);
            if (family, kind, flags) == expected { socket } else { Err(-3) }
        },
        pass_credentials: move |socket, pass| {
            if socket == 3 && pass { credentials } else { Err(-1) }
        },
        bind: move |socket, address: UnixAddr| {
            if socket == 3 && address.as_abstract() == Some(expected.as_bytes()) {
                bound
            } else {
                Err(-2)
            }
        },
        create_event: move |start, flags| {
            let expected = (0, libc::EFD_CLOEXEC | libc::EFD_NONBLOCK);
            if (start, flags) == expected { event } else { Err(-4) }
        },
    }
}

/// Sets the socket up with the given outcomes of the steps.
fn set_up(
    name: &str,
    socket: Result<i32, i32>,
    credentials: Result<(), i32>,
    bound: Result<(), i32>,
    event: Result<i32, i32>,
) -> Result<Ready, ServiceError> {
    setup_socket("garn_", name, socket_steps(name, socket, credentials, bound, event))
}

/// Steps that must not be called.
fn no_steps() -> SocketSteps<
    impl FnOnce(i32, i32, i32) -> Result<i32, i32>,
    impl FnOnce(i32, bool) -> Result<(), i32>,
    impl FnOnce(i32, UnixAddr) -> Result<(), i32>,
    impl FnOnce(u32, i32) -> Result<i32, i32>,
> {
    SocketSteps {
        open: |_, _, _| panic!("no socket is opened"),
        pass_credentials: |_, _| Ok(()),
        bind: |_, _| Ok(()),
        create_event: |_, _| Ok(0),
    }
}

#[test]
fn numbers_are_those_of_the_kernel() {
    assert_eq!(EADDRINUSE, libc::EADDRINUSE);
    assert_eq!(SIGTERM, libc::SIGTERM);
    assert_eq!(SIGINT, libc::SIGINT);
}

#[test]
fn socket_is_bound_to_its_abstract_name() {
    assert_eq!(
        set_up("welcome", Ok(3), Ok(()), Ok(()), Ok(4)),
        Ok(Ready { welcome_socket: 3, shutdown_event: 4 })
    );
}

#[test]
fn the_first_failing_step_counts() {
    let long = "x".repeat(200);
    assert_eq!(set_up(&long, Err(1), Err(2), Err(98), Err(7)), Err(ServiceError::Os(1)));
    assert_eq!(set_up(&long, Ok(3), Err(2), Err(98), Err(7)), Err(ServiceError::Os(2)));
    assert_eq!(
        set_up(&long, Ok(3), Ok(()), Err(98), Err(7)),
        Err(ServiceError::Os(libc::ENAMETOOLONG))
    );
    assert_eq!(set_up("w", Ok(3), Ok(()), Err(6), Err(7)), Err(ServiceError::Os(6)));
    assert_eq!(set_up("w", Ok(3), Ok(()), Ok(()), Err(7)), Err(ServiceError::Os(7)));
}

#[test]
fn a_name_has_to_fit_into_an_address() {
    let fitting = "x".repeat(107 - "garn_".len());
    let ready = Ok(Ready { welcome_socket: 3, shutdown_event: 4 });
    assert_eq!(set_up(&fitting, Ok(3), Ok(()), Ok(()), Ok(4)), ready);
    let too_long = "x".repeat(108 - "garn_".len());
    assert_eq!(
        set_up(&too_long, Ok(3), Ok(()), Ok(()), Ok(4)),
        Err(ServiceError::Os(libc::ENAMETOOLONG))
    );
    let too_long = "\u{e4}".repeat(52);
    assert_eq!(
        set_up(&too_long, Ok(3), Ok(()), Ok(()), Ok(4)),
        Err(ServiceError::Os(libc::ENAMETOOLONG))
    );
}

#[test]
fn an_address_in_use_means_that_the_service_runs() {
    assert_eq!(
        set_up("w", Ok(3), Ok(()), Err(EADDRINUSE), Ok(4)),
        Err(ServiceError::Runtime(RuntimeError::ServiceAlreadyRunning))
    );
}

#[test]
fn working_directory_is_given_or_the_default() {
    assert_eq!(
        Runtime::new(Some("/srv"), "/run/garnd"),
        Runtime { working_dir_path: "/srv".to_string(), state_data: Uninit {} }
    );
    assert_eq!(
        Runtime::new(None, "/run/garnd"),
        Runtime { working_dir_path: "/run/garnd".to_string(), state_data: Uninit {} }
    );
}

#[test]
fn service_gets_ready() {
    let r = Runtime::new(Some("/"), "/run/garnd").init(
        true,
        |_| (),
        || (-1, 0),
        |path: &str| if path == "/" { Ok(true) } else { Err("wrong path") },
        |_: &str| Ok(true),
        "garn_",
        "w",
        socket_steps("w", Ok(3), Ok(()), Ok(()), Ok(4)),
    );
    assert_eq!(
        r,
        Ok(Runtime {
            working_dir_path: "/".to_string(),
            state_data: Ready { welcome_socket: 3, shutdown_event: 4 },
        })
    );
}

#[test]
fn working_directory_comes_before_the_sockets() {
    let r = Runtime::new(Some("/"), "/run/garnd").init(
        true,
        |_| (),
        || (-1, 0),
        |_: &str| Err("EIO"),
        |_: &str| Ok(true),
        "garn_",
        "w",
        no_steps(),
    );
    assert_eq!(r, Err(Failure::Outside("EIO")));
    let r = Runtime::new(Some("/"), "/run/garnd").init(
        true,
        |_| (),
        || (-1, 0),
        |_: &str| Ok::<bool, ()>(true),
        |_: &str| Ok(true),
        "garn_",
        "w",
        socket_steps("w", Err(1), Ok(()), Ok(()), Ok(4)),
    );
    assert_eq!(r, Err(Failure::Service(ServiceError::Os(1))));
}

#[test]
fn a_second_service_does_not_get_ready() {
    let r = Runtime::new(Some("/"), "/run/garnd").init(
        true,
        |_| (),
        || (-1, 0),
        |_: &str| Ok::<bool, ()>(true),
        |_: &str| Ok(true),
        "garn_",
        "w",
        socket_steps("w", Ok(3), Ok(()), Err(EADDRINUSE), Ok(4)),
    );
    assert_eq!(
        r,
        Err(Failure::Service(ServiceError::Runtime(RuntimeError::ServiceAlreadyRunning)))
    );
}

#[test]
fn privileges_come_before_everything() {
    if nix::unistd::User::from_name("garnd") == Ok(None) {
        let r = Runtime::new(Some("/"), "/run/garnd").init(
            false,
            |_| panic!("no warning"),
            || (0xef, 0),
            |_: &str| Err("not asked"),
            |_: &str| Err("not asked"),
            "garn_",
            "w",
            no_steps(),
        );
        assert_eq!(
            r,
            Err(Failure::Service(ServiceError::Runtime(RuntimeError::UserNonexistent)))
        );
    }
}

fn ready() -> Runtime<Ready> {
    Runtime {
        working_dir_path: "/srv".to_string(),
        state_data: Ready { welcome_socket: 3, shutdown_event: 4 },
    }
}

fn handling(signal: i32) -> SignalHandling {
    SignalHandling { signal, blocked: (SIGTERM, SIGINT), flags: libc::SA_RESTART }
}

#[test]
fn signals_are_handled_before_clients_are_welcome() {
    let steps = RefCell::new(Vec::new());
    let r = ready().listen(
        |event| steps.borrow_mut().push(format!("publish {event}")),
        |how| {
            assert_eq!(how, handling(libc::SIGTERM));
            steps.borrow_mut().push("termination".to_string());
            Ok::<(), ()>(())
        },
        |how| {
            assert_eq!(how, handling(libc::SIGINT));
            steps.borrow_mut().push("interrupt".to_string());
            Ok(())
        },
        |socket, event| {
            steps.borrow_mut().push(format!("spawn {socket} {event}"));
            Ok(())
        },
    );
    assert_eq!(
        r,
        Ok(Runtime {
            working_dir_path: "/srv".to_string(),
            state_data: Listening { shutdown_event: 4 },
        })
    );
    assert_eq!(steps.into_inner(), ["publish 4", "termination", "interrupt", "spawn 3 4"]);
}

#[test]
fn listening_fails_with_its_first_step() {
    let r = ready().listen(|_| (), |_| Err("SIGTERM"), |_| Err("SIGINT"), |_, _| Err("spawn"));
    assert_eq!(r, Err("SIGTERM"));
    let r = ready().listen(|_| (), |_| Ok(()), |_| Err("SIGINT"), |_, _| Err("spawn"));
    assert_eq!(r, Err("SIGINT"));
    let r = ready().listen(|_| (), |_| Ok(()), |_| Ok(()), |_, _| Err("spawn"));
    assert_eq!(r, Err("spawn"));
}

#[test]
fn the_welcome_thread_is_told_to_end() {
    let listening = || Runtime {
        working_dir_path: "/srv".to_string(),
        state_data: Listening { shutdown_event: 4 },
    };
    let written = |event, value| if (event, value) == (4, 1) { Ok(()) } else { Err("?".to_string()) };
    assert_eq!(listening().signal_shutdown(false, written), Disposal::Quiet);
    let failed = |_, _| Err("EBADF".to_string());
    assert_eq!(listening().signal_shutdown(false, failed), Disposal::Panic);
    assert_eq!(
        listening().signal_shutdown(true, failed),
        Disposal::Warn("signaling welcome thread failed: EBADF".to_string())
    );
}

#[test]
fn termination_triggers_the_event() {
    assert_eq!(on_termination_signal(7), TerminationAction::Trigger { event: 7, value: 1 });
}

#[test]
fn early_termination_ends_the_process() {
    assert_eq!(
        on_termination_signal(-1),
        TerminationAction::Exit {
            status: -1,
            warning: "Termination requested in an early or invalid state of the program, exiting immediately.",
        }
    );
}
