//! An environment as its owner sees it: the thread of the environment is told by two events.

use vstd::prelude::*;

use crate::linux::settings::{EVENT_FLAGS, EVENT_START, EVENT_TRIGGER};
use crate::teardown::{after_environment_drop, disposes, Disposal};

verus! {

/// A running environment, by the descriptors of its events: one announces new clients, and one ends
/// the environment.
#[derive(Debug, PartialEq, Eq)]
pub struct Environment {
    pub add_listener_event: i32,
    pub drop_event: i32,
}

/// How the start of an environment ends: with the first step that fails, or with the environment.
pub open spec fn environment_started<
    E,
    A: FnOnce(u32, i32) -> Result<i32, E>,
    D: FnOnce(u32, i32) -> Result<i32, E>,
    T: FnOnce(String, i32, i32) -> Result<(), E>,
>(
    name: Seq<char>,
    create_add_listener_event: A,
    create_drop_event: D,
    spawn: T,
    r: Result<Environment, E>,
) -> bool {
    exists|added: Result<i32, E>| #[trigger]
        call_ensures(create_add_listener_event, (EVENT_START, EVENT_FLAGS), added) && match added {
            Err(e) => r == Err::<Environment, E>(e),
            Ok(add_listener_event) => exists|dropped: Result<i32, E>| #[trigger]
                call_ensures(create_drop_event, (EVENT_START, EVENT_FLAGS), dropped)
                    && match dropped {
                    Err(e) => r == Err::<Environment, E>(e),
                    Ok(drop_event) => exists|text: String, spawned: Result<(), E>|
                        text@ == name && #[trigger] call_ensures(
                            spawn,
                            (text, add_listener_event, drop_event),
                            spawned,
                        ) && match spawned {
                            Err(e) => r == Err::<Environment, E>(e),
                            Ok(_) => r == Ok::<Environment, E>(
                                Environment { add_listener_event, drop_event },
                            ),
                        },
                },
        }
}

/// How a client gets into an environment: its socket is sent, the arrival is announced, and the
/// thread's answer is the outcome, unless a step fails before.
pub open spec fn socket_inserted<
    E,
    S: FnOnce(i32) -> Result<(), E>,
    W: FnOnce(i32, u64) -> Result<(), E>,
    A: FnOnce() -> Result<Result<(), E>, E>,
>(
    environment: Environment,
    socket: i32,
    send: S,
    write: W,
    receive_answer: A,
    r: Result<(), E>,
) -> bool {
    exists|sent: Result<(), E>| #[trigger]
        call_ensures(send, (socket,), sent) && match sent {
            Err(e) => r == Err::<(), E>(e),
            Ok(_) => exists|written: Result<(), E>| #[trigger]
                call_ensures(write, (environment.add_listener_event, EVENT_TRIGGER), written)
                    && match written {
                    Err(e) => r == Err::<(), E>(e),
                    Ok(_) => exists|answer: Result<Result<(), E>, E>| #[trigger]
                        call_ensures(receive_answer, (), answer) && match answer {
                            Err(e) => r == Err::<(), E>(e),
                            Ok(answer) => r == answer,
                        },
                },
        }
}

impl Environment {
    /// Starts an environment: its two events are made, each by its own step, with nothing pending,
    /// and then `spawn` starts the thread, which gets the name and the events.
    ///
    /// The steps are called in the order of the parameters: each one can be called only once those
    /// before it have succeeded.
    pub fn new<E, A, D, T>(
        name: &str,
        create_add_listener_event: A,
        create_drop_event: D,
        spawn: T,
    ) -> (r: Result<Self, E>) where
        A: FnOnce(u32, i32) -> Result<i32, E>,
        D: FnOnce(u32, i32) -> Result<i32, E>,
        T: FnOnce(String, i32, i32) -> Result<(), E>,

        requires
            call_requires(create_add_listener_event, (EVENT_START, EVENT_FLAGS)),
            forall|added: i32| #[trigger]
                call_ensures(
                    create_add_listener_event,
                    (EVENT_START, EVENT_FLAGS),
                    Ok::<i32, E>(added),
                ) ==> call_requires(create_drop_event, (EVENT_START, EVENT_FLAGS)),
            forall|text: String, added: i32, dropped: i32|
                text@ == name@ && call_ensures(
                    create_add_listener_event,
                    (EVENT_START, EVENT_FLAGS),
                    Ok::<i32, E>(added),
                ) && call_ensures(
                    create_drop_event,
                    (EVENT_START, EVENT_FLAGS),
                    Ok::<i32, E>(dropped),
                ) ==> #[trigger] call_requires(spawn, (text, added, dropped)),
        ensures
            environment_started(name@, create_add_listener_event, create_drop_event, spawn, r),
    {
        let text = name.to_string();
        let add_listener_event: i32 = match create_add_listener_event(EVENT_START, EVENT_FLAGS) {
            Ok(event) => event,
            Err(e) => return Err(e),
        };
        let drop_event: i32 = match create_drop_event(EVENT_START, EVENT_FLAGS) {
            Ok(event) => event,
            Err(e) => return Err(e),
        };
        match spawn(text, add_listener_event, drop_event) {
            Ok(_) => Ok(Environment { add_listener_event, drop_event }),
            Err(e) => Err(e),
        }
    }

    /// Hands a client over to the environment, and waits until it has been taken in.
    ///
    /// The steps are called in the order of the parameters: each one can be called only once the one
    /// before it has succeeded.
    pub fn insert_socket<E, S, W, A>(
        &self,
        socket: i32,
        send: S,
        write: W,
        receive_answer: A,
    ) -> (r: Result<(), E>) where
        S: FnOnce(i32) -> Result<(), E>,
        W: FnOnce(i32, u64) -> Result<(), E>,
        A: FnOnce() -> Result<Result<(), E>, E>,

        requires
            call_requires(send, (socket,)),
            forall|sent: Result<(), E>| #[trigger]
                call_ensures(send, (socket,), sent) && sent is Ok ==> call_requires(
                    write,
                    (self.add_listener_event, EVENT_TRIGGER),
                ),
            forall|written: Result<(), E>| #[trigger]
                call_ensures(write, (self.add_listener_event, EVENT_TRIGGER), written)
                    && written is Ok ==> call_requires(receive_answer, ()),
        ensures
            socket_inserted(*self, socket, send, write, receive_answer, r),
    {
        match send(socket) {
            Ok(_) => {},
            Err(e) => return Err(e),
        }
        match write(self.add_listener_event, EVENT_TRIGGER) {
            Ok(_) => {},
            Err(e) => return Err(e),
        }
        match receive_answer() {
            Ok(answer) => answer,
            Err(e) => Err(e),
        }
    }

    /// Tells the thread of the environment to end, when the environment is dropped on a thread that
    /// is panicking or not. `write` fails with what the error says.
    pub fn signal_drop<W>(&self, panicking: bool, write: W) -> (r: Disposal) where
        W: FnOnce(i32, u64) -> Result<(), String>,

        requires
            call_requires(write, (self.drop_event, EVENT_TRIGGER)),
        ensures
            exists|written: Result<(), String>| #[trigger]
                call_ensures(write, (self.drop_event, EVENT_TRIGGER), written) && disposes(
                    r,
                    match written {
                        Ok(_) => None,
                        Err(e) => Some("Environment panicked while destructing: "@ + e@),
                    },
                    panicking,
                ),
    {
        match write(self.drop_event, EVENT_TRIGGER) {
            Ok(_) => after_environment_drop(None, panicking),
            Err(e) => after_environment_drop(Some(e.as_str()), panicking),
        }
    }
}

} // verus!
