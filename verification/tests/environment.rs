use std::cell::RefCell;

use garnd::linux::environment::Environment;
use garnd::teardown::Disposal;

/// Starts an environment; the events are made with the given outcomes.
fn start(
    events: [Result<i32, &'static str>; 2],
    spawned: Result<(), &'static str>,
) -> Result<Environment, &'static str> {
    let expected = (0, libc::EFD_CLOEXEC | libc::EFD_NONBLOCK);
    Environment::new(
        "env",
        |start, flags| if (start, flags) == expected { events[0] } else { Err("wrong event") },
        |start, flags| if (start, flags) == expected { events[1] } else { Err("wrong event") },
        |name, add_listener_event, drop_event| {
            if name == "env" && (add_listener_event, drop_event) == (3, 4) {
                spawned
            } else {
                Err("wrong arguments")
            }
        },
    )
}

#[test]
fn environment_starts_with_two_events() {
    assert_eq!(
        start([Ok(3), Ok(4)], Ok(())),
        Ok(Environment { add_listener_event: 3, drop_event: 4 })
    );
}

#[test]
fn environment_fails_with_its_first_step() {
    assert_eq!(start([Err("a"), Err("b")], Err("c")), Err("a"));
    assert_eq!(start([Ok(3), Err("b")], Err("c")), Err("b"));
    assert_eq!(start([Ok(3), Ok(4)], Err("c")), Err("c"));
}

/// Hands the socket 9 over with the given outcomes of the steps.
fn insert(
    sent: Result<(), &'static str>,
    written: Result<(), &'static str>,
    answer: Result<Result<(), &'static str>, &'static str>,
) -> (Result<(), &'static str>, Vec<String>) {
    let environment = Environment { add_listener_event: 3, drop_event: 4 };
    let steps = RefCell::new(Vec::new());
    let r = environment.insert_socket(
        9,
        |socket| {
            steps.borrow_mut().push(format!("send {socket}"));
            sent
        },
        |event, value| {
            steps.borrow_mut().push(format!("write {value} to {event}"));
            written
        },
        || {
            steps.borrow_mut().push("receive".to_string());
            answer
        },
    );
    (r, steps.into_inner())
}

#[test]
fn socket_is_sent_before_it_is_announced() {
    let (r, steps) = insert(Ok(()), Ok(()), Ok(Ok(())));
    assert_eq!(r, Ok(()));
    assert_eq!(steps, ["send 9", "write 1 to 3", "receive"]);
}

#[test]
fn the_answer_of_the_thread_counts() {
    assert_eq!(insert(Ok(()), Ok(()), Ok(Err("refused"))).0, Err("refused"));
    assert_eq!(insert(Ok(()), Ok(()), Err("no answer")).0, Err("no answer"));
}

#[test]
fn a_socket_that_is_not_announced_gets_no_answer() {
    let (r, steps) = insert(Err("send"), Err("write"), Err("receive"));
    assert_eq!(r, Err("send"));
    assert_eq!(steps, ["send 9"]);
    let (r, steps) = insert(Ok(()), Err("write"), Err("receive"));
    assert_eq!(r, Err("write"));
    assert_eq!(steps, ["send 9", "write 1 to 3"]);
}

#[test]
fn the_thread_of_a_dropped_environment_is_told_to_end() {
    let environment = Environment { add_listener_event: 3, drop_event: 4 };
    let written = |event, value| if (event, value) == (4, 1) { Ok(()) } else { Err("?".to_string()) };
    assert_eq!(environment.signal_drop(false, written), Disposal::Quiet);
    let failed = |_, _| Err("EBADF".to_string());
    assert_eq!(environment.signal_drop(false, failed), Disposal::Panic);
    assert_eq!(
        environment.signal_drop(true, failed),
        Disposal::Warn("Environment panicked while destructing: EBADF".to_string())
    );
}
