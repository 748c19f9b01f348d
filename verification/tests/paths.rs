use std::path::Path;

use garnd::constants::{GROUP_NAME, SHM_FILE_NAME, USER_NAME, WORKING_DIR_ENV_OPTION};
use garnd::linux::global_listener::GlobalListener;
use garnd::linux::runtime::{Ready, Runtime};
use garnd::linux::state::State;
use garnd::text::{decimal_text, join_path};

#[test]
fn paths_join_as_in_the_standard_library() {
    let parts = ["", "/", "a", "/a", "a/", "a/b", "//", "ä", ".", "..", "a//", "ß/x"];
    for dir in parts {
        for name in parts {
            let expected = Path::new(dir).join(name);
            assert_eq!(join_path(dir, name), expected.to_str().unwrap(), "{dir:?} {name:?}");
        }
    }
}

#[test]
fn listener_binds_below_the_working_directory() {
    assert_eq!(GlobalListener::new("/run/garnd", "welcome").sock_path(), "/run/garnd/welcome");
    assert_eq!(GlobalListener::new("/run/garnd", "/welcome").sock_path(), "/welcome");
}

#[test]
fn listener_has_an_address() {
    let address = GlobalListener::new("/run/garnd", "welcome").address().unwrap();
    assert_eq!(address.path_bytes(), Some(&b"/run/garnd/welcome"[..]));
}

#[test]
fn the_path_of_a_listener_has_to_fit_into_an_address() {
    let fitting = "x".repeat(108);
    let address = GlobalListener::new("", &fitting).address().unwrap();
    assert_eq!(address.path_bytes(), Some(fitting.as_bytes()));
    let too_long = "x".repeat(109);
    let r = GlobalListener::new("", &too_long).address();
    assert_eq!(r.err(), Some(libc::ENAMETOOLONG));
    assert_eq!(GlobalListener::new("/run", "a\0b").address().err(), Some(libc::EINVAL));
    let both = "\0".repeat(400);
    assert_eq!(GlobalListener::new("/run", &both).address().err(), Some(libc::EINVAL));
}

#[test]
fn state_takes_the_working_directory_that_is_given() {
    let state = State::new(Some("/srv"), "/run/garnd", "welcome");
    assert_eq!(state.working_dir(), "/srv");
    assert_eq!(state.global_listener().sock_path(), "/srv/welcome");
}

#[test]
fn state_falls_back_to_the_default_directory() {
    let state = State::new(None, "/run/garnd", "welcome");
    assert_eq!(state.working_dir(), "/run/garnd");
    assert_eq!(state.global_listener().sock_path(), "/run/garnd/welcome");
}

#[test]
fn global_state_keeps_what_it_is_given() {
    let state = garnd::state::State::new("/run/garnd", "welcome");
    assert_eq!(state.run_dir, "/run/garnd");
    assert_eq!(state.welcome_sock_name, "welcome");
}

#[test]
fn log_files_lie_in_the_working_directory() {
    let runtime = Runtime {
        working_dir_path: "/run/garnd".to_string(),
        state_data: Ready { welcome_socket: 3, shutdown_event: 4 },
    };
    assert_eq!(runtime.log_file_path("errors.log"), "/run/garnd/errors.log");
}

#[test]
fn names_of_the_service() {
    assert_eq!(USER_NAME, "garnd");
    assert_eq!(GROUP_NAME, "garnd");
    assert_eq!(SHM_FILE_NAME, "shm");
    assert_eq!(WORKING_DIR_ENV_OPTION, "GARND_WORKING_DIR");
}

#[test]
fn numbers_are_written_in_decimal() {
    for n in [0, 9, 10, 99, 100, 4096, 1_234_567_890, usize::MAX] {
        assert_eq!(decimal_text(n), n.to_string());
    }
}
