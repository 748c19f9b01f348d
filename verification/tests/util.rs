use garnd::shutdown_signal::ShutdownSignal;
use garnd::teardown::{
    after_environment_drop, after_join, after_shutdown, unmap_warning, Disposal,
};
use garnd::util::{
    early_failure_line, get_optional_env_var, try_extract_error_message, warning_line, EnvReading,
    PanicPayload,
};

#[test]
fn warnings_carry_the_name_of_the_service() {
    assert_eq!(warning_line("x"), "garnd: WARNING! x");
    assert_eq!(warning_line(""), "garnd: WARNING! ");
}

#[test]
fn early_failures_carry_the_name_of_the_service() {
    assert_eq!(early_failure_line("no way"), "garnd: no way");
}

#[test]
fn shutdown_signal_says_what_it_is() {
    assert_eq!(ShutdownSignal {}.message(), "Service shutdown requested.");
}

#[test]
fn environment_variable_is_optional() {
    let value = EnvReading::Value("/srv".to_string());
    assert_eq!(get_optional_env_var("V", value), Ok(Some("/srv".to_string())));
    assert_eq!(get_optional_env_var("V", EnvReading::NotPresent), Ok(None));
}

#[test]
fn environment_variable_has_to_be_text() {
    assert_eq!(
        get_optional_env_var("GARND_WORKING_DIR", EnvReading::NotUnicode),
        Err("environment variable 'GARND_WORKING_DIR' is not a valid UTF8-string".to_string())
    );
}

#[test]
fn panic_messages_are_extracted() {
    let text = "owned".to_string();
    assert_eq!(try_extract_error_message(PanicPayload::Str("borrowed")), "borrowed");
    assert_eq!(try_extract_error_message(PanicPayload::Text(&text)), "owned");
    assert_eq!(
        try_extract_error_message(PanicPayload::Other("Any { .. }".to_string())),
        "Any { .. }"
    );
}

#[test]
fn join_guard_is_quiet_without_a_panic() {
    assert_eq!(after_join(None, false), Disposal::Quiet);
    assert_eq!(after_join(None, true), Disposal::Quiet);
}

#[test]
fn join_guard_passes_a_panic_on() {
    assert_eq!(after_join(Some(PanicPayload::Str("boom")), false), Disposal::Panic);
}

#[test]
fn join_guard_warns_while_panicking() {
    assert_eq!(
        after_join(Some(PanicPayload::Str("boom")), true),
        Disposal::Warn("Joining thread in the destructor of JoinGuard failed: boom".to_string())
    );
}

#[test]
fn failed_signals_are_noticed() {
    assert_eq!(after_shutdown(None, false), Disposal::Quiet);
    assert_eq!(after_shutdown(Some("EBADF"), false), Disposal::Panic);
    assert_eq!(
        after_shutdown(Some("EBADF"), true),
        Disposal::Warn("signaling welcome thread failed: EBADF".to_string())
    );
    assert_eq!(after_environment_drop(None, true), Disposal::Quiet);
    assert_eq!(after_environment_drop(Some("EBADF"), false), Disposal::Panic);
    assert_eq!(
        after_environment_drop(Some("EBADF"), true),
        Disposal::Warn("Environment panicked while destructing: EBADF".to_string())
    );
}

#[test]
fn a_failed_unmapping_is_a_warning() {
    assert_eq!(unmap_warning("EINVAL"), "unmapping of shared memory failed: EINVAL");
}
