use garnd::logger::{entry_at, log_file_name_at, Logger};

/// Whether `text` has the shape of `pattern`, in which `9` stands for a digit.
fn has_shape(text: &str, pattern: &str) -> bool {
    text.len() == pattern.len()
        && text
            .chars()
            .zip(pattern.chars())
            .all(|(c, p)| if p == '9' { c.is_ascii_digit() } else { c == p })
}

#[test]
fn log_files_are_named_after_their_time() {
    assert_eq!(
        log_file_name_at("2024-02-29_23:59:60.999"),
        "errors_2024-02-29_23:59:60.999.log"
    );
}

#[test]
fn entries_tell_time_and_error() {
    assert_eq!(
        entry_at("2024-02-29 23:59:60.999999", "it broke"),
        "[2024-02-29 23:59:60.999999] it broke\n"
    );
}

#[test]
fn a_new_log_file_tells_the_time_of_now() {
    let before = chrono::Local::now().format("%Y-%m-%d_%H:%M:%S%.3f").to_string();
    let name = Logger::<Vec<u8>>::log_file_name();
    let after = chrono::Local::now().format("%Y-%m-%d_%H:%M:%S%.3f").to_string();
    assert!(has_shape(&name, "errors_9999-99-99_99:99:99.999.log"), "{name}");
    let before = format!("errors_{before}.log");
    let after = format!("errors_{after}.log");
    // The clock may be set back while the test runs; then nothing can be said.
    if before <= after {
        assert!(before <= name && name <= after);
    }
}

#[test]
fn errors_are_appended_to_the_log() {
    let mut logger = Logger::new(String::new());
    let first = logger.log("one", |file: &mut String, entry: String| {
        file.push_str(&entry);
        file.clone()
    });
    let both = logger.log("two", |file: &mut String, entry: String| {
        file.push_str(&entry);
        file.clone()
    });
    assert!(has_shape(&first, "[9999-99-99 99:99:99.999999] one\n"), "{first}");
    assert!(both.starts_with(&first));
    assert!(has_shape(&both[first.len()..], "[9999-99-99 99:99:99.999999] two\n"), "{both}");
}
