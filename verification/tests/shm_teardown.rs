use garnd::linux::shm_allocator::{Destruction, Teardown};
use garnd::linux::shm_teardown::{Conclusion, ShmTeardown, TeardownAction, TeardownEvent};

/// Two resources on two pages.
fn plan() -> Teardown {
    let destruction = |name: &str, page, offset| Destruction { name: name.to_string(), page, offset };
    Teardown {
        destructions: vec![destruction("a", 0, 8), destruction("b", 1, 0)],
        pages: vec![10, 11],
        page_size: 64,
    }
}

/// Tears everything down with the given outcomes of the steps, and gives the steps and the warnings
/// on the way.
fn run(
    destroyed: [Result<(), u8>; 2],
    unmapped: [Result<(), &str>; 2],
    panicking: bool,
) -> (Vec<TeardownAction>, Vec<String>, Conclusion<u8>) {
    let mut teardown = ShmTeardown::start(plan());
    let mut destroyed = destroyed.into_iter();
    let mut unmapped = unmapped.into_iter();
    let mut actions = Vec::new();
    let mut warnings = Vec::new();
    loop {
        let action = teardown.action();
        actions.push(action);
        let event = match action {
            TeardownAction::Destroy { .. } => TeardownEvent::Destroyed(destroyed.next().unwrap()),
            TeardownAction::Unmap { .. } => {
                TeardownEvent::Unmapped(unmapped.next().unwrap().map_err(str::to_string))
            }
            TeardownAction::Conclude => break,
        };
        let (next, warning) = teardown.next(event);
        teardown = next;
        warnings.extend(warning);
    }
    (actions, warnings, teardown.conclude(panicking))
}

fn all_actions() -> Vec<TeardownAction> {
    vec![
        TeardownAction::Destroy { page: 0, offset: 8 },
        TeardownAction::Destroy { page: 1, offset: 0 },
        TeardownAction::Unmap { page: 0, length: 64 },
        TeardownAction::Unmap { page: 1, length: 64 },
        TeardownAction::Conclude,
    ]
}

#[test]
fn resources_are_destroyed_before_pages_are_unmapped() {
    let (actions, warnings, conclusion) = run([Ok(()), Ok(())], [Ok(()), Ok(())], false);
    assert_eq!(actions, all_actions());
    assert_eq!(warnings, Vec::<String>::new());
    assert_eq!(conclusion, Conclusion::Quiet);
}

#[test]
fn a_panic_does_not_stop_the_teardown() {
    let (actions, _, conclusion) = run([Err(1), Err(2)], [Ok(()), Ok(())], false);
    assert_eq!(actions, all_actions());
    assert_eq!(conclusion, Conclusion::Resume(1));
    let (_, _, conclusion) = run([Ok(()), Err(2)], [Ok(()), Ok(())], false);
    assert_eq!(conclusion, Conclusion::Resume(2));
}

#[test]
fn a_panic_is_only_a_warning_while_panicking() {
    let (actions, _, conclusion) = run([Err(1), Ok(())], [Ok(()), Ok(())], true);
    assert_eq!(actions, all_actions());
    assert_eq!(
        conclusion,
        Conclusion::Warn("ShmAllocator panicked while destructing".to_string())
    );
}

#[test]
fn failed_unmappings_are_warned_about() {
    let (actions, warnings, conclusion) = run([Ok(()), Ok(())], [Err("EINVAL"), Err("EIO")], false);
    assert_eq!(actions, all_actions());
    assert_eq!(
        warnings,
        ["unmapping of shared memory failed: EINVAL", "unmapping of shared memory failed: EIO"]
    );
    assert_eq!(conclusion, Conclusion::Quiet);
}

#[test]
fn empty_memory_is_torn_down_at_once() {
    let plan = Teardown { destructions: vec![], pages: vec![], page_size: 64 };
    let teardown = ShmTeardown::<u8>::start(plan);
    assert_eq!(teardown.action(), TeardownAction::Conclude);
    assert_eq!(teardown.conclude(true), Conclusion::Quiet);
}
