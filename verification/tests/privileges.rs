use std::cell::RefCell;

use garnd::linux::privileges::{
    check_capability, check_fs_group, check_fs_user, check_group_ids, check_groups,
    check_no_new_privileges, check_privileges, check_secure_bits, check_user_ids, required_group,
    required_user, Ids, SECBIT_KEEP_CAPS, SECBIT_KEEP_CAPS_LOCKED, SECBIT_NOROOT,
    SECBIT_NOROOT_LOCKED, SECBIT_NO_CAP_AMBIENT_RAISE, SECBIT_NO_CAP_AMBIENT_RAISE_LOCKED,
    SECBIT_NO_SETUID_FIXUP, SECBIT_NO_SETUID_FIXUP_LOCKED,
};
use garnd::linux::runtime_error::RuntimeError;
use garnd::linux::service_error::ServiceError;

fn runtime<T>(e: RuntimeError) -> Result<T, ServiceError> {
    Err(ServiceError::Runtime(e))
}

#[test]
fn user_and_group_have_to_exist() {
    assert_eq!(required_user(Ok(Some(5))), Ok(5));
    assert_eq!(required_user(Ok(None)), runtime(RuntimeError::UserNonexistent));
    assert_eq!(required_user(Err(13)), Err(ServiceError::Os(13)));
    assert_eq!(required_group(Ok(Some(6))), Ok(6));
    assert_eq!(required_group(Ok(None)), runtime(RuntimeError::GroupNonexistent));
    assert_eq!(required_group(Err(13)), Err(ServiceError::Os(13)));
}

#[test]
fn every_user_id_has_to_be_right() {
    let ids = |real, effective, saved| Ok(Ids { real, effective, saved });
    assert_eq!(check_user_ids(5, ids(5, 5, 5)), Ok(()));
    for wrong in [ids(6, 5, 5), ids(5, 6, 5), ids(5, 5, 6)] {
        assert_eq!(check_user_ids(5, wrong), runtime(RuntimeError::RunAsWrongUser));
    }
    assert_eq!(check_user_ids(5, Err(1)), Err(ServiceError::Os(1)));
    assert_eq!(check_fs_user(5, 5), Ok(()));
    assert_eq!(check_fs_user(5, 0), runtime(RuntimeError::RunAsWrongUser));
}

#[test]
fn every_group_id_has_to_be_right() {
    let ids = |real, effective, saved| Ok(Ids { real, effective, saved });
    assert_eq!(check_group_ids(5, ids(5, 5, 5)), Ok(()));
    for wrong in [ids(6, 5, 5), ids(5, 6, 5), ids(5, 5, 6)] {
        assert_eq!(check_group_ids(5, wrong), runtime(RuntimeError::RunAsWrongGroup));
    }
    assert_eq!(check_group_ids(5, Err(1)), Err(ServiceError::Os(1)));
    assert_eq!(check_fs_group(5, 5), Ok(()));
    assert_eq!(check_fs_group(5, 0), runtime(RuntimeError::RunAsWrongGroup));
}

#[test]
fn root_group_is_refused() {
    assert_eq!(check_groups(Ok(vec![])), Ok(()));
    assert_eq!(check_groups(Ok(vec![1, 1000])), Ok(()));
    assert_eq!(check_groups(Ok(vec![1, 0])), runtime(RuntimeError::RunWithRootGroup));
    assert_eq!(check_groups(Err(22)), Err(ServiceError::Os(22)));
}

#[test]
fn capabilities_are_refused() {
    assert_eq!(check_capability(Ok(false)), Ok(()));
    assert_eq!(check_capability(Ok(true)), runtime(RuntimeError::RunWithCapabilities));
    assert_eq!(
        check_capability(Err("unreadable".to_string())),
        Err(ServiceError::Capabilities("unreadable".to_string()))
    );
}

#[test]
fn there_are_as_many_capabilities_as_expected() {
    assert_eq!(caps::all().len(), 41);
}

#[test]
fn new_privileges_have_to_be_ruled_out() {
    assert_eq!(check_no_new_privileges(Ok(true)), Ok(()));
    assert_eq!(check_no_new_privileges(Ok(false)), runtime(RuntimeError::MayObtainNewPrivileges));
    assert_eq!(check_no_new_privileges(Err(22)), Err(ServiceError::Os(22)));
}

#[test]
fn secure_bits_are_those_of_the_kernel() {
    assert_eq!(SECBIT_NOROOT, libc::SECBIT_NOROOT);
    assert_eq!(SECBIT_NOROOT_LOCKED, libc::SECBIT_NOROOT_LOCKED);
    assert_eq!(SECBIT_NO_SETUID_FIXUP, libc::SECBIT_NO_SETUID_FIXUP);
    assert_eq!(SECBIT_NO_SETUID_FIXUP_LOCKED, libc::SECBIT_NO_SETUID_FIXUP_LOCKED);
    assert_eq!(SECBIT_KEEP_CAPS, libc::SECBIT_KEEP_CAPS);
    assert_eq!(SECBIT_KEEP_CAPS_LOCKED, libc::SECBIT_KEEP_CAPS_LOCKED);
    assert_eq!(SECBIT_NO_CAP_AMBIENT_RAISE, libc::SECBIT_NO_CAP_AMBIENT_RAISE);
    assert_eq!(SECBIT_NO_CAP_AMBIENT_RAISE_LOCKED, libc::SECBIT_NO_CAP_AMBIENT_RAISE_LOCKED);
}

#[test]
fn all_secure_bits_but_one_have_to_be_set() {
    for bits in 0..0x200 {
        let expected =
            if bits & 0xff == 0xef { Ok(()) } else { runtime(RuntimeError::SecureBitsNotSet) };
        assert_eq!(check_secure_bits(bits, 0), expected);
    }
}

#[test]
fn unreadable_secure_bits_are_an_error() {
    assert_eq!(check_secure_bits(-1, 22), Err(ServiceError::SecureBits(22)));
}

#[test]
fn debug_mode_asks_for_nothing() {
    let warnings = RefCell::new(Vec::new());
    let r = check_privileges(true, |warning| warnings.borrow_mut().push(warning), || (-1, 22));
    assert_eq!(r, Ok(()));
    assert_eq!(warnings.into_inner(), ["privilege checks are disabled in debug mode"]);
}

#[test]
fn the_user_of_the_service_is_looked_up_first() {
    if nix::unistd::User::from_name("garnd") == Ok(None) {
        assert_eq!(
            check_privileges(false, |_| panic!("no warning"), || (0xef, 0)),
            runtime(RuntimeError::UserNonexistent)
        );
    }
}
