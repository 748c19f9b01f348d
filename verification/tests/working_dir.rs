use garnd::linux::runtime_error::RuntimeError;
use garnd::linux::service_error::{Failure, ServiceError};
use garnd::linux::working_dir::{
    check_mode, check_owner, setup_working_dir, GROUP_WRITE, OTHERS_WRITE, REQUIRED_MODE, SET_GID,
    SET_UID, STICKY,
};
use nix::sys::stat::Mode;

fn dir() -> String {
    "/srv".to_string()
}

#[test]
fn mode_bits_are_those_of_the_system() {
    let required =
        Mode::S_IRWXU | Mode::S_IRGRP | Mode::S_IXGRP | Mode::S_IROTH | Mode::S_IXOTH;
    assert_eq!(REQUIRED_MODE, required.bits());
    assert_eq!(GROUP_WRITE, Mode::S_IWGRP.bits());
    assert_eq!(OTHERS_WRITE, Mode::S_IWOTH.bits());
    assert_eq!(SET_UID, Mode::S_ISUID.bits());
    assert_eq!(SET_GID, Mode::S_ISGID.bits());
    assert_eq!(STICKY, Mode::S_ISVTX.bits());
}

#[test]
fn exactly_one_mode_passes() {
    for mode in 0..0o10000 {
        assert_eq!(check_mode("/srv", mode).is_ok(), mode == 0o755, "{mode:o}");
        assert_eq!(check_mode("/srv", mode | 0o40000).is_ok(), mode == 0o755, "{mode:o}");
    }
}

#[test]
fn wrong_modes_are_told_apart() {
    let wrong = || {
        Err(RuntimeError::WorkingDirWrongPermissions {
            working_dir: dir(),
            permissions: "rwxr-xr-x",
        })
    };
    assert_eq!(check_mode("/srv", 0o40755), Ok(()));
    assert_eq!(check_mode("/srv", 0o700), wrong());
    assert_eq!(check_mode("/srv", 0o775), wrong());
    assert_eq!(check_mode("/srv", 0o757), wrong());
    assert_eq!(check_mode("/srv", 0o7777), wrong());
    assert_eq!(
        check_mode("/srv", 0o7755),
        Err(RuntimeError::WorkingDirSetUidBitSet { working_dir: dir() })
    );
    assert_eq!(
        check_mode("/srv", 0o3755),
        Err(RuntimeError::WorkingDirSetGidBitSet { working_dir: dir() })
    );
    assert_eq!(
        check_mode("/srv", 0o1755),
        Err(RuntimeError::WorkingDirStickyBitSet { working_dir: dir() })
    );
}

#[test]
fn the_owner_has_to_be_the_service() {
    let alice = || "alice".to_string();
    assert_eq!(check_owner("/srv", 5, 6, 5, alice(), 6), Ok(()));
    assert_eq!(
        check_owner("/srv", 5, 6, 0, alice(), 0),
        Err(RuntimeError::WorkingDirOwnedByWrongUser { working_dir: dir(), owner: alice() })
    );
    assert_eq!(
        check_owner("/srv", 5, 6, 5, alice(), 0),
        Err(RuntimeError::WorkingDirOwnedByWrongGroup { working_dir: dir(), owner: alice() })
    );
}

#[test]
fn the_path_has_to_be_text() {
    let r = setup_working_dir(None, true, |_: &str| Ok::<bool, ()>(true), |_: &str| Ok(true));
    assert_eq!(
        r,
        Err(Failure::Service(ServiceError::Runtime(RuntimeError::WorkingDirPathInvalidString)))
    );
}

#[test]
fn the_directory_has_to_be_there() {
    let r = setup_working_dir(
        Some("/srv"),
        true,
        |path: &str| if path == "/srv" { Ok(false) } else { Err("wrong path") },
        |_: &str| Err("not asked"),
    );
    assert_eq!(
        r,
        Err(Failure::Service(ServiceError::Runtime(RuntimeError::WorkingDirNonexistent {
            working_dir: dir(),
        })))
    );
}

#[test]
fn the_directory_has_to_be_a_directory() {
    let r = setup_working_dir(
        Some("/srv"),
        true,
        |_: &str| Ok(true),
        |path: &str| if path == "/srv" { Ok(false) } else { Err("wrong path") },
    );
    assert_eq!(
        r,
        Err(Failure::Service(ServiceError::Runtime(RuntimeError::WorkingDirNotADirectory {
            working_dir: dir(),
        })))
    );
}

#[test]
fn errors_of_the_file_system_are_handed_on() {
    let r = setup_working_dir(Some("/srv"), true, |_: &str| Err("EIO"), |_: &str| Ok(true));
    assert_eq!(r, Err(Failure::Outside("EIO")));
    let r = setup_working_dir(Some("/srv"), true, |_: &str| Ok(true), |_: &str| Err("EACCES"));
    assert_eq!(r, Err(Failure::Outside("EACCES")));
}

#[test]
fn the_directory_has_to_have_a_status() {
    let r = setup_working_dir(
        Some("/there/is/no/such/directory"),
        true,
        |_: &str| Ok::<bool, ()>(true),
        |_: &str| Ok(true),
    );
    assert_eq!(r, Err(Failure::Service(ServiceError::Os(libc::ENOENT))));
}

#[test]
fn debug_mode_does_not_ask_for_the_owner() {
    let r = setup_working_dir(Some("/"), true, |_: &str| Ok::<bool, ()>(true), |_: &str| Ok(true));
    assert_eq!(r, Ok(()));
}

#[test]
fn the_user_of_the_service_owns_the_directory() {
    if nix::unistd::User::from_name("garnd") == Ok(None) {
        let r = setup_working_dir(
            Some("/"),
            false,
            |_: &str| Ok::<bool, ()>(true),
            |_: &str| Ok(true),
        );
        assert_eq!(
            r,
            Err(Failure::Service(ServiceError::Runtime(RuntimeError::UserNonexistent)))
        );
    }
}
