use garnd::linux::runtime_error::RuntimeError;

fn dir() -> String {
    "/srv/garn".to_string()
}

#[test]
fn user_and_group_messages() {
    assert_eq!(RuntimeError::UserNonexistent.message(), "unable to find user 'garnd'");
    assert_eq!(RuntimeError::GroupNonexistent.message(), "unable to find group 'garnd'");
    assert_eq!(
        RuntimeError::RunAsWrongUser.message(),
        "service must be run as user 'garnd' (real, effective, saved and file system)"
    );
    assert_eq!(
        RuntimeError::RunAsWrongGroup.message(),
        "service must be run as user 'garnd' (real, effective, saved and file system)"
    );
}

#[test]
fn privilege_messages() {
    assert_eq!(
        RuntimeError::RunWithRootGroup.message(),
        "service must not be run with 'root' as a supplementary group"
    );
    assert_eq!(
        RuntimeError::RunWithCapabilities.message(),
        "service must not be run with any permitted or bounding capabilities"
    );
    assert_eq!(
        RuntimeError::MayObtainNewPrivileges.message(),
        "service must be run with the 'no new privs' attribute"
    );
    assert_eq!(
        RuntimeError::SecureBitsNotSet.message(),
        "service must be run with all secure bits and all locks set except for 'keep_caps'"
    );
}

#[test]
fn working_dir_messages() {
    assert_eq!(
        RuntimeError::WorkingDirPathInvalidString.message(),
        "working directory path is not a valid UTF8-string"
    );
    assert_eq!(
        RuntimeError::WorkingDirNonexistent { working_dir: dir() }.message(),
        "working directory (\"/srv/garn\") does not exist"
    );
    assert_eq!(
        RuntimeError::WorkingDirNotADirectory { working_dir: dir() }.message(),
        "working directory (\"/srv/garn\") is not a directory"
    );
    assert_eq!(
        RuntimeError::WorkingDirOwnedByWrongUser { working_dir: dir(), owner: "root".to_string() }
            .message(),
        "working directory (\"/srv/garn\") is owned by the wrong user (required owner = garnd, actual owner = root)"
    );
    assert_eq!(
        RuntimeError::WorkingDirOwnedByWrongGroup { working_dir: dir(), owner: "root".to_string() }
            .message(),
        "working directory (\"/srv/garn\") is owned by the wrong group (required owner = garnd, actual owner = root)"
    );
    assert_eq!(
        RuntimeError::WorkingDirWrongPermissions { working_dir: dir(), permissions: "rwxr-xr-x" }
            .message(),
        "working directory (\"/srv/garn\") has the wrong permissions (required permissions = rwxr-xr-x)"
    );
    assert_eq!(
        RuntimeError::WorkingDirSetUidBitSet { working_dir: dir() }.message(),
        "working directory (\"/srv/garn\") has the set-uid bit set"
    );
    assert_eq!(
        RuntimeError::WorkingDirSetGidBitSet { working_dir: dir() }.message(),
        "working directory (\"/srv/garn\") has the set-gid bit set"
    );
    assert_eq!(
        RuntimeError::WorkingDirStickyBitSet { working_dir: dir() }.message(),
        "working directory (\"/srv/garn\") has the sticky bit set"
    );
}

#[test]
fn service_messages() {
    assert_eq!(
        RuntimeError::ServiceAlreadyRunning.message(),
        "service is either already running or another process impersonates it"
    );
    assert_eq!(
        RuntimeError::WelcomeSocketFailed.message(),
        "welcome socket broke down unexpectedly"
    );
    assert_eq!(
        RuntimeError::GetPageSizeFailed.message(),
        "could not determine the system's page size"
    );
}

#[test]
fn resource_messages() {
    assert_eq!(
        RuntimeError::ResourceNameAlreadyInUse { resource_name: "m".to_string() }.message(),
        "a resource with the same name (\"m\") already exists"
    );
    assert_eq!(
        RuntimeError::ResourceAlignmentLargerThanPage { page_size: 4096, alignment: 8192 }.message(),
        "tried to move a resource into share memory whose alignment is larger than the page size (page size = 4096, alignment = 8192)"
    );
    assert_eq!(
        RuntimeError::ResourceTooLargeForPage { page_size: 4096, size: 10305 }.message(),
        "tried to move a resource into shared memory which is larger than a whole page (page size = 4096, resource size = 10305)"
    );
    assert_eq!(
        RuntimeError::ResourceTypeMismatch {
            requested_type: "Mutex",
            resource_type: "<unavailable at runtime>",
        }
        .message(),
        "tried to access a resource of the wrong type (requested type = Mutex, resource_type = <unavailable at runtime>)"
    );
}

#[test]
fn numbers_in_messages_have_all_their_digits() {
    let e = RuntimeError::ResourceTooLargeForPage { page_size: 0, size: usize::MAX };
    assert_eq!(
        e.message(),
        format!(
            "tried to move a resource into shared memory which is larger than a whole page (page size = 0, resource size = {})",
            usize::MAX
        )
    );
}
