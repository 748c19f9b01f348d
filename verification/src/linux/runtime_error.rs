//! The errors that the service itself raises.

use vstd::prelude::*;

use crate::constants::{GROUP_NAME, USER_NAME};
use crate::text::{concat3, concat5, decimal_text};

verus! {

#[derive(Debug, PartialEq, Eq)]
pub enum RuntimeError {
    UserNonexistent,
    GroupNonexistent,
    RunAsWrongUser,
    RunAsWrongGroup,
    RunWithRootGroup,
    RunWithCapabilities,
    MayObtainNewPrivileges,
    SecureBitsNotSet,
    WorkingDirPathInvalidString,
    WorkingDirNonexistent { working_dir: String },
    WorkingDirNotADirectory { working_dir: String },
    WorkingDirOwnedByWrongUser { working_dir: String, owner: String },
    WorkingDirOwnedByWrongGroup { working_dir: String, owner: String },
    WorkingDirWrongPermissions { working_dir: String, permissions: &'static str },
    WorkingDirSetUidBitSet { working_dir: String },
    WorkingDirSetGidBitSet { working_dir: String },
    WorkingDirStickyBitSet { working_dir: String },
    ServiceAlreadyRunning,
    WelcomeSocketFailed,
    GetPageSizeFailed,
    ResourceNameAlreadyInUse { resource_name: String },
    ResourceAlignmentLargerThanPage { page_size: usize, alignment: usize },
    ResourceTooLargeForPage { page_size: usize, size: usize },
    ResourceTypeMismatch { requested_type: &'static str, resource_type: &'static str },
}

impl RuntimeError {
    /// What the log says about the error.
    pub open spec fn text(self) -> Seq<char> {
        match self {
            RuntimeError::UserNonexistent => "unable to find user '"@ + USER_NAME@ + "'"@,
            RuntimeError::GroupNonexistent => "unable to find group '"@ + GROUP_NAME@ + "'"@,
            RuntimeError::RunAsWrongUser => "service must be run as user '"@ + USER_NAME@
                + "' (real, effective, saved and file system)"@,
            RuntimeError::RunAsWrongGroup => "service must be run as user '"@ + GROUP_NAME@
                + "' (real, effective, saved and file system)"@,
            RuntimeError::RunWithRootGroup =>
                "service must not be run with 'root' as a supplementary group"@,
            RuntimeError::RunWithCapabilities =>
                "service must not be run with any permitted or bounding capabilities"@,
            RuntimeError::MayObtainNewPrivileges =>
                "service must be run with the 'no new privs' attribute"@,
            RuntimeError::SecureBitsNotSet =>
                "service must be run with all secure bits and all locks set except for 'keep_caps'"@,
            RuntimeError::WorkingDirPathInvalidString =>
                "working directory path is not a valid UTF8-string"@,
            RuntimeError::WorkingDirNonexistent { working_dir } => "working directory (\""@
                + working_dir@ + "\") does not exist"@,
            RuntimeError::WorkingDirNotADirectory { working_dir } => "working directory (\""@
                + working_dir@ + "\") is not a directory"@,
            RuntimeError::WorkingDirOwnedByWrongUser { working_dir, owner } =>
                "working directory (\""@ + working_dir@
                + "\") is owned by the wrong user (required owner = "@ + USER_NAME@
                + ", actual owner = "@ + owner@ + ")"@,
            RuntimeError::WorkingDirOwnedByWrongGroup { working_dir, owner } =>
                "working directory (\""@ + working_dir@
                + "\") is owned by the wrong group (required owner = "@ + GROUP_NAME@
                + ", actual owner = "@ + owner@ + ")"@,
            RuntimeError::WorkingDirWrongPermissions { working_dir, permissions } =>
                "working directory (\""@ + working_dir@
                + "\") has the wrong permissions (required permissions = "@ + permissions@ + ")"@,
            RuntimeError::WorkingDirSetUidBitSet { working_dir } => "working directory (\""@
                + working_dir@ + "\") has the set-uid bit set"@,
            RuntimeError::WorkingDirSetGidBitSet { working_dir } => "working directory (\""@
                + working_dir@ + "\") has the set-gid bit set"@,
            RuntimeError::WorkingDirStickyBitSet { working_dir } => "working directory (\""@
                + working_dir@ + "\") has the sticky bit set"@,
            RuntimeError::ServiceAlreadyRunning =>
                "service is either already running or another process impersonates it"@,
            RuntimeError::WelcomeSocketFailed => "welcome socket broke down unexpectedly"@,
            RuntimeError::GetPageSizeFailed => "could not determine the system's page size"@,
            RuntimeError::ResourceNameAlreadyInUse { resource_name } =>
                "a resource with the same name (\""@ + resource_name@ + "\") already exists"@,
            RuntimeError::ResourceAlignmentLargerThanPage { page_size, alignment } =>
                "tried to move a resource into share memory whose alignment is larger than the page size (page size = "@
                + crate::text::decimal(page_size as nat) + ", alignment = "@
                + crate::text::decimal(alignment as nat) + ")"@,
            RuntimeError::ResourceTooLargeForPage { page_size, size } =>
                "tried to move a resource into shared memory which is larger than a whole page (page size = "@
                + crate::text::decimal(page_size as nat) + ", resource size = "@
                + crate::text::decimal(size as nat) + ")"@,
            RuntimeError::ResourceTypeMismatch { requested_type, resource_type } =>
                "tried to access a resource of the wrong type (requested type = "@ + requested_type@
                + ", resource_type = "@ + resource_type@ + ")"@,
        }
    }

    /// Writes the error for the log.
    pub fn message(&self) -> (r: String)
        ensures
            r@ == self.text(),
    {
        match self {
            RuntimeError::UserNonexistent => concat3("unable to find user '", USER_NAME, "'"),
            RuntimeError::GroupNonexistent => concat3("unable to find group '", GROUP_NAME, "'"),
            RuntimeError::RunAsWrongUser => concat3(
                "service must be run as user '",
                USER_NAME,
                "' (real, effective, saved and file system)",
            ),
            RuntimeError::RunAsWrongGroup => concat3(
                "service must be run as user '",
                GROUP_NAME,
                "' (real, effective, saved and file system)",
            ),
            RuntimeError::RunWithRootGroup =>
                "service must not be run with 'root' as a supplementary group".to_string(),
            RuntimeError::RunWithCapabilities =>
                "service must not be run with any permitted or bounding capabilities".to_string(),
            RuntimeError::MayObtainNewPrivileges =>
                "service must be run with the 'no new privs' attribute".to_string(),
            RuntimeError::SecureBitsNotSet =>
                "service must be run with all secure bits and all locks set except for 'keep_caps'".to_string(),
            RuntimeError::WorkingDirPathInvalidString =>
                "working directory path is not a valid UTF8-string".to_string(),
            RuntimeError::WorkingDirNonexistent { working_dir } => concat3(
                "working directory (\"",
                working_dir.as_str(),
                "\") does not exist",
            ),
            RuntimeError::WorkingDirNotADirectory { working_dir } => concat3(
                "working directory (\"",
                working_dir.as_str(),
                "\") is not a directory",
            ),
            RuntimeError::WorkingDirOwnedByWrongUser { working_dir, owner } => {
                let head = concat5(
                    "working directory (\"",
                    working_dir.as_str(),
                    "\") is owned by the wrong user (required owner = ",
                    USER_NAME,
                    ", actual owner = ",
                );
                concat3(head.as_str(), owner.as_str(), ")")
            },
            RuntimeError::WorkingDirOwnedByWrongGroup { working_dir, owner } => {
                let head = concat5(
                    "working directory (\"",
                    working_dir.as_str(),
                    "\") is owned by the wrong group (required owner = ",
                    GROUP_NAME,
                    ", actual owner = ",
                );
                concat3(head.as_str(), owner.as_str(), ")")
            },
            RuntimeError::WorkingDirWrongPermissions { working_dir, permissions } => concat5(
                "working directory (\"",
                working_dir.as_str(),
                "\") has the wrong permissions (required permissions = ",
                *permissions,
                ")",
            ),
            RuntimeError::WorkingDirSetUidBitSet { working_dir } => concat3(
                "working directory (\"",
                working_dir.as_str(),
                "\") has the set-uid bit set",
            ),
            RuntimeError::WorkingDirSetGidBitSet { working_dir } => concat3(
                "working directory (\"",
                working_dir.as_str(),
                "\") has the set-gid bit set",
            ),
            RuntimeError::WorkingDirStickyBitSet { working_dir } => concat3(
                "working directory (\"",
                working_dir.as_str(),
                "\") has the sticky bit set",
            ),
            RuntimeError::ServiceAlreadyRunning =>
                "service is either already running or another process impersonates it".to_string(),
            RuntimeError::WelcomeSocketFailed =>
                "welcome socket broke down unexpectedly".to_string(),
            RuntimeError::GetPageSizeFailed =>
                "could not determine the system's page size".to_string(),
            RuntimeError::ResourceNameAlreadyInUse { resource_name } => concat3(
                "a resource with the same name (\"",
                resource_name.as_str(),
                "\") already exists",
            ),
            RuntimeError::ResourceAlignmentLargerThanPage { page_size, alignment } => concat5(
                "tried to move a resource into share memory whose alignment is larger than the page size (page size = ",
                decimal_text(*page_size).as_str(),
                ", alignment = ",
                decimal_text(*alignment).as_str(),
                ")",
            ),
            RuntimeError::ResourceTooLargeForPage { page_size, size } => concat5(
                "tried to move a resource into shared memory which is larger than a whole page (page size = ",
                decimal_text(*page_size).as_str(),
                ", resource size = ",
                decimal_text(*size).as_str(),
                ")",
            ),
            RuntimeError::ResourceTypeMismatch { requested_type, resource_type } => concat5(
                "tried to access a resource of the wrong type (requested type = ",
                *requested_type,
                ", resource_type = ",
                *resource_type,
                ")",
            ),
        }
    }
}

} // verus!
