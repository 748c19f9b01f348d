//! Names that the service is known by.

use vstd::prelude::*;

verus! {

/// The user that the service has to run as.
pub const USER_NAME: &'static str = "garnd";

/// The group that the service has to run as.
pub const GROUP_NAME: &'static str = "garnd";

/// The name under which the pages of shared memory show up in `/proc`.
pub const SHM_FILE_NAME: &'static str = "shm";

/// The environment variable that overrides the working directory.
pub const WORKING_DIR_ENV_OPTION: &'static str = "GARND_WORKING_DIR";

} // verus!
