//! What the check of the working directory finds, in terms of what the system says.

use vstd::prelude::*;

use crate::constants::{GROUP_NAME, USER_NAME};
use crate::linux::runtime_error::RuntimeError;
use crate::linux::service_error::{Failure, ServiceError};
use crate::linux::system::{
    group_answer, owner_answer, owner_group_answer, status_answer, user_answer,
};
use crate::linux::working_dir::{
    check_mode, check_owner, reports, setup_working_dir, working_dir_checked, Account,
    DirFacts, FileStatus,
};

verus! {

/// Whether the user that the status of a file names is, by the system's database, the user of the
/// service.
pub open spec fn is_owned_by_the_user(status: FileStatus) -> bool {
    exists|uid: u32, owner: Account| #[trigger]
        user_answer(USER_NAME, Ok(Some(uid))) && #[trigger] owner_answer(
            status.uid,
            Ok(Some(owner)),
        ) && owner.id == uid
}

/// Whether the group that the status of a file names is, by the system's database, the group of the
/// service.
pub open spec fn is_owned_by_the_group(status: FileStatus) -> bool {
    exists|gid: u32| #[trigger]
        group_answer(GROUP_NAME, Ok(Some(gid))) && owner_group_answer(status.gid, Ok(Some(gid)))
}

/// Whether the system knows the user of the service.
pub open spec fn the_user_exists() -> bool {
    exists|uid: u32| #[trigger] user_answer(USER_NAME, Ok(Some(uid)))
}

/// Whether the system knows the group of the service.
pub open spec fn the_group_exists() -> bool {
    exists|gid: u32| #[trigger] group_answer(GROUP_NAME, Ok(Some(gid)))
}

/// The mode passes exactly where its permission bits read `rwxr-xr-x` and nothing else. Otherwise the
/// permissions of user, group and others are complained of first, and then the special bits, in the
/// order of set-uid, set-gid and sticky, each with the directory that it is about.
pub proof fn law_modes_are_told_apart(
    working_dir: &str,
    mode: u32,
    r: Result<(), RuntimeError>,
)
    requires
        call_ensures(check_mode, (working_dir, mode), r),
    ensures
        r is Ok <==> mode & 0o7777 == 0o755,
        match r {
            Ok(_) => true,
            Err(RuntimeError::WorkingDirWrongPermissions { working_dir: dir, permissions }) => dir@
                == working_dir@ && permissions@ == "rwxr-xr-x"@ && mode & 0o777 != 0o755,
            Err(RuntimeError::WorkingDirSetUidBitSet { working_dir: dir }) => dir@ == working_dir@
                && mode & 0o777 == 0o755 && mode & 0o4000 != 0,
            Err(RuntimeError::WorkingDirSetGidBitSet { working_dir: dir }) => dir@ == working_dir@
                && mode & 0o777 == 0o755 && mode & 0o4000 == 0 && mode & 0o2000 != 0,
            Err(RuntimeError::WorkingDirStickyBitSet { working_dir: dir }) => dir@ == working_dir@
                && mode & 0o777 == 0o755 && mode & 0o6000 == 0 && mode & 0o1000 != 0,
            Err(_) => false,
        },
{
    lemma_modes(mode);
}

proof fn lemma_modes(mode: u32)
    ensures
        mode & 0o7777 == 0o755 <==> mode & 0o777 == 0o755 && mode & 0o4000 == 0 && mode & 0o2000
            == 0 && mode & 0o1000 == 0,
        mode & 0o777 == 0o755 <==> mode & 0o755 == 0o755 && mode & 0o020 != 0o020 && mode & 0o002
            != 0o002,
        mode & 0o4000 == 0 <==> mode & 0o4000 != 0o4000,
        mode & 0o2000 == 0 <==> mode & 0o2000 != 0o2000,
        mode & 0o1000 == 0 <==> mode & 0o1000 != 0o1000,
        mode & 0o6000 == 0 <==> mode & 0o4000 == 0 && mode & 0o2000 == 0,
{
    assert(mode & 0o7777 == 0o755 <==> mode & 0o777 == 0o755 && mode & 0o4000 == 0 && mode & 0o2000
        == 0 && mode & 0o1000 == 0) by (bit_vector);
    assert(mode & 0o777 == 0o755 <==> mode & 0o755 == 0o755 && mode & 0o020 != 0o020 && mode & 0o002
        != 0o002) by (bit_vector);
    assert(mode & 0o4000 == 0 <==> mode & 0o4000 != 0o4000) by (bit_vector);
    assert(mode & 0o2000 == 0 <==> mode & 0o2000 != 0o2000) by (bit_vector);
    assert(mode & 0o1000 == 0 <==> mode & 0o1000 != 0o1000) by (bit_vector);
    assert(mode & 0o6000 == 0 <==> mode & 0o4000 == 0 && mode & 0o2000 == 0) by (bit_vector);
}

/// The owner passes exactly where both user and group are those of the service. The user is complained
/// of first. Either report names the directory and the user that owns it.
pub proof fn law_owners_are_told_apart(
    working_dir: &str,
    uid: u32,
    gid: u32,
    owner_uid: u32,
    owner_name: String,
    owner_gid: u32,
    r: Result<(), RuntimeError>,
)
    requires
        call_ensures(
            check_owner,
            (working_dir, uid, gid, owner_uid, owner_name, owner_gid),
            r,
        ),
    ensures
        r is Ok <==> owner_uid == uid && owner_gid == gid,
        match r {
            Ok(_) => true,
            Err(RuntimeError::WorkingDirOwnedByWrongUser { working_dir: dir, owner }) => dir@
                == working_dir@ && owner@ == owner_name@ && owner_uid != uid,
            Err(RuntimeError::WorkingDirOwnedByWrongGroup { working_dir: dir, owner }) => dir@
                == working_dir@ && owner@ == owner_name@ && owner_uid == uid && owner_gid != gid,
            Err(_) => false,
        },
{
}

/// What the system has said when the check of a directory has come to its end.
proof fn lemma_checked<E, X, D>(
    dir: &str,
    debug_mode: bool,
    is_there: X,
    is_dir: D,
    r: Result<(), Failure<E>>,
) -> (facts: DirFacts<E>) where
    X: FnOnce(&str) -> Result<bool, E>,
    D: FnOnce(&str) -> Result<bool, E>,

    requires
        working_dir_checked(Some(dir), debug_mode, is_there, is_dir, r),
    ensures
        reports(r, facts.finding(debug_mode), dir@),
        call_ensures(is_there, (dir,), facts.exists),
        facts.exists == Ok::<bool, E>(true) ==> {
            &&& call_ensures(is_dir, (dir,), facts.is_dir)
            &&& facts.is_dir == Ok::<bool, E>(true) ==> {
                &&& status_answer(dir, facts.status)
                &&& facts.status is Ok && !debug_mode ==> facts.owners_asked()
            }
        },
        facts.status matches Ok(status) ==> facts.status == Ok::<FileStatus, i32>(status),
        facts.user matches Ok(Some(uid)) ==> facts.user == Ok::<Option<u32>, i32>(Some(uid)),
        facts.group matches Ok(Some(gid)) ==> facts.group == Ok::<Option<u32>, i32>(Some(gid)),
        facts.owner_user matches Ok(Some(owner)) ==> facts.owner_user == Ok::<
            Option<Account>,
            i32,
        >(Some(owner)),
        facts.owner_group matches Ok(Some(gid)) ==> facts.owner_group == Ok::<Option<u32>, i32>(
            Some(gid),
        ),
{
    choose|facts: DirFacts<E>|
        {
            &&& reports(r, #[trigger] facts.finding(debug_mode), dir@)
            &&& call_ensures(is_there, (dir,), facts.exists)
            &&& facts.exists == Ok::<bool, E>(true) ==> {
                &&& call_ensures(is_dir, (dir,), facts.is_dir)
                &&& facts.is_dir == Ok::<bool, E>(true) ==> {
                    &&& status_answer(dir, facts.status)
                    &&& facts.status is Ok && !debug_mode ==> facts.owners_asked()
                }
            }
        }
}

/// What the system has said of a directory that is accepted.
pub(crate) proof fn lemma_accepted<E, X, D>(
    dir: &str,
    debug_mode: bool,
    is_there: X,
    is_dir: D,
) where X: FnOnce(&str) -> Result<bool, E>, D: FnOnce(&str) -> Result<bool, E>
    requires
        working_dir_checked(
            Some(dir),
            debug_mode,
            is_there,
            is_dir,
            Ok::<(), Failure<E>>(()),
        ),
    ensures
        call_ensures(is_there, (dir,), Ok::<bool, E>(true)),
        call_ensures(is_dir, (dir,), Ok::<bool, E>(true)),
        exists|status: FileStatus| #[trigger]
            status_answer(dir, Ok(status)) && (!debug_mode ==> is_owned_by_the_user(status)
                && is_owned_by_the_group(status) && status.mode & 0o7777 == 0o755),
{
    let facts = lemma_checked::<E, X, D>(dir, debug_mode, is_there, is_dir, Ok(()));
    let status = facts.status->Ok_0;
    lemma_modes(status.mode);
    assert(status_answer(dir, Ok(status)));
    if !debug_mode {
        let uid = facts.user->Ok_0->0;
        let owner = facts.owner_user->Ok_0->0;
        assert(user_answer(USER_NAME, Ok(Some(uid))));
        assert(owner_answer(status.uid, Ok(Some(owner))));
        let gid = facts.group->Ok_0->0;
        assert(group_answer(GROUP_NAME, Ok(Some(gid))));
        assert(owner_group_answer(status.gid, Ok(Some(gid))));
    }
}

/// A directory that is accepted is there and is a directory. Outside debug mode, the user and the
/// group that its status names are those of the service, and its permissions are `rwxr-xr-x` and no
/// others.
pub proof fn law_accepted_directories_belong_to_the_service<E, X, D>(
    dir: &str,
    debug_mode: bool,
    is_there: X,
    is_dir: D,
) where X: FnOnce(&str) -> Result<bool, E>, D: FnOnce(&str) -> Result<bool, E>
    requires
        call_ensures(
            setup_working_dir::<E, X, D>,
            (Some(dir), debug_mode, is_there, is_dir),
            Ok::<(), Failure<E>>(()),
        ),
    ensures
        call_ensures(is_there, (dir,), Ok::<bool, E>(true)),
        call_ensures(is_dir, (dir,), Ok::<bool, E>(true)),
        exists|status: FileStatus| #[trigger]
            status_answer(dir, Ok(status)) && (!debug_mode ==> is_owned_by_the_user(status)
                && is_owned_by_the_group(status) && status.mode & 0o7777 == 0o755),
{
    assert(working_dir_checked(
        Some(dir),
        debug_mode,
        is_there,
        is_dir,
        Ok::<(), Failure<E>>(()),
    ));
    lemma_accepted::<E, X, D>(dir, debug_mode, is_there, is_dir);
}

/// A directory that is turned away has the fault that is reported, and everything that is looked at
/// before has been in order: first that it is there and is a directory, then who owns it, by the user
/// and the group that its status names, and then its mode. In debug mode nobody asks for more than a
/// directory whose status can be read.
pub proof fn law_directories_are_turned_away_for_a_reason<E, X, D>(
    dir: &str,
    debug_mode: bool,
    is_there: X,
    is_dir: D,
    failure: Failure<E>,
) where X: FnOnce(&str) -> Result<bool, E>, D: FnOnce(&str) -> Result<bool, E>
    requires
        call_ensures(
            setup_working_dir::<E, X, D>,
            (Some(dir), debug_mode, is_there, is_dir),
            Err::<(), Failure<E>>(failure),
        ),
    ensures
        match failure {
            Failure::Outside(e) => call_ensures(is_there, (dir,), Err::<bool, E>(e)) || (
            call_ensures(is_there, (dir,), Ok::<bool, E>(true)) && call_ensures(
                is_dir,
                (dir,),
                Err::<bool, E>(e),
            )),
            Failure::Service(
                ServiceError::Runtime(RuntimeError::WorkingDirNonexistent { working_dir }),
            ) => working_dir@ == dir@ && call_ensures(is_there, (dir,), Ok::<bool, E>(false)),
            Failure::Service(
                ServiceError::Runtime(RuntimeError::WorkingDirNotADirectory { working_dir }),
            ) => working_dir@ == dir@ && call_ensures(is_there, (dir,), Ok::<bool, E>(true))
                && call_ensures(is_dir, (dir,), Ok::<bool, E>(false)),
            Failure::Service(ServiceError::Os(errno)) => {
                &&& call_ensures(is_there, (dir,), Ok::<bool, E>(true))
                &&& call_ensures(is_dir, (dir,), Ok::<bool, E>(true))
                &&& status_answer(dir, Err(errno)) || (!debug_mode && exists|status: FileStatus|
                    #[trigger] status_answer(dir, Ok(status)) && {
                        ||| user_answer(USER_NAME, Err(errno))
                        ||| the_user_exists() && group_answer(GROUP_NAME, Err(errno))
                        ||| the_user_exists() && the_group_exists() && owner_answer(
                            status.uid,
                            Err(errno),
                        )
                        ||| the_user_exists() && the_group_exists() && owner_group_answer(
                            status.gid,
                            Err(errno),
                        ) && exists|account: Account| #[trigger]
                            owner_answer(status.uid, Ok(Some(account)))
                    })
            },
            Failure::Service(ServiceError::OwnerUnknown) => !debug_mode && exists|
                status: FileStatus,
            | #[trigger]
                status_answer(dir, Ok(status)) && the_user_exists() && the_group_exists() && (
                owner_answer(status.uid, Ok(None)) || (owner_group_answer(status.gid, Ok(None))
                    && exists|account: Account| #[trigger]
                    owner_answer(status.uid, Ok(Some(account))))),
            Failure::Service(ServiceError::Runtime(RuntimeError::UserNonexistent)) => !debug_mode
                && user_answer(USER_NAME, Ok(None)),
            Failure::Service(ServiceError::Runtime(RuntimeError::GroupNonexistent)) => !debug_mode
                && the_user_exists() && group_answer(GROUP_NAME, Ok(None)),
            Failure::Service(
                ServiceError::Runtime(
                    RuntimeError::WorkingDirOwnedByWrongUser { working_dir, owner },
                ),
            ) => !debug_mode && working_dir@ == dir@ && exists|
                status: FileStatus,
                uid: u32,
                account: Account,
            |
                {
                    &&& #[trigger] status_answer(dir, Ok(status))
                    &&& #[trigger] user_answer(USER_NAME, Ok(Some(uid)))
                    &&& #[trigger] owner_answer(status.uid, Ok(Some(account)))
                    &&& account.id != uid
                    &&& account.name@ == owner@
                    &&& the_group_exists()
                    &&& exists|owner_gid: u32| #[trigger]
                        owner_group_answer(status.gid, Ok(Some(owner_gid)))
                },
            Failure::Service(
                ServiceError::Runtime(
                    RuntimeError::WorkingDirOwnedByWrongGroup { working_dir, owner },
                ),
            ) => !debug_mode && working_dir@ == dir@ && exists|
                status: FileStatus,
                account: Account,
                gid: u32,
                owner_gid: u32,
            |
                {
                    &&& #[trigger] status_answer(dir, Ok(status))
                    &&& is_owned_by_the_user(status)
                    &&& #[trigger] owner_answer(status.uid, Ok(Some(account)))
                    &&& account.name@ == owner@
                    &&& #[trigger] group_answer(GROUP_NAME, Ok(Some(gid)))
                    &&& #[trigger] owner_group_answer(status.gid, Ok(Some(owner_gid)))
                    &&& owner_gid != gid
                },
            Failure::Service(
                ServiceError::Runtime(
                    RuntimeError::WorkingDirWrongPermissions { working_dir, permissions },
                ),
            ) => !debug_mode && working_dir@ == dir@ && permissions@ == "rwxr-xr-x"@ && exists|
                status: FileStatus,
            | #[trigger]
                status_answer(dir, Ok(status)) && is_owned_by_the_user(status)
                    && is_owned_by_the_group(status) && status.mode & 0o777 != 0o755,
            Failure::Service(
                ServiceError::Runtime(RuntimeError::WorkingDirSetUidBitSet { working_dir }),
            ) => !debug_mode && working_dir@ == dir@ && exists|status: FileStatus| #[trigger]
                status_answer(dir, Ok(status)) && is_owned_by_the_user(status)
                    && is_owned_by_the_group(status) && status.mode & 0o777 == 0o755 && status.mode
                    & 0o4000 != 0,
            Failure::Service(
                ServiceError::Runtime(RuntimeError::WorkingDirSetGidBitSet { working_dir }),
            ) => !debug_mode && working_dir@ == dir@ && exists|status: FileStatus| #[trigger]
                status_answer(dir, Ok(status)) && is_owned_by_the_user(status)
                    && is_owned_by_the_group(status) && status.mode & 0o777 == 0o755 && status.mode
                    & 0o4000 == 0 && status.mode & 0o2000 != 0,
            Failure::Service(
                ServiceError::Runtime(RuntimeError::WorkingDirStickyBitSet { working_dir }),
            ) => !debug_mode && working_dir@ == dir@ && exists|status: FileStatus| #[trigger]
                status_answer(dir, Ok(status)) && is_owned_by_the_user(status)
                    && is_owned_by_the_group(status) && status.mode & 0o777 == 0o755 && status.mode
                    & 0o6000 == 0 && status.mode & 0o1000 != 0,
            Failure::Service(_) => false,
        },
{
    let facts = lemma_checked::<E, X, D>(dir, debug_mode, is_there, is_dir, Err(failure));
    let status = facts.status->Ok_0;
    lemma_modes(status.mode);
    let uid = facts.user->Ok_0->0;
    let gid = facts.group->Ok_0->0;
    let owner = facts.owner_user->Ok_0->0;
    let owner_gid = facts.owner_group->Ok_0->0;
    if facts.dir_finding() is Fine {
        assert(status_answer(dir, Ok(status)));
        if !debug_mode {
            if facts.user matches Ok(Some(_)) {
                assert(user_answer(USER_NAME, Ok(Some(uid))));
                if facts.group matches Ok(Some(_)) {
                    assert(group_answer(GROUP_NAME, Ok(Some(gid))));
                    if facts.owner_user matches Ok(Some(_)) {
                        assert(owner_answer(status.uid, Ok(Some(owner))));
                        if facts.owner_group matches Ok(Some(_)) {
                            assert(owner_group_answer(status.gid, Ok(Some(owner_gid))));
                        }
                    }
                }
            }
        }
    }
}

/// A path that is no text is no path for a working directory.
pub proof fn law_paths_have_to_be_text<E, X, D>(
    debug_mode: bool,
    is_there: X,
    is_dir: D,
    r: Result<(), Failure<E>>,
) where X: FnOnce(&str) -> Result<bool, E>, D: FnOnce(&str) -> Result<bool, E>
    requires
        call_ensures(
            setup_working_dir::<E, X, D>,
            (None::<&str>, debug_mode, is_there, is_dir),
            r,
        ),
    ensures
        r == Err::<(), Failure<E>>(
            Failure::Service(ServiceError::Runtime(RuntimeError::WorkingDirPathInvalidString)),
        ),
{
}

} // verus!
