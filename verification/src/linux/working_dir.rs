//! The directory that the service works in.

use vstd::prelude::*;

use crate::constants::{GROUP_NAME, USER_NAME};
use crate::linux::privileges::{required_group, required_user};
use crate::linux::runtime_error::RuntimeError;
use crate::linux::service_error::{Failure, ServiceError};
use crate::linux::system::{
    file_status, group_answer, group_by_id, group_by_name, mode_contains, owner_answer,
    owner_group_answer, status_answer, user_answer, user_by_id, user_by_name,
};

verus! {

/// Owner and mode of a file.
#[derive(Debug, Copy, Clone, PartialEq, Eq)]
pub struct FileStatus {
    pub uid: u32,
    pub gid: u32,
    pub mode: u32,
}

/// The entry of a user in the system's database.
#[derive(Debug, PartialEq, Eq)]
pub struct Account {
    pub id: u32,
    pub name: String,
}

/// Read, write and search for the owner, read and search for everybody else.
pub const REQUIRED_MODE: u32 = 0o755;

pub const GROUP_WRITE: u32 = 0o020;

pub const OTHERS_WRITE: u32 = 0o002;

pub const SET_UID: u32 = 0o4000;

pub const SET_GID: u32 = 0o2000;

pub const STICKY: u32 = 0o1000;

/// What is wrong with a working directory, if anything.
pub enum DirFinding<E> {
    Fine,
    PathInvalid,
    Nonexistent,
    NotADirectory,
    NoUser,
    NoGroup,
    OwnerUnknown,
    WrongUser(Seq<char>),
    WrongGroup(Seq<char>),
    WrongPermissions,
    SetUidBit,
    SetGidBit,
    StickyBit,
    Os(i32),
    Outside(E),
}

/// Whether `e` tells that the directory `dir` has the fault `finding`.
pub open spec fn tells<E>(e: RuntimeError, finding: DirFinding<E>, dir: Seq<char>) -> bool {
    match finding {
        DirFinding::PathInvalid => e is WorkingDirPathInvalidString,
        DirFinding::Nonexistent => e matches RuntimeError::WorkingDirNonexistent { working_dir }
            && working_dir@ == dir,
        DirFinding::NotADirectory => e matches RuntimeError::WorkingDirNotADirectory { working_dir }
            && working_dir@ == dir,
        DirFinding::NoUser => e is UserNonexistent,
        DirFinding::NoGroup => e is GroupNonexistent,
        DirFinding::WrongUser(name) => e matches RuntimeError::WorkingDirOwnedByWrongUser {
            working_dir,
            owner,
        } && working_dir@ == dir && owner@ == name,
        DirFinding::WrongGroup(name) => e matches RuntimeError::WorkingDirOwnedByWrongGroup {
            working_dir,
            owner,
        } && working_dir@ == dir && owner@ == name,
        DirFinding::WrongPermissions => e matches RuntimeError::WorkingDirWrongPermissions {
            working_dir,
            permissions,
        } && working_dir@ == dir && permissions == "rwxr-xr-x",
        DirFinding::SetUidBit => e matches RuntimeError::WorkingDirSetUidBitSet { working_dir }
            && working_dir@ == dir,
        DirFinding::SetGidBit => e matches RuntimeError::WorkingDirSetGidBitSet { working_dir }
            && working_dir@ == dir,
        DirFinding::StickyBit => e matches RuntimeError::WorkingDirStickyBitSet { working_dir }
            && working_dir@ == dir,
        _ => false,
    }
}

/// Whether `r` is the report of `finding` about the directory `dir`.
pub open spec fn reports<E>(
    r: Result<(), Failure<E>>,
    finding: DirFinding<E>,
    dir: Seq<char>,
) -> bool {
    match finding {
        DirFinding::Fine => r is Ok,
        DirFinding::Os(errno) => r == Err::<(), Failure<E>>(
            Failure::Service(ServiceError::Os(errno)),
        ),
        DirFinding::OwnerUnknown => r == Err::<(), Failure<E>>(
            Failure::Service(ServiceError::OwnerUnknown),
        ),
        DirFinding::Outside(e) => r == Err::<(), Failure<E>>(Failure::Outside(e)),
        _ => r matches Err(Failure::Service(ServiceError::Runtime(e))) && tells(e, finding, dir),
    }
}

/// What the mode of the directory gives rise to: the permissions come first, then the special bits.
pub open spec fn mode_finding<E>(mode: u32) -> DirFinding<E> {
    if mode & REQUIRED_MODE != REQUIRED_MODE || mode & GROUP_WRITE == GROUP_WRITE || mode
        & OTHERS_WRITE == OTHERS_WRITE {
        DirFinding::WrongPermissions
    } else if mode & SET_UID == SET_UID {
        DirFinding::SetUidBit
    } else if mode & SET_GID == SET_GID {
        DirFinding::SetGidBit
    } else if mode & STICKY == STICKY {
        DirFinding::StickyBit
    } else {
        DirFinding::Fine
    }
}

/// What the owner of the directory gives rise to. Both reports name the user that owns it.
pub open spec fn owner_finding<E>(
    uid: u32,
    gid: u32,
    owner_uid: u32,
    owner_name: Seq<char>,
    owner_gid: u32,
) -> DirFinding<E> {
    if owner_uid != uid {
        DirFinding::WrongUser(owner_name)
    } else if owner_gid != gid {
        DirFinding::WrongGroup(owner_name)
    } else {
        DirFinding::Fine
    }
}

/// Checks the mode of the working directory.
pub fn check_mode(working_dir: &str, mode: u32) -> (r: Result<(), RuntimeError>)
    ensures
        match r {
            Ok(_) => mode_finding::<()>(mode) is Fine,
            Err(e) => tells(e, mode_finding::<()>(mode), working_dir@),
        },
{
    if !(mode_contains(mode, REQUIRED_MODE) && !mode_contains(mode, GROUP_WRITE) && !mode_contains(
        mode,
        OTHERS_WRITE,
    )) {
        return Err(
            RuntimeError::WorkingDirWrongPermissions {
                working_dir: working_dir.to_string(),
                permissions: "rwxr-xr-x",
            },
        );
    }
    if mode_contains(mode, SET_UID) {
        return Err(
            RuntimeError::WorkingDirSetUidBitSet { working_dir: working_dir.to_string() },
        );
    }
    if mode_contains(mode, SET_GID) {
        return Err(
            RuntimeError::WorkingDirSetGidBitSet { working_dir: working_dir.to_string() },
        );
    }
    if mode_contains(mode, STICKY) {
        return Err(
            RuntimeError::WorkingDirStickyBitSet { working_dir: working_dir.to_string() },
        );
    }
    Ok(())
}

/// Checks the owner of the working directory against the user and the group of the service.
pub fn check_owner(
    working_dir: &str,
    uid: u32,
    gid: u32,
    owner_uid: u32,
    owner_name: String,
    owner_gid: u32,
) -> (r: Result<(), RuntimeError>)
    ensures
        match r {
            Ok(_) => owner_finding::<()>(uid, gid, owner_uid, owner_name@, owner_gid) is Fine,
            Err(e) => tells(
                e,
                owner_finding::<()>(uid, gid, owner_uid, owner_name@, owner_gid),
                working_dir@,
            ),
        },
{
    if owner_uid != uid {
        return Err(
            RuntimeError::WorkingDirOwnedByWrongUser {
                working_dir: working_dir.to_string(),
                owner: owner_name,
            },
        );
    }
    if owner_gid != gid {
        return Err(
            RuntimeError::WorkingDirOwnedByWrongGroup {
                working_dir: working_dir.to_string(),
                owner: owner_name,
            },
        );
    }
    Ok(())
}

/// The mode passes exactly where its permission bits read `rwxr-xr-x` and nothing else, whatever the
/// type of the file is.
pub proof fn law_mode(mode: u32)
    ensures
        mode_finding::<()>(mode) is Fine <==> mode & 0o7777 == 0o755,
{
    assert((mode & 0o755 == 0o755 && mode & 0o020 != 0o020 && mode & 0o002 != 0o002 && mode & 0o4000
        != 0o4000 && mode & 0o2000 != 0o2000 && mode & 0o1000 != 0o1000) <==> mode & 0o7777
        == 0o755) by (bit_vector);
}

/// Everything that the system says about the working directory and its owner.
pub struct DirFacts<E> {
    pub exists: Result<bool, E>,
    pub is_dir: Result<bool, E>,
    pub status: Result<FileStatus, i32>,
    pub user: Result<Option<u32>, i32>,
    pub group: Result<Option<u32>, i32>,
    pub owner_user: Result<Option<Account>, i32>,
    pub owner_group: Result<Option<u32>, i32>,
}

impl<E> DirFacts<E> {
    /// What the directory itself gives rise to.
    pub open spec fn dir_finding(self) -> DirFinding<E> {
        match self.exists {
            Err(e) => DirFinding::Outside(e),
            Ok(exists) => if !exists {
                DirFinding::Nonexistent
            } else {
                match self.is_dir {
                    Err(e) => DirFinding::Outside(e),
                    Ok(is_dir) => if !is_dir {
                        DirFinding::NotADirectory
                    } else {
                        match self.status {
                            Err(errno) => DirFinding::Os(errno),
                            Ok(_) => DirFinding::Fine,
                        }
                    },
                }
            },
        }
    }

    /// What the lookups give rise to that come before the owner is compared.
    pub open spec fn lookup_finding(self) -> DirFinding<E> {
        match (self.user, self.group, self.owner_user, self.owner_group) {
            (Err(errno), _, _, _) => DirFinding::Os(errno),
            (Ok(None), _, _, _) => DirFinding::NoUser,
            (_, Err(errno), _, _) => DirFinding::Os(errno),
            (_, Ok(None), _, _) => DirFinding::NoGroup,
            (_, _, Err(errno), _) => DirFinding::Os(errno),
            (_, _, Ok(None), _) => DirFinding::OwnerUnknown,
            (_, _, _, Err(errno)) => DirFinding::Os(errno),
            (_, _, _, Ok(None)) => DirFinding::OwnerUnknown,
            _ => DirFinding::Fine,
        }
    }

    /// What the comparison of the owners gives rise to.
    pub open spec fn owner_finding(self) -> DirFinding<E> {
        owner_finding(
            self.user->Ok_0->0,
            self.group->Ok_0->0,
            (self.owner_user->Ok_0->0).id,
            (self.owner_user->Ok_0->0).name@,
            self.owner_group->Ok_0->0,
        )
    }

    /// The first thing that is wrong. In debug mode nobody asks who owns the directory.
    pub open spec fn finding(self, debug_mode: bool) -> DirFinding<E> {
        if !(self.dir_finding() is Fine) || debug_mode {
            self.dir_finding()
        } else if !(self.lookup_finding() is Fine) {
            self.lookup_finding()
        } else if !(self.owner_finding() is Fine) {
            self.owner_finding()
        } else {
            mode_finding(self.status->Ok_0.mode)
        }
    }
}

impl<E> DirFacts<E> {
    /// Whether the lookups have been made, up to the first that decides: the service's own user and
    /// group, and then the owners that the status of the directory names.
    pub open spec fn owners_asked(self) -> bool {
        &&& user_answer(USER_NAME, self.user)
        &&& self.user matches Ok(Some(_)) ==> {
            &&& group_answer(GROUP_NAME, self.group)
            &&& self.group matches Ok(Some(_)) ==> {
                &&& owner_answer(self.status->Ok_0.uid, self.owner_user)
                &&& self.owner_user matches Ok(Some(_)) ==> owner_group_answer(
                    self.status->Ok_0.gid,
                    self.owner_group,
                )
            }
        }
    }
}

/// The directory passes exactly if it is there and is a directory, belongs to the user and the group
/// of the service, and has the permissions `rwxr-xr-x` and no others. In debug mode it only has to be
/// a directory whose status can be read.
pub proof fn law_working_dir<E>(facts: DirFacts<E>)
    ensures
        facts.finding(true) is Fine <==> facts.exists == Ok::<bool, E>(true) && facts.is_dir
            == Ok::<bool, E>(true) && facts.status is Ok,
        facts.finding(false) is Fine <==> {
            &&& facts.finding(true) is Fine
            &&& facts.user matches Ok(Some(uid)) && facts.owner_user matches Ok(Some(owner))
                && owner.id == uid
            &&& facts.group matches Ok(Some(gid)) && facts.owner_group matches Ok(Some(owner))
                && owner == gid
            &&& facts.status->Ok_0.mode & 0o7777 == 0o755
        },
{
    law_mode(facts.status->Ok_0.mode);
    assert(mode_finding::<E>(facts.status->Ok_0.mode) is Fine <==> mode_finding::<()>(
        facts.status->Ok_0.mode,
    ) is Fine);
}

/// Looks up who owns the working directory and checks that against the service's own user and
/// group.
fn check_ownership<E>(working_dir: &str, status: FileStatus, facts: Ghost<DirFacts<E>>) -> (r: (
    Result<(), Failure<E>>,
    Ghost<DirFacts<E>>,
))
    requires
        facts@.status == Ok::<FileStatus, i32>(status),
        facts@.dir_finding() is Fine,
    ensures
        r.1@.exists == facts@.exists,
        r.1@.is_dir == facts@.is_dir,
        r.1@.status == facts@.status,
        r.1@.owners_asked(),
        reports(r.0, r.1@.finding(false), working_dir@),
{
    let ghost mut facts: DirFacts<E> = facts@;
    let user = user_by_name(USER_NAME);
    proof {
        facts.user = user;
    }
    let uid = match required_user(user) {
        Ok(uid) => uid,
        Err(e) => return (Err(Failure::Service(e)), Ghost(facts)),
    };
    let group = group_by_name(GROUP_NAME);
    proof {
        facts.group = group;
    }
    let gid = match required_group(group) {
        Ok(gid) => gid,
        Err(e) => return (Err(Failure::Service(e)), Ghost(facts)),
    };
    let owner_user = user_by_id(status.uid);
    proof {
        facts.owner_user = owner_user;
    }
    let owner = match owner_user {
        Ok(Some(owner)) => owner,
        Ok(None) => return (Err(Failure::Service(ServiceError::OwnerUnknown)), Ghost(facts)),
        Err(errno) => return (Err(Failure::Service(ServiceError::Os(errno))), Ghost(facts)),
    };
    let owner_group = group_by_id(status.gid);
    proof {
        facts.owner_group = owner_group;
    }
    let owner_gid = match owner_group {
        Ok(Some(owner)) => owner,
        Ok(None) => return (Err(Failure::Service(ServiceError::OwnerUnknown)), Ghost(facts)),
        Err(errno) => return (Err(Failure::Service(ServiceError::Os(errno))), Ghost(facts)),
    };
    match check_owner(working_dir, uid, gid, owner.id, owner.name, owner_gid) {
        Ok(_) => {},
        Err(e) => return (Err(Failure::Service(ServiceError::Runtime(e))), Ghost(facts)),
    }
    match check_mode(working_dir, status.mode) {
        Ok(_) => (Ok(()), Ghost(facts)),
        Err(e) => (Err(Failure::Service(ServiceError::Runtime(e))), Ghost(facts)),
    }
}

/// Whether `r` is how the check of the working directory can end.
pub open spec fn working_dir_checked<
    E,
    X: FnOnce(&str) -> Result<bool, E>,
    D: FnOnce(&str) -> Result<bool, E>,
>(
    working_dir: Option<&str>,
    debug_mode: bool,
    is_there: X,
    is_dir: D,
    r: Result<(), Failure<E>>,
) -> bool {
    match working_dir {
        None => reports(r, DirFinding::PathInvalid, Seq::empty()),
        Some(dir) => exists|facts: DirFacts<E>|
            {
                &&& reports(r, #[trigger] facts.finding(debug_mode), dir@)
                &&& call_ensures(is_there, (dir,), facts.exists)
                &&& facts.exists == Ok::<bool, E>(true) ==> {
                    &&& call_ensures(is_dir, (dir,), facts.is_dir)
                    &&& facts.is_dir == Ok::<bool, E>(true) ==> {
                        &&& status_answer(dir, facts.status)
                        &&& facts.status is Ok && !debug_mode ==> facts.owners_asked()
                    }
                }
            },
    }
}

/// Makes sure that the working directory is there, that it belongs to the service, and that nobody
/// else can write to it. `working_dir` is missing where the path is not text.
///
/// `is_there` and `is_dir` look at the path that they get; `is_dir` can be called only once
/// `is_there` has found something.
pub fn setup_working_dir<E, X, D>(
    working_dir: Option<&str>,
    debug_mode: bool,
    is_there: X,
    is_dir: D,
) -> (r: Result<(), Failure<E>>) where
    X: FnOnce(&str) -> Result<bool, E>,
    D: FnOnce(&str) -> Result<bool, E>,

    requires
        working_dir matches Some(dir) ==> {
            &&& call_requires(is_there, (dir,))
            &&& call_ensures(is_there, (dir,), Ok::<bool, E>(true)) ==> call_requires(
                is_dir,
                (dir,),
            )
        },
    ensures
        working_dir_checked(working_dir, debug_mode, is_there, is_dir, r),
{
    let dir = match working_dir {
        Some(dir) => dir,
        None => return Err(
            Failure::Service(ServiceError::Runtime(RuntimeError::WorkingDirPathInvalidString)),
        ),
    };
    let ghost mut facts: DirFacts<E> = arbitrary();
    let there = is_there(dir);
    proof {
        facts.exists = there;
    }
    match there {
        Ok(there) => if !there {
            let e = RuntimeError::WorkingDirNonexistent { working_dir: dir.to_string() };
            assert(facts.finding(debug_mode) is Nonexistent);
            return Err(Failure::Service(ServiceError::Runtime(e)));
        },
        Err(e) => {
            assert(facts.finding(debug_mode) == DirFinding::Outside(e));
            return Err(Failure::Outside(e));
        },
    }
    let a_dir = is_dir(dir);
    proof {
        facts.is_dir = a_dir;
    }
    match a_dir {
        Ok(a_dir) => if !a_dir {
            let e = RuntimeError::WorkingDirNotADirectory { working_dir: dir.to_string() };
            assert(facts.finding(debug_mode) is NotADirectory);
            return Err(Failure::Service(ServiceError::Runtime(e)));
        },
        Err(e) => {
            assert(facts.finding(debug_mode) == DirFinding::Outside(e));
            return Err(Failure::Outside(e));
        },
    }
    let status = file_status(dir);
    proof {
        facts.status = status;
    }
    let status = match status {
        Ok(status) => status,
        Err(errno) => {
            assert(facts.finding(debug_mode) == DirFinding::<E>::Os(errno));
            return Err(Failure::Service(ServiceError::Os(errno)));
        },
    };
    if debug_mode {
        assert(facts.finding(debug_mode) is Fine);
        return Ok(());
    }
    let (r, Ghost(facts)) = check_ownership(dir, status, Ghost(facts));
    assert(reports(r, facts.finding(debug_mode), dir@));
    r
}

} // verus!
