//! The privileges that the service insists on running without.

use caps::Capability;
use vstd::prelude::*;

use crate::constants::{GROUP_NAME, USER_NAME};
use crate::linux::runtime_error::RuntimeError;
use crate::linux::service_error::ServiceError;
use crate::linux::system::{
    all_capabilities, capabilities_answer, capability_answer, fs_group_answer, fs_user_answer,
    group_answer, group_by_name, group_ids, group_ids_answer, groups_answer, has_capability,
    no_new_privileges, no_new_privileges_answer, previous_fs_group, previous_fs_user,
    supplementary_groups, user_answer, user_by_name, user_ids, user_ids_answer,
};

verus! {

/// The real, effective and saved id of a process.
#[derive(Debug, Copy, Clone, PartialEq, Eq)]
pub struct Ids {
    pub real: u32,
    pub effective: u32,
    pub saved: u32,
}

impl Ids {
    /// Whether the process is `id` and nothing else.
    pub open spec fn are(self, id: u32) -> bool {
        self.real == id && self.effective == id && self.saved == id
    }
}

/// The sets of capabilities that have to be empty.
#[derive(Debug, Copy, Clone, PartialEq, Eq)]
pub enum CapabilitySet {
    Permitted,
    Bounding,
}

/// The warning in place of the checks in debug mode.
pub const UNCHECKED_WARNING: &'static str = "privilege checks are disabled in debug mode";

/// An id that no user and no group has.
pub const NO_ID: u32 = 0xffff_ffff;

// The secure bits of the kernel. Each one is followed by its lock.
pub const SECBIT_NOROOT: i32 = 1;

pub const SECBIT_NOROOT_LOCKED: i32 = 2;

pub const SECBIT_NO_SETUID_FIXUP: i32 = 4;

pub const SECBIT_NO_SETUID_FIXUP_LOCKED: i32 = 8;

pub const SECBIT_KEEP_CAPS: i32 = 16;

pub const SECBIT_KEEP_CAPS_LOCKED: i32 = 32;

pub const SECBIT_NO_CAP_AMBIENT_RAISE: i32 = 64;

pub const SECBIT_NO_CAP_AMBIENT_RAISE_LOCKED: i32 = 128;

/// The id that a lookup gives, or the error for an entry that is missing.
pub open spec fn required_id(
    lookup: Result<Option<u32>, i32>,
    missing: RuntimeError,
) -> Result<u32, ServiceError> {
    match lookup {
        Ok(Some(id)) => Ok(id),
        Ok(None) => Err(ServiceError::Runtime(missing)),
        Err(errno) => Err(ServiceError::Os(errno)),
    }
}

/// The id of the user that the service has to run as.
pub fn required_user(lookup: Result<Option<u32>, i32>) -> (r: Result<u32, ServiceError>)
    ensures
        r == required_id(lookup, RuntimeError::UserNonexistent),
{
    match lookup {
        Ok(Some(uid)) => Ok(uid),
        Ok(None) => Err(ServiceError::Runtime(RuntimeError::UserNonexistent)),
        Err(errno) => Err(ServiceError::Os(errno)),
    }
}

/// The id of the group that the service has to run as.
pub fn required_group(lookup: Result<Option<u32>, i32>) -> (r: Result<u32, ServiceError>)
    ensures
        r == required_id(lookup, RuntimeError::GroupNonexistent),
{
    match lookup {
        Ok(Some(gid)) => Ok(gid),
        Ok(None) => Err(ServiceError::Runtime(RuntimeError::GroupNonexistent)),
        Err(errno) => Err(ServiceError::Os(errno)),
    }
}

/// All ids have to be the required one.
pub open spec fn ids_verdict(
    id: u32,
    ids: Result<Ids, i32>,
    wrong: RuntimeError,
) -> Result<(), ServiceError> {
    match ids {
        Ok(ids) => if ids.are(id) {
            Ok(())
        } else {
            Err(ServiceError::Runtime(wrong))
        },
        Err(errno) => Err(ServiceError::Os(errno)),
    }
}

/// The id that file accesses are checked against has to be the required one.
pub open spec fn fs_id_verdict(id: u32, fs_id: u32, wrong: RuntimeError) -> Result<
    (),
    ServiceError,
> {
    if fs_id == id {
        Ok(())
    } else {
        Err(ServiceError::Runtime(wrong))
    }
}

/// Checks the user ids of the process.
pub fn check_user_ids(uid: u32, ids: Result<Ids, i32>) -> (r: Result<(), ServiceError>)
    ensures
        r == ids_verdict(uid, ids, RuntimeError::RunAsWrongUser),
{
    match ids {
        Ok(ids) => if ids.real != uid || ids.effective != uid || ids.saved != uid {
            Err(ServiceError::Runtime(RuntimeError::RunAsWrongUser))
        } else {
            Ok(())
        },
        Err(errno) => Err(ServiceError::Os(errno)),
    }
}

/// Checks the user id that file accesses are checked against.
pub fn check_fs_user(uid: u32, fs_uid: u32) -> (r: Result<(), ServiceError>)
    ensures
        r == fs_id_verdict(uid, fs_uid, RuntimeError::RunAsWrongUser),
{
    if fs_uid != uid {
        Err(ServiceError::Runtime(RuntimeError::RunAsWrongUser))
    } else {
        Ok(())
    }
}

/// Checks the group ids of the process.
pub fn check_group_ids(gid: u32, ids: Result<Ids, i32>) -> (r: Result<(), ServiceError>)
    ensures
        r == ids_verdict(gid, ids, RuntimeError::RunAsWrongGroup),
{
    match ids {
        Ok(ids) => if ids.real != gid || ids.effective != gid || ids.saved != gid {
            Err(ServiceError::Runtime(RuntimeError::RunAsWrongGroup))
        } else {
            Ok(())
        },
        Err(errno) => Err(ServiceError::Os(errno)),
    }
}

/// Checks the group id that file accesses are checked against.
pub fn check_fs_group(gid: u32, fs_gid: u32) -> (r: Result<(), ServiceError>)
    ensures
        r == fs_id_verdict(gid, fs_gid, RuntimeError::RunAsWrongGroup),
{
    if fs_gid != gid {
        Err(ServiceError::Runtime(RuntimeError::RunAsWrongGroup))
    } else {
        Ok(())
    }
}

/// The root group, which is group 0, must not be among the supplementary groups.
pub open spec fn groups_verdict(groups: Result<Seq<u32>, i32>) -> Result<(), ServiceError> {
    match groups {
        Ok(groups) => if groups.contains(0) {
            Err(ServiceError::Runtime(RuntimeError::RunWithRootGroup))
        } else {
            Ok(())
        },
        Err(errno) => Err(ServiceError::Os(errno)),
    }
}

/// The view of the supplementary groups, or the error in their place.
pub open spec fn groups_view(groups: Result<Vec<u32>, i32>) -> Result<Seq<u32>, i32> {
    match groups {
        Ok(groups) => Ok(groups@),
        Err(errno) => Err(errno),
    }
}

/// Checks the supplementary groups of the process.
#[verifier::loop_isolation(false)]
pub fn check_groups(groups: Result<Vec<u32>, i32>) -> (r: Result<(), ServiceError>)
    ensures
        r == groups_verdict(groups_view(groups)),
{
    match groups {
        Ok(groups) => {
            let mut i: usize = 0;
            while i < groups.len()
                invariant
                    i <= groups@.len(),
                    forall|k: int| 0 <= k < i ==> groups@[k] != 0,
                decreases groups@.len() - i,
            {
                if groups[i] == 0 {
                    assert(groups@.contains(groups@[i as int]));
                    return Err(ServiceError::Runtime(RuntimeError::RunWithRootGroup));
                }
                i += 1;
            }
            Ok(())
        },
        Err(errno) => Err(ServiceError::Os(errno)),
    }
}

/// No capability may be set.
pub open spec fn capability_verdict(answer: Result<bool, String>) -> Result<(), ServiceError> {
    match answer {
        Ok(has) => if has {
            Err(ServiceError::Runtime(RuntimeError::RunWithCapabilities))
        } else {
            Ok(())
        },
        Err(reason) => Err(ServiceError::Capabilities(reason)),
    }
}

/// The first capability that is not known to be missing decides.
pub open spec fn capabilities_verdict(answers: Seq<Result<bool, String>>) -> Result<
    (),
    ServiceError,
>
    decreases answers.len(),
{
    if answers.len() == 0 {
        Ok(())
    } else {
        match capabilities_verdict(answers.drop_last()) {
            Ok(_) => capability_verdict(answers.last()),
            Err(e) => Err(e),
        }
    }
}

/// Checks one capability in one set.
pub fn check_capability(answer: Result<bool, String>) -> (r: Result<(), ServiceError>)
    ensures
        r == capability_verdict(answer),
{
    match answer {
        Ok(has) => if has {
            Err(ServiceError::Runtime(RuntimeError::RunWithCapabilities))
        } else {
            Ok(())
        },
        Err(reason) => Err(ServiceError::Capabilities(reason)),
    }
}

/// Whether `answers` are those for the capabilities in `known`, for each one first in the permitted
/// and then in the bounding set, from the first one on.
pub open spec fn capabilities_asked(
    known: Vec<Capability>,
    answers: Seq<Result<bool, String>>,
) -> bool {
    &&& capabilities_answer(known)
    &&& known@.len() == 41
    &&& known@.no_duplicates()
    &&& answers.len() <= 2 * known@.len()
    &&& forall|i: int|
        #![trigger answers[i]]
        0 <= i < answers.len() ==> capability_answer(
            if i % 2 == 0 {
                CapabilitySet::Permitted
            } else {
                CapabilitySet::Bounding
            },
            known@[i / 2],
            answers[i],
        )
}

/// Checks every capability, first in the permitted and then in the bounding set, and stops at the
/// first that is set or that cannot be read.
fn check_capabilities() -> (r: (
    Result<(), ServiceError>,
    Ghost<Vec<Capability>>,
    Ghost<Seq<Result<bool, String>>>,
))
    ensures
        capabilities_asked(r.1@, r.2@),
        r.0 == capabilities_verdict(r.2@),
        r.0 is Ok ==> r.2@.len() == 2 * r.1@@.len(),
{
    let capabilities = all_capabilities();
    let ghost known = capabilities;
    let ghost mut answers: Seq<Result<bool, String>> = Seq::empty();
    assert(capabilities_answer(known));
    let mut i: usize = 0;
    while i < capabilities.len()
        invariant
            i <= capabilities@.len(),
            capabilities == known,
            answers.len() == 2 * i,
            capabilities_asked(known, answers),
            capabilities_verdict(answers) is Ok,
        decreases capabilities@.len() - i,
    {
        let permitted = has_capability(CapabilitySet::Permitted, capabilities[i]);
        proof {
            let asked = answers.push(permitted);
            assert(asked.drop_last() =~= answers);
            assert(capability_answer(CapabilitySet::Permitted, known@[i as int], permitted));
            assert(capabilities_verdict(asked) == capability_verdict(permitted));
            answers = asked;
        }
        match check_capability(permitted) {
            Ok(_) => {},
            Err(e) => return (Err(e), Ghost(known), Ghost(answers)),
        }
        let bounding = has_capability(CapabilitySet::Bounding, capabilities[i]);
        proof {
            let asked = answers.push(bounding);
            assert(asked.drop_last() =~= answers);
            assert(capability_answer(CapabilitySet::Bounding, known@[i as int], bounding));
            assert(capabilities_verdict(asked) == capability_verdict(bounding));
            answers = asked;
        }
        match check_capability(bounding) {
            Ok(_) => {},
            Err(e) => return (Err(e), Ghost(known), Ghost(answers)),
        }
        i += 1;
    }
    (Ok(()), Ghost(known), Ghost(answers))
}

/// The process must not be able to get new privileges.
pub open spec fn new_privileges_verdict(no_new_privs: Result<bool, i32>) -> Result<
    (),
    ServiceError,
> {
    match no_new_privs {
        Ok(set) => if set {
            Ok(())
        } else {
            Err(ServiceError::Runtime(RuntimeError::MayObtainNewPrivileges))
        },
        Err(errno) => Err(ServiceError::Os(errno)),
    }
}

/// Checks the "no new privileges" attribute.
pub fn check_no_new_privileges(no_new_privs: Result<bool, i32>) -> (r: Result<(), ServiceError>)
    ensures
        r == new_privileges_verdict(no_new_privs),
{
    match no_new_privs {
        Ok(set) => if set {
            Ok(())
        } else {
            Err(ServiceError::Runtime(RuntimeError::MayObtainNewPrivileges))
        },
        Err(errno) => Err(ServiceError::Os(errno)),
    }
}

/// Whether all secure bits and all locks are set, but for "keep capabilities".
pub open spec fn secure_bits_set(bits: i32) -> bool {
    &&& bits & SECBIT_NOROOT != 0
    &&& bits & SECBIT_NOROOT_LOCKED != 0
    &&& bits & SECBIT_KEEP_CAPS <= 0
    &&& bits & SECBIT_KEEP_CAPS_LOCKED != 0
    &&& bits & SECBIT_NO_SETUID_FIXUP != 0
    &&& bits & SECBIT_NO_SETUID_FIXUP_LOCKED != 0
    &&& bits & SECBIT_NO_CAP_AMBIENT_RAISE != 0
    &&& bits & SECBIT_NO_CAP_AMBIENT_RAISE_LOCKED != 0
}

/// What the answer of the kernel about the secure bits means: -1 stands for an error, which
/// `errno` tells.
pub open spec fn secure_bits_verdict(answer: i32, errno: i32) -> Result<(), ServiceError> {
    if answer == -1 {
        Err(ServiceError::SecureBits(errno))
    } else if secure_bits_set(answer) {
        Ok(())
    } else {
        Err(ServiceError::Runtime(RuntimeError::SecureBitsNotSet))
    }
}

/// Checks the secure bits.
pub fn check_secure_bits(answer: i32, errno: i32) -> (r: Result<(), ServiceError>)
    ensures
        r == secure_bits_verdict(answer, errno),
{
    if answer == -1 {
        return Err(ServiceError::SecureBits(errno));
    }
    if answer & SECBIT_NOROOT == 0 || answer & SECBIT_NOROOT_LOCKED == 0 || answer
        & SECBIT_KEEP_CAPS > 0 || answer & SECBIT_KEEP_CAPS_LOCKED == 0 || answer
        & SECBIT_NO_SETUID_FIXUP == 0 || answer & SECBIT_NO_SETUID_FIXUP_LOCKED == 0 || answer
        & SECBIT_NO_CAP_AMBIENT_RAISE == 0 || answer & SECBIT_NO_CAP_AMBIENT_RAISE_LOCKED == 0 {
        return Err(ServiceError::Runtime(RuntimeError::SecureBitsNotSet));
    }
    Ok(())
}

/// The secure bits pass exactly where the lowest eight bits are all set but for "keep
/// capabilities".
pub proof fn law_secure_bits(bits: i32)
    ensures
        secure_bits_set(bits) <==> bits & 0xff == 0xef,
{
    assert((bits & 1 != 0 && bits & 2 != 0 && bits & 16 <= 0 && bits & 32 != 0 && bits & 4 != 0
        && bits & 8 != 0 && bits & 64 != 0 && bits & 128 != 0) <==> bits & 0xff == 0xef)
        by (bit_vector);
}

/// Everything that the system says about the privileges of the process.
pub struct PrivilegeFacts {
    pub user: Result<Option<u32>, i32>,
    pub user_ids: Result<Ids, i32>,
    pub fs_user: u32,
    pub group: Result<Option<u32>, i32>,
    pub group_ids: Result<Ids, i32>,
    pub fs_group: u32,
    pub groups: Result<Vec<u32>, i32>,
    pub known: Vec<Capability>,
    pub capabilities: Seq<Result<bool, String>>,
    pub no_new_privs: Result<bool, i32>,
    pub secure_bits: (i32, i32),
}

impl PrivilegeFacts {
    /// The verdict on the user: it exists, and the process is that user in every respect.
    pub open spec fn user_verdict(self) -> Result<(), ServiceError> {
        match required_id(self.user, RuntimeError::UserNonexistent) {
            Ok(uid) => match ids_verdict(uid, self.user_ids, RuntimeError::RunAsWrongUser) {
                Ok(_) => fs_id_verdict(uid, self.fs_user, RuntimeError::RunAsWrongUser),
                Err(e) => Err(e),
            },
            Err(e) => Err(e),
        }
    }

    /// The verdict on the group: it exists, and the process is in that group in every respect.
    pub open spec fn group_verdict(self) -> Result<(), ServiceError> {
        match required_id(self.group, RuntimeError::GroupNonexistent) {
            Ok(gid) => match ids_verdict(gid, self.group_ids, RuntimeError::RunAsWrongGroup) {
                Ok(_) => fs_id_verdict(gid, self.fs_group, RuntimeError::RunAsWrongGroup),
                Err(e) => Err(e),
            },
            Err(e) => Err(e),
        }
    }

    /// The verdict on all but the secure bits: the first check that fails decides.
    pub open spec fn verdict_before_secure_bits(self) -> Result<(), ServiceError> {
        if self.user_verdict() is Err {
            self.user_verdict()
        } else if self.group_verdict() is Err {
            self.group_verdict()
        } else if groups_verdict(groups_view(self.groups)) is Err {
            groups_verdict(groups_view(self.groups))
        } else if capabilities_verdict(self.capabilities) is Err {
            capabilities_verdict(self.capabilities)
        } else {
            new_privileges_verdict(self.no_new_privs)
        }
    }

    /// Whether the questions about the user have been asked, up to the first that decides.
    pub open spec fn user_asked(self) -> bool {
        &&& user_answer(USER_NAME, self.user)
        &&& required_id(self.user, RuntimeError::UserNonexistent) matches Ok(uid) ==> {
            &&& user_ids_answer(self.user_ids)
            &&& ids_verdict(uid, self.user_ids, RuntimeError::RunAsWrongUser) is Ok
                ==> fs_user_answer(NO_ID, self.fs_user)
        }
    }

    /// Whether the questions about the group have been asked, up to the first that decides.
    pub open spec fn group_asked(self) -> bool {
        &&& group_answer(GROUP_NAME, self.group)
        &&& required_id(self.group, RuntimeError::GroupNonexistent) matches Ok(gid) ==> {
            &&& group_ids_answer(self.group_ids)
            &&& ids_verdict(gid, self.group_ids, RuntimeError::RunAsWrongGroup) is Ok
                ==> fs_group_answer(NO_ID, self.fs_group)
        }
    }

    /// Whether the questions have been asked that follow on user and group, up to the first that
    /// decides: the supplementary groups, all capabilities, and the "no new privileges" attribute.
    pub open spec fn limits_asked(self) -> bool {
        &&& groups_answer(self.groups)
        &&& groups_verdict(groups_view(self.groups)) is Ok ==> {
            &&& capabilities_asked(self.known, self.capabilities)
            &&& capabilities_verdict(self.capabilities) is Ok ==> {
                &&& self.capabilities.len() == 2 * self.known@.len()
                &&& no_new_privileges_answer(self.no_new_privs)
            }
        }
    }

    /// Whether everything has been asked that comes before the secure bits, up to the first thing
    /// that decides.
    pub open spec fn asked_before_secure_bits(self) -> bool {
        &&& self.user_asked()
        &&& self.user_verdict() is Ok ==> {
            &&& self.group_asked()
            &&& self.group_verdict() is Ok ==> self.limits_asked()
        }
    }

    /// Whether it is the turn of the secure bits: everything else has been asked, and nothing is
    /// amiss.
    pub open spec fn secure_bits_are_next(self) -> bool {
        self.asked_before_secure_bits() && self.verdict_before_secure_bits() is Ok
    }

    /// The first condition that does not hold decides.
    pub open spec fn verdict(self) -> Result<(), ServiceError> {
        if self.verdict_before_secure_bits() is Err {
            self.verdict_before_secure_bits()
        } else {
            secure_bits_verdict(self.secure_bits.0, self.secure_bits.1)
        }
    }
}

/// The checks pass exactly where the service's user and group exist, the process is that user and
/// that group and nothing else, it is not in the root group, none of its capabilities is set, it
/// cannot get new privileges, and the secure bits keep it that way.
pub proof fn law_privileges(facts: PrivilegeFacts)
    ensures
        facts.verdict() is Ok <==> {
            &&& facts.user matches Ok(Some(uid)) && facts.user_ids matches Ok(ids) && ids.are(uid)
                && facts.fs_user == uid
            &&& facts.group matches Ok(Some(gid)) && facts.group_ids matches Ok(ids) && ids.are(gid)
                && facts.fs_group == gid
            &&& facts.groups matches Ok(groups) && !groups@.contains(0)
            &&& forall|i: int|
                0 <= i < facts.capabilities.len() ==> #[trigger] facts.capabilities[i] == Ok::<
                    bool,
                    String,
                >(false)
            &&& facts.no_new_privs == Ok::<bool, i32>(true)
            &&& facts.secure_bits.0 != -1
            &&& facts.secure_bits.0 & 0xff == 0xef
        },
{
    lemma_capabilities(facts.capabilities);
    law_secure_bits(facts.secure_bits.0);
}

pub(crate) proof fn lemma_capabilities(answers: Seq<Result<bool, String>>)
    ensures
        capabilities_verdict(answers) is Ok <==> forall|i: int|
            0 <= i < answers.len() ==> #[trigger] answers[i] == Ok::<bool, String>(false),
    decreases answers.len(),
{
    if answers.len() > 0 {
        let before = answers.drop_last();
        lemma_capabilities(before);
        assert(forall|i: int| 0 <= i < before.len() ==> before[i] == answers[i]);
        if capabilities_verdict(answers) is Ok {
            assert forall|i: int| 0 <= i < answers.len() implies #[trigger] answers[i] == Ok::<
                bool,
                String,
            >(false) by {
                if i < before.len() {
                    assert(before[i] == answers[i]);
                }
            }
        } else {
            if forall|i: int|
                0 <= i < answers.len() ==> #[trigger] answers[i] == Ok::<bool, String>(false) {
                assert(answers.last() == answers[answers.len() - 1]);
            }
        }
    }
}

/// Whether `r` is how the check of the privileges can end. In debug mode nothing is asked, and the
/// warning is given that says so.
pub open spec fn privileges_checked<W: FnOnce(&'static str), S: FnOnce() -> (i32, i32)>(
    debug_mode: bool,
    warn: W,
    read_secure_bits: S,
    r: Result<(), ServiceError>,
) -> bool {
    if debug_mode {
        r is Ok && call_ensures(warn, (UNCHECKED_WARNING,), ())
    } else {
        exists|facts: PrivilegeFacts|
            {
                &&& r == #[trigger] facts.verdict()
                &&& facts.asked_before_secure_bits()
                &&& facts.secure_bits_are_next() ==> call_ensures(
                    read_secure_bits,
                    (),
                    facts.secure_bits,
                )
            }
    }
}

/// Makes sure that the service runs as its own user and group, without the root group, without
/// capabilities and without a way to get any. In debug mode the checks are left out, and `warn` gets
/// the warning that they are; otherwise it is not called.
///
/// `read_secure_bits` is called last, and only if nothing else is amiss. It gives the answer of the
/// kernel and the `errno` after it.
pub fn check_privileges<W, S>(debug_mode: bool, warn: W, read_secure_bits: S) -> (r: Result<
    (),
    ServiceError,
>) where W: FnOnce(&'static str), S: FnOnce() -> (i32, i32)
    requires
        debug_mode ==> call_requires(warn, (UNCHECKED_WARNING,)),
        forall|facts: PrivilegeFacts|
            !debug_mode && #[trigger] facts.secure_bits_are_next() ==> call_requires(
                read_secure_bits,
                (),
            ),
    ensures
        privileges_checked(debug_mode, warn, read_secure_bits, r),
{
    if debug_mode {
        warn(UNCHECKED_WARNING);
        return Ok(());
    }
    let ghost mut facts: PrivilegeFacts = arbitrary();
    let user = user_by_name(USER_NAME);
    proof {
        facts.user = user;
    }
    let uid = match required_user(user) {
        Ok(uid) => uid,
        Err(e) => {
            assert(facts.verdict() == Err::<(), ServiceError>(e));
            return Err(e);
        },
    };
    let ids = user_ids();
    proof {
        facts.user_ids = ids;
    }
    match check_user_ids(uid, ids) {
        Ok(_) => {},
        Err(e) => {
            assert(facts.verdict() == Err::<(), ServiceError>(e));
            return Err(e);
        },
    }
    let fs_uid = previous_fs_user(NO_ID);
    proof {
        facts.fs_user = fs_uid;
    }
    match check_fs_user(uid, fs_uid) {
        Ok(_) => {},
        Err(e) => {
            assert(facts.verdict() == Err::<(), ServiceError>(e));
            return Err(e);
        },
    }
    let group = group_by_name(GROUP_NAME);
    proof {
        facts.group = group;
    }
    let gid = match required_group(group) {
        Ok(gid) => gid,
        Err(e) => {
            assert(facts.verdict() == Err::<(), ServiceError>(e));
            return Err(e);
        },
    };
    let ids = group_ids();
    proof {
        facts.group_ids = ids;
    }
    match check_group_ids(gid, ids) {
        Ok(_) => {},
        Err(e) => {
            assert(facts.verdict() == Err::<(), ServiceError>(e));
            return Err(e);
        },
    }
    let fs_gid = previous_fs_group(NO_ID);
    proof {
        facts.fs_group = fs_gid;
    }
    match check_fs_group(gid, fs_gid) {
        Ok(_) => {},
        Err(e) => {
            assert(facts.verdict() == Err::<(), ServiceError>(e));
            return Err(e);
        },
    }
    let groups = supplementary_groups();
    proof {
        facts.groups = groups;
    }
    match check_groups(groups) {
        Ok(_) => {},
        Err(e) => {
            assert(facts.verdict() == Err::<(), ServiceError>(e));
            return Err(e);
        },
    }
    let (capabilities, Ghost(known), Ghost(answers)) = check_capabilities();
    proof {
        facts.known = known;
        facts.capabilities = answers;
    }
    match capabilities {
        Ok(_) => {},
        Err(e) => {
            assert(facts.verdict() == Err::<(), ServiceError>(e));
            return Err(e);
        },
    }
    let no_new_privs = no_new_privileges();
    proof {
        facts.no_new_privs = no_new_privs;
    }
    match check_no_new_privileges(no_new_privs) {
        Ok(_) => {},
        Err(e) => {
            assert(facts.verdict() == Err::<(), ServiceError>(e));
            return Err(e);
        },
    }
    assert(facts.secure_bits_are_next());
    let (answer, errno) = read_secure_bits();
    proof {
        facts.secure_bits = (answer, errno);
    }
    let verdict = check_secure_bits(answer, errno);
    assert(facts.verdict() == verdict);
    verdict
}

} // verus!
