//! What the check of the privileges finds, in terms of what the system says.

use caps::Capability;
use vstd::prelude::*;

use crate::constants::{GROUP_NAME, USER_NAME};
use crate::linux::privileges::{
    capabilities_verdict, check_capability, check_fs_group, check_fs_user, check_group_ids,
    check_groups, check_no_new_privileges, check_privileges, check_secure_bits, check_user_ids,
    law_privileges, law_secure_bits, privileges_checked, required_group, required_user,
    CapabilitySet, Ids, PrivilegeFacts,
};
use crate::linux::runtime_error::RuntimeError;
use crate::linux::service_error::ServiceError;
use crate::linux::system::{
    capabilities_answer, capability_answer, fs_group_answer, fs_user_answer, group_answer,
    group_ids_answer, groups_answer, no_new_privileges_answer, user_answer, user_ids_answer,
};
use crate::linux::working_dir_laws::{the_group_exists, the_user_exists};

verus! {

/// Whether the process is, by what the system says, the user of the service in every respect.
pub open spec fn runs_as_the_user() -> bool {
    exists|uid: u32, ids: Ids|
        {
            &&& #[trigger] user_answer(USER_NAME, Ok(Some(uid)))
            &&& #[trigger] user_ids_answer(Ok(ids))
            &&& ids.real == uid && ids.effective == uid && ids.saved == uid
            &&& fs_user_answer(0xffff_ffff, uid)
        }
}

/// Whether the process is, by what the system says, in the group of the service in every respect.
pub open spec fn runs_as_the_group() -> bool {
    exists|gid: u32, ids: Ids|
        {
            &&& #[trigger] group_answer(GROUP_NAME, Ok(Some(gid)))
            &&& #[trigger] group_ids_answer(Ok(ids))
            &&& ids.real == gid && ids.effective == gid && ids.saved == gid
            &&& fs_group_answer(0xffff_ffff, gid)
        }
}

/// Whether the root group is, by what the system says, not among the supplementary groups.
pub open spec fn is_without_the_root_group() -> bool {
    exists|groups: Vec<u32>| #[trigger]
        groups_answer(Ok(groups)) && forall|i: int|
            0 <= i < groups@.len() ==> #[trigger] groups@[i] != 0
}

/// Whether, by what the system says, none of the capabilities that there are is permitted or within
/// the bounds.
pub open spec fn is_without_capabilities() -> bool {
    exists|known: Vec<Capability>| #[trigger]
        capabilities_answer(known) && known@.len() == 41 && forall|i: int|
            0 <= i < known@.len() ==> capability_answer(
                CapabilitySet::Permitted,
                #[trigger] known@[i],
                Ok(false),
            ) && capability_answer(CapabilitySet::Bounding, known@[i], Ok(false))
}

/// Whether the system has given `r` for the capability that is asked for after `n` others, when each
/// one is asked for first in the permitted and then in the bounding set.
pub open spec fn says_of(known: Vec<Capability>, n: int, r: Result<bool, String>) -> bool {
    capability_answer(
        if n % 2 == 0 {
            CapabilitySet::Permitted
        } else {
            CapabilitySet::Bounding
        },
        known@[n / 2],
        r,
    )
}

/// Whether the first `n` capabilities that have been asked for are all known to be missing.
pub open spec fn are_missing_up_to(known: Vec<Capability>, n: int) -> bool {
    capabilities_answer(known) && 0 <= n < 2 * known@.len() && forall|i: int|
        0 <= i < n ==> #[trigger] says_of(known, i, Ok(false))
}

/// The id of a user or a group is the one that the lookup has found. One that is missing is an error
/// of its own, and an error of the lookup is handed on.
pub proof fn law_ids_are_looked_up(
    lookup: Result<Option<u32>, i32>,
    user: Result<u32, ServiceError>,
    group: Result<u32, ServiceError>,
)
    requires
        call_ensures(required_user, (lookup,), user),
        call_ensures(required_group, (lookup,), group),
    ensures
        user matches Ok(id) ==> lookup == Ok::<Option<u32>, i32>(Some(id)),
        lookup matches Ok(Some(id)) ==> user == Ok::<u32, ServiceError>(id),
        group is Ok <==> user is Ok,
        group is Ok ==> group == user,
        lookup == Ok::<Option<u32>, i32>(None) <==> user == Err::<u32, ServiceError>(
            ServiceError::Runtime(RuntimeError::UserNonexistent),
        ),
        lookup == Ok::<Option<u32>, i32>(None) <==> group == Err::<u32, ServiceError>(
            ServiceError::Runtime(RuntimeError::GroupNonexistent),
        ),
        lookup matches Err(errno) ==> user == Err::<u32, ServiceError>(ServiceError::Os(errno))
            && group == Err::<u32, ServiceError>(ServiceError::Os(errno)),
{
}

/// The ids of a process pass exactly where all three are the required one. Where one is not, the error
/// says whether it is about the user or the group; an error of the system is handed on.
pub proof fn law_ids_have_to_agree(
    id: u32,
    ids: Result<Ids, i32>,
    user: Result<(), ServiceError>,
    group: Result<(), ServiceError>,
)
    requires
        call_ensures(check_user_ids, (id, ids), user),
        call_ensures(check_group_ids, (id, ids), group),
    ensures
        user is Ok <==> (ids matches Ok(ids) && ids.real == id && ids.effective == id && ids.saved
            == id),
        group is Ok <==> user is Ok,
        ids is Ok && user is Err ==> user == Err::<(), ServiceError>(
            ServiceError::Runtime(RuntimeError::RunAsWrongUser),
        ) && group == Err::<(), ServiceError>(ServiceError::Runtime(RuntimeError::RunAsWrongGroup)),
        ids matches Err(errno) ==> user == Err::<(), ServiceError>(ServiceError::Os(errno)) && group
            == Err::<(), ServiceError>(ServiceError::Os(errno)),
{
}

/// The id that file accesses are checked against passes exactly where it is the required one.
pub proof fn law_file_accesses_count(
    id: u32,
    fs_id: u32,
    user: Result<(), ServiceError>,
    group: Result<(), ServiceError>,
)
    requires
        call_ensures(check_fs_user, (id, fs_id), user),
        call_ensures(check_fs_group, (id, fs_id), group),
    ensures
        user is Ok <==> fs_id == id,
        group is Ok <==> fs_id == id,
        user matches Err(e) ==> e == ServiceError::Runtime(RuntimeError::RunAsWrongUser),
        group matches Err(e) ==> e == ServiceError::Runtime(RuntimeError::RunAsWrongGroup),
{
}

/// The supplementary groups pass exactly where group 0 is nowhere among them.
pub proof fn law_the_root_group_is_found_anywhere(
    groups: Result<Vec<u32>, i32>,
    r: Result<(), ServiceError>,
)
    requires
        call_ensures(check_groups, (groups,), r),
    ensures
        r is Ok <==> (groups matches Ok(groups) && forall|i: int|
            0 <= i < groups@.len() ==> #[trigger] groups@[i] != 0),
        groups is Ok && r is Err ==> r == Err::<(), ServiceError>(
            ServiceError::Runtime(RuntimeError::RunWithRootGroup),
        ),
        groups matches Err(errno) ==> r == Err::<(), ServiceError>(ServiceError::Os(errno)),
{
    if let Ok(groups) = groups {
        if groups@.contains(0) {
            let i = choose|i: int| 0 <= i < groups@.len() && groups@[i] == 0;
            assert(groups@[i] == 0);
        } else {
            assert forall|i: int| 0 <= i < groups@.len() implies #[trigger] groups@[i] != 0 by {
                assert(groups@.contains(groups@[i]));
            }
        }
    }
}

/// A capability passes exactly where it is known to be missing, and the "no new privileges" attribute
/// exactly where it is known to be set.
pub proof fn law_doubts_do_not_pass(
    has: Result<bool, String>,
    capability: Result<(), ServiceError>,
    set: Result<bool, i32>,
    attribute: Result<(), ServiceError>,
)
    requires
        call_ensures(check_capability, (has,), capability),
        call_ensures(check_no_new_privileges, (set,), attribute),
    ensures
        capability is Ok <==> has == Ok::<bool, String>(false),
        has == Ok::<bool, String>(true) <==> capability == Err::<(), ServiceError>(
            ServiceError::Runtime(RuntimeError::RunWithCapabilities),
        ),
        has matches Err(reason) ==> capability == Err::<(), ServiceError>(
            ServiceError::Capabilities(reason),
        ),
        attribute is Ok <==> set == Ok::<bool, i32>(true),
        set == Ok::<bool, i32>(false) <==> attribute == Err::<(), ServiceError>(
            ServiceError::Runtime(RuntimeError::MayObtainNewPrivileges),
        ),
        set matches Err(errno) ==> attribute == Err::<(), ServiceError>(ServiceError::Os(errno)),
{
}

/// The secure bits pass exactly where they could be read and the lowest eight are all set but for
/// "keep capabilities".
pub proof fn law_secure_bits_have_to_be_set(answer: i32, errno: i32, r: Result<(), ServiceError>)
    requires
        call_ensures(check_secure_bits, (answer, errno), r),
    ensures
        r is Ok <==> answer != -1 && answer & 0xff == 0xef,
        answer == -1 <==> r == Err::<(), ServiceError>(ServiceError::SecureBits(errno)),
        answer != -1 && answer & 0xff != 0xef <==> r == Err::<(), ServiceError>(
            ServiceError::Runtime(RuntimeError::SecureBitsNotSet),
        ),
{
    law_secure_bits(answer);
}

/// What the system has said when the check of the privileges has come to its end.
proof fn lemma_checked<W: FnOnce(&'static str), S: FnOnce() -> (i32, i32)>(
    warn: W,
    read_secure_bits: S,
    r: Result<(), ServiceError>,
) -> (facts: PrivilegeFacts)
    requires
        privileges_checked(false, warn, read_secure_bits, r),
    ensures
        r == facts.verdict(),
        facts.asked_before_secure_bits(),
        facts.secure_bits_are_next() ==> call_ensures(read_secure_bits, (), facts.secure_bits),
{
    choose|facts: PrivilegeFacts|
        {
            &&& r == #[trigger] facts.verdict()
            &&& facts.asked_before_secure_bits()
            &&& facts.secure_bits_are_next() ==> call_ensures(
                read_secure_bits,
                (),
                facts.secure_bits,
            )
        }
}

/// What passes before the secure bits.
pub(crate) proof fn lemma_passed(facts: PrivilegeFacts)
    requires
        facts.asked_before_secure_bits(),
    ensures
        facts.user_verdict() is Ok ==> runs_as_the_user(),
        facts.user_verdict() is Ok && facts.group_verdict() is Ok ==> runs_as_the_group(),
        facts.user_verdict() is Ok && facts.group_verdict() is Ok && (facts.groups matches Ok(groups)
            && !groups@.contains(0)) ==> is_without_the_root_group(),
        facts.user_verdict() is Ok && facts.group_verdict() is Ok && (facts.groups matches Ok(groups)
            && !groups@.contains(0)) && capabilities_verdict(facts.capabilities) is Ok
            ==> is_without_capabilities(),
{
    if facts.user_verdict() is Ok {
        let uid = facts.user->Ok_0->0;
        let ids = facts.user_ids->Ok_0;
        assert(facts.user == Ok::<Option<u32>, i32>(Some(uid)));
        assert(facts.user_ids == Ok::<Ids, i32>(ids));
        assert(user_answer(USER_NAME, Ok(Some(uid))) && user_ids_answer(Ok(ids)));
        if facts.group_verdict() is Ok {
            let gid = facts.group->Ok_0->0;
            let ids = facts.group_ids->Ok_0;
            assert(facts.group == Ok::<Option<u32>, i32>(Some(gid)));
            assert(facts.group_ids == Ok::<Ids, i32>(ids));
            assert(group_answer(GROUP_NAME, Ok(Some(gid))) && group_ids_answer(Ok(ids)));
            if let Ok(groups) = facts.groups {
                if !groups@.contains(0) {
                    assert(groups_answer(Ok(groups)));
                    assert forall|i: int| 0 <= i < groups@.len() implies #[trigger] groups@[i]
                        != 0 by {
                        assert(groups@.contains(groups@[i]));
                    }
                    if capabilities_verdict(facts.capabilities) is Ok {
                        let known = facts.known;
                        let answers = facts.capabilities;
                        crate::linux::privileges::lemma_capabilities(answers);
                        assert forall|i: int| 0 <= i < known@.len() implies capability_answer(
                            CapabilitySet::Permitted,
                            #[trigger] known@[i],
                            Ok(false),
                        ) && capability_answer(CapabilitySet::Bounding, known@[i], Ok(false)) by {
                            assert(answers[2 * i] == Ok::<bool, String>(false));
                            assert(answers[2 * i + 1] == Ok::<bool, String>(false));
                            assert((2 * i) / 2 == i && (2 * i) % 2 == 0);
                            assert((2 * i + 1) / 2 == i && (2 * i + 1) % 2 == 1);
                        }
                        assert(capabilities_answer(known));
                    }
                }
            }
        }
    }
}

/// What the system has said of a process that passes.
pub(crate) proof fn lemma_accepted<W: FnOnce(&'static str), S: FnOnce() -> (i32, i32)>(
    warn: W,
    read_secure_bits: S,
)
    requires
        privileges_checked(false, warn, read_secure_bits, Ok::<(), ServiceError>(())),
    ensures
        runs_as_the_user(),
        runs_as_the_group(),
        is_without_the_root_group(),
        is_without_capabilities(),
        no_new_privileges_answer(Ok(true)),
        exists|bits: i32, errno: i32| #[trigger]
            call_ensures(read_secure_bits, (), (bits, errno)) && bits != -1 && bits & 0xff == 0xef,
{
    let facts = lemma_checked(warn, read_secure_bits, Ok(()));
    law_privileges(facts);
    lemma_passed(facts);
    assert(call_ensures(read_secure_bits, (), (facts.secure_bits.0, facts.secure_bits.1)));
}

/// A process that passes is the user and the group of the service in every respect, is not in the root
/// group, has none of the capabilities that there are, is kept from new privileges, and has the secure
/// bits set, all by what the system has said.
pub proof fn law_accepted_processes_have_no_privileges<
    W: FnOnce(&'static str),
    S: FnOnce() -> (i32, i32),
>(warn: W, read_secure_bits: S)
    requires
        call_ensures(
            check_privileges::<W, S>,
            (false, warn, read_secure_bits),
            Ok::<(), ServiceError>(()),
        ),
    ensures
        runs_as_the_user(),
        runs_as_the_group(),
        is_without_the_root_group(),
        is_without_capabilities(),
        no_new_privileges_answer(Ok(true)),
        exists|bits: i32, errno: i32| #[trigger]
            call_ensures(read_secure_bits, (), (bits, errno)) && bits != -1 && bits & 0xff == 0xef,
{
    assert(privileges_checked(false, warn, read_secure_bits, Ok::<(), ServiceError>(())));
    lemma_accepted(warn, read_secure_bits);
}

/// A process that is turned away has the fault that is reported, and everything that is looked at
/// before has been in order: first the user, then the group, the supplementary groups, the
/// capabilities, the "no new privileges" attribute, and the secure bits.
pub proof fn law_processes_are_turned_away_for_a_reason<
    W: FnOnce(&'static str),
    S: FnOnce() -> (i32, i32),
>(warn: W, read_secure_bits: S, e: ServiceError)
    requires
        call_ensures(
            check_privileges::<W, S>,
            (false, warn, read_secure_bits),
            Err::<(), ServiceError>(e),
        ),
    ensures
        match e {
            ServiceError::Runtime(RuntimeError::UserNonexistent) => user_answer(
                USER_NAME,
                Ok(None),
            ),
            ServiceError::Runtime(RuntimeError::RunAsWrongUser) => exists|uid: u32, ids: Ids|
                {
                    &&& #[trigger] user_answer(USER_NAME, Ok(Some(uid)))
                    &&& #[trigger] user_ids_answer(Ok(ids))
                    &&& ids.real != uid || ids.effective != uid || ids.saved != uid || exists|
                        fs_uid: u32,
                    | #[trigger]
                        fs_user_answer(0xffff_ffff, fs_uid) && fs_uid != uid
                },
            ServiceError::Runtime(RuntimeError::GroupNonexistent) => runs_as_the_user()
                && group_answer(GROUP_NAME, Ok(None)),
            ServiceError::Runtime(RuntimeError::RunAsWrongGroup) => runs_as_the_user() && exists|
                gid: u32,
                ids: Ids,
            |
                {
                    &&& #[trigger] group_answer(GROUP_NAME, Ok(Some(gid)))
                    &&& #[trigger] group_ids_answer(Ok(ids))
                    &&& ids.real != gid || ids.effective != gid || ids.saved != gid || exists|
                        fs_gid: u32,
                    | #[trigger]
                        fs_group_answer(0xffff_ffff, fs_gid) && fs_gid != gid
                },
            ServiceError::Runtime(RuntimeError::RunWithRootGroup) => runs_as_the_user()
                && runs_as_the_group() && exists|groups: Vec<u32>| #[trigger]
                groups_answer(Ok(groups)) && groups@.contains(0),
            ServiceError::Runtime(RuntimeError::RunWithCapabilities) => runs_as_the_user()
                && runs_as_the_group() && is_without_the_root_group() && exists|
                known: Vec<Capability>,
                n: int,
            | #[trigger]
                are_missing_up_to(known, n) && says_of(known, n, Ok(true)),
            ServiceError::Capabilities(reason) => runs_as_the_user() && runs_as_the_group()
                && is_without_the_root_group() && exists|known: Vec<Capability>, n: int| #[trigger]
                are_missing_up_to(known, n) && says_of(known, n, Err(reason)),
            ServiceError::Runtime(RuntimeError::MayObtainNewPrivileges) => runs_as_the_user()
                && runs_as_the_group() && is_without_the_root_group() && is_without_capabilities()
                && no_new_privileges_answer(Ok(false)),
            ServiceError::SecureBits(errno) => runs_as_the_user() && runs_as_the_group()
                && is_without_the_root_group() && is_without_capabilities()
                && no_new_privileges_answer(Ok(true)) && call_ensures(
                read_secure_bits,
                (),
                (-1i32, errno),
            ),
            ServiceError::Runtime(RuntimeError::SecureBitsNotSet) => runs_as_the_user()
                && runs_as_the_group() && is_without_the_root_group() && is_without_capabilities()
                && no_new_privileges_answer(Ok(true)) && exists|bits: i32, errno: i32| #[trigger]
                call_ensures(read_secure_bits, (), (bits, errno)) && bits != -1 && bits & 0xff
                    != 0xef,
            ServiceError::Os(errno) => {
                ||| user_answer(USER_NAME, Err(errno))
                ||| the_user_exists() && user_ids_answer(Err(errno))
                ||| runs_as_the_user() && group_answer(GROUP_NAME, Err(errno))
                ||| runs_as_the_user() && the_group_exists() && group_ids_answer(Err(errno))
                ||| runs_as_the_user() && runs_as_the_group() && groups_answer(Err(errno))
                ||| runs_as_the_user() && runs_as_the_group() && is_without_the_root_group()
                    && is_without_capabilities() && no_new_privileges_answer(Err(errno))
            },
            _ => false,
        },
{
    let facts = lemma_checked(warn, read_secure_bits, Err(e));
    lemma_passed(facts);
    law_secure_bits(facts.secure_bits.0);
    let uid = facts.user->Ok_0->0;
    let ids = facts.user_ids->Ok_0;
    if facts.user matches Ok(Some(_)) {
        assert(user_answer(USER_NAME, Ok(Some(uid))));
        if facts.user_ids is Ok {
            assert(user_ids_answer(Ok(ids)));
        }
    }
    if facts.user_verdict() is Ok {
        let gid = facts.group->Ok_0->0;
        let gids = facts.group_ids->Ok_0;
        if facts.group matches Ok(Some(_)) {
            assert(group_answer(GROUP_NAME, Ok(Some(gid))));
            if facts.group_ids is Ok {
                assert(group_ids_answer(Ok(gids)));
            }
        }
        if facts.group_verdict() is Ok {
            if facts.groups is Ok {
                assert(groups_answer(Ok(facts.groups->Ok_0)));
                if !(facts.groups->Ok_0)@.contains(0) {
                    let answers = facts.capabilities;
                    if capabilities_verdict(answers) is Err {
                        let n = lemma_first_capability(answers);
                        let known = facts.known;
                        assert forall|i: int| 0 <= i < n implies #[trigger] says_of(
                            known,
                            i,
                            Ok(false),
                        ) by {
                            assert(answers[i] == Ok::<bool, String>(false));
                        }
                        assert(says_of(known, n, answers[n]));
                        assert(are_missing_up_to(known, n));
                        match answers[n] {
                            Ok(has) => {
                                assert(says_of(known, n, Ok(true)));
                            },
                            Err(reason) => {
                                assert(e->Capabilities_0 == reason);
                                assert(says_of(known, n, Err(e->Capabilities_0)));
                            },
                        }
                    } else if facts.no_new_privs == Ok::<bool, i32>(true) {
                        assert(call_ensures(
                            read_secure_bits,
                            (),
                            (facts.secure_bits.0, facts.secure_bits.1),
                        ));
                    }
                }
            }
        }
    }
    if e matches ServiceError::SecureBits(_) {
        let errno = e->SecureBits_0;
        assert(no_new_privileges_answer(Ok(true)));
        assert(call_ensures(read_secure_bits, (), (-1i32, errno)));
    } else if e matches ServiceError::Runtime(RuntimeError::SecureBitsNotSet) {
        assert(no_new_privileges_answer(Ok(true)));
    } else if e matches ServiceError::Runtime(RuntimeError::MayObtainNewPrivileges) {
        assert(no_new_privileges_answer(Ok(false)));
    } else if e matches ServiceError::Runtime(RuntimeError::RunWithCapabilities) {
        assert(exists|known: Vec<Capability>, n: int| #[trigger]
            are_missing_up_to(known, n) && says_of(known, n, Ok(true)));
    } else if e matches ServiceError::Capabilities(_) {
        assert(exists|known: Vec<Capability>, n: int| #[trigger]
            are_missing_up_to(known, n) && says_of(known, n, Err(e->Capabilities_0)));
    } else if e matches ServiceError::Runtime(RuntimeError::UserNonexistent) {
        assert(user_answer(USER_NAME, Ok(None)));
    } else if e matches ServiceError::Runtime(RuntimeError::GroupNonexistent) {
        assert(group_answer(GROUP_NAME, Ok(None)));
    }
}

/// The verdict on the capabilities that is not `Ok` comes from the first of them that is not known to
/// be missing.
proof fn lemma_first_capability(answers: Seq<Result<bool, String>>) -> (n: int)
    requires
        capabilities_verdict(answers) is Err,
    ensures
        0 <= n < answers.len(),
        forall|i: int| 0 <= i < n ==> #[trigger] answers[i] == Ok::<bool, String>(false),
        match answers[n] {
            Ok(has) => has && capabilities_verdict(answers)->Err_0 == ServiceError::Runtime(
                RuntimeError::RunWithCapabilities,
            ),
            Err(reason) => capabilities_verdict(answers)->Err_0 == ServiceError::Capabilities(
                reason,
            ),
        },
    decreases answers.len(),
{
    let before = answers.drop_last();
    if capabilities_verdict(before) is Err {
        let n = lemma_first_capability(before);
        assert forall|i: int| 0 <= i < n implies #[trigger] answers[i] == Ok::<bool, String>(
            false,
        ) by {
            assert(before[i] == answers[i]);
        }
        n
    } else {
        crate::linux::privileges::lemma_capabilities(before);
        assert forall|i: int| 0 <= i < before.len() implies #[trigger] answers[i] == Ok::<
            bool,
            String,
        >(false) by {
            assert(before[i] == answers[i]);
        }
        answers.len() - 1
    }
}

/// In debug mode nothing is checked, and the warning is given that says so.
pub proof fn law_unchecked_processes_are_warned_of<
    W: FnOnce(&'static str),
    S: FnOnce() -> (i32, i32),
>(warn: W, read_secure_bits: S, r: Result<(), ServiceError>)
    requires
        call_ensures(check_privileges::<W, S>, (true, warn, read_secure_bits), r),
    ensures
        r is Ok,
        exists|warning: &'static str|
            warning@ == "privilege checks are disabled in debug mode"@ && #[trigger] call_ensures(
                warn,
                (warning,),
                (),
            ),
{
}

} // verus!
