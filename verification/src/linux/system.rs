//! The calls into the operating system that the service makes by itself.
//!
//! What they answer depends on the machine, so that their contracts say nothing of it, unless they
//! say so. For each question there is a predicate that holds of an answer that the system has given
//! to it: a contract that speaks of it tells what has been asked.

use caps::{CapSet, Capability};
use nix::sys::prctl::get_no_new_privs;
use nix::sys::socket::UnixAddr;
use nix::sys::stat::{stat, Mode};
use nix::unistd::{
    getgroups, getresgid, getresuid, setfsgid, setfsuid, sysconf, Gid, Group, SysconfVar, Uid, User,
};
use rustix::net::SocketAddrUnix;
use vstd::prelude::*;
use vstd::utf8::encode_utf8;

use crate::linux::privileges::{CapabilitySet, Ids, NO_ID};
use crate::linux::working_dir::{Account, FileStatus};

verus! {

/// A capability of a process, as the `caps` crate knows it.
#[verifier::external_type_specification]
#[verifier::external_body]
pub struct ExCapability(caps::Capability);

/// The address of a Unix socket, as the `nix` crate knows it.
#[verifier::external_type_specification]
#[verifier::external_body]
pub struct ExUnixAddr(nix::sys::socket::UnixAddr);

/// The address of a Unix socket, as the `rustix` crate knows it.
#[verifier::external_type_specification]
#[verifier::external_body]
pub struct ExSocketAddrUnix(rustix::net::SocketAddrUnix);

/// Asks `nix::unistd::sysconf` for the size of a page of memory. An error is handed on as its
/// `errno`.
#[verifier::external_body]
fn nix_page_size() -> (r: Result<Option<i64>, i32>) {
    match sysconf(SysconfVar::PAGE_SIZE) {
        Ok(Some(size)) => Ok(Some(size as i64)),
        Ok(None) => Ok(None),
        Err(e) => Err(e as i32),
    }
}

/// Whether the system has given `r` for the size of a page.
pub closed spec fn page_size_answer(r: Result<Option<i64>, i32>) -> bool {
    call_ensures(nix_page_size, (), r)
}

/// The size of a page of memory, as the system has it.
pub(crate) fn page_size_setting() -> (r: Result<Option<i64>, i32>)
    ensures
        page_size_answer(r),
{
    nix_page_size()
}

/// Looks a user up by name with `nix::unistd::User::from_name` and hands on the user's id, or the
/// `errno` of an error.
#[verifier::external_body]
fn nix_user_from_name(name: &str) -> (r: Result<Option<u32>, i32>) {
    match User::from_name(name) {
        Ok(user) => Ok(user.map(|u| u.uid.as_raw())),
        Err(e) => Err(e as i32),
    }
}

/// Whether the system has given `r` for the user of the given name.
pub closed spec fn user_answer(name: &str, r: Result<Option<u32>, i32>) -> bool {
    call_ensures(nix_user_from_name, (name,), r)
}

/// The id of the user of the given name.
pub(crate) fn user_by_name(name: &str) -> (r: Result<Option<u32>, i32>)
    ensures
        user_answer(name, r),
{
    nix_user_from_name(name)
}

/// Looks a group up by name with `nix::unistd::Group::from_name` and hands on the group's id, or
/// the `errno` of an error.
#[verifier::external_body]
fn nix_group_from_name(name: &str) -> (r: Result<Option<u32>, i32>) {
    match Group::from_name(name) {
        Ok(group) => Ok(group.map(|g| g.gid.as_raw())),
        Err(e) => Err(e as i32),
    }
}

/// Whether the system has given `r` for the group of the given name.
pub closed spec fn group_answer(name: &str, r: Result<Option<u32>, i32>) -> bool {
    call_ensures(nix_group_from_name, (name,), r)
}

/// The id of the group of the given name.
pub(crate) fn group_by_name(name: &str) -> (r: Result<Option<u32>, i32>)
    ensures
        group_answer(name, r),
{
    nix_group_from_name(name)
}

/// Looks a user up by id with `nix::unistd::User::from_uid` and hands on the id and the name of the
/// entry, or the `errno` of an error.
#[verifier::external_body]
fn nix_user_from_uid(uid: u32) -> (r: Result<Option<Account>, i32>) {
    match User::from_uid(Uid::from_raw(uid)) {
        Ok(user) => Ok(user.map(|u| Account { id: u.uid.as_raw(), name: u.name })),
        Err(e) => Err(e as i32),
    }
}

/// Whether the system has given `r` for the user of the given id.
pub closed spec fn owner_answer(uid: u32, r: Result<Option<Account>, i32>) -> bool {
    call_ensures(nix_user_from_uid, (uid,), r)
}

/// The entry of the user of the given id.
pub(crate) fn user_by_id(uid: u32) -> (r: Result<Option<Account>, i32>)
    ensures
        owner_answer(uid, r),
{
    nix_user_from_uid(uid)
}

/// Looks a group up by id with `nix::unistd::Group::from_gid` and hands on the id of the entry, or
/// the `errno` of an error.
#[verifier::external_body]
fn nix_group_from_gid(gid: u32) -> (r: Result<Option<u32>, i32>) {
    match Group::from_gid(Gid::from_raw(gid)) {
        Ok(group) => Ok(group.map(|g| g.gid.as_raw())),
        Err(e) => Err(e as i32),
    }
}

/// Whether the system has given `r` for the group of the given id.
pub closed spec fn owner_group_answer(gid: u32, r: Result<Option<u32>, i32>) -> bool {
    call_ensures(nix_group_from_gid, (gid,), r)
}

/// The id of the entry of the group of the given id.
pub(crate) fn group_by_id(gid: u32) -> (r: Result<Option<u32>, i32>)
    ensures
        owner_group_answer(gid, r),
{
    nix_group_from_gid(gid)
}

/// The user ids of the process, from `nix::unistd::getresuid`, or the `errno` of an error.
#[verifier::external_body]
fn nix_getresuid() -> (r: Result<Ids, i32>) {
    match getresuid() {
        Ok(ids) => Ok(
            Ids {
                real: ids.real.as_raw(),
                effective: ids.effective.as_raw(),
                saved: ids.saved.as_raw(),
            },
        ),
        Err(e) => Err(e as i32),
    }
}

/// Whether the system has given `r` for the user ids of the process.
pub closed spec fn user_ids_answer(r: Result<Ids, i32>) -> bool {
    call_ensures(nix_getresuid, (), r)
}

/// The user ids of the process.
pub(crate) fn user_ids() -> (r: Result<Ids, i32>)
    ensures
        user_ids_answer(r),
{
    nix_getresuid()
}

/// The group ids of the process, from `nix::unistd::getresgid`, or the `errno` of an error.
#[verifier::external_body]
fn nix_getresgid() -> (r: Result<Ids, i32>) {
    match getresgid() {
        Ok(ids) => Ok(
            Ids {
                real: ids.real.as_raw(),
                effective: ids.effective.as_raw(),
                saved: ids.saved.as_raw(),
            },
        ),
        Err(e) => Err(e as i32),
    }
}

/// Whether the system has given `r` for the group ids of the process.
pub closed spec fn group_ids_answer(r: Result<Ids, i32>) -> bool {
    call_ensures(nix_getresgid, (), r)
}

/// The group ids of the process.
pub(crate) fn group_ids() -> (r: Result<Ids, i32>)
    ensures
        group_ids_answer(r),
{
    nix_getresgid()
}

/// Hands a user id to `nix::unistd::setfsuid`, which gives back the id that file accesses were
/// checked against before. Only the id may be handed over that no user has, which changes nothing.
#[verifier::external_body]
fn nix_setfsuid(uid: u32) -> (r: u32)
    requires
        uid == NO_ID,
{
    setfsuid(Uid::from_raw(uid)).as_raw()
}

/// Whether the system has given `r` for the user of file accesses before `uid`.
pub closed spec fn fs_user_answer(uid: u32, r: u32) -> bool {
    call_ensures(nix_setfsuid, (uid,), r)
}

/// The user that file accesses were checked against before `uid`.
pub(crate) fn previous_fs_user(uid: u32) -> (r: u32)
    requires
        uid == NO_ID,
    ensures
        fs_user_answer(uid, r),
{
    nix_setfsuid(uid)
}

/// Hands a group id to `nix::unistd::setfsgid`, which gives back the id that file accesses were
/// checked against before. Only the id may be handed over that no group has, which changes nothing.
#[verifier::external_body]
fn nix_setfsgid(gid: u32) -> (r: u32)
    requires
        gid == NO_ID,
{
    setfsgid(Gid::from_raw(gid)).as_raw()
}

/// Whether the system has given `r` for the group of file accesses before `gid`.
pub closed spec fn fs_group_answer(gid: u32, r: u32) -> bool {
    call_ensures(nix_setfsgid, (gid,), r)
}

/// The group that file accesses were checked against before `gid`.
pub(crate) fn previous_fs_group(gid: u32) -> (r: u32)
    requires
        gid == NO_ID,
    ensures
        fs_group_answer(gid, r),
{
    nix_setfsgid(gid)
}

/// The supplementary groups of the process, from `nix::unistd::getgroups`, or the `errno` of an
/// error.
#[verifier::external_body]
fn nix_getgroups() -> (r: Result<Vec<u32>, i32>) {
    match getgroups() {
        Ok(groups) => Ok(groups.into_iter().map(|g| g.as_raw()).collect()),
        Err(e) => Err(e as i32),
    }
}

/// Whether the system has given `r` for the supplementary groups of the process.
pub closed spec fn groups_answer(r: Result<Vec<u32>, i32>) -> bool {
    call_ensures(nix_getgroups, (), r)
}

/// The supplementary groups of the process.
pub(crate) fn supplementary_groups() -> (r: Result<Vec<u32>, i32>)
    ensures
        groups_answer(r),
{
    nix_getgroups()
}

/// All capabilities that `caps::all` knows: there are forty-one, each comes once, and their order
/// is left open.
#[verifier::external_body]
fn caps_all() -> (r: Vec<Capability>)
    ensures
        r@.len() == 41,
        r@.no_duplicates(),
{
    caps::all().into_iter().collect()
}

/// Whether `r` has been given for the capabilities that there are.
pub closed spec fn capabilities_answer(r: Vec<Capability>) -> bool {
    call_ensures(caps_all, (), r)
}

/// All capabilities that there are.
pub(crate) fn all_capabilities() -> (r: Vec<Capability>)
    ensures
        capabilities_answer(r),
        r@.len() == 41,
        r@.no_duplicates(),
{
    caps_all()
}

/// Asks `caps::has_cap` whether the calling thread has a capability in one of its sets. An error is
/// handed on as its text.
#[verifier::external_body]
fn caps_has_cap(set: CapabilitySet, cap: Capability) -> (r: Result<bool, String>) {
    let set = match set {
        CapabilitySet::Permitted => CapSet::Permitted,
        CapabilitySet::Bounding => CapSet::Bounding,
    };
    match caps::has_cap(None, set, cap) {
        Ok(has) => Ok(has),
        Err(e) => Err(e.to_string()),
    }
}

/// Whether the system has given `r` for a capability in one of the sets.
pub closed spec fn capability_answer(
    set: CapabilitySet,
    cap: Capability,
    r: Result<bool, String>,
) -> bool {
    call_ensures(caps_has_cap, (set, cap), r)
}

/// Whether the calling thread has a capability in one of its sets.
pub(crate) fn has_capability(set: CapabilitySet, cap: Capability) -> (r: Result<bool, String>)
    ensures
        capability_answer(set, cap, r),
{
    caps_has_cap(set, cap)
}

/// The "no new privileges" attribute of the calling thread, from
/// `nix::sys::prctl::get_no_new_privs`, or the `errno` of an error.
#[verifier::external_body]
fn nix_get_no_new_privs() -> (r: Result<bool, i32>) {
    match get_no_new_privs() {
        Ok(set) => Ok(set),
        Err(e) => Err(e as i32),
    }
}

/// Whether the system has given `r` for the "no new privileges" attribute.
pub closed spec fn no_new_privileges_answer(r: Result<bool, i32>) -> bool {
    call_ensures(nix_get_no_new_privs, (), r)
}

/// Whether the calling thread is kept from new privileges.
pub(crate) fn no_new_privileges() -> (r: Result<bool, i32>)
    ensures
        no_new_privileges_answer(r),
{
    nix_get_no_new_privs()
}

/// Owner and mode of a file, from `nix::sys::stat::stat`, or the `errno` of an error.
#[verifier::external_body]
fn nix_stat(path: &str) -> (r: Result<FileStatus, i32>) {
    match stat(path) {
        Ok(s) => Ok(FileStatus { uid: s.st_uid, gid: s.st_gid, mode: s.st_mode }),
        Err(e) => Err(e as i32),
    }
}

/// Whether the system has given `r` for the file of the given path.
pub closed spec fn status_answer(path: &str, r: Result<FileStatus, i32>) -> bool {
    call_ensures(nix_stat, (path,), r)
}

/// Owner and mode of a file.
pub(crate) fn file_status(path: &str) -> (r: Result<FileStatus, i32>)
    ensures
        status_answer(path, r),
{
    nix_stat(path)
}

/// Whether `nix::sys::stat::Mode` finds all the permission bits `flags` in the mode of a file. The
/// bits above the permissions, which tell the type of the file, play no part.
#[verifier::external_body]
pub(crate) fn mode_contains(st_mode: u32, flags: u32) -> (r: bool)
    requires
        flags <= 0o7777,
    ensures
        r == (st_mode & flags == flags),
{
    Mode::from_bits_truncate(st_mode).contains(Mode::from_bits_truncate(flags))
}

/// The error of the kernel for a name that is too long.
pub const ENAMETOOLONG: i32 = 36;

/// How many bytes an address of a Unix socket has for its name.
pub const ADDRESS_SIZE: usize = 108;

/// Has `nix::sys::socket::UnixAddr::new_abstract` make an address of the UTF-8 bytes of the name. It
/// fails exactly where they do not fit into an address behind a leading zero byte, and then with
/// `ENAMETOOLONG`. Of the address nothing is said.
#[verifier::external_body]
fn nix_new_abstract(name: &str) -> (r: Result<UnixAddr, i32>)
    ensures
        match r {
            Ok(_) => encode_utf8(name@).len() < ADDRESS_SIZE,
            Err(errno) => encode_utf8(name@).len() >= ADDRESS_SIZE && errno == ENAMETOOLONG,
        },
{
    match UnixAddr::new_abstract(name.as_bytes()) {
        Ok(address) => Ok(address),
        Err(e) => Err(e as i32),
    }
}

/// Whether `r` has been given for the abstract address of the given name.
pub closed spec fn address_answer(name: &str, r: Result<UnixAddr, i32>) -> bool {
    call_ensures(nix_new_abstract, (name,), r)
}

/// The abstract address of the given name.
pub(crate) fn abstract_address(name: &str) -> (r: Result<UnixAddr, i32>)
    ensures
        address_answer(name, r),
        match r {
            Ok(_) => encode_utf8(name@).len() < ADDRESS_SIZE,
            Err(errno) => encode_utf8(name@).len() >= ADDRESS_SIZE && errno == ENAMETOOLONG,
        },
{
    nix_new_abstract(name)
}

/// The error of the kernel for an argument that makes no sense.
pub const EINVAL: i32 = 22;

/// Why a path cannot be the address of a socket, if it cannot: it has a zero byte in it, or it is too
/// long.
pub open spec fn path_fault(path: Seq<char>) -> Option<i32> {
    if encode_utf8(path).contains(0) {
        Some(EINVAL)
    } else if encode_utf8(path).len() > ADDRESS_SIZE {
        Some(ENAMETOOLONG)
    } else {
        None
    }
}

/// Has `rustix::net::SocketAddrUnix::new` make an address of the UTF-8 bytes of the path. It fails
/// exactly where `path_fault` says so, and with that error. Of the address nothing is said.
#[verifier::external_body]
fn rustix_socket_address(path: &str) -> (r: Result<SocketAddrUnix, i32>)
    ensures
        match r {
            Ok(_) => path_fault(path@) is None,
            Err(errno) => path_fault(path@) == Some(errno),
        },
{
    match SocketAddrUnix::new(path) {
        Ok(address) => Ok(address),
        Err(e) => Err(e.raw_os_error()),
    }
}

/// Whether `r` has been given for the address of the given path.
pub closed spec fn socket_address_answer(path: &str, r: Result<SocketAddrUnix, i32>) -> bool {
    call_ensures(rustix_socket_address, (path,), r)
}

/// The address of the given path.
pub(crate) fn socket_address(path: &str) -> (r: Result<SocketAddrUnix, i32>)
    ensures
        socket_address_answer(path, r),
        match r {
            Ok(_) => path_fault(path@) is None,
            Err(errno) => path_fault(path@) == Some(errno),
        },
{
    rustix_socket_address(path)
}

/// What is asked is put to the system as it is asked, and the answer is handed on as it is: each
/// question goes to its own function, with its own arguments.
proof fn law_questions_are_put_as_asked(
    name: &str,
    id: u32,
    set: CapabilitySet,
    cap: Capability,
    id_of_name: Result<Option<u32>, i32>,
    account: Result<Option<Account>, i32>,
    ids: Result<Ids, i32>,
    fs_id: u32,
    status: Result<FileStatus, i32>,
    has: Result<bool, String>,
)
    ensures
        call_ensures(user_by_name, (name,), id_of_name) || user_answer(name, id_of_name)
            ==> call_ensures(nix_user_from_name, (name,), id_of_name),
        call_ensures(group_by_name, (name,), id_of_name) || group_answer(name, id_of_name)
            ==> call_ensures(nix_group_from_name, (name,), id_of_name),
        call_ensures(user_by_id, (id,), account) || owner_answer(id, account) ==> call_ensures(
            nix_user_from_uid,
            (id,),
            account,
        ),
        call_ensures(group_by_id, (id,), id_of_name) || owner_group_answer(id, id_of_name)
            ==> call_ensures(nix_group_from_gid, (id,), id_of_name),
        call_ensures(user_ids, (), ids) || user_ids_answer(ids) ==> call_ensures(
            nix_getresuid,
            (),
            ids,
        ),
        call_ensures(group_ids, (), ids) || group_ids_answer(ids) ==> call_ensures(
            nix_getresgid,
            (),
            ids,
        ),
        call_ensures(previous_fs_user, (id,), fs_id) || fs_user_answer(id, fs_id) ==> call_ensures(
            nix_setfsuid,
            (id,),
            fs_id,
        ),
        call_ensures(previous_fs_group, (id,), fs_id) || fs_group_answer(id, fs_id)
            ==> call_ensures(nix_setfsgid, (id,), fs_id),
        call_ensures(file_status, (name,), status) || status_answer(name, status) ==> call_ensures(
            nix_stat,
            (name,),
            status,
        ),
        call_ensures(has_capability, (set, cap), has) || capability_answer(set, cap, has)
            ==> call_ensures(caps_has_cap, (set, cap), has),
{
}

/// The same of the questions that are about the process or the machine as a whole, and of addresses.
proof fn law_more_questions_are_put_as_asked(
    page_size: Result<Option<i64>, i32>,
    groups: Result<Vec<u32>, i32>,
    capabilities: Vec<Capability>,
    set: Result<bool, i32>,
    name: &str,
    address: Result<UnixAddr, i32>,
    socket: Result<SocketAddrUnix, i32>,
)
    ensures
        call_ensures(page_size_setting, (), page_size) || page_size_answer(page_size)
            ==> call_ensures(nix_page_size, (), page_size),
        call_ensures(supplementary_groups, (), groups) || groups_answer(groups) ==> call_ensures(
            nix_getgroups,
            (),
            groups,
        ),
        call_ensures(all_capabilities, (), capabilities) || capabilities_answer(capabilities)
            ==> call_ensures(caps_all, (), capabilities),
        call_ensures(no_new_privileges, (), set) || no_new_privileges_answer(set) ==> call_ensures(
            nix_get_no_new_privs,
            (),
            set,
        ),
        call_ensures(abstract_address, (name,), address) || address_answer(name, address)
            ==> call_ensures(nix_new_abstract, (name,), address),
        call_ensures(socket_address, (name,), socket) || socket_address_answer(name, socket)
            ==> call_ensures(rustix_socket_address, (name,), socket),
{
}

} // verus!
