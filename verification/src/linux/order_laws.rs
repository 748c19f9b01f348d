//! When the steps are called that a caller supplies: never before those have succeeded that come first,
//! and never with anything but what those have given. A caller whose steps can be called so, and only
//! so, can count on that. Nothing else is asked of what goes into an operation.

use nix::sys::socket::UnixAddr;
use vstd::prelude::*;

use crate::linux::environment::Environment;
use crate::linux::environment_step_laws::{is_outcome_of, Done, Told};
use crate::linux::environment_thread::{
    EnvironmentPhase, EnvironmentThread, ResourceType,
};
use crate::linux::privileges::{
    check_capability, check_fs_group, check_fs_user, check_group_ids, check_groups,
    check_no_new_privileges, check_privileges, check_secure_bits, check_user_ids,
    privileges_checked, required_group, required_user, Ids, PrivilegeFacts,
};
use crate::linux::privileges_laws::{
    is_without_capabilities, is_without_the_root_group, runs_as_the_group, runs_as_the_user,
};
use crate::linux::runtime::{
    on_termination_signal, setup_socket, Ready, Runtime, SignalHandling, SocketSteps, Uninit,
};
use crate::linux::service_error::{Failure, ServiceError};
use crate::linux::shm_allocator::{may_build, page_size_from, ShmAllocator, ShmView};
use crate::linux::shm_operation_laws::law_slots_are_free;
use crate::linux::shm_page::{create_page, PageSteps};
use crate::linux::system::{address_answer, no_new_privileges_answer};
use crate::linux::welcome_thread::{WelcomeEvent, WelcomeStep, WelcomeThread};
use crate::linux::working_dir::{
    check_mode, check_owner, setup_working_dir, working_dir_checked,
};

verus! {

/// A page can be made as soon as its file can be created: the file gets its length only once it has
/// been created, is sealed only once it has got it, and is mapped only once it has been sealed, and all
/// of that is one file.
pub proof fn law_pages_are_made_step_by_step<E, C, R, S, M>(
    page_size: usize,
    steps: PageSteps<C, R, S, M>,
) where
    C: FnOnce(&'static str, u32) -> Result<i32, E>,
    R: FnOnce(i32, i64) -> Result<(), E>,
    S: FnOnce(i32, i32) -> Result<(), E>,
    M: FnOnce(i32, usize, i32, i32) -> Result<(), E>,

    requires
        page_size <= isize::MAX,
        forall|name: &'static str|
            name@ == "shm"@ ==> #[trigger] call_requires(steps.create, (name, 0x3u32)),
        forall|name: &'static str, fd: i32|
            name@ == "shm"@ && #[trigger] call_ensures(
                steps.create,
                (name, 0x3u32),
                Ok::<i32, E>(fd),
            ) ==> call_requires(steps.resize, (fd, page_size as i64)),
        forall|fd: i32, resized: Result<(), E>| #[trigger]
            call_ensures(steps.resize, (fd, page_size as i64), resized) && resized is Ok
                ==> call_requires(steps.seal, (fd, 0x7i32)),
        forall|fd: i32, sealed: Result<(), E>| #[trigger]
            call_ensures(steps.seal, (fd, 0x7i32), sealed) && sealed is Ok ==> call_requires(
                steps.map,
                (fd, page_size, 0x3i32, 0x1i32),
            ),
    ensures
        steps.callable::<E>(page_size),
        call_requires(create_page::<E, C, R, S, M>, (page_size, steps)),
{
}

/// The sockets can be set up as soon as a socket can be opened: it passes credentials only once it is
/// open, it is bound only once it does that and there is an address, and the event is made only once it
/// is bound.
pub proof fn law_sockets_are_set_up_step_by_step<O, C, B, V>(
    name_prefix: &str,
    abstract_name: &str,
    steps: SocketSteps<O, C, B, V>,
) where
    O: FnOnce(i32, i32, i32) -> Result<i32, i32>,
    C: FnOnce(i32, bool) -> Result<(), i32>,
    B: FnOnce(i32, UnixAddr) -> Result<(), i32>,
    V: FnOnce(u32, i32) -> Result<i32, i32>,

    requires
        call_requires(steps.open, (1i32, 5i32, 0x80000i32)),
        forall|socket: i32| #[trigger]
            call_ensures(steps.open, (1i32, 5i32, 0x80000i32), Ok::<i32, i32>(socket))
                ==> call_requires(steps.pass_credentials, (socket, true)),
        forall|socket: i32, passing: Result<(), i32>, name: &str, address: UnixAddr|
            #[trigger] call_ensures(steps.pass_credentials, (socket, true), passing)
                && passing is Ok && name@ == name_prefix@ + abstract_name@
                && #[trigger] address_answer(name, Ok::<UnixAddr, i32>(address)) ==> call_requires(
                steps.bind,
                (socket, address),
            ),
        forall|socket: i32, address: UnixAddr, bound: Result<(), i32>| #[trigger]
            call_ensures(steps.bind, (socket, address), bound) && bound is Ok ==> call_requires(
                steps.create_event,
                (0u32, 0x80800i32),
            ),
    ensures
        steps.callable(name_prefix@ + abstract_name@),
        call_requires(setup_socket::<O, C, B, V>, (name_prefix, abstract_name, steps)),
{
}

/// The privileges can be checked as soon as the secure bits can be read of a process that has passed
/// everything else; in debug mode nothing is needed but the warning.
pub proof fn law_secure_bits_are_read_last<W: FnOnce(&'static str), S: FnOnce() -> (i32, i32)>(
    debug_mode: bool,
    warn: W,
    read_secure_bits: S,
)
    requires
        forall|warning: &'static str|
            debug_mode && warning@ == "privilege checks are disabled in debug mode"@
                ==> #[trigger] call_requires(warn, (warning,)),
        !debug_mode && runs_as_the_user() && runs_as_the_group() && is_without_the_root_group()
            && is_without_capabilities() && no_new_privileges_answer(Ok(true)) ==> call_requires(
            read_secure_bits,
            (),
        ),
    ensures
        call_requires(check_privileges::<W, S>, (debug_mode, warn, read_secure_bits)),
{
    assert forall|facts: PrivilegeFacts|
        !debug_mode && #[trigger] facts.secure_bits_are_next() implies call_requires(
        read_secure_bits,
        (),
    ) by {
        crate::linux::privileges_laws::lemma_passed(facts);
        assert(facts.no_new_privs == Ok::<bool, i32>(true));
    }
}

/// Whether a path is a directory is asked only of the path that is given, and only once there has been
/// found something.
pub proof fn law_directories_are_looked_at_second<E, X, D>(
    dir: Option<&str>,
    debug_mode: bool,
    is_there: X,
    is_dir: D,
) where X: FnOnce(&str) -> Result<bool, E>, D: FnOnce(&str) -> Result<bool, E>
    requires
        dir matches Some(path) ==> call_requires(is_there, (path,)),
        dir matches Some(path) ==> (call_ensures(is_there, (path,), Ok::<bool, E>(true))
            ==> call_requires(is_dir, (path,))),
    ensures
        call_requires(setup_working_dir::<E, X, D>, (dir, debug_mode, is_there, is_dir)),
{
}

/// The signals are handled only once the event has been left to the handler, the second one only once
/// the first one is, and the thread is started only once both are.
pub proof fn law_the_thread_is_started_last<E, P, I, J, T>(
    service: Runtime<Ready>,
    publish_event: P,
    handle_termination: I,
    handle_interrupt: J,
    spawn: T,
) where
    P: FnOnce(i32),
    I: FnOnce(SignalHandling) -> Result<(), E>,
    J: FnOnce(SignalHandling) -> Result<(), E>,
    T: FnOnce(i32, i32) -> Result<(), E>,

    requires
        call_requires(publish_event, (service.state_data.shutdown_event,)),
        forall|how: SignalHandling|
            how.signal == 15 && how.blocked == (15i32, 2i32) && how.flags == 0x1000_0000
                && call_ensures(publish_event, (service.state_data.shutdown_event,), ())
                ==> #[trigger] call_requires(handle_termination, (how,)),
        forall|first: SignalHandling, done: Result<(), E>, how: SignalHandling|
            first.signal == 15 && #[trigger] call_ensures(handle_termination, (first,), done)
                && done is Ok && how.signal == 2 && how.blocked == (15i32, 2i32) && how.flags
                == 0x1000_0000 ==> #[trigger] call_requires(handle_interrupt, (how,)),
        forall|second: SignalHandling, done: Result<(), E>|
            second.signal == 2 && #[trigger] call_ensures(handle_interrupt, (second,), done)
                && done is Ok ==> call_requires(
                spawn,
                (service.state_data.welcome_socket, service.state_data.shutdown_event),
            ),
    ensures
        call_requires(
            Runtime::<Ready>::listen::<E, P, I, J, T>,
            (service, publish_event, handle_termination, handle_interrupt, spawn),
        ),
{
}

/// The thread of an environment is started only once both of its events have been made, and with these;
/// the second one is made only once there is the first.
pub proof fn law_environments_are_started_step_by_step<E, A, D, T>(
    name: &str,
    create_add_listener_event: A,
    create_drop_event: D,
    spawn: T,
) where
    A: FnOnce(u32, i32) -> Result<i32, E>,
    D: FnOnce(u32, i32) -> Result<i32, E>,
    T: FnOnce(String, i32, i32) -> Result<(), E>,

    requires
        call_requires(create_add_listener_event, (0u32, 0x80800i32)),
        forall|added: i32| #[trigger]
            call_ensures(create_add_listener_event, (0u32, 0x80800i32), Ok::<i32, E>(added))
                ==> call_requires(create_drop_event, (0u32, 0x80800i32)),
        forall|text: String, added: i32, dropped: i32|
            text@ == name@ && call_ensures(
                create_add_listener_event,
                (0u32, 0x80800i32),
                Ok::<i32, E>(added),
            ) && call_ensures(
                create_drop_event,
                (0u32, 0x80800i32),
                Ok::<i32, E>(dropped),
            ) ==> #[trigger] call_requires(spawn, (text, added, dropped)),
    ensures
        call_requires(
            Environment::new::<E, A, D, T>,
            (name, create_add_listener_event, create_drop_event, spawn),
        ),
{
}

/// A client is announced only once its socket has been sent, and the answer is waited for only once the
/// client has been announced.
pub proof fn law_clients_are_sent_before_they_are_announced<E, S, W, A>(
    environment: &Environment,
    socket: i32,
    send: S,
    write: W,
    receive_answer: A,
) where
    S: FnOnce(i32) -> Result<(), E>,
    W: FnOnce(i32, u64) -> Result<(), E>,
    A: FnOnce() -> Result<Result<(), E>, E>,

    requires
        call_requires(send, (socket,)),
        forall|sent: Result<(), E>| #[trigger]
            call_ensures(send, (socket,), sent) && sent is Ok ==> call_requires(
                write,
                (environment.add_listener_event, 1u64),
            ),
        forall|written: Result<(), E>| #[trigger]
            call_ensures(write, (environment.add_listener_event, 1u64), written) && written is Ok
                ==> call_requires(receive_answer, ()),
    ensures
        call_requires(
            Environment::insert_socket::<E, S, W, A>,
            (environment, socket, send, write, receive_answer),
        ),
{
}

/// A page is asked for only where nothing speaks against the resource and the last page has no offset
/// left for it. A constructor is called only once that page has been made, where one is needed, and
/// only in a slot that is free.
pub proof fn law_resources_are_built_last<E, C, R, S, M, F>(
    shm: &mut ShmAllocator,
    name: &str,
    type_id: u128,
    size: usize,
    align: usize,
    steps: PageSteps<C, R, S, M>,
    placement_constructor: F,
) where
    C: FnOnce(&'static str, u32) -> Result<i32, E>,
    R: FnOnce(i32, i64) -> Result<(), E>,
    S: FnOnce(i32, i32) -> Result<(), E>,
    M: FnOnce(i32, usize, i32, i32) -> Result<(), E>,
    F: FnOnce(usize, usize) -> Result<(), E>,

    requires
        old(shm).wf(),
        align > 0,
        !old(shm)@.slots.contains_key(name@) && size <= old(shm)@.page_size && align <= old(
            shm,
        )@.page_size && (old(shm)@.pages.len() == 0 || forall|offset: int|
            old(shm)@.free_ptr <= offset && #[trigger] (offset % align as int) == 0 ==> offset
                + size > old(shm)@.page_size) ==> steps.callable::<E>(
            old(shm)@.page_size as usize,
        ),
        forall|page: usize, offset: usize|
            !old(shm)@.slots.contains_key(name@) && offset as int % align as int == 0 && offset
                + size <= old(shm)@.page_size && ((page == old(shm)@.pages.len() - 1 && old(
                shm,
            )@.free_ptr <= offset < old(shm)@.free_ptr + align) || (page == old(shm)@.pages.len()
                && offset == 0 && exists|fd: i32| #[trigger]
                steps.made(old(shm)@.page_size as usize, Ok::<i32, E>(fd)))) ==> #[trigger]
            call_requires(placement_constructor, (page, offset)),
    ensures
        call_requires(
            ShmAllocator::construct_in_shm::<E, C, R, S, M, F>,
            (shm, name, type_id, size, align, steps, placement_constructor),
        ),
{
    old(shm).lemma_wf();
    let before = old(shm)@;
    lemma_room(before, size as int, align as int);
    assert forall|page: usize, offset: usize|
        may_build(
            before,
            name@,
            size as int,
            align as int,
            steps.outcomes::<E>(before.page_size as usize),
            page,
            offset,
        ) implies #[trigger] call_requires(placement_constructor, (page, offset)) by {
        law_slots_are_free(
            before,
            name@,
            size as int,
            align as int,
            steps.outcomes::<E>(before.page_size as usize),
            page,
            offset,
            name@,
        );
        if page == before.pages.len() {
            let fd = choose|fd: i32| #[trigger]
                steps.outcomes::<E>(before.page_size as usize)(Ok(fd));
            assert(steps.made(before.page_size as usize, Ok::<i32, E>(fd)));
        }
    }
}

/// The same of a resource that is moved.
pub proof fn law_resources_are_moved_last<E, T, C, R, S, M, W>(
    shm: &mut ShmAllocator,
    name: &str,
    type_id: u128,
    size: usize,
    align: usize,
    resource: T,
    steps: PageSteps<C, R, S, M>,
    write: W,
) where
    C: FnOnce(&'static str, u32) -> Result<i32, E>,
    R: FnOnce(i32, i64) -> Result<(), E>,
    S: FnOnce(i32, i32) -> Result<(), E>,
    M: FnOnce(i32, usize, i32, i32) -> Result<(), E>,
    W: FnOnce(T, usize, usize),

    requires
        old(shm).wf(),
        align > 0,
        !old(shm)@.slots.contains_key(name@) && size <= old(shm)@.page_size && align <= old(
            shm,
        )@.page_size && (old(shm)@.pages.len() == 0 || forall|offset: int|
            old(shm)@.free_ptr <= offset && #[trigger] (offset % align as int) == 0 ==> offset
                + size > old(shm)@.page_size) ==> steps.callable::<E>(
            old(shm)@.page_size as usize,
        ),
        forall|page: usize, offset: usize|
            !old(shm)@.slots.contains_key(name@) && offset as int % align as int == 0 && offset
                + size <= old(shm)@.page_size && ((page == old(shm)@.pages.len() - 1 && old(
                shm,
            )@.free_ptr <= offset < old(shm)@.free_ptr + align) || (page == old(shm)@.pages.len()
                && offset == 0 && exists|fd: i32| #[trigger]
                steps.made(old(shm)@.page_size as usize, Ok::<i32, E>(fd)))) ==> #[trigger]
            call_requires(write, (resource, page, offset)),
    ensures
        call_requires(
            ShmAllocator::move_into_shm::<E, T, C, R, S, M, W>,
            (shm, name, type_id, size, align, resource, steps, write),
        ),
{
    old(shm).lemma_wf();
    let before = old(shm)@;
    lemma_room(before, size as int, align as int);
    assert forall|page: usize, offset: usize|
        may_build(
            before,
            name@,
            size as int,
            align as int,
            steps.outcomes::<E>(before.page_size as usize),
            page,
            offset,
        ) implies #[trigger] call_requires(write, (resource, page, offset)) by {
        law_slots_are_free(
            before,
            name@,
            size as int,
            align as int,
            steps.outcomes::<E>(before.page_size as usize),
            page,
            offset,
            name@,
        );
        if page == before.pages.len() {
            let fd = choose|fd: i32| #[trigger]
                steps.outcomes::<E>(before.page_size as usize)(Ok(fd));
            assert(steps.made(before.page_size as usize, Ok::<i32, E>(fd)));
        }
    }
}

/// Where a page is needed, the last one has no offset left.
proof fn lemma_room(before: ShmView, size: int, align: int)
    requires
        before.wf(),
        0 <= size,
        0 < align,
    ensures
        before.needs_page(size, align) ==> before.pages.len() == 0 || forall|offset: int|
            before.free_ptr <= offset && #[trigger] (offset % align) == 0 ==> offset + size
                > before.page_size,
{
    if before.needs_page(size, align) {
        assert forall|offset: int|
            before.pages.len() > 0 && before.free_ptr <= offset && #[trigger] (offset % align)
                == 0 implies offset + size > before.page_size by {
            crate::linux::shm_laws::law_align_up_is_least(before.free_ptr, align, offset);
        }
    }
}

/// Every outcome of the action that the thread of an environment has asked for can be handed to it.
pub proof fn law_outcomes_can_be_told<E>(
    thread: EnvironmentThread<E>,
    told: Told<E>,
    r: Done<E>,
    outcome: Told<E>,
)
    requires
        thread.wf(),
        thread@.expects(told@),
        call_ensures(EnvironmentThread::<E>::next, (thread, told), r),
        is_outcome_of(outcome, r.1.action),
    ensures
        call_requires(EnvironmentThread::<E>::next, (r.0, outcome)),
{
    crate::linux::environment_step_laws::lemma_expected(thread, told, r, outcome);
}

/// Every outcome of the action that the welcome thread has asked for can be handed to it.
pub proof fn law_outcomes_can_be_told_to_the_welcome_thread<V, E>(
    thread: WelcomeThread<V, E>,
    told: WelcomeEvent<String, Vec<u8>, V, E>,
    r: (WelcomeThread<V, E>, WelcomeStep<E>),
    outcome: WelcomeEvent<String, Vec<u8>, V, E>,
)
    requires
        thread@.expects(told@),
        call_ensures(WelcomeThread::<V, E>::next, (thread, told), r),
        crate::linux::welcome_step_laws::is_outcome_of(outcome, r.1.action),
    ensures
        call_requires(WelcomeThread::<V, E>::next, (r.0, outcome)),
{
}

/// A mutex can be opened for whoever has asked for one, whatever its name is: it is initialised only
/// where there is none of that name, a page is asked for only once it has been initialised and only
/// where the last page has no offset left, and it is written only once there is a slot for it.
pub proof fn law_mutexes_are_initialised_first<E, T, I, C, R, S, M, W>(
    thread: EnvironmentThread<E>,
    mutex: ResourceType,
    init: I,
    steps: PageSteps<C, R, S, M>,
    write: W,
    fd: i32,
    name: Seq<char>,
) where
    I: FnOnce() -> Result<T, E>,
    C: FnOnce(&'static str, u32) -> Result<i32, E>,
    R: FnOnce(i32, i64) -> Result<(), E>,
    S: FnOnce(i32, i32) -> Result<(), E>,
    M: FnOnce(i32, usize, i32, i32) -> Result<(), E>,
    W: FnOnce(T, usize, usize),

    requires
        thread.wf(),
        mutex.align > 0,
        thread@.phase == (EnvironmentPhase::<Seq<char>, E>::OpeningMutex { fd, name }),
        !(thread@.shm->0).slots.contains_key(name) ==> call_requires(init, ()),
        forall|resource: T| #[trigger]
            call_ensures(init, (), Ok::<T, E>(resource)) && !(
            thread@.shm->0).slots.contains_key(name) && mutex.size <= (thread@.shm->0).page_size
                && mutex.align <= (thread@.shm->0).page_size && ((thread@.shm->0).pages.len() == 0
                || forall|offset: int|
                (thread@.shm->0).free_ptr <= offset && #[trigger] (offset % mutex.align as int)
                    == 0 ==> offset + mutex.size > (thread@.shm->0).page_size)
                ==> steps.callable::<E>((thread@.shm->0).page_size as usize),
        forall|resource: T, page: usize, offset: usize|
            call_ensures(init, (), Ok::<T, E>(resource)) && !(
            thread@.shm->0).slots.contains_key(name) && offset as int % mutex.align as int == 0
                && offset + mutex.size <= (thread@.shm->0).page_size && ((page == (
            thread@.shm->0).pages.len() - 1 && (thread@.shm->0).free_ptr <= offset < (
            thread@.shm->0).free_ptr + mutex.align) || (page == (thread@.shm->0).pages.len()
                && offset == 0 && exists|file: i32| #[trigger]
                steps.made((thread@.shm->0).page_size as usize, Ok::<i32, E>(file))))
                ==> #[trigger] call_requires(write, (resource, page, offset)),
    ensures
        call_requires(
            EnvironmentThread::<E>::open_mutex::<T, I, C, R, S, M, W>,
            (thread, mutex, init, steps, write),
        ),
{
    thread.lemma_wf();
    let before = thread@.shm->0;
    let made = steps.outcomes::<E>(before.page_size as usize);
    lemma_room(before, mutex.size as int, mutex.align as int);
    assert forall|resource: T, page: usize, offset: usize|
        call_ensures(init, (), Ok::<T, E>(resource)) && may_build(
            before,
            name,
            mutex.size as int,
            mutex.align as int,
            made,
            page,
            offset,
        ) implies #[trigger] call_requires(write, (resource, page, offset)) by {
        law_slots_are_free(
            before,
            name,
            mutex.size as int,
            mutex.align as int,
            made,
            page,
            offset,
            name,
        );
        if page == before.pages.len() {
            let file = choose|file: i32| #[trigger] made(Ok(file));
            assert(steps.made(before.page_size as usize, Ok::<i32, E>(file)));
        }
    }
}

/// A service can be started as soon as its steps can be called one after the other: the directory is
/// looked at only once the privileges have been checked, and the sockets are set up only once the
/// directory has been checked as well.
pub proof fn law_services_are_checked_first<E, W, S, X, D, O, C, B, V>(
    service: Runtime<Uninit>,
    debug_mode: bool,
    warn: W,
    read_secure_bits: S,
    is_there: X,
    is_dir: D,
    name_prefix: &str,
    abstract_name: &str,
    steps: SocketSteps<O, C, B, V>,
) where
    W: FnOnce(&'static str),
    S: FnOnce() -> (i32, i32),
    X: FnOnce(&str) -> Result<bool, E>,
    D: FnOnce(&str) -> Result<bool, E>,
    O: FnOnce(i32, i32, i32) -> Result<i32, i32>,
    C: FnOnce(i32, bool) -> Result<(), i32>,
    B: FnOnce(i32, UnixAddr) -> Result<(), i32>,
    V: FnOnce(u32, i32) -> Result<i32, i32>,

    requires
        forall|warning: &'static str|
            debug_mode && warning@ == "privilege checks are disabled in debug mode"@
                ==> #[trigger] call_requires(warn, (warning,)),
        !debug_mode && runs_as_the_user() && runs_as_the_group() && is_without_the_root_group()
            && is_without_capabilities() && no_new_privileges_answer(Ok(true)) ==> call_requires(
            read_secure_bits,
            (),
        ),
        forall|dir: &str|
            dir@ == service.working_dir_path@ && privileges_checked(
                debug_mode,
                warn,
                read_secure_bits,
                Ok::<(), ServiceError>(()),
            ) ==> #[trigger] call_requires(is_there, (dir,)),
        forall|dir: &str|
            dir@ == service.working_dir_path@ && call_ensures(
                is_there,
                (dir,),
                Ok::<bool, E>(true),
            ) ==> #[trigger] call_requires(is_dir, (dir,)),
        forall|dir: &str|
            dir@ == service.working_dir_path@ && privileges_checked(
                debug_mode,
                warn,
                read_secure_bits,
                Ok::<(), ServiceError>(()),
            ) && #[trigger] working_dir_checked(
                Some(dir),
                debug_mode,
                is_there,
                is_dir,
                Ok::<(), Failure<E>>(()),
            ) ==> steps.callable(name_prefix@ + abstract_name@),
    ensures
        call_requires(
            Runtime::<Uninit>::init::<E, W, S, X, D, O, C, B, V>,
            (
                service,
                debug_mode,
                warn,
                read_secure_bits,
                is_there,
                is_dir,
                name_prefix,
                abstract_name,
                steps,
            ),
        ),
{
    assert forall|facts: PrivilegeFacts|
        !debug_mode && #[trigger] facts.secure_bits_are_next() implies call_requires(
        read_secure_bits,
        (),
    ) by {
        crate::linux::privileges_laws::lemma_passed(facts);
        assert(facts.no_new_privs == Ok::<bool, i32>(true));
    }
    assert forall|privileges: Result<(), ServiceError>| #[trigger]
        privileges_checked(debug_mode, warn, read_secure_bits, privileges)
            && privileges is Ok implies privileges_checked(
        debug_mode,
        warn,
        read_secure_bits,
        Ok::<(), ServiceError>(()),
    ) by {
        assert(privileges->Ok_0 == ());
        assert(privileges == Ok::<(), ServiceError>(privileges->Ok_0));
    }
    assert forall|dir: &str, checked: Result<(), Failure<E>>| #[trigger]
        working_dir_checked(Some(dir), debug_mode, is_there, is_dir, checked)
            && checked is Ok implies working_dir_checked(
        Some(dir),
        debug_mode,
        is_there,
        is_dir,
        Ok::<(), Failure<E>>(()),
    ) by {
        assert(checked->Ok_0 == ());
        assert(checked == Ok::<(), Failure<E>>(checked->Ok_0));
    }
}

/// Nothing is asked of what an allocator is searched for or whose resources it holds, and a page can
/// have every size that a page can have.
pub proof fn law_allocators_can_be_used(
    shm: &ShmAllocator,
    given_up: ShmAllocator,
    name: &str,
    type_id: u128,
    requested_type: &'static str,
    page_size: usize,
    setting: Result<Option<i64>, i32>,
)
    requires
        shm.wf(),
        given_up.wf(),
    ensures
        call_requires(ShmAllocator::find_resource, (shm, name, type_id, requested_type)),
        call_requires(ShmAllocator::teardown, (given_up,)),
        0 < page_size <= isize::MAX ==> call_requires(ShmAllocator::with_page_size, (page_size,)),
        call_requires(ShmAllocator::new, ()),
        call_requires(page_size_from, (setting,)),
{
}

/// A thread can begin under every name and with or without memory, can be asked what it expects at any
/// time, and can be given up at any time.
pub proof fn law_threads_can_be_used<E, V>(
    name: String,
    add_listener: i32,
    drop_event: i32,
    shm: Result<ShmAllocator, Failure<E>>,
    thread: EnvironmentThread<E>,
    told: Told<E>,
    welcome: WelcomeThread<V, E>,
    heard: WelcomeEvent<String, Vec<u8>, V, E>,
    asked: &str,
)
    requires
        shm matches Ok(shm) ==> shm.wf(),
        thread.wf(),
    ensures
        call_requires(EnvironmentThread::<E>::start, (name, add_listener, drop_event, shm)),
        call_requires(EnvironmentThread::<E>::expects, (&thread, &told)),
        call_requires(EnvironmentThread::<E>::finish, (thread,)),
        call_requires(WelcomeThread::<V, E>::start, ()),
        call_requires(WelcomeThread::<V, E>::expects, (&welcome, &heard)),
        call_requires(WelcomeThread::<V, E>::environment, (&welcome, asked)),
{
}

/// Whatever the system answers can be checked.
pub proof fn law_every_answer_can_be_checked(
    lookup: Result<Option<u32>, i32>,
    id: u32,
    other: u32,
    ids: Result<Ids, i32>,
    groups: Result<Vec<u32>, i32>,
    has: Result<bool, String>,
    set: Result<bool, i32>,
    answer: i32,
    errno: i32,
    dir: &str,
    owner: String,
)
    ensures
        call_requires(required_user, (lookup,)),
        call_requires(required_group, (lookup,)),
        call_requires(check_user_ids, (id, ids)),
        call_requires(check_group_ids, (id, ids)),
        call_requires(check_fs_user, (id, other)),
        call_requires(check_fs_group, (id, other)),
        call_requires(check_groups, (groups,)),
        call_requires(check_capability, (has,)),
        call_requires(check_no_new_privileges, (set,)),
        call_requires(check_secure_bits, (answer, errno)),
        call_requires(check_mode, (dir, id)),
        call_requires(check_owner, (dir, id, id, other, owner, other)),
        call_requires(on_termination_signal, (answer,)),
{
}

} // verus!
