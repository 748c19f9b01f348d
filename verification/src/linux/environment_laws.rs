//! What can be relied on of the thread of an environment.

use vstd::prelude::*;
use vstd::utf8::{encode_utf8, encode_utf8_decode_utf8, encode_utf8_valid_utf8};

use crate::linux::environment_thread::{
    data_of, fd_of, kept, opened, Admission, EnvironmentAction, EnvironmentEvent, EnvironmentOutcome,
    EnvironmentPhase, EnvironmentState, Opened, Readiness, ResourceType, EPOLLRDHUP,
};
use crate::linux::service_error::{errors_of, Failure};
use crate::linux::settings::EVENT_TRIGGER;
use crate::linux::shm_allocator::{constructed, moving, ClientResourceLocation, ShmView};
use crate::linux::shm_laws::lemma_constructed;
use crate::protocol::{EnvironmentRequest, EnvironmentResponse};

verus! {

/// The outcome of an action, over texts and bytes.
pub type Event<E> = EnvironmentEvent<Seq<char>, Seq<u8>, Seq<Readiness>, E>;

/// The error that an event carries.
pub open spec fn error_in<E>(event: Event<E>) -> Option<E> {
    match event {
        EnvironmentEvent::EpollCreated(Err(e)) => Some(e),
        EnvironmentEvent::Registered(Err(e)) => Some(e),
        EnvironmentEvent::Waited(Err(e)) => Some(e),
        EnvironmentEvent::AddListenerEventRead(Err(e)) => Some(e),
        EnvironmentEvent::DropEventRead(Err(e)) => Some(e),
        EnvironmentEvent::RequestReceived(Err(e)) => Some(e),
        EnvironmentEvent::Responded(Err(e)) => Some(e),
        EnvironmentEvent::Reported(Err(e)) => Some(e),
        EnvironmentEvent::NameSent(Err(e)) => Some(e),
        EnvironmentEvent::CloseEventWritten(Err(e)) => Some(e),
        _ => None,
    }
}

/// The errors that a phase keeps until they are reported.
pub open spec fn errors_kept<E>(phase: EnvironmentPhase<Seq<char>, E>) -> Seq<Failure<E>> {
    match phase {
        EnvironmentPhase::Answering { failure: Some(failure) } => seq![failure],
        EnvironmentPhase::SendingName { unreported } => kept(unreported),
        EnvironmentPhase::WritingCloseEvent { unreported, unsent } => kept(unreported) + kept(
            unsent,
        ),
        _ => seq![],
    }
}

/// The errors of an outcome that have been or will be told of.
pub open spec fn told<E>(outcome: EnvironmentOutcome<E>) -> Seq<Failure<E>> {
    outcome.reports + errors_kept(outcome.state.phase) + match outcome.action {
        EnvironmentAction::Report(failure) => seq![failure],
        _ => seq![],
    }
}

/// The sockets that a thread has in its hands: those of its clients, and one that it is about to
/// take in.
pub open spec fn held<E>(state: EnvironmentState<E>) -> Set<i32> {
    match state.phase {
        EnvironmentPhase::RegisteringListener { fd } => state.sockets.insert(fd),
        _ => state.sockets,
    }
}

/// What is common to everything that can come after an event has been dealt with.
proof fn lemma_continues<E>(
    state: EnvironmentState<E>,
    reports: Seq<Failure<E>>,
    closes: Seq<i32>,
)
    ensures
        ({
            let after = state.continues(reports, closes);
            &&& after.reports == reports
            &&& after.answer is None
            &&& closes.no_duplicates() && state.sockets.disjoint(closes.to_set()) ==> {
                &&& after.closes.no_duplicates()
                &&& after.state.sockets.disjoint(after.closes.to_set())
                &&& after.state.sockets.union(after.closes.to_set()) == state.sockets.union(
                    closes.to_set(),
                )
            }
            &&& after.state.sockets.subset_of(state.sockets)
            &&& after.state.shm == state.shm
            &&& after.state.name == state.name
            &&& after.state.add_listener == state.add_listener
            &&& after.state.drop_event == state.drop_event
            &&& match after.state.phase {
                EnvironmentPhase::Waiting => after.action is Wait,
                EnvironmentPhase::ReadingAddListenerEvent => after.action is ReadAddListenerEvent,
                EnvironmentPhase::ReadingDropEvent => after.action is ReadDropEvent,
                EnvironmentPhase::SendingName { unreported } => unreported is None && after.action
                    == EnvironmentAction::<Seq<char>, E>::SendName(state.name)
                    && after.state.sockets.is_empty(),
                EnvironmentPhase::ReceivingRequest { fd } => after.action == (EnvironmentAction::<
                    Seq<char>,
                    E,
                >::ReceiveRequest { fd }),
                _ => false,
            }
        }),
    decreases state.pending.len(),
{
    if state.pending.len() > 0 {
        let readiness = state.pending[0];
        let fd = fd_of(readiness.data);
        if readiness.data != data_of(state.add_listener) && readiness.data != data_of(
            state.drop_event,
        ) && readiness.events & EPOLLRDHUP != 0 {
            let left = EnvironmentState {
                pending: state.pending.drop_first(),
                sockets: state.sockets.remove(fd),
                ..state
            };
            let more = if state.sockets.contains(fd) {
                closes.push(fd)
            } else {
                closes
            };
            closes.lemma_push_to_set_commute(fd);
            if state.sockets.contains(fd) && closes.no_duplicates() && state.sockets.disjoint(
                closes.to_set(),
            ) {
                assert(!closes.contains(fd)) by {
                    if closes.contains(fd) {
                        assert(closes.to_set().contains(fd));
                    }
                }
                assert forall|i: int, j: int| 0 <= i < j < more.len() implies more[i] != more[j] by {
                    if j == closes.len() {
                        assert(closes.contains(closes[i]));
                    }
                }
            }
            assert(left.sockets.union(more.to_set()) =~= state.sockets.union(closes.to_set()));
            if !left.sockets.is_empty() {
                lemma_continues(left, reports, more);
            }
        }
    }
}

/// What is common to everything that can follow on an event.
pub(crate) proof fn lemma_next<E>(state: EnvironmentState<E>, event: Event<E>)
    requires
        state.expects(event),
    ensures
        ({
            let after = state.next(event);
            &&& after.state.shm == state.shm
            &&& after.state.name == state.name
            &&& after.state.sockets.subset_of(held(state))
            &&& after.state.phase matches EnvironmentPhase::RegisteringListener { fd } ==> event
                == Event::<E>::ListenerReceived(fd)
            &&& !(state.phase is RegisteringListener
                && state.sockets.contains(state.phase->RegisteringListener_fd)) ==> {
                &&& after.closes.no_duplicates()
                &&& after.state.sockets.disjoint(after.closes.to_set())
                &&& event !is ListenerReceived ==> after.state.sockets.union(after.closes.to_set())
                    == held(state)
                &&& event is ListenerReceived ==> after.state.sockets == state.sockets
                    && after.closes.len() == 0
            }
            &&& after.answer is Some ==> event is AddListenerEventRead || (event is Registered
                && state.phase is RegisteringListener)
            &&& told(after) == errors_kept(state.phase) + kept(error_in(event))
            &&& after.action is Report ==> error_in(event) is Some && (event is EpollCreated
                || event is Waited || (event is Registered && state.phase !is RegisteringListener))
            &&& after.action is SendName && event !is Reported ==> after.state.sockets.is_empty()
            &&& match after.state.phase {
                EnvironmentPhase::SendingName { .. } => after.action == EnvironmentAction::<
                    Seq<char>,
                    E,
                >::SendName(state.name),
                EnvironmentPhase::WritingCloseEvent { .. } => after.action == (EnvironmentAction::<
                    Seq<char>,
                    E,
                >::WriteCloseEvent { value: EVENT_TRIGGER }),
                EnvironmentPhase::Stopped => after.action is Stop,
                EnvironmentPhase::ReadingDropEvent => after.action is ReadDropEvent,
                _ => after.action !is SendName && after.action !is WriteCloseEvent
                    && after.action !is ReadDropEvent && after.action !is Stop,
            }
            &&& after.state.phase is WritingCloseEvent <==> event is NameSent
            &&& after.state.phase is Stopped <==> event is DropEventRead
                || event is CloseEventWritten
        }),
{
    let none = Seq::<i32>::empty();
    assert(none.to_set() =~= Set::empty());
    match event {
        EnvironmentEvent::Registered(r) => match state.phase {
            EnvironmentPhase::RegisteringListener { fd } => {
                let more = EnvironmentState { sockets: state.sockets.insert(fd), ..state };
                lemma_continues(more, seq![], none);
                let one = seq![fd];
                assert(one.to_set() =~= set![fd]) by {
                    assert(one[0] == fd);
                }
                lemma_continues(state, errors_of(r), one);
            },
            _ => {
                lemma_continues(state, seq![], none);
            },
        },
        EnvironmentEvent::Waited(Ok(readiness)) => {
            lemma_continues(EnvironmentState { pending: readiness, ..state }, seq![], none);
        },
        EnvironmentEvent::AddListenerEventRead(r) => {
            lemma_continues(state, errors_of(r), none);
        },
        EnvironmentEvent::RequestReceived(r) => {
            lemma_continues(state, errors_of(r), none);
        },
        EnvironmentEvent::Responded(r) => {
            lemma_continues(state, errors_of(r), none);
            if let EnvironmentPhase::Answering { failure: Some(failure) } = state.phase {
                lemma_continues(state, seq![failure] + errors_of(r), none);
            }
        },
        _ => {},
    }
    assert(told(state.next(event)) =~= errors_kept(state.phase) + kept(error_in(event)));
}

/// What the thread is told leads from an orderly state to an orderly state.
pub proof fn law_states_stay_orderly<E>(state: EnvironmentState<E>, event: Event<E>)
    requires
        state.wf(),
        state.expects(event),
    ensures
        state.next(event).state.wf(),
{
    lemma_next(state, event);
    let after = state.next(event);
    assert forall|fd: i32| #[trigger] after.state.sockets.contains(fd) implies fd >= 0 by {
        if after.state.phase is RegisteringListener {
        } else {
            assert(held(state).contains(fd) || state.sockets.contains(fd));
        }
    }
}

/// No socket is lost and none is closed twice: whatever a thread has in its hands it either keeps
/// or closes once, provided that a socket that it receives is not one of those that it has.
pub proof fn law_sockets_are_closed_once<E>(state: EnvironmentState<E>, event: Event<E>)
    requires
        state.expects(event),
        state.phase matches EnvironmentPhase::RegisteringListener { fd }
            ==> !state.sockets.contains(fd),
    ensures
        ({
            let after = state.next(event);
            let taken = match event {
                EnvironmentEvent::ListenerReceived(fd) => held(state).insert(fd),
                _ => held(state),
            };
            &&& after.closes.no_duplicates()
            &&& after.state.sockets.disjoint(after.closes.to_set())
            &&& held(after.state).union(after.closes.to_set()) == taken
        }),
{
    lemma_next(state, event);
    let after = state.next(event);
    if event is ListenerReceived {
        assert(after.closes.to_set() =~= Set::empty());
        assert(held(after.state).union(after.closes.to_set()) =~= held(after.state));
    }
}

/// No error is lost: what an event carries, and what the thread has kept back, is reported, is
/// about to be reported, or is kept back.
pub proof fn law_errors_are_told<E>(state: EnvironmentState<E>, event: Event<E>)
    requires
        state.expects(event),
    ensures
        error_in(event) matches Some(e) ==> told(state.next(event)).contains(Failure::Outside(e)),
        forall|failure: Failure<E>|
            errors_kept(state.phase).contains(failure) ==> #[trigger] told(
                state.next(event),
            ).contains(failure),
{
    lemma_next(state, event);
    let after = state.next(event);
    let all = told(after);
    let before = errors_kept(state.phase) + kept(error_in(event));
    assert(all =~= before);
    if let Some(e) = error_in(event) {
        assert(before.last() == Failure::Outside(e));
        assert(all[all.len() - 1] == Failure::Outside(e));
    }
    assert forall|failure: Failure<E>| errors_kept(state.phase).contains(failure) implies #[trigger]
    all.contains(failure) by {
        let i = choose|i: int|
            0 <= i < errors_kept(state.phase).len() && errors_kept(state.phase)[i] == failure;
        assert(all[i] == failure);
    }
}

/// An environment that cannot go on says why, tells its owner its name, rings the owner's bell, and
/// ends, whatever goes wrong on the way; what went wrong on the way is reported at the end, in
/// order.
pub proof fn law_failures_are_announced<E>(
    state: EnvironmentState<E>,
    event: Event<E>,
    reported: Result<(), E>,
    sent: Result<(), E>,
    written: Result<(), E>,
)
    requires
        state.expects(event),
        state.next(event).action is Report,
    ensures
        ({
            let reporting = state.next(event);
            let sending = reporting.state.next(EnvironmentEvent::Reported(reported));
            let writing = sending.state.next(EnvironmentEvent::NameSent(sent));
            let stopping = writing.state.next(EnvironmentEvent::CloseEventWritten(written));
            &&& error_in(event) matches Some(e) && reporting.action == EnvironmentAction::<
                Seq<char>,
                E,
            >::Report(Failure::Outside(e))
            &&& sending.action == EnvironmentAction::<Seq<char>, E>::SendName(state.name)
            &&& writing.action is WriteCloseEvent
            &&& stopping.action is Stop
            &&& stopping.reports == errors_of(reported) + errors_of(sent) + errors_of(written)
        }),
{
    lemma_next(state, event);
}

/// Whatever clients ask and however they fail to take the answer, and whether or not one can be
/// taken in, the environment goes on: it closes only when it is dropped, when the system below it
/// fails, or when no client is left.
pub proof fn law_clients_do_not_stop_the_thread<E>(state: EnvironmentState<E>, event: Event<E>)
    requires
        state.expects(event),
        event is AddListenerEventRead || event is ListenerReceived || event is RequestReceived
            || event is RequestParsed || event is Responded || (event is Registered
            && state.phase is RegisteringListener),
    ensures
        state.next(event).action !is Stop,
        state.next(event).action !is Report,
        state.next(event).action is SendName ==> state.next(event).state.sockets.is_empty(),
{
    lemma_next(state, event);
}

/// The owner gets one answer for every client that it announces: it is told whether the client has
/// been taken in when that turns out, and nothing at any other time. What comes between the
/// announcement and the answer is the reading of the event and the receiving of the socket.
pub proof fn law_owner_is_answered_once<E>(state: EnvironmentState<E>, event: Event<E>)
    requires
        state.expects(event),
    ensures
        state.next(event).answer == match event {
            EnvironmentEvent::Registered(r) => if state.phase is RegisteringListener {
                Some(
                    if r is Ok {
                        Admission::Admitted
                    } else {
                        Admission::Refused
                    },
                )
            } else {
                None
            },
            EnvironmentEvent::AddListenerEventRead(Err(_)) => Some(Admission::Refused),
            _ => None,
        },
        event matches EnvironmentEvent::AddListenerEventRead(r) && r is Ok
            ==> state.next(event).state.phase is ReceivingListener,
        event is ListenerReceived ==> state.next(event).state.phase is RegisteringListener,
{
    lemma_next(state, event);
}

/// A client that hangs up is forgotten and its socket closed. If it was the last one, the
/// environment closes; otherwise it waits for the others.
pub proof fn law_last_client_closes_the_environment<E>(
    state: EnvironmentState<E>,
    fd: i32,
    events: u32,
)
    requires
        state.wf(),
        state.phase is Waiting,
        state.sockets.contains(fd),
        fd != state.add_listener,
        fd != state.drop_event,
        events & EPOLLRDHUP != 0,
    ensures
        ({
            let hung_up = seq![Readiness { data: data_of(fd), events }];
            let after = state.next(EnvironmentEvent::Waited(Ok(hung_up)));
            &&& after.closes == seq![fd]
            &&& after.state.sockets == state.sockets.remove(fd)
            &&& if state.sockets == set![fd] {
                after.action == EnvironmentAction::<Seq<char>, E>::SendName(state.name)
            } else {
                after.action == (EnvironmentAction::<Seq<char>, E>::Wait {
                    max_events: (state.sockets.remove(fd).len() + 1) as usize,
                })
            }
        }),
{
    law_sockets_are_recognised(fd, state.add_listener);
    law_sockets_are_recognised(fd, state.drop_event);
    let hung_up = seq![Readiness { data: data_of(fd), events }];
    let told = EnvironmentState { pending: hung_up, ..state };
    let left = EnvironmentState {
        pending: hung_up.drop_first(),
        sockets: state.sockets.remove(fd),
        ..state
    };
    assert(hung_up.drop_first() =~= seq![]);
    assert(Seq::<i32>::empty().push(fd) =~= seq![fd]);
    assert(left.sockets.is_empty() <==> state.sockets == set![fd]) by {
        if left.sockets.is_empty() {
            assert forall|other: i32| state.sockets.contains(other) implies other == fd by {
                if other != fd {
                    assert(left.sockets.contains(other));
                }
            }
            assert(state.sockets =~= set![fd]);
        }
        if state.sockets == set![fd] {
            assert(left.sockets =~= Set::empty());
        }
    }
    reveal_with_fuel(EnvironmentState::continues, 2);
    assert(told.continues(seq![], seq![]) == if left.sockets.is_empty() {
        left.goes(
            EnvironmentPhase::SendingName { unreported: None },
            seq![],
            seq![fd],
            EnvironmentAction::SendName(state.name),
        )
    } else {
        left.continues(seq![], seq![fd])
    });
}

/// A file is recognised by the number that it was registered with, and two files are told apart by
/// it.
pub proof fn law_sockets_are_recognised(a: i32, b: i32)
    ensures
        fd_of(data_of(a)) == a,
        data_of(a) == data_of(b) ==> a == b,
{
    assert((a as u64) as i32 == a) by (bit_vector);
    assert((b as u64) as i32 == b) by (bit_vector);
}

/// An environment that is dropped deals with nothing else any more: the event is read, and the
/// thread ends.
pub proof fn law_drop_comes_first<E>(
    state: EnvironmentState<E>,
    readiness: Seq<Readiness>,
    read: Result<(), E>,
)
    requires
        state.phase is Waiting,
        state.drop_event != state.add_listener,
        readiness.len() > 0,
        readiness[0].data == data_of(state.drop_event),
    ensures
        ({
            let reading = state.next(EnvironmentEvent::Waited(Ok(readiness)));
            let stopping = reading.state.next(EnvironmentEvent::DropEventRead(read));
            &&& reading.action is ReadDropEvent
            &&& stopping.action is Stop
            &&& stopping.reports == errors_of(read)
        }),
{
    law_sockets_are_recognised(state.drop_event, state.add_listener);
}

/// A client that is taken in is heard: once its socket is registered, a request that is announced
/// under the number of the registration is received from that very socket, and the text that the
/// client sends is the text that is parsed.
pub proof fn law_clients_are_heard<E>(
    state: EnvironmentState<E>,
    fd: i32,
    events: u32,
    text: Seq<char>,
)
    requires
        state.phase is ReceivingListener,
        state.pending.len() == 0,
        fd >= 0,
        fd != state.add_listener,
        fd != state.drop_event,
        events & EPOLLRDHUP == 0,
    ensures
        ({
            let registering = state.next(EnvironmentEvent::ListenerReceived(fd));
            let waiting = registering.state.next(EnvironmentEvent::Registered(Ok(())));
            &&& registering.action matches EnvironmentAction::Register {
                fd: registered,
                data,
                events: watched,
            } && registered == fd && {
                let announced = seq![Readiness { data, events }];
                let receiving = waiting.state.next(EnvironmentEvent::Waited(Ok(announced)));
                let parsing = receiving.state.next(
                    EnvironmentEvent::RequestReceived(Ok(encode_utf8(text))),
                );
                &&& receiving.action == (EnvironmentAction::<Seq<char>, E>::ReceiveRequest { fd })
                &&& parsing.action == EnvironmentAction::<Seq<char>, E>::ParseRequest(text)
            }
            &&& waiting.action is Wait
            &&& waiting.state.sockets == state.sockets.insert(fd)
        }),
{
    law_sockets_are_recognised(fd, state.add_listener);
    law_sockets_are_recognised(fd, state.drop_event);
    encode_utf8_valid_utf8(text);
    encode_utf8_decode_utf8(text);
}

/// A request is answered to the client that made it, and a malformed one is answered as such.
pub proof fn law_answers_go_to_the_asker<E>(
    state: EnvironmentState<E>,
    fd: i32,
    bytes: Seq<u8>,
    name: Seq<char>,
    shm: ShmView,
    location: Opened<E>,
)
    requires
        state.phase == (EnvironmentPhase::<Seq<char>, E>::ReceivingRequest { fd }),
    ensures
        ({
            let received = state.next(EnvironmentEvent::RequestReceived(Ok(bytes)));
            let refused = if received.action is ParseRequest {
                received.state.next(EnvironmentEvent::RequestParsed(None))
            } else {
                received
            };
            &&& refused.action == (EnvironmentAction::<Seq<char>, E>::Respond {
                fd,
                response: EnvironmentResponse::MalformedRequest,
                page: None,
            })
            &&& received.action is ParseRequest ==> {
                let opening = received.state.next(
                    EnvironmentEvent::RequestParsed(Some(EnvironmentRequest::OpenMutex(name))),
                );
                &&& opening.action is OpenMutex
                &&& opening.state.phase == (EnvironmentPhase::<Seq<char>, E>::OpeningMutex {
                    fd,
                    name,
                })
                &&& EnvironmentState { shm: Some(shm), ..opening.state }.answers(fd, location).action
                    == (EnvironmentAction::<Seq<char>, E>::Respond {
                    fd,
                    response: match location {
                        Ok(at) => EnvironmentResponse::OpenMutexOk(at.page, at.offset),
                        Err(_) => EnvironmentResponse::InternalError,
                    },
                    page: match location {
                        Ok(at) => Some(at.fd),
                        Err(_) => None,
                    },
                })
            }
        }),
{
}

/// Whether everything that is in shared memory before is in the same place after.
pub open spec fn keeps(before: ShmView, after: ShmView) -> bool {
    forall|name: Seq<char>| #[trigger]
        before.slots.contains_key(name) ==> {
            &&& after.slots.contains_key(name)
            &&& after.slots[name] == before.slots[name]
            &&& after.location(after.slots[name]) == before.location(before.slots[name])
        }
}

/// Opening a mutex, whether that succeeds or fails, leaves everything in shared memory where it is.
pub proof fn law_opening_keeps_what_is_there<E, T, I, W>(
    before: ShmView,
    name: Seq<char>,
    mutex: ResourceType,
    init: I,
    made: spec_fn(Result<i32, E>) -> bool,
    write: W,
    after: ShmView,
    r: Opened<E>,
) where I: FnOnce() -> Result<T, E>, W: FnOnce(T, usize, usize)
    requires
        before.wf(),
        mutex.align > 0,
        opened(before, name, mutex, init, made, write, after, r),
    ensures
        keeps(before, after),
{
    if !before.slots.contains_key(name) {
        lemma_opened(before, name, mutex, init, made, write, after, r);
        assert forall|other: Seq<char>| #[trigger] before.slots.contains_key(other) implies {
            &&& after.slots.contains_key(other)
            &&& after.slots[other] == before.slots[other]
            &&& after.location(after.slots[other]) == before.location(before.slots[other])
        } by {
            assert(before.holds(before.slots[other]));
        }
    }
}

/// What is common to all ways in which the opening of a mutex can end that does not exist.
proof fn lemma_opened<E, T, I, W>(
    before: ShmView,
    name: Seq<char>,
    mutex: ResourceType,
    init: I,
    made: spec_fn(Result<i32, E>) -> bool,
    write: W,
    after: ShmView,
    r: Opened<E>,
) where I: FnOnce() -> Result<T, E>, W: FnOnce(T, usize, usize)
    requires
        before.wf(),
        mutex.align > 0,
        !before.slots.contains_key(name),
        opened(before, name, mutex, init, made, write, after, r),
    ensures
        after.page_size == before.page_size,
        before.pages.is_prefix_of(after.pages),
        r is Err ==> after.slots == before.slots,
        r matches Ok(location) ==> {
            &&& after.slots.contains_key(name)
            &&& after.slots == before.slots.insert(name, after.slots[name])
            &&& after.slots[name].type_id == mutex.type_id
            &&& location == after.location(after.slots[name])
        },
{
    let initialised = choose|initialised: Result<T, E>| #[trigger]
        call_ensures(init, (), initialised) && match initialised {
            Err(e) => after == before && r == Err::<ClientResourceLocation, Failure<E>>(
                Failure::Outside(e),
            ),
            Ok(resource) => constructed(
                before,
                name,
                mutex.type_id,
                mutex.size as int,
                mutex.align as int,
                made,
                moving(resource, write),
                after,
                r,
            ),
        };
    if let Ok(resource) = initialised {
        lemma_constructed(
            before,
            name,
            mutex.type_id,
            mutex.size as int,
            mutex.align as int,
            made,
            moving(resource, write),
            after,
            r,
        );
    }
}

/// A mutex that cannot be initialised leaves the shared memory as it is: no page is made and no space
/// is lost. The client is told of an internal error.
pub proof fn law_failed_initialisation_changes_nothing<E, T, I, W>(
    before: ShmView,
    name: Seq<char>,
    mutex: ResourceType,
    init: I,
    made: spec_fn(Result<i32, E>) -> bool,
    write: W,
    after: ShmView,
    r: Opened<E>,
    state: EnvironmentState<E>,
    fd: i32,
) where I: FnOnce() -> Result<T, E>, W: FnOnce(T, usize, usize)
    requires
        opened(before, name, mutex, init, made, write, after, r),
        forall|initialised: Result<T, E>| #[trigger]
            call_ensures(init, (), initialised) ==> initialised is Err,
    ensures
        after == before,
        !before.slots.contains_key(name) ==> state.answers(fd, r).action == (EnvironmentAction::<
            Seq<char>,
            E,
        >::Respond { fd, response: EnvironmentResponse::InternalError, page: None }),
{
}

/// What stays in its place in each of two steps stays there in both.
pub proof fn law_keeping_goes_on(first: ShmView, second: ShmView, third: ShmView)
    requires
        keeps(first, second),
        keeps(second, third),
    ensures
        keeps(first, third),
{
    assert forall|name: Seq<char>| #[trigger] first.slots.contains_key(name) implies {
        &&& third.slots.contains_key(name)
        &&& third.slots[name] == first.slots[name]
        &&& third.location(third.slots[name]) == first.location(first.slots[name])
    } by {
        assert(second.slots.contains_key(name));
    }
}

/// Nothing but the opening of a mutex touches the shared memory.
pub proof fn law_events_leave_the_memory_alone<E>(state: EnvironmentState<E>, event: Event<E>)
    requires
        state.expects(event),
    ensures
        state.next(event).state.shm == state.shm,
{
    lemma_next(state, event);
}

/// A mutex is shared by all who open it under its name: whatever has been opened in the meantime,
/// who opens it again gets the same place in the same page, and nothing changes.
pub proof fn law_mutexes_are_shared<E, T, I, W, U, J, X>(
    before: ShmView,
    name: Seq<char>,
    mutex: ResourceType,
    init: I,
    made: spec_fn(Result<i32, E>) -> bool,
    write: W,
    after: ShmView,
    location: ClientResourceLocation,
    later: ShmView,
    init_again: J,
    made_again: spec_fn(Result<i32, E>) -> bool,
    write_again: X,
    last: ShmView,
    again: Opened<E>,
) where
    I: FnOnce() -> Result<T, E>,
    W: FnOnce(T, usize, usize),
    J: FnOnce() -> Result<U, E>,
    X: FnOnce(U, usize, usize),

    requires
        before.wf(),
        mutex.align > 0,
        opened(before, name, mutex, init, made, write, after, Ok::<_, Failure<E>>(location)),
        keeps(after, later),
        opened(later, name, mutex, init_again, made_again, write_again, last, again),
    ensures
        again == Ok::<ClientResourceLocation, Failure<E>>(location),
        last == later,
{
    if !before.slots.contains_key(name) {
        lemma_opened(
            before,
            name,
            mutex,
            init,
            made,
            write,
            after,
            Ok::<ClientResourceLocation, Failure<E>>(location),
        );
    }
    assert(after.slots.contains_key(name));
}

/// Whether a thread in the state `before` can come to `after` next: by the outcome of the action that
/// it has asked for, or by the opening of a mutex, which leaves everything in shared memory where it
/// is.
pub open spec fn follows<E>(before: EnvironmentState<E>, after: EnvironmentOutcome<E>) -> bool {
    ||| exists|event: Event<E>| before.expects(event) && after == #[trigger] before.next(event)
    ||| before.phase is OpeningMutex && exists|shm: ShmView, location: Opened<E>|
        keeps(before.shm->0, shm) && after == #[trigger] EnvironmentState {
            shm: Some(shm),
            ..before
        }.answers(before.phase->OpeningMutex_fd, location)
}

/// Whether a thread can go through `run`, from its start on.
pub open spec fn is_run<E>(
    name: Seq<char>,
    add_listener: i32,
    drop_event: i32,
    shm: Result<ShmView, Failure<E>>,
    run: Seq<EnvironmentOutcome<E>>,
) -> bool
    decreases run.len(),
{
    if run.len() <= 1 {
        run == seq![EnvironmentState::start(name, add_listener, drop_event, shm)]
    } else {
        &&& is_run(name, add_listener, drop_event, shm, run.drop_last())
        &&& follows(run.drop_last().last().state, run.last())
    }
}

/// What a thread does in a run to announce that the environment closes.
pub open spec fn announcements<E>(run: Seq<EnvironmentOutcome<E>>) -> Seq<
    EnvironmentAction<Seq<char>, E>,
>
    decreases run.len(),
{
    if run.len() == 0 {
        seq![]
    } else {
        let earlier = announcements(run.drop_last());
        let action = run.last().action;
        if action is SendName || action is WriteCloseEvent {
            earlier.push(action)
        } else {
            earlier
        }
    }
}

/// How an environment announces that it closes: its owner is told the name, and then the event is
/// written.
pub open spec fn announcement<E>(name: Seq<char>) -> Seq<EnvironmentAction<Seq<char>, E>> {
    seq![
        EnvironmentAction::SendName(name),
        EnvironmentAction::WriteCloseEvent { value: EVENT_TRIGGER },
    ]
}

/// How far an environment has come with its announcement when a run has led to a phase.
proof fn lemma_run<E>(
    name: Seq<char>,
    add_listener: i32,
    drop_event: i32,
    shm: Result<ShmView, Failure<E>>,
    run: Seq<EnvironmentOutcome<E>>,
)
    requires
        is_run(name, add_listener, drop_event, shm, run),
    ensures
        run.len() > 0,
        run.last().state.name == name,
        ({
            let action = run.last().action;
            match run.last().state.phase {
                EnvironmentPhase::SendingName { .. } => action is SendName && announcements(run)
                    == announcement::<E>(name).take(1),
                EnvironmentPhase::WritingCloseEvent { .. } => action is WriteCloseEvent
                    && announcements(run) == announcement::<E>(name),
                EnvironmentPhase::Stopped => action is Stop && run.len() > 1 && announcements(run)
                    == if run[run.len() - 2].action is ReadDropEvent {
                    seq![]
                } else {
                    announcement::<E>(name)
                },
                EnvironmentPhase::ReadingDropEvent => action is ReadDropEvent && announcements(
                    run,
                ).len() == 0,
                _ => action !is ReadDropEvent && action !is Stop && announcements(run).len() == 0,
            }
        }),
    decreases run.len(),
{
    reveal_with_fuel(announcements, 2);
    if run.len() > 1 {
        let earlier = run.drop_last();
        lemma_run(name, add_listener, drop_event, shm, earlier);
        let before = earlier.last().state;
        assert(earlier.last() == run[run.len() - 2]);
        if exists|event: Event<E>| before.expects(event) && run.last() == #[trigger] before.next(
            event,
        ) {
            let event = choose|event: Event<E>|
                before.expects(event) && run.last() == #[trigger] before.next(event);
            lemma_next(before, event);
        }
        assert(announcements(run) =~= match run.last().state.phase {
            EnvironmentPhase::SendingName { .. } => announcement(name).take(1),
            EnvironmentPhase::WritingCloseEvent { .. } => announcement(name),
            EnvironmentPhase::Stopped => if before.phase is ReadingDropEvent {
                seq![]
            } else {
                announcement::<E>(name)
            },
            _ => seq![],
        });
    }
}

/// A thread that ends has been dropped or has announced that the environment closes, and never both:
/// if the last thing that it did was to read the event by which the environment is dropped, it has
/// told its owner nothing; otherwise it has told the owner its name once, and has written the event
/// once, after that. A thread that has ended does nothing more.
pub proof fn law_end_is_announced_once<E>(
    name: Seq<char>,
    add_listener: i32,
    drop_event: i32,
    shm: Result<ShmView, Failure<E>>,
    run: Seq<EnvironmentOutcome<E>>,
)
    requires
        is_run(name, add_listener, drop_event, shm, run),
        run.last().action is Stop,
    ensures
        run.len() > 1,
        announcements(run) == if run[run.len() - 2].action is ReadDropEvent {
            seq![]
        } else {
            announcement::<E>(name)
        },
        forall|after: EnvironmentOutcome<E>| !#[trigger] follows(run.last().state, after),
{
    lemma_run(name, add_listener, drop_event, shm, run);
}

/// A mutex stays where it is as long as the thread runs: whatever is in shared memory at some time
/// is in the same place at every later time.
pub proof fn law_mutexes_stay<E>(
    name: Seq<char>,
    add_listener: i32,
    drop_event: i32,
    shm: Result<ShmView, Failure<E>>,
    run: Seq<EnvironmentOutcome<E>>,
    earlier: int,
    later: int,
)
    requires
        is_run(name, add_listener, drop_event, shm, run),
        0 <= earlier <= later < run.len(),
        run[earlier].state.shm is Some,
    ensures
        run[later].state.shm is Some,
        keeps(run[earlier].state.shm->0, run[later].state.shm->0),
    decreases run.len(),
{
    if earlier < later {
        let start = run.drop_last();
        if later < run.len() - 1 {
            law_mutexes_stay(name, add_listener, drop_event, shm, start, earlier, later);
        } else {
            law_mutexes_stay(name, add_listener, drop_event, shm, start, earlier, later - 1);
            let before = start.last().state;
            assert(before == run[later - 1].state);
            if exists|event: Event<E>| before.expects(event) && run.last() == #[trigger]
                before.next(event) {
                let event = choose|event: Event<E>|
                    before.expects(event) && run.last() == #[trigger] before.next(event);
                lemma_next(before, event);
            } else {
                law_keeping_goes_on(
                    run[earlier].state.shm->0,
                    before.shm->0,
                    run[later].state.shm->0,
                );
            }
        }
    }
}

/// The opening of a mutex, as it can end, is a step of a run.
pub proof fn law_openings_are_steps<E, T, I, W>(
    before: EnvironmentState<E>,
    mutex: ResourceType,
    init: I,
    made: spec_fn(Result<i32, E>) -> bool,
    write: W,
    shm: ShmView,
    location: Opened<E>,
) where I: FnOnce() -> Result<T, E>, W: FnOnce(T, usize, usize)
    requires
        before.phase is OpeningMutex,
        (before.shm->0).wf(),
        mutex.align > 0,
        opened(
            before.shm->0,
            before.phase->OpeningMutex_name,
            mutex,
            init,
            made,
            write,
            shm,
            location,
        ),
    ensures
        follows(
            before,
            EnvironmentState { shm: Some(shm), ..before }.answers(
                before.phase->OpeningMutex_fd,
                location,
            ),
        ),
{
    law_opening_keeps_what_is_there(
        before.shm->0,
        before.phase->OpeningMutex_name,
        mutex,
        init,
        made,
        write,
        shm,
        location,
    );
}

} // verus!
