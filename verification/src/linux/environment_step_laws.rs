//! What each step of the thread of an environment does, in terms of what goes into it and what comes
//! out.

use vstd::prelude::*;
use vstd::utf8::{decode_utf8, valid_utf8};

use crate::linux::environment_laws::lemma_next;
use crate::linux::environment_thread::{
    is_outcome, opened, Admission, EnvironmentAction, EnvironmentEvent, EnvironmentPhase,
    EnvironmentState, EnvironmentStep, EnvironmentThread, Opened, Readiness, ResourceType,
};
use crate::linux::runtime_error::RuntimeError;
use crate::linux::service_error::{errors_of, Failure, ServiceError};
use crate::linux::shm_allocator::{
    constructed, moving, ClientResourceLocation, ShmAllocator, ShmView, Teardown,
};
use crate::linux::shm_operation_laws::{lemma_no_place, lemma_place};
use crate::linux::shm_page::PageSteps;
use crate::linux::socket_set::{all_open, lemma_len, SocketSet};
use crate::protocol::{EnvironmentRequest, EnvironmentResponse};

verus! {

/// The outcome of an action, as the thread is told it.
pub type Told<E> = EnvironmentEvent<String, Vec<u8>, Vec<Readiness>, E>;

/// What comes of a step: the thread as it goes on, and what is to be done.
pub type Done<E> = (EnvironmentThread<E>, EnvironmentStep<E>);

/// Whether `epoll` says that a client has closed the connection, and nothing of the two events that
/// the thread is told by.
pub open spec fn hangs_up(add_listener: i32, drop_event: i32, readiness: Readiness) -> bool {
    &&& readiness.data != #[verifier::truncate] (add_listener as u64)
    &&& readiness.data != #[verifier::truncate] (drop_event as u64)
    &&& readiness.events & 0x2000 != 0
}

/// Whether the first `n` things that `epoll` says are all that a client has closed the connection.
pub open spec fn all_hang_up(
    add_listener: i32,
    drop_event: i32,
    pending: Seq<Readiness>,
    n: int,
) -> bool {
    0 <= n <= pending.len() && forall|i: int|
        0 <= i < n ==> hangs_up(add_listener, drop_event, #[trigger] pending[i])
}

/// Whether one of the first `n` things that `epoll` says is about this client.
pub open spec fn spoken_of(pending: Seq<Readiness>, n: int, fd: i32) -> bool {
    exists|i: int| 0 <= i < n && fd == #[verifier::truncate] ((#[trigger] pending[i]).data as i32)
}

/// Whether there is a client that none of the first `n` things is about that `epoll` says.
pub open spec fn somebody_stays(sockets: Set<i32>, pending: Seq<Readiness>, n: int) -> bool {
    exists|fd: i32| #[trigger] sockets.contains(fd) && !spoken_of(pending, n, fd)
}

/// Whether `epoll` says something of one client, among the first `n` things that it says, before it
/// says anything of another.
pub open spec fn speaks_first_of(pending: Seq<Readiness>, n: int, fd: i32, other: i32) -> bool {
    exists|m: int|
        0 <= m <= n && #[trigger] spoken_of(pending, m, fd) && !spoken_of(pending, m, other)
}

proof fn lemma_spoken_of(pending: Seq<Readiness>, n: int, fd: i32)
    requires
        0 <= n < pending.len(),
    ensures
        spoken_of(pending, n + 1, fd) <==> spoken_of(pending.drop_first(), n, fd) || fd
            == #[verifier::truncate] (pending[0].data as i32),
{
    let rest = pending.drop_first();
    if spoken_of(pending, n + 1, fd) {
        let i = choose|i: int|
            0 <= i < n + 1 && fd == #[verifier::truncate] ((#[trigger] pending[i]).data as i32);
        if i > 0 {
            assert(rest[i - 1] == pending[i]);
        }
    }
    if spoken_of(rest, n, fd) {
        let i = choose|i: int|
            0 <= i < n && fd == #[verifier::truncate] ((#[trigger] rest[i]).data as i32);
        assert(pending[i + 1] == rest[i]);
    }
}

proof fn lemma_push(closes: Seq<i32>, fd: i32)
    ensures
        forall|other: i32| #[trigger]
            closes.push(fd).contains(other) <==> closes.contains(other) || other == fd,
{
    let more = closes.push(fd);
    assert forall|other: i32| #[trigger] more.contains(other) <==> closes.contains(other) || other
        == fd by {
        if more.contains(other) {
            let i = choose|i: int| 0 <= i < more.len() && more[i] == other;
            if i < closes.len() {
                assert(closes[i] == other);
            }
        }
        if closes.contains(other) {
            let i = choose|i: int| 0 <= i < closes.len() && closes[i] == other;
            assert(more[i] == other);
        }
        assert(more[closes.len() as int] == fd);
    }
}

/// How far the thread gets with what `epoll` has said.
proof fn lemma_turn<E>(
    state: EnvironmentState<E>,
    reports: Seq<Failure<E>>,
    closes: Seq<i32>,
) -> (n: int)
    ensures
        all_hang_up(state.add_listener, state.drop_event, state.pending, n),
        ({
            let after = state.continues(reports, closes);
            &&& after.reports == reports
            &&& after.answer is None
            &&& after.state.name == state.name
            &&& after.state.shm == state.shm
            &&& after.state.add_listener == state.add_listener
            &&& after.state.drop_event == state.drop_event
            &&& forall|fd: i32| #[trigger]
                after.state.sockets.contains(fd) <==> state.sockets.contains(fd) && !spoken_of(
                    state.pending,
                    n,
                    fd,
                )
            &&& forall|fd: i32| #[trigger]
                after.closes.contains(fd) <==> closes.contains(fd) || (state.sockets.contains(fd)
                    && spoken_of(state.pending, n, fd))
            &&& forall|m: int|
                0 < m < n ==> #[trigger] somebody_stays(state.sockets, state.pending, m)
            &&& closes.is_prefix_of(after.closes)
            &&& forall|i: int|
                closes.len() <= i < after.closes.len() ==> state.sockets.contains(
                    #[trigger] after.closes[i],
                )
            &&& forall|i: int, j: int|
                closes.len() <= i < j < after.closes.len() ==> speaks_first_of(
                    state.pending,
                    n,
                    #[trigger] after.closes[i],
                    #[trigger] after.closes[j],
                )
            &&& if n > 0 && after.state.sockets.is_empty() {
                &&& after.action == EnvironmentAction::<Seq<char>, E>::SendName(state.name)
                &&& after.state.phase == (EnvironmentPhase::<Seq<char>, E>::SendingName {
                    unreported: None,
                })
                &&& after.state.pending == state.pending.skip(n)
            } else if n == state.pending.len() {
                &&& after.action == (EnvironmentAction::<Seq<char>, E>::Wait {
                    max_events: (after.state.sockets.len() + 1) as usize,
                })
                &&& after.state.phase is Waiting
                &&& after.state.pending.len() == 0
            } else {
                let said = state.pending[n];
                &&& !hangs_up(state.add_listener, state.drop_event, said)
                &&& after.state.pending == state.pending.skip(n + 1)
                &&& if said.data == #[verifier::truncate] (state.add_listener as u64) {
                    after.action is ReadAddListenerEvent
                        && after.state.phase is ReadingAddListenerEvent
                } else if said.data == #[verifier::truncate] (state.drop_event as u64) {
                    after.action is ReadDropEvent && after.state.phase is ReadingDropEvent
                } else {
                    let fd = #[verifier::truncate] (said.data as i32);
                    &&& after.action == (EnvironmentAction::<Seq<char>, E>::ReceiveRequest { fd })
                    &&& after.state.phase == (EnvironmentPhase::<
                        Seq<char>,
                        E,
                    >::ReceivingRequest { fd })
                }
            }
        }),
    decreases state.pending.len(),
{
    let pending = state.pending;
    if pending.len() == 0 || !hangs_up(state.add_listener, state.drop_event, pending[0]) {
        assert(forall|fd: i32| !spoken_of(pending, 0, fd));
        assert(closes =~= closes.subrange(0, closes.len() as int));
        if pending.len() > 0 {
            assert(pending.drop_first() =~= pending.skip(1));
        }
        0
    } else {
        let fd0 = #[verifier::truncate] (pending[0].data as i32);
        let rest = pending.drop_first();
        let left = EnvironmentState {
            pending: rest,
            sockets: state.sockets.remove(fd0),
            ..state
        };
        let more = if state.sockets.contains(fd0) {
            closes.push(fd0)
        } else {
            closes
        };
        lemma_push(closes, fd0);
        assert(closes =~= more.subrange(0, closes.len() as int));
        assert(forall|fd: i32| !spoken_of(rest, 0, fd));
        if left.sockets.is_empty() {
            assert forall|fd: i32| #[trigger] spoken_of(pending, 1, fd) <==> fd == fd0 by {
                lemma_spoken_of(pending, 0, fd);
            }
            assert(rest =~= pending.skip(1));
            1
        } else {
            let k = lemma_turn(left, reports, more);
            let n = k + 1;
            assert forall|fd: i32| #[trigger] spoken_of(pending, n, fd) <==> spoken_of(rest, k, fd)
                || fd == fd0 by {
                lemma_spoken_of(pending, k, fd);
            }
            assert forall|i: int| 0 <= i < n implies hangs_up(
                state.add_listener,
                state.drop_event,
                #[trigger] pending[i],
            ) by {
                if i > 0 {
                    assert(rest[i - 1] == pending[i]);
                }
            }
            assert forall|m: int| 0 < m < n implies #[trigger] somebody_stays(
                state.sockets,
                pending,
                m,
            ) by {
                if m > 1 {
                    assert(somebody_stays(left.sockets, rest, m - 1));
                }
                let fd = choose|fd: i32| #[trigger]
                    left.sockets.contains(fd) && !spoken_of(rest, m - 1, fd);
                if m == 1 {
                    let any = choose|fd: i32| left.sockets.contains(fd);
                    assert(left.sockets.contains(any) && !spoken_of(rest, 0, any));
                }
                lemma_spoken_of(pending, m - 1, fd);
                assert(state.sockets.contains(fd) && !spoken_of(pending, m, fd));
            }
            let after = left.continues(reports, more);
            assert(more =~= after.closes.subrange(0, more.len() as int));
            assert(closes =~= after.closes.subrange(0, closes.len() as int)) by {
                assert forall|i: int| 0 <= i < closes.len() implies closes[i] == after.closes[i] by {
                    assert(more[i] == after.closes.subrange(0, more.len() as int)[i]);
                }
            }
            assert forall|i: int|
                closes.len() <= i < after.closes.len() implies state.sockets.contains(
                #[trigger] after.closes[i],
            ) by {
                if i < more.len() {
                    assert(more[i] == after.closes.subrange(0, more.len() as int)[i]);
                } else {
                    assert(left.sockets.contains(after.closes[i]));
                }
            }
            assert forall|i: int, j: int|
                closes.len() <= i < j < after.closes.len() implies speaks_first_of(
                pending,
                n,
                #[trigger] after.closes[i],
                #[trigger] after.closes[j],
            ) by {
                let fd = after.closes[i];
                let other = after.closes[j];
                assert(left.sockets.contains(other)) by {
                    assert(j >= more.len());
                }
                if i < more.len() {
                    assert(more[i] == after.closes.subrange(0, more.len() as int)[i]);
                    lemma_spoken_of(pending, 0, fd);
                    lemma_spoken_of(pending, 0, other);
                    assert(spoken_of(pending, 1, fd) && !spoken_of(pending, 1, other));
                } else {
                    let m = choose|m: int|
                        0 <= m <= k && #[trigger] spoken_of(rest, m, fd) && !spoken_of(
                            rest,
                            m,
                            other,
                        );
                    lemma_spoken_of(pending, m, fd);
                    lemma_spoken_of(pending, m, other);
                    assert(spoken_of(pending, m + 1, fd) && !spoken_of(pending, m + 1, other));
                }
            }
            assert(rest.skip(k) =~= pending.skip(n));
            if k < rest.len() {
                assert(rest[k] == pending[n]);
                assert(rest.skip(k + 1) =~= pending.skip(n + 1));
            }
            n
        }
    }
}

/// What is common to all that the thread can turn to.
proof fn lemma_every_turn<E>()
    ensures
        forall|state: EnvironmentState<E>, reports: Seq<Failure<E>>, closes: Seq<i32>|
            ({
                let after = #[trigger] state.continues(reports, closes);
                &&& after.reports == reports
                &&& after.answer is None
                &&& after.state.name == state.name
                &&& after.state.shm == state.shm
                &&& after.state.add_listener == state.add_listener
                &&& after.state.drop_event == state.drop_event
                &&& match after.state.phase {
                    EnvironmentPhase::Waiting => after.action is Wait,
                    EnvironmentPhase::ReadingAddListenerEvent => after.action
                        is ReadAddListenerEvent,
                    EnvironmentPhase::ReadingDropEvent => after.action is ReadDropEvent,
                    EnvironmentPhase::SendingName { .. } => after.action is SendName,
                    EnvironmentPhase::ReceivingRequest { .. } => after.action is ReceiveRequest,
                    _ => false,
                }
            }),
{
    assert forall|state: EnvironmentState<E>, reports: Seq<Failure<E>>, closes: Seq<i32>| ({
        let after = #[trigger] state.continues(reports, closes);
        &&& after.reports == reports
        &&& after.answer is None
        &&& after.state.name == state.name
        &&& after.state.shm == state.shm
        &&& after.state.add_listener == state.add_listener
        &&& after.state.drop_event == state.drop_event
        &&& match after.state.phase {
            EnvironmentPhase::Waiting => after.action is Wait,
            EnvironmentPhase::ReadingAddListenerEvent => after.action is ReadAddListenerEvent,
            EnvironmentPhase::ReadingDropEvent => after.action is ReadDropEvent,
            EnvironmentPhase::SendingName { .. } => after.action is SendName,
            EnvironmentPhase::ReceivingRequest { .. } => after.action is ReceiveRequest,
            _ => false,
        }
    }) by {
        let n = lemma_turn(state, reports, closes);
    }
}

/// Once something has been dealt with, the thread turns to what `epoll` has said, in order: clients
/// that have closed the connection are forgotten, and those of them that it knew are closed, in that
/// order. When the last one has left, the environment closes, before anything else is looked at. What
/// comes first after them is dealt with next, and only what stands behind that is left for later:
/// one of the two events is read, and anything else is a request, which is received from the very
/// client that it was said of. Where nothing is left, the thread waits for as many things as there
/// are clients, and one more.
pub proof fn law_what_is_said_first_comes_first<E>(
    thread: EnvironmentThread<E>,
    told: Told<E>,
    r: Done<E>,
    pending: Seq<Readiness>,
    sockets: Set<i32>,
    turned_away: Option<i32>,
)
    requires
        thread.wf(),
        call_ensures(EnvironmentThread::<E>::next, (thread, told), r),
        match told {
            EnvironmentEvent::Waited(waited) => waited is Ok,
            EnvironmentEvent::Registered(registered) => thread@.phase is RegisteringListener || (
            thread@.phase is RegisteringDrop && registered is Ok),
            EnvironmentEvent::AddListenerEventRead(read) => read is Err,
            EnvironmentEvent::RequestReceived(received) => received is Err,
            EnvironmentEvent::Responded(_) => true,
            _ => false,
        },
        pending == (match told {
            EnvironmentEvent::Waited(waited) => waited->Ok_0@,
            _ => thread@.pending,
        }),
        sockets == (match (told, thread@.phase) {
            (
                EnvironmentEvent::Registered(Ok(_)),
                EnvironmentPhase::RegisteringListener { fd },
            ) => thread@.sockets.insert(fd),
            _ => thread@.sockets,
        }),
        turned_away == (match (told, thread@.phase) {
            (
                EnvironmentEvent::Registered(Err(_)),
                EnvironmentPhase::RegisteringListener { fd },
            ) => Some(fd),
            _ => None,
        }),
    ensures
        exists|n: int| #[trigger]
            all_hang_up(thread@.add_listener, thread@.drop_event, pending, n) && {
                &&& forall|fd: i32| #[trigger]
                    r.0@.sockets.contains(fd) <==> sockets.contains(fd) && !spoken_of(
                        pending,
                        n,
                        fd,
                    )
                &&& forall|fd: i32| #[trigger]
                    r.1.closes@.contains(fd) <==> turned_away == Some(fd) || (sockets.contains(
                        fd,
                    ) && spoken_of(pending, n, fd))
                &&& turned_away matches Some(fd) ==> r.1.closes@.len() > 0 && r.1.closes@[0] == fd
                &&& forall|i: int, j: int|
                    0 <= i < j < r.1.closes@.len() && (i > 0 || turned_away is None)
                        ==> speaks_first_of(
                        pending,
                        n,
                        #[trigger] r.1.closes@[i],
                        #[trigger] r.1.closes@[j],
                    )
                &&& forall|m: int|
                    0 < m < n ==> #[trigger] somebody_stays(sockets, pending, m)
                &&& if n > 0 && r.0@.sockets.is_empty() {
                    &&& r.1.action matches EnvironmentAction::SendName(name) && name@
                        == thread@.name
                    &&& r.0@.phase == (EnvironmentPhase::<Seq<char>, E>::SendingName {
                        unreported: None,
                    })
                    &&& r.0@.pending == pending.skip(n)
                } else if n == pending.len() {
                    &&& r.1.action matches EnvironmentAction::Wait { max_events } && max_events
                        == r.0@.sockets.len() + 1
                    &&& r.0@.phase is Waiting
                    &&& r.0@.pending.len() == 0
                } else {
                    let said = pending[n];
                    &&& !hangs_up(thread@.add_listener, thread@.drop_event, said)
                    &&& r.0@.pending == pending.skip(n + 1)
                    &&& if said.data == #[verifier::truncate] (thread@.add_listener as u64) {
                        r.1.action is ReadAddListenerEvent
                            && r.0@.phase is ReadingAddListenerEvent
                    } else if said.data == #[verifier::truncate] (thread@.drop_event as u64) {
                        r.1.action is ReadDropEvent && r.0@.phase is ReadingDropEvent
                    } else {
                        let fd = #[verifier::truncate] (said.data as i32);
                        &&& r.1.action == (EnvironmentAction::<String, E>::ReceiveRequest {
                            fd,
                        })
                        &&& r.0@.phase == (EnvironmentPhase::<
                            Seq<char>,
                            E,
                        >::ReceivingRequest { fd })
                    }
                }
            },
{
    r.0.lemma_wf();
    lemma_len(r.0@.sockets);
    let none = Seq::<i32>::empty();
    let state = thread@;
    let n = match told {
        EnvironmentEvent::Registered(registered) => match state.phase {
            EnvironmentPhase::RegisteringListener { fd } => if registered is Ok {
                lemma_turn(
                    EnvironmentState { sockets: state.sockets.insert(fd), ..state },
                    seq![],
                    none,
                )
            } else {
                assert(forall|other: i32| seq![fd].contains(other) <==> other == fd) by {
                    assert(seq![fd][0] == fd);
                }
                lemma_turn(state, errors_of(registered), seq![fd])
            },
            _ => lemma_turn(state, seq![], none),
        },
        EnvironmentEvent::Waited(waited) => lemma_turn(
            EnvironmentState { pending: waited->Ok_0@, ..state },
            seq![],
            none,
        ),
        EnvironmentEvent::AddListenerEventRead(read) => lemma_turn(state, errors_of(read), none),
        EnvironmentEvent::RequestReceived(received) => lemma_turn(
            state,
            seq![Failure::Outside(received->Err_0)],
            none,
        ),
        EnvironmentEvent::Responded(sent) => match state.phase {
            EnvironmentPhase::Answering { failure: Some(failure) } => lemma_turn(
                state,
                seq![failure] + errors_of(sent),
                none,
            ),
            _ => lemma_turn(state, errors_of(sent), none),
        },
        _ => 0,
    };
    if let Some(fd) = turned_away {
        assert(seq![fd].len() == 1);
        assert(r.1.closes@.subrange(0, 1)[0] == seq![fd][0]);
    }
    assert(all_hang_up(state.add_listener, state.drop_event, pending, n));
}

/// No socket is closed that the thread keeps, and none is closed twice, provided that a socket that it
/// receives is not one of those that it has.
pub proof fn law_no_socket_is_closed_twice<E>(
    thread: EnvironmentThread<E>,
    told: Told<E>,
    r: Done<E>,
)
    requires
        thread.wf(),
        thread@.expects(told@),
        call_ensures(EnvironmentThread::<E>::next, (thread, told), r),
        thread@.phase matches EnvironmentPhase::RegisteringListener { fd }
            ==> !thread@.sockets.contains(fd),
    ensures
        r.1.closes@.no_duplicates(),
        forall|fd: i32| #[trigger] r.1.closes@.contains(fd) ==> !r.0@.sockets.contains(fd),
{
    lemma_next(thread@, told@);
    assert forall|fd: i32| #[trigger] r.1.closes@.contains(fd) implies !r.0@.sockets.contains(
        fd,
    ) by {
        assert(r.1.closes@.to_set().contains(fd));
    }
}

/// A request is received from the client that it was said of, whatever else was said, and everything
/// else waits its turn.
pub proof fn law_requests_are_received_from_their_clients<E>(
    thread: EnvironmentThread<E>,
    readiness: Vec<Readiness>,
    r: Done<E>,
)
    requires
        thread.wf(),
        readiness@.len() > 0,
        readiness@[0].data != #[verifier::truncate] (thread@.add_listener as u64),
        readiness@[0].data != #[verifier::truncate] (thread@.drop_event as u64),
        readiness@[0].events & 0x2000 == 0,
        call_ensures(
            EnvironmentThread::<E>::next,
            (thread, EnvironmentEvent::Waited(Ok(readiness))),
            r,
        ),
    ensures
        r.1.action == (EnvironmentAction::<String, E>::ReceiveRequest {
            fd: #[verifier::truncate] (readiness@[0].data as i32),
        }),
        r.0@.pending == readiness@.drop_first(),
        r.0@.sockets == thread@.sockets,
        r.1.closes@.len() == 0,
        r.1.reports@.len() == 0,
{
}

/// A thread begins without clients, with the memory that it is given, by making the `epoll` instance.
/// Where there is no memory, it reports why.
pub proof fn law_threads_begin<E>(
    name: String,
    add_listener: i32,
    drop_event: i32,
    shm: Result<ShmAllocator, Failure<E>>,
    r: Done<E>,
)
    requires
        shm matches Ok(shm) ==> shm.wf(),
        call_ensures(EnvironmentThread::<E>::start, (name, add_listener, drop_event, shm), r),
    ensures
        r.0.wf(),
        r.0@.name == name@,
        r.0@.add_listener == add_listener,
        r.0@.drop_event == drop_event,
        r.0@.sockets.is_empty(),
        r.0@.pending.len() == 0,
        r.1.reports@.len() == 0,
        r.1.answer is None,
        r.1.closes@.len() == 0,
        match shm {
            Ok(shm) => {
                &&& r.0@.shm == Some(shm@)
                &&& r.0@.phase is CreatingEpoll
                &&& r.1.action == (EnvironmentAction::<String, E>::CreateEpoll { flags: 0x80000 })
            },
            Err(failure) => {
                &&& r.0@.shm is None
                &&& r.0@.phase is Reporting
                &&& r.1.action == EnvironmentAction::<String, E>::Report(failure)
            },
        },
{
}

/// What is not about clients: the thread watches first the event by which clients are announced and
/// then the one by which it is dropped, each for something to read and under a number by which it is
/// recognised. Whatever the system fails in on the way is reported, and so is a wait that fails.
pub proof fn law_the_two_events_are_watched<E>(
    thread: EnvironmentThread<E>,
    told: Told<E>,
    r: Done<E>,
)
    requires
        thread.wf(),
        call_ensures(EnvironmentThread::<E>::next, (thread, told), r),
    ensures
        told matches EnvironmentEvent::EpollCreated(Ok(_)) ==> {
            &&& r.0@.phase is RegisteringAddListener
            &&& r.1.action == (EnvironmentAction::<String, E>::Register {
                fd: thread@.add_listener,
                data: #[verifier::truncate] (thread@.add_listener as u64),
                events: 0x1,
            })
        },
        told matches EnvironmentEvent::Registered(Ok(_)) && thread@.phase is RegisteringAddListener
            ==> {
            &&& r.0@.phase is RegisteringDrop
            &&& r.1.action == (EnvironmentAction::<String, E>::Register {
                fd: thread@.drop_event,
                data: #[verifier::truncate] (thread@.drop_event as u64),
                events: 0x1,
            })
        },
        told matches EnvironmentEvent::EpollCreated(Err(e)) ==> r.0@.phase is Reporting
            && r.1.action == EnvironmentAction::<String, E>::Report(Failure::Outside(e)),
        thread@.phase !is RegisteringListener ==> (told matches EnvironmentEvent::Registered(Err(e))
            ==> r.0@.phase is Reporting && r.1.action == EnvironmentAction::<String, E>::Report(
            Failure::Outside(e),
        )),
        told matches EnvironmentEvent::Waited(Err(e)) ==> r.0@.phase is Reporting && r.1.action
            == EnvironmentAction::<String, E>::Report(Failure::Outside(e)),
{
}

/// A client that is announced is received, and the very socket that is received is watched for
/// requests and for its end, under a number by which it is recognised. Nothing but the outcome of that
/// makes it one of the clients, and the owner is told of that outcome and of nothing else.
pub proof fn law_clients_come_in<E>(thread: EnvironmentThread<E>, told: Told<E>, r: Done<E>)
    requires
        thread.wf(),
        thread@.expects(told@),
        call_ensures(EnvironmentThread::<E>::next, (thread, told), r),
    ensures
        told matches EnvironmentEvent::AddListenerEventRead(Ok(_)) ==> r.0@.phase
            is ReceivingListener && r.1.action is ReceiveListener,
        told matches EnvironmentEvent::ListenerReceived(fd) ==> {
            &&& r.0@.phase == (EnvironmentPhase::<Seq<char>, E>::RegisteringListener { fd })
            &&& r.1.action == (EnvironmentAction::<String, E>::Register {
                fd,
                data: #[verifier::truncate] (fd as u64),
                events: 0x2001,
            })
        },
        forall|fd: i32| #[trigger]
            r.0@.sockets.contains(fd) ==> thread@.sockets.contains(fd) || ((told matches
                EnvironmentEvent::Registered(registered) && registered is Ok) && thread@.phase == (
            EnvironmentPhase::<Seq<char>, E>::RegisteringListener { fd })),
        r.1.answer == Some(Admission::Admitted) <==> thread@.phase is RegisteringListener && (
        told matches EnvironmentEvent::Registered(registered) && registered is Ok),
        r.1.answer == Some(Admission::Refused) <==> (thread@.phase is RegisteringListener && (
        told matches EnvironmentEvent::Registered(registered) && registered is Err)) || (
        told matches EnvironmentEvent::AddListenerEventRead(read) && read is Err),
{
    lemma_next(thread@, told@);
    if let EnvironmentEvent::Registered(Err(e)) = told {
        if let EnvironmentPhase::RegisteringListener { fd } = thread@.phase {
            lemma_turn(thread@, errors_of(Err::<(), E>(e)), seq![fd]);
        }
    }
    assert(Seq::<i32>::empty().to_set() =~= Set::empty());
}

/// The bytes of a request are read as UTF-8. What is no UTF-8, and what is no request, is answered as
/// malformed, to the client that has sent it; otherwise the mutex that is asked for is opened for that
/// client.
pub proof fn law_requests_are_understood<E>(
    thread: EnvironmentThread<E>,
    told: Told<E>,
    r: Done<E>,
    fd: i32,
)
    requires
        thread.wf(),
        call_ensures(EnvironmentThread::<E>::next, (thread, told), r),
        (thread@.phase == (EnvironmentPhase::<Seq<char>, E>::ReceivingRequest { fd }) && (
        told matches EnvironmentEvent::RequestReceived(received) && received is Ok)) || (
        thread@.phase == (EnvironmentPhase::<Seq<char>, E>::Parsing { fd })
            && told is RequestParsed),
    ensures
        r.0@.sockets == thread@.sockets,
        r.0@.pending == thread@.pending,
        r.1.closes@.len() == 0,
        match told {
            EnvironmentEvent::RequestReceived(Ok(bytes)) => if valid_utf8(bytes@) {
                &&& r.0@.phase == (EnvironmentPhase::<Seq<char>, E>::Parsing { fd })
                &&& r.1.action matches EnvironmentAction::ParseRequest(text) && text@
                    == decode_utf8(bytes@)
            } else {
                &&& r.0@.phase is Refusing
                &&& r.1.action == (EnvironmentAction::<String, E>::Respond {
                    fd,
                    response: EnvironmentResponse::MalformedRequest,
                    page: None,
                })
            },
            EnvironmentEvent::RequestParsed(Some(EnvironmentRequest::OpenMutex(name))) => {
                &&& r.0@.phase == (EnvironmentPhase::<Seq<char>, E>::OpeningMutex {
                    fd,
                    name: name@,
                })
                &&& r.1.action is OpenMutex
            },
            _ => {
                &&& r.0@.phase is Refusing
                &&& r.1.action == (EnvironmentAction::<String, E>::Respond {
                    fd,
                    response: EnvironmentResponse::MalformedRequest,
                    page: None,
                })
            },
        },
{
}

/// An environment that closes tells its owner its own name, then writes the event once, and then ends,
/// whatever goes wrong on the way; one that is dropped just ends.
pub proof fn law_environments_end<E>(thread: EnvironmentThread<E>, told: Told<E>, r: Done<E>)
    requires
        thread.wf(),
        call_ensures(EnvironmentThread::<E>::next, (thread, told), r),
    ensures
        told is Reported ==> {
            &&& r.0@.phase is SendingName
            &&& r.1.action matches EnvironmentAction::SendName(name) && name@ == thread@.name
        },
        told is NameSent ==> {
            &&& r.0@.phase is WritingCloseEvent
            &&& r.1.action == (EnvironmentAction::<String, E>::WriteCloseEvent { value: 1 })
        },
        told is CloseEventWritten || told is DropEventRead ==> {
            &&& r.0@.phase is Stopped
            &&& r.1.action is Stop
        },
        told is Reported || told is NameSent || told is CloseEventWritten || told is DropEventRead
            ==> r.0@.sockets == thread@.sockets && r.1.closes@.len() == 0,
{
}

/// The error that a client or the environment itself has caused is reported with the step that it
/// turns up in; one that the environment closes for is reported by an action of its own, and what goes
/// wrong from then on is reported in the end, in its order. Nothing else is reported.
pub proof fn law_every_error_is_reported<E>(
    thread: EnvironmentThread<E>,
    told: Told<E>,
    r: Done<E>,
)
    requires
        thread.wf(),
        thread@.expects(told@),
        call_ensures(EnvironmentThread::<E>::next, (thread, told), r),
    ensures
        match told {
            EnvironmentEvent::Registered(Err(e)) => if thread@.phase is RegisteringListener {
                r.1.reports@ == seq![Failure::Outside(e)]
            } else {
                r.1.reports@.len() == 0
            },
            EnvironmentEvent::AddListenerEventRead(Err(e)) => r.1.reports@ == seq![
                Failure::Outside(e),
            ],
            EnvironmentEvent::DropEventRead(Err(e)) => r.1.reports@ == seq![Failure::Outside(e)],
            EnvironmentEvent::RequestReceived(Err(e)) => r.1.reports@ == seq![Failure::Outside(e)],
            EnvironmentEvent::Responded(sent) => {
                let answered = match thread@.phase {
                    EnvironmentPhase::Answering { failure: Some(failure) } => seq![failure],
                    _ => seq![],
                };
                match sent {
                    Ok(_) => r.1.reports@ == answered,
                    Err(e) => r.1.reports@ == answered.push(Failure::Outside(e)),
                }
            },
            EnvironmentEvent::CloseEventWritten(written) => {
                let unreported = match thread@.phase {
                    EnvironmentPhase::WritingCloseEvent { unreported: Some(e), .. } => seq![
                        Failure::Outside(e),
                    ],
                    _ => seq![],
                };
                let unsent = match thread@.phase {
                    EnvironmentPhase::WritingCloseEvent { unsent: Some(e), .. } => unreported.push(
                        Failure::Outside(e),
                    ),
                    _ => unreported,
                };
                match written {
                    Ok(_) => r.1.reports@ == unsent,
                    Err(e) => r.1.reports@ == unsent.push(Failure::Outside(e)),
                }
            },
            _ => r.1.reports@.len() == 0,
        },
        told matches EnvironmentEvent::Reported(reported) ==> r.0@.phase == (EnvironmentPhase::<
            Seq<char>,
            E,
        >::SendingName {
            unreported: match reported {
                Ok(_) => None,
                Err(e) => Some(e),
            },
        }),
        told matches EnvironmentEvent::NameSent(sent) ==> r.0@.phase == (EnvironmentPhase::<
            Seq<char>,
            E,
        >::WritingCloseEvent {
            unreported: thread@.phase->SendingName_unreported,
            unsent: match sent {
                Ok(_) => None,
                Err(e) => Some(e),
            },
        }),
{
    lemma_every_turn::<E>();
}

/// Whether an event is the outcome of an action.
pub open spec fn is_outcome_of<E>(told: Told<E>, action: EnvironmentAction<String, E>) -> bool {
    match action {
        EnvironmentAction::CreateEpoll { .. } => told is EpollCreated,
        EnvironmentAction::Register { .. } => told is Registered,
        EnvironmentAction::Wait { .. } => told is Waited,
        EnvironmentAction::ReadAddListenerEvent => told is AddListenerEventRead,
        EnvironmentAction::ReceiveListener => told matches EnvironmentEvent::ListenerReceived(fd)
            && fd >= 0,
        EnvironmentAction::ReadDropEvent => told is DropEventRead,
        EnvironmentAction::ReceiveRequest { .. } => told is RequestReceived,
        EnvironmentAction::ParseRequest(_) => told is RequestParsed,
        EnvironmentAction::Respond { .. } => told is Responded,
        EnvironmentAction::Report(_) => told is Reported,
        EnvironmentAction::SendName(_) => told is NameSent,
        EnvironmentAction::WriteCloseEvent { .. } => told is CloseEventWritten,
        EnvironmentAction::OpenMutex | EnvironmentAction::Stop => false,
    }
}

/// The outcome of the action that the thread has asked for is expected, and nothing else.
pub(crate) proof fn lemma_expected<E>(
    thread: EnvironmentThread<E>,
    told: Told<E>,
    r: Done<E>,
    outcome: Told<E>,
)
    requires
        thread.wf(),
        thread@.expects(told@),
        call_ensures(EnvironmentThread::<E>::next, (thread, told), r),
    ensures
        r.0@.expects(outcome@) == is_outcome_of(outcome, r.1.action),
        r.0@.phase is OpeningMutex <==> r.1.action is OpenMutex,
{
    lemma_every_turn::<E>();
}

/// What a thread expects is the outcome of the action that it has asked for, whatever that outcome is,
/// and nothing else. It waits for a mutex to be opened exactly where it has asked for that.
pub proof fn law_outcomes_are_expected<E>(
    thread: EnvironmentThread<E>,
    told: Told<E>,
    r: Done<E>,
    outcome: Told<E>,
    expected: bool,
)
    requires
        thread.wf(),
        thread@.expects(told@),
        call_ensures(EnvironmentThread::<E>::next, (thread, told), r),
        call_ensures(EnvironmentThread::<E>::expects, (&r.0, &outcome), expected),
    ensures
        expected == is_outcome_of(outcome, r.1.action),
        expected == r.0@.expects(outcome@),
        r.0@.phase is OpeningMutex <==> r.1.action is OpenMutex,
{
    lemma_expected(thread, told, r, outcome);
}

/// A thread that begins expects the outcome of its first action, whatever that outcome is.
pub proof fn law_first_outcome_is_expected<E>(
    name: String,
    add_listener: i32,
    drop_event: i32,
    shm: Result<ShmAllocator, Failure<E>>,
    r: Done<E>,
    outcome: Told<E>,
    expected: bool,
)
    requires
        shm matches Ok(shm) ==> shm.wf(),
        call_ensures(EnvironmentThread::<E>::start, (name, add_listener, drop_event, shm), r),
        call_ensures(EnvironmentThread::<E>::expects, (&r.0, &outcome), expected),
    ensures
        expected == is_outcome_of(outcome, r.1.action),
        expected == r.0@.expects(outcome@),
{
}

/// Whatever happens, a thread keeps its name, the two events that it is told by, and its memory.
pub proof fn law_threads_stay_themselves<E>(
    thread: EnvironmentThread<E>,
    told: Told<E>,
    r: Done<E>,
)
    requires
        thread.wf(),
        thread@.expects(told@),
        call_ensures(EnvironmentThread::<E>::next, (thread, told), r),
    ensures
        r.0.wf(),
        r.0@.name == thread@.name,
        r.0@.add_listener == thread@.add_listener,
        r.0@.drop_event == thread@.drop_event,
        r.0@.shm == thread@.shm,
        told is EpollCreated || told is ListenerReceived || (told matches
            EnvironmentEvent::AddListenerEventRead(read) && read is Ok) || (told
            is Registered && thread@.phase is RegisteringAddListener) ==> r.0@.sockets
            == thread@.sockets && r.0@.pending == thread@.pending && r.1.closes@.len() == 0,
{
    lemma_every_turn::<E>();
}

/// When the thread has ended, its memory is left to be torn down, where there is any, with every
/// mutex in its place, and every client's socket is left to be closed, once.
pub proof fn law_threads_leave_everything<E>(
    thread: EnvironmentThread<E>,
    r: (Option<Teardown>, Vec<i32>),
    fd: i32,
    name: Seq<char>,
)
    requires
        thread.wf(),
        call_ensures(EnvironmentThread::<E>::finish, (thread,), r),
    ensures
        r.0 is Some <==> thread@.shm is Some,
        r.0 matches Some(teardown) ==> {
            &&& teardown.pages@ == (thread@.shm->0).pages
            &&& teardown.page_size == (thread@.shm->0).page_size
            &&& (thread@.shm->0).slots.contains_key(name) <==> exists|k: int|
                {
                    &&& 0 <= k < teardown.destructions@.len()
                    &&& (#[trigger] teardown.destructions@[k]).name@ == name
                    &&& teardown.destructions@[k].page == (thread@.shm->0).slots[name].page
                    &&& teardown.destructions@[k].offset == (thread@.shm->0).slots[name].offset
                }
            &&& forall|i: int, j: int|
                0 <= i < j < teardown.destructions@.len() ==> (
                #[trigger] teardown.destructions@[i]).name@ != (
                #[trigger] teardown.destructions@[j]).name@
        },
        r.1@.contains(fd) <==> thread@.sockets.contains(fd),
        r.1@.no_duplicates(),
{
    assert(r.1@.to_set().contains(fd) <==> r.1@.contains(fd));
}

/// A client that asks for a mutex is answered, it and nobody else. It is told of the mutex of that
/// name: of the page and the offset that the mutex has, and it gets the file of that very page. A
/// mutex that was there is left as it is. One that was not has been initialised and then written
/// there, at that page and that offset; everything else in memory stays in its place.
///
/// Otherwise it is told of an internal error, and the reason is kept to be reported: the resource of
/// that name is no mutex, the initialisation failed, the mutex does not fit into a page, or a page
/// that was needed could not be made. None of these changes the memory.
pub proof fn law_mutexes_are_opened<E, T, I, C, R, S, M, W>(
    thread: EnvironmentThread<E>,
    mutex: ResourceType,
    init: I,
    steps: PageSteps<C, R, S, M>,
    write: W,
    r: Done<E>,
    fd: i32,
    name: Seq<char>,
) where
    I: FnOnce() -> Result<T, E>,
    C: FnOnce(&'static str, u32) -> Result<i32, E>,
    R: FnOnce(i32, i64) -> Result<(), E>,
    S: FnOnce(i32, i32) -> Result<(), E>,
    M: FnOnce(i32, usize, i32, i32) -> Result<(), E>,
    W: FnOnce(T, usize, usize),

    requires
        thread.wf(),
        mutex.align > 0,
        thread@.phase == (EnvironmentPhase::<Seq<char>, E>::OpeningMutex { fd, name }),
        call_ensures(
            EnvironmentThread::<E>::open_mutex::<T, I, C, R, S, M, W>,
            (thread, mutex, init, steps, write),
            r,
        ),
    ensures
        r.0.wf(),
        r.0@.shm is Some,
        r.0@.name == thread@.name,
        r.0@.add_listener == thread@.add_listener,
        r.0@.drop_event == thread@.drop_event,
        r.0@.sockets == thread@.sockets,
        r.0@.pending == thread@.pending,
        r.1.reports@.len() == 0,
        r.1.answer is None,
        r.1.closes@.len() == 0,
        forall|other: Seq<char>| #[trigger]
            (thread@.shm->0).slots.contains_key(other) ==> (r.0@.shm->0).slots.contains_key(other)
                && (r.0@.shm->0).slots[other] == (thread@.shm->0).slots[other],
        (r.0@.shm->0).page_size == (thread@.shm->0).page_size,
        (r.0@.shm->0).pages == (thread@.shm->0).pages || ((r.0@.shm->0).pages == (
        thread@.shm->0).pages.push((r.0@.shm->0).pages.last()) && steps.made(
            (thread@.shm->0).page_size as usize,
            Ok::<i32, E>((r.0@.shm->0).pages.last()),
        )),
        r.1.action matches EnvironmentAction::Respond { fd: to, response, page: file } && to == fd
            && match response {
            EnvironmentResponse::OpenMutexOk(page, offset) => {
                &&& r.0@.phase == (EnvironmentPhase::<Seq<char>, E>::Answering { failure: None })
                &&& page < (r.0@.shm->0).pages.len()
                &&& file == Some((r.0@.shm->0).pages[page as int])
                &&& (r.0@.shm->0).slots.contains_key(name)
                &&& (r.0@.shm->0).slots[name].type_id == mutex.type_id
                &&& (r.0@.shm->0).slots[name].page == page
                &&& (r.0@.shm->0).slots[name].offset == offset
                &&& (thread@.shm->0).slots.contains_key(name) ==> r.0@.shm == thread@.shm
                &&& !(thread@.shm->0).slots.contains_key(name) ==> {
                    &&& (r.0@.shm->0).slots[name].size == mutex.size
                    &&& offset as int % mutex.align as int == 0
                    &&& exists|resource: T| #[trigger]
                        call_ensures(init, (), Ok::<T, E>(resource)) && call_ensures(
                            write,
                            (resource, page, offset),
                            (),
                        )
                }
            },
            EnvironmentResponse::InternalError => {
                &&& file is None
                &&& r.0@.shm == thread@.shm
                &&& r.0@.phase matches EnvironmentPhase::Answering { failure: Some(failure) }
                    && if (thread@.shm->0).slots.contains_key(name) {
                    &&& (thread@.shm->0).slots[name].type_id != mutex.type_id
                    &&& failure matches Failure::Service(
                        ServiceError::Runtime(
                            RuntimeError::ResourceTypeMismatch { requested_type, resource_type },
                        ),
                    ) && requested_type@ == mutex.name@ && resource_type@
                        == "<unavailable at runtime>"@
                } else {
                    match failure {
                        Failure::Service(
                            ServiceError::Runtime(
                                RuntimeError::ResourceTooLargeForPage { page_size, size },
                            ),
                        ) => page_size == (thread@.shm->0).page_size && size == mutex.size && size
                            > page_size,
                        Failure::Service(
                            ServiceError::Runtime(
                                RuntimeError::ResourceAlignmentLargerThanPage {
                                    page_size,
                                    alignment,
                                },
                            ),
                        ) => page_size == (thread@.shm->0).page_size && mutex.size <= page_size
                            && alignment == mutex.align && alignment > page_size,
                        Failure::Service(_) => false,
                        Failure::Outside(e) => call_ensures(init, (), Err::<T, E>(e))
                            || steps.made(
                            (thread@.shm->0).page_size as usize,
                            Err::<i32, E>(e),
                        ),
                    }
                }
            },
            _ => false,
        },
        forall|outcome: Told<E>| #[trigger]
            r.0@.expects(outcome@) <==> outcome is Responded,
{
    thread.lemma_wf();
    r.0.lemma_wf();
    let before = thread@.shm->0;
    let made = steps.outcomes::<E>(before.page_size as usize);
    let (after, location) = choose|shm: ShmView, location: Opened<E>| #[trigger]
        opened(before, name, mutex, init, made, write, shm, location) && is_outcome(
            r,
            EnvironmentState { shm: Some(shm), ..thread@ }.answers(fd, location),
        );
    assert(after == r.0@.shm->0);
    if before.slots.contains_key(name) {
        assert(before.holds(before.slots[name]));
    } else {
        let initialised = choose|initialised: Result<T, E>| #[trigger]
            call_ensures(init, (), initialised) && match initialised {
                Err(e) => after == before && location == Err::<ClientResourceLocation, Failure<E>>(
                    Failure::Outside(e),
                ),
                Ok(resource) => constructed(
                    before,
                    name,
                    mutex.type_id,
                    mutex.size as int,
                    mutex.align as int,
                    made,
                    moving(resource, write),
                    after,
                    location,
                ),
            };
        if let Ok(resource) = initialised {
            match location {
                Ok(place) => {
                    lemma_place(
                        before,
                        name,
                        mutex.type_id,
                        mutex.size as int,
                        mutex.align as int,
                        made,
                        moving(resource, write),
                        after,
                        place,
                    );
                },
                Err(failure) => {
                    lemma_no_place(
                        before,
                        name,
                        mutex.type_id,
                        mutex.size as int,
                        mutex.align as int,
                        made,
                        moving(resource, write),
                        after,
                        failure,
                    );
                },
            }
        }
    }
}

/// A set of sockets holds what has been put into it and has not been taken out again, each once.
pub proof fn law_sockets_form_a_set(
    empty: SocketSet,
    set: &mut SocketSet,
    socket: i32,
    new: bool,
    other: i32,
)
    requires
        call_ensures(SocketSet::new, (), empty),
        call_ensures(SocketSet::insert, (set, socket), new),
    ensures
        !empty@.contains(other),
        new <==> !old(set)@.contains(socket),
        final(set)@.contains(socket),
        other != socket ==> (final(set)@.contains(other) <==> old(set)@.contains(other)),
{
}

/// What is taken out of a set of sockets is in it no more, and everything else stays.
pub proof fn law_sockets_are_taken_out(
    set: &mut SocketSet,
    socket: i32,
    there: bool,
    other: i32,
)
    requires
        call_ensures(SocketSet::remove, (set, &socket), there),
    ensures
        there <==> old(set)@.contains(socket),
        !final(set)@.contains(socket),
        other != socket ==> (final(set)@.contains(other) <==> old(set)@.contains(other)),
{
}

/// A set of sockets is empty exactly if there is none in it, counts each one once, and hands each one
/// out once.
pub proof fn law_sockets_are_counted(
    set: SocketSet,
    empty: bool,
    len: usize,
    all: Vec<i32>,
    socket: i32,
)
    requires
        all_open(set@),
        call_ensures(SocketSet::is_empty, (&set,), empty),
        call_ensures(SocketSet::len, (&set,), len),
        call_ensures(SocketSet::into_sockets, (set,), all),
    ensures
        set@.contains(socket) ==> !empty,
        !empty ==> exists|any: i32| set@.contains(any),
        all@.len() == len,
        all@.contains(socket) <==> set@.contains(socket),
        forall|i: int, j: int|
            0 <= i < j < all@.len() ==> #[trigger] all@[i] != #[trigger] all@[j],
        call_requires(SocketSet::len, (&set,)),
{
    assert(all@.to_set().contains(socket) <==> all@.contains(socket));
    all@.unique_seq_to_set();
    if !empty {
        let any = set@.choose();
        assert(set@.contains(any));
    }
}

} // verus!
