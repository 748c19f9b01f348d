//! The end of the shared memory: first all resources are destroyed, and then all pages are unmapped.
//!
//! The end is given as what is done next. [`ShmTeardown::action`] names it, and its outcome goes into
//! [`ShmTeardown::next`]. A panic of a destructor stops nothing: only when everything has been done
//! does [`ShmTeardown::conclude`] say whether one is passed on.

use vstd::prelude::*;

use crate::linux::shm_allocator::{Destruction, Teardown};
use crate::teardown::{first_panic_of, unmap_warning};

verus! {

/// What is done next.
#[derive(Debug, Copy, Clone, PartialEq, Eq)]
pub enum TeardownAction {
    /// Destroy the resource at this place.
    Destroy { page: usize, offset: usize },
    /// Unmap the page over its whole length.
    Unmap { page: usize, length: usize },
    /// Everything has been done: come to the end by [`ShmTeardown::conclude`].
    Conclude,
}

/// The outcome of an action: `P` is what a destructor panics with, and an unmapping fails with what
/// the error says.
pub enum TeardownEvent<P> {
    Destroyed(Result<(), P>),
    Unmapped(Result<(), String>),
}

/// How the destruction of shared memory ends.
#[derive(Debug, PartialEq, Eq)]
pub enum Conclusion<P> {
    /// No destructor panicked.
    Quiet,
    /// One did while the thread was panicking already: warn with this message.
    Warn(String),
    /// One did: go on with its panic.
    Resume(P),
}

/// What is to be done, and how much of it has been done: the places of the resources, the number of
/// pages and their size, and the first panic so far.
pub struct TeardownState<P> {
    pub places: Seq<(usize, usize)>,
    pub pages: nat,
    pub page_size: usize,
    pub destroyed: nat,
    pub unmapped: nat,
    pub first_panic: Option<P>,
}

/// The places of the resources, in the order in which they are destroyed.
pub open spec fn places_of(destructions: Seq<Destruction>) -> Seq<(usize, usize)> {
    Seq::new(destructions.len(), |i: int| (destructions[i].page, destructions[i].offset))
}

impl<P> TeardownState<P> {
    /// Where the teardown begins.
    pub open spec fn start(plan: Teardown) -> TeardownState<P> {
        TeardownState {
            places: places_of(plan.destructions@),
            pages: plan.pages@.len(),
            page_size: plan.page_size,
            destroyed: 0,
            unmapped: 0,
            first_panic: None,
        }
    }

    /// What is done next.
    pub open spec fn action(self) -> TeardownAction {
        if self.destroyed < self.places.len() {
            let (page, offset) = self.places[self.destroyed as int];
            TeardownAction::Destroy { page, offset }
        } else if self.unmapped < self.pages {
            TeardownAction::Unmap { page: self.unmapped as usize, length: self.page_size }
        } else {
            TeardownAction::Conclude
        }
    }

    /// Whether the event is the outcome of what is done next.
    pub open spec fn expects(self, event: TeardownEvent<P>) -> bool {
        match self.action() {
            TeardownAction::Destroy { .. } => event is Destroyed,
            TeardownAction::Unmap { .. } => event is Unmapped,
            TeardownAction::Conclude => false,
        }
    }

    /// The state after the outcome. The first panic is kept.
    pub open spec fn next(self, event: TeardownEvent<P>) -> TeardownState<P> {
        match event {
            TeardownEvent::Destroyed(r) => TeardownState {
                destroyed: self.destroyed + 1,
                first_panic: if self.first_panic is Some {
                    self.first_panic
                } else {
                    r.err()
                },
                ..self
            },
            TeardownEvent::Unmapped(_) => TeardownState { unmapped: self.unmapped + 1, ..self },
        }
    }

    /// The state after the given outcomes of destructors and unmappings, in their order.
    pub open spec fn ran(
        self,
        destroyed: Seq<Result<(), P>>,
        unmapped: Seq<Result<(), String>>,
    ) -> TeardownState<P>
        decreases destroyed.len() + unmapped.len(),
    {
        if unmapped.len() > 0 {
            self.ran(destroyed, unmapped.drop_last()).next(TeardownEvent::Unmapped(unmapped.last()))
        } else if destroyed.len() > 0 {
            self.ran(destroyed.drop_last(), unmapped).next(
                TeardownEvent::Destroyed(destroyed.last()),
            )
        } else {
            self
        }
    }
}

/// The warning that an outcome gives rise to, if it does: only an unmapping that failed does.
pub open spec fn warns<P>(warning: Option<String>, event: TeardownEvent<P>) -> bool {
    match event {
        TeardownEvent::Unmapped(Err(e)) => warning matches Some(text) && text@
            == "unmapping of shared memory failed: "@ + e@,
        _ => warning is None,
    }
}

/// Whether `r` is how the destruction ends after the first panic, if there was one.
pub open spec fn concludes<P>(r: Conclusion<P>, first_panic: Option<P>, panicking: bool) -> bool {
    match first_panic {
        None => r is Quiet,
        Some(panic) => if panicking {
            r matches Conclusion::Warn(text) && text@ == "ShmAllocator panicked while destructing"@
        } else {
            r == Conclusion::Resume(panic)
        },
    }
}

/// The destruction of shared memory.
pub struct ShmTeardown<P> {
    plan: Teardown,
    destroyed: usize,
    unmapped: usize,
    first_panic: Option<P>,
}

impl<P> View for ShmTeardown<P> {
    type V = TeardownState<P>;

    closed spec fn view(&self) -> TeardownState<P> {
        TeardownState {
            places: places_of(self.plan.destructions@),
            pages: self.plan.pages@.len(),
            page_size: self.plan.page_size,
            destroyed: self.destroyed as nat,
            unmapped: self.unmapped as nat,
            first_panic: self.first_panic,
        }
    }
}

impl<P> ShmTeardown<P> {
    /// The teardown at its beginning.
    pub fn start(plan: Teardown) -> (r: Self)
        ensures
            r@ == TeardownState::<P>::start(plan),
    {
        ShmTeardown { plan, destroyed: 0, unmapped: 0, first_panic: None }
    }

    /// What is done next.
    pub fn action(&self) -> (r: TeardownAction)
        ensures
            r == self@.action(),
    {
        if self.destroyed < self.plan.destructions.len() {
            let destruction = &self.plan.destructions[self.destroyed];
            TeardownAction::Destroy { page: destruction.page, offset: destruction.offset }
        } else if self.unmapped < self.plan.pages.len() {
            TeardownAction::Unmap { page: self.unmapped, length: self.plan.page_size }
        } else {
            TeardownAction::Conclude
        }
    }

    /// Takes the outcome of what was to be done, and gives the warning about it, if there is one.
    pub fn next(self, event: TeardownEvent<P>) -> (r: (Self, Option<String>))
        requires
            self@.expects(event),
        ensures
            r.0@ == self@.next(event),
            warns(r.1, event),
    {
        assert(self.destroyed < self.plan.destructions@.len() ==> self.destroyed
            < self.plan.destructions.len());
        assert(self.unmapped < self.plan.pages@.len() ==> self.unmapped < self.plan.pages.len());
        match event {
            TeardownEvent::Destroyed(outcome) => {
                let first_panic = if self.first_panic.is_some() {
                    self.first_panic
                } else {
                    outcome.err()
                };
                let destroyed: usize = self.destroyed + 1;
                (
                    ShmTeardown {
                        plan: self.plan,
                        destroyed,
                        unmapped: self.unmapped,
                        first_panic,
                    },
                    None,
                )
            },
            TeardownEvent::Unmapped(outcome) => {
                let warning = match outcome {
                    Ok(_) => None,
                    Err(e) => Some(unmap_warning(e.as_str())),
                };
                let unmapped: usize = self.unmapped + 1;
                (ShmTeardown { unmapped, ..self }, warning)
            },
        }
    }

    /// How the destruction ends once everything has been done, on a thread that is panicking or not.
    pub fn conclude(self, panicking: bool) -> (r: Conclusion<P>)
        requires
            self@.action() is Conclude,
        ensures
            concludes(r, self@.first_panic, panicking),
    {
        match self.first_panic {
            None => Conclusion::Quiet,
            Some(panic) => if panicking {
                Conclusion::Warn("ShmAllocator panicked while destructing".to_string())
            } else {
                Conclusion::Resume(panic)
            },
        }
    }
}

/// Every resource is destroyed once, in its place, and only then is every page unmapped, once and
/// over its whole length; only then does the teardown end, and the panic that it ends with is the
/// first there was. Neither a panic nor an unmapping that failed changes anything about that.
pub proof fn law_everything_is_torn_down<P>(
    plan: Teardown,
    destroyed: Seq<Result<(), P>>,
    unmapped: Seq<Result<(), String>>,
)
    requires
        destroyed.len() <= plan.destructions@.len(),
        unmapped.len() <= plan.pages@.len(),
        unmapped.len() > 0 ==> destroyed.len() == plan.destructions@.len(),
    ensures
        ({
            let state = TeardownState::start(plan).ran(destroyed, unmapped);
            &&& state.first_panic == first_panic_of(destroyed)
            &&& state.action() == if destroyed.len() < plan.destructions@.len() {
                let next = plan.destructions@[destroyed.len() as int];
                TeardownAction::Destroy { page: next.page, offset: next.offset }
            } else if unmapped.len() < plan.pages@.len() {
                TeardownAction::Unmap { page: unmapped.len() as usize, length: plan.page_size }
            } else {
                TeardownAction::Conclude
            }
        }),
{
    lemma_ran(plan, destroyed, unmapped);
}

proof fn lemma_ran<P>(
    plan: Teardown,
    destroyed: Seq<Result<(), P>>,
    unmapped: Seq<Result<(), String>>,
)
    ensures
        TeardownState::start(plan).ran(destroyed, unmapped) == (TeardownState {
            destroyed: destroyed.len(),
            unmapped: unmapped.len(),
            first_panic: first_panic_of(destroyed),
            ..TeardownState::start(plan)
        }),
    decreases destroyed.len() + unmapped.len(),
{
    if unmapped.len() > 0 {
        lemma_ran(plan, destroyed, unmapped.drop_last());
    } else if destroyed.len() > 0 {
        lemma_ran(plan, destroyed.drop_last(), unmapped);
        lemma_first_panic(destroyed);
    }
}

/// The last outcome counts only if there was no panic before it.
proof fn lemma_first_panic<P>(outcomes: Seq<Result<(), P>>)
    requires
        outcomes.len() > 0,
    ensures
        first_panic_of(outcomes) == if first_panic_of(outcomes.drop_last()) is Some {
            first_panic_of(outcomes.drop_last())
        } else {
            outcomes.last().err()
        },
    decreases outcomes.len(),
{
    reveal_with_fuel(first_panic_of, 2);
    if outcomes.len() > 1 {
        assert(outcomes.drop_last()[0] == outcomes[0]);
        assert(outcomes.drop_first().drop_last() =~= outcomes.drop_last().drop_first());
        lemma_first_panic(outcomes.drop_first());
    } else {
        assert(outcomes.drop_first() =~= seq![]);
    }
}

} // verus!
