//! The files behind the pages of shared memory.

use vstd::prelude::*;

use crate::constants::SHM_FILE_NAME;
use crate::linux::settings::{MAP_SHARED, PAGE_FILE_FLAGS, PAGE_PROTECTION, PAGE_SEALS};

verus! {

/// What the system answers while the file of a page is made.
pub struct PageFacts<E> {
    pub created: Result<i32, E>,
    pub resized: Result<(), E>,
    pub sealed: Result<(), E>,
    pub mapped: Result<(), E>,
}

impl<E> PageFacts<E> {
    /// The file, or the first error.
    pub open spec fn outcome(self) -> Result<i32, E> {
        if let Err(e) = self.created {
            Err(e)
        } else if let Err(e) = self.resized {
            Err(e)
        } else if let Err(e) = self.sealed {
            Err(e)
        } else if let Err(e) = self.mapped {
            Err(e)
        } else {
            self.created
        }
    }
}

/// The steps in which the file of a page is made, in their order.
pub struct PageSteps<C, R, S, M> {
    /// Creates a file of the given name with the given flags.
    pub create: C,
    /// Gives the file its length.
    pub resize: R,
    /// Seals the file.
    pub seal: S,
    /// Maps the file over the given length, with the given protection and flags.
    pub map: M,
}

impl<C, R, S, M> PageSteps<C, R, S, M> {
    /// Whether a file for pages of this size can be made by the steps: each one can be called once
    /// the one before it has succeeded on the same file.
    pub open spec fn callable<E>(self, page_size: usize) -> bool where
        C: FnOnce(&'static str, u32) -> Result<i32, E>,
        R: FnOnce(i32, i64) -> Result<(), E>,
        S: FnOnce(i32, i32) -> Result<(), E>,
        M: FnOnce(i32, usize, i32, i32) -> Result<(), E>,
     {
        &&& call_requires(self.create, (SHM_FILE_NAME, PAGE_FILE_FLAGS))
        &&& forall|fd: i32| #[trigger]
            call_ensures(self.create, (SHM_FILE_NAME, PAGE_FILE_FLAGS), Ok::<i32, E>(fd))
                ==> call_requires(self.resize, (fd, page_size as i64))
        &&& forall|fd: i32, resized: Result<(), E>| #[trigger]
            call_ensures(self.resize, (fd, page_size as i64), resized) && resized is Ok
                ==> call_requires(self.seal, (fd, PAGE_SEALS))
        &&& forall|fd: i32, sealed: Result<(), E>| #[trigger]
            call_ensures(self.seal, (fd, PAGE_SEALS), sealed) && sealed is Ok ==> call_requires(
                self.map,
                (fd, page_size, PAGE_PROTECTION, MAP_SHARED),
            )
    }

    /// Whether the steps have led to `r`: to a file that has its name, its flags and its length, is
    /// sealed so that nobody can change the length again, and is mapped over its whole length, shared,
    /// for reading and writing; or to the error of the first step that failed.
    pub open spec fn made<E>(self, page_size: usize, r: Result<i32, E>) -> bool where
        C: FnOnce(&'static str, u32) -> Result<i32, E>,
        R: FnOnce(i32, i64) -> Result<(), E>,
        S: FnOnce(i32, i32) -> Result<(), E>,
        M: FnOnce(i32, usize, i32, i32) -> Result<(), E>,
     {
        exists|facts: PageFacts<E>|
            {
                &&& r == #[trigger] facts.outcome()
                &&& call_ensures(self.create, (SHM_FILE_NAME, PAGE_FILE_FLAGS), facts.created)
                &&& facts.created matches Ok(fd) ==> {
                    &&& call_ensures(self.resize, (fd, page_size as i64), facts.resized)
                    &&& facts.resized is Ok ==> {
                        &&& call_ensures(self.seal, (fd, PAGE_SEALS), facts.sealed)
                        &&& facts.sealed is Ok ==> call_ensures(
                            self.map,
                            (fd, page_size, PAGE_PROTECTION, MAP_SHARED),
                            facts.mapped,
                        )
                    }
                }
            }
    }

    /// What the steps can lead to.
    pub open spec fn outcomes<E>(self, page_size: usize) -> spec_fn(Result<i32, E>) -> bool where
        C: FnOnce(&'static str, u32) -> Result<i32, E>,
        R: FnOnce(i32, i64) -> Result<(), E>,
        S: FnOnce(i32, i32) -> Result<(), E>,
        M: FnOnce(i32, usize, i32, i32) -> Result<(), E>,
     {
        |r: Result<i32, E>| self.made(page_size, r)
    }
}

/// Makes the file of a page. The steps are called in their order, up to the first that fails.
pub fn create_page<E, C, R, S, M>(page_size: usize, steps: PageSteps<C, R, S, M>) -> (r: Result<
    i32,
    E,
>) where
    C: FnOnce(&'static str, u32) -> Result<i32, E>,
    R: FnOnce(i32, i64) -> Result<(), E>,
    S: FnOnce(i32, i32) -> Result<(), E>,
    M: FnOnce(i32, usize, i32, i32) -> Result<(), E>,

    requires
        page_size <= isize::MAX,
        steps.callable(page_size),
    ensures
        steps.made(page_size, r),
{
    let PageSteps { create, resize, seal, map } = steps;
    let ghost mut facts: PageFacts<E> = arbitrary();
    let created = create(SHM_FILE_NAME, PAGE_FILE_FLAGS);
    proof {
        facts.created = created;
    }
    let fd: i32 = match created {
        Ok(fd) => fd,
        Err(e) => {
            assert(facts.outcome() == Err::<i32, E>(e));
            return Err(e);
        },
    };
    let resized = resize(fd, page_size as i64);
    proof {
        facts.resized = resized;
    }
    match resized {
        Ok(_) => {},
        Err(e) => {
            assert(facts.outcome() == Err::<i32, E>(e));
            return Err(e);
        },
    }
    let sealed = seal(fd, PAGE_SEALS);
    proof {
        facts.sealed = sealed;
    }
    match sealed {
        Ok(_) => {},
        Err(e) => {
            assert(facts.outcome() == Err::<i32, E>(e));
            return Err(e);
        },
    }
    let mapped = map(fd, page_size, PAGE_PROTECTION, MAP_SHARED);
    proof {
        facts.mapped = mapped;
    }
    match mapped {
        Ok(_) => {
            assert(facts.outcome() == Ok::<i32, E>(fd));
            Ok(fd)
        },
        Err(e) => {
            assert(facts.outcome() == Err::<i32, E>(e));
            Err(e)
        },
    }
}

} // verus!
