//! What each operation on the shared memory does, in terms of what goes into it and what comes out.

use vstd::prelude::*;

use crate::constants::SHM_FILE_NAME;
use crate::linux::runtime_error::RuntimeError;
use crate::linux::service_error::{Failure, ServiceError};
use crate::linux::settings::{MAP_SHARED, PAGE_FILE_FLAGS, PAGE_PROTECTION, PAGE_SEALS};
use crate::linux::shm_allocator::{
    align_up, constructed, constructing, lemma_align_up, may_build, moving, page_size_from, placed,
    ClientResourceLocation, ShmAllocator, ShmView, Slot, Teardown,
};
use crate::linux::shm_laws::{law_align_up_is_least, lemma_constructed};
use crate::linux::shm_page::{create_page, PageFacts, PageSteps};
use crate::linux::system::page_size_answer;

verus! {

/// A page is the file that has been created, and it is one only if it has got its length, has been
/// sealed and has been mapped over its whole length.
pub proof fn law_a_page_is_complete<E, C, R, S, M>(
    page_size: usize,
    steps: PageSteps<C, R, S, M>,
    fd: i32,
) where
    C: FnOnce(&'static str, u32) -> Result<i32, E>,
    R: FnOnce(i32, i64) -> Result<(), E>,
    S: FnOnce(i32, i32) -> Result<(), E>,
    M: FnOnce(i32, usize, i32, i32) -> Result<(), E>,

    requires
        call_ensures(create_page::<E, C, R, S, M>, (page_size, steps), Ok::<i32, E>(fd))
            || steps.made(page_size, Ok::<i32, E>(fd)),
    ensures
        exists|name: &'static str|
            name@ == "shm"@ && #[trigger] call_ensures(
                steps.create,
                (name, 0x3u32),
                Ok::<i32, E>(fd),
            ),
        call_ensures(steps.resize, (fd, page_size as i64), Ok::<(), E>(())),
        call_ensures(steps.seal, (fd, 0x7i32), Ok::<(), E>(())),
        call_ensures(steps.map, (fd, page_size, 0x3i32, 0x1i32), Ok::<(), E>(())),
{
    assert(steps.made(page_size, Ok::<i32, E>(fd)));
    let facts = choose|facts: PageFacts<E>|
        {
            &&& Ok::<i32, E>(fd) == #[trigger] facts.outcome()
            &&& call_ensures(steps.create, (SHM_FILE_NAME, PAGE_FILE_FLAGS), facts.created)
            &&& facts.created matches Ok(fd) ==> {
                &&& call_ensures(steps.resize, (fd, page_size as i64), facts.resized)
                &&& facts.resized is Ok ==> {
                    &&& call_ensures(steps.seal, (fd, PAGE_SEALS), facts.sealed)
                    &&& facts.sealed is Ok ==> call_ensures(
                        steps.map,
                        (fd, page_size, PAGE_PROTECTION, MAP_SHARED),
                        facts.mapped,
                    )
                }
            }
        };
    assert(facts.resized->Ok_0 == ());
    assert(facts.sealed->Ok_0 == ());
    assert(facts.mapped->Ok_0 == ());
}

/// A page that cannot be made fails with the error of a step, and every step before that one has
/// succeeded on the same file.
pub proof fn law_a_page_fails_with_a_step<E, C, R, S, M>(
    page_size: usize,
    steps: PageSteps<C, R, S, M>,
    e: E,
) where
    C: FnOnce(&'static str, u32) -> Result<i32, E>,
    R: FnOnce(i32, i64) -> Result<(), E>,
    S: FnOnce(i32, i32) -> Result<(), E>,
    M: FnOnce(i32, usize, i32, i32) -> Result<(), E>,

    requires
        call_ensures(create_page::<E, C, R, S, M>, (page_size, steps), Err::<i32, E>(e))
            || steps.made(page_size, Err::<i32, E>(e)),
    ensures
        exists|name: &'static str, created: Result<i32, E>|
            name@ == "shm"@ && #[trigger] call_ensures(steps.create, (name, 0x3u32), created)
                && match created {
                Err(error) => error == e,
                Ok(fd) => exists|resized: Result<(), E>| #[trigger]
                    call_ensures(steps.resize, (fd, page_size as i64), resized) && match resized {
                        Err(error) => error == e,
                        Ok(_) => exists|sealed: Result<(), E>| #[trigger]
                            call_ensures(steps.seal, (fd, 0x7i32), sealed) && match sealed {
                                Err(error) => error == e,
                                Ok(_) => call_ensures(
                                    steps.map,
                                    (fd, page_size, 0x3i32, 0x1i32),
                                    Err::<(), E>(e),
                                ),
                            },
                    },
            },
{
    assert(steps.made(page_size, Err::<i32, E>(e)));
}

/// The page size is the one that the system names, as long as it is one that a page can have. Every
/// other answer is an error, and each error has its own answers.
pub proof fn law_page_size(
    setting: Result<Option<i64>, i32>,
    r: Result<usize, ServiceError>,
)
    requires
        call_ensures(page_size_from, (setting,), r),
    ensures
        r matches Ok(size) ==> 0 < size <= isize::MAX && setting == Ok::<Option<i64>, i32>(
            Some(size as i64),
        ),
        r is Ok <==> (setting matches Ok(Some(size)) && 0 < size <= isize::MAX),
        r matches Err(ServiceError::Os(errno)) ==> setting == Err::<Option<i64>, i32>(errno),
        setting is Err <==> (r matches Err(ServiceError::Os(_))),
        setting == Ok::<Option<i64>, i32>(None) || setting == Ok::<Option<i64>, i32>(Some(0)) <==> r
            == Err::<usize, ServiceError>(ServiceError::Runtime(RuntimeError::GetPageSizeFailed)),
        (setting matches Ok(Some(size)) && (size < 0 || size > isize::MAX)) <==> r == Err::<
            usize,
            ServiceError,
        >(ServiceError::PageSizeOutOfRange),
{
}

/// A new allocator holds nothing and has no pages, and its pages are of the size that is asked for
/// or that the system names.
pub proof fn law_allocators_begin_empty(
    page_size: usize,
    shm: ShmAllocator,
    of_system: Result<ShmAllocator, ServiceError>,
)
    requires
        0 < page_size <= isize::MAX,
        call_ensures(ShmAllocator::with_page_size, (page_size,), shm),
        call_ensures(ShmAllocator::new, (), of_system),
    ensures
        shm.wf(),
        shm@.page_size == page_size,
        shm@.pages.len() == 0,
        shm@.free_ptr == 0,
        forall|name: Seq<char>| !#[trigger] shm@.slots.contains_key(name),
        match of_system {
            Ok(shm) => {
                &&& shm.wf()
                &&& exists|size: i64| #[trigger]
                    page_size_answer(Ok(Some(size))) && 0 < size && shm@.page_size == size
                &&& shm@.pages.len() == 0
                &&& shm@.free_ptr == 0
                &&& forall|name: Seq<char>| !#[trigger] shm@.slots.contains_key(name)
            },
            Err(ServiceError::Os(errno)) => page_size_answer(Err(errno)),
            Err(ServiceError::Runtime(e)) => e is GetPageSizeFailed && (page_size_answer(Ok(None))
                || page_size_answer(Ok(Some(0)))),
            Err(e) => e is PageSizeOutOfRange && exists|size: i64| #[trigger]
                page_size_answer(Ok(Some(size))) && (size < 0 || size > isize::MAX),
        },
{
}

/// A search finds a resource exactly if there is one of that name, and hands it out exactly if it is
/// of the type that is asked for. What is found names the page and the offset of the resource, and
/// the file of that very page.
pub proof fn law_search_names_page_and_file(
    shm: &ShmAllocator,
    name: &str,
    type_id: u128,
    requested_type: &'static str,
    r: Result<Option<ClientResourceLocation>, RuntimeError>,
)
    requires
        shm.wf(),
        call_ensures(ShmAllocator::find_resource, (shm, name, type_id, requested_type), r),
    ensures
        r == Ok::<Option<ClientResourceLocation>, RuntimeError>(None)
            <==> !shm@.slots.contains_key(name@),
        r is Err <==> shm@.slots.contains_key(name@) && shm@.slots[name@].type_id != type_id,
        r matches Err(e) ==> (e matches RuntimeError::ResourceTypeMismatch {
            requested_type: requested,
            resource_type,
        } && requested@ == requested_type@ && resource_type@ == "<unavailable at runtime>"@),
        r matches Ok(Some(location)) ==> {
            &&& location.page == shm@.slots[name@].page
            &&& location.offset == shm@.slots[name@].offset
            &&& location.page < shm@.pages.len()
            &&& location.fd == shm@.pages[location.page as int]
        },
{
    shm.lemma_wf();
    if shm@.slots.contains_key(name@) {
        assert(shm@.holds(shm@.slots[name@]));
    }
}

/// There is one way only in which building succeeds.
proof fn lemma_built<E>(built_with: spec_fn(usize, usize, Result<(), E>) -> bool)
    ensures
        forall|page: usize, offset: usize, built: Result<(), E>| #[trigger]
            built_with(page, offset, built) && built is Ok ==> built_with(
                page,
                offset,
                Ok::<(), E>(()),
            ),
{
    assert forall|page: usize, offset: usize, built: Result<(), E>| #[trigger]
        built_with(page, offset, built) && built is Ok implies built_with(
        page,
        offset,
        Ok::<(), E>(()),
    ) by {
        assert(built->Ok_0 == ());
        assert(built == Ok::<(), E>(built->Ok_0));
    }
}

/// What is common to the ways in which a resource gets its place.
pub(crate) proof fn lemma_place<E>(
    before: ShmView,
    name: Seq<char>,
    type_id: u128,
    size: int,
    align: int,
    made: spec_fn(Result<i32, E>) -> bool,
    built_with: spec_fn(usize, usize, Result<(), E>) -> bool,
    after: ShmView,
    location: ClientResourceLocation,
)
    requires
        before.wf(),
        after.wf(),
        0 <= size,
        0 < align,
        constructed(
            before,
            name,
            type_id,
            size,
            align,
            made,
            built_with,
            after,
            Ok::<ClientResourceLocation, Failure<E>>(location),
        ),
    ensures
        !before.slots.contains_key(name),
        size <= before.page_size,
        align <= before.page_size,
        after.page_size == before.page_size,
        after.slots == before.slots.insert(
            name,
            (Slot { type_id, page: location.page as int, offset: location.offset as int, size }),
        ),
        location.page == after.pages.len() - 1,
        location.fd == after.pages[location.page as int],
        location.offset as int % align == 0,
        location.offset + size <= before.page_size,
        after.free_ptr == location.offset + size,
        built_with(location.page, location.offset, Ok::<(), E>(())),
        if after.pages.len() == before.pages.len() {
            after.pages == before.pages && before.free_ptr <= location.offset < before.free_ptr + align
        } else {
            &&& after.pages == before.pages.push(location.fd)
            &&& location.offset == 0
            &&& made(Ok::<i32, E>(location.fd))
            &&& before.pages.len() > 0 ==> forall|offset: int|
                before.free_ptr <= offset && #[trigger] (offset % align) == 0 ==> offset + size
                    > before.page_size
        },
{
    lemma_constructed(
        before,
        name,
        type_id,
        size,
        align,
        made,
        built_with,
        after,
        Ok::<ClientResourceLocation, Failure<E>>(location),
    );
    lemma_align_up(before.free_ptr, align);
    lemma_align_up(0, align);
    vstd::arithmetic::div_mod::lemma_mod_bound(before.free_ptr, align);
    lemma_built::<E>(built_with);
    let up = align_up(before.free_ptr, align);
    assert(up % align == 0) by {
        vstd::arithmetic::div_mod::lemma_mod_multiples_basic(
            (before.free_ptr + align - 1) / align,
            align,
        );
    }
    if before.needs_page(size, align) {
        assert forall|offset: int|
            before.pages.len() > 0 && before.free_ptr <= offset && #[trigger] (offset % align)
                == 0 implies offset + size > before.page_size by {
            law_align_up_is_least(before.free_ptr, align, offset);
        }
        let fd = after.pages.last();
        let room = before.with_page(fd);
        assert(0int % align == 0) by {
            vstd::arithmetic::div_mod::lemma_small_mod(0, align as nat);
        }
        let created = choose|created: Result<i32, E>| #[trigger]
            made(created) && match created {
                Ok(fd) => placed(
                    before.with_page(fd),
                    name,
                    type_id,
                    size,
                    align,
                    built_with,
                    after,
                    Ok::<ClientResourceLocation, Failure<E>>(location),
                ),
                Err(e) => false,
            };
        assert(created is Ok);
        assert(after.pages.last() == created->Ok_0);
    }
}

/// What is common to the ways in which a resource gets no place.
pub(crate) proof fn lemma_no_place<E>(
    before: ShmView,
    name: Seq<char>,
    type_id: u128,
    size: int,
    align: int,
    made: spec_fn(Result<i32, E>) -> bool,
    built_with: spec_fn(usize, usize, Result<(), E>) -> bool,
    after: ShmView,
    failure: Failure<E>,
)
    requires
        before.wf(),
        after.wf(),
        0 <= size <= usize::MAX,
        0 < align <= usize::MAX,
        constructed(
            before,
            name,
            type_id,
            size,
            align,
            made,
            built_with,
            after,
            Err::<ClientResourceLocation, Failure<E>>(failure),
        ),
    ensures
        after.page_size == before.page_size,
        after.slots == before.slots,
        match failure {
            Failure::Service(
                ServiceError::Runtime(RuntimeError::ResourceNameAlreadyInUse { resource_name }),
            ) => after == before && before.slots.contains_key(name) && resource_name@ == name,
            Failure::Service(
                ServiceError::Runtime(
                    RuntimeError::ResourceTooLargeForPage { page_size, size: asked },
                ),
            ) => after == before && !before.slots.contains_key(name) && page_size
                == before.page_size && asked == size && size > page_size,
            Failure::Service(
                ServiceError::Runtime(
                    RuntimeError::ResourceAlignmentLargerThanPage { page_size, alignment },
                ),
            ) => after == before && !before.slots.contains_key(name) && size <= page_size
                && page_size == before.page_size && alignment == align && align > page_size,
            Failure::Service(_) => false,
            Failure::Outside(e) => {
                &&& !before.slots.contains_key(name)
                &&& size <= before.page_size
                &&& align <= before.page_size
                &&& (after == before && made(Err::<i32, E>(e))) || exists|page: usize, offset: usize|
                    {
                        &&& #[trigger] built_with(page, offset, Err::<(), E>(e))
                        &&& page == after.pages.len() - 1
                        &&& after.free_ptr == offset + size
                        &&& after.pages == before.pages || (after.pages == before.pages.push(
                            after.pages.last(),
                        ) && made(Ok::<i32, E>(after.pages.last())))
                    }
            },
        },
{
    lemma_constructed(
        before,
        name,
        type_id,
        size,
        align,
        made,
        built_with,
        after,
        Err::<ClientResourceLocation, Failure<E>>(failure),
    );
    lemma_align_up(before.free_ptr, align);
    lemma_align_up(0, align);
    vstd::arithmetic::div_mod::lemma_mod_bound(before.free_ptr, align);
    if let Failure::Outside(e) = failure {
        let room = if before.needs_page(size, align) {
            let created = choose|created: Result<i32, E>| #[trigger]
                made(created) && match created {
                    Ok(fd) => placed(
                        before.with_page(fd),
                        name,
                        type_id,
                        size,
                        align,
                        built_with,
                        after,
                        Err::<ClientResourceLocation, Failure<E>>(failure),
                    ),
                    Err(e) => after == before && failure == Failure::Outside(e),
                };
            match created {
                Ok(fd) => before.with_page(fd),
                Err(_) => before,
            }
        } else {
            before
        };
        let page = (room.pages.len() - 1) as usize;
        let offset = room.aligned_free_ptr(size, align)->0 as usize;
        if !(after == before && made(Err::<i32, E>(e))) {
            assert(built_with(page, offset, Err::<(), E>(e)));
            assert(after.pages == room.pages);
            assert(after.free_ptr == offset + size);
        }
    }
}

/// A resource that has been constructed has been built by its constructor at exactly the page and the
/// offset that are handed out, and the file that is handed out is the one of that page.
///
/// It stands under its new name, at the first offset past everything else in the last page that its
/// alignment divides. A page is made for it only where the last one has no such offset with room
/// behind it, and then the resource comes first in it.
pub proof fn law_constructed_resources_are_built_in_place<E, C, R, S, M, F>(
    shm: &mut ShmAllocator,
    name: &str,
    type_id: u128,
    size: usize,
    align: usize,
    steps: PageSteps<C, R, S, M>,
    placement_constructor: F,
    location: ClientResourceLocation,
) where
    C: FnOnce(&'static str, u32) -> Result<i32, E>,
    R: FnOnce(i32, i64) -> Result<(), E>,
    S: FnOnce(i32, i32) -> Result<(), E>,
    M: FnOnce(i32, usize, i32, i32) -> Result<(), E>,
    F: FnOnce(usize, usize) -> Result<(), E>,

    requires
        old(shm).wf(),
        align > 0,
        call_ensures(
            ShmAllocator::construct_in_shm::<E, C, R, S, M, F>,
            (shm, name, type_id, size, align, steps, placement_constructor),
            Ok::<ClientResourceLocation, Failure<E>>(location),
        ),
    ensures
        call_ensures(
            placement_constructor,
            (location.page, location.offset),
            Ok::<(), E>(()),
        ),
        location.page < final(shm)@.pages.len(),
        location.fd == final(shm)@.pages[location.page as int],
        !old(shm)@.slots.contains_key(name@),
        forall|other: Seq<char>| #[trigger]
            final(shm)@.slots.contains_key(other) <==> other == name@
                || old(shm)@.slots.contains_key(other),
        forall|other: Seq<char>|
            old(shm)@.slots.contains_key(other) ==> #[trigger] final(shm)@.slots[other] == old(
                shm,
            )@.slots[other],
        final(shm)@.slots[name@].type_id == type_id,
        final(shm)@.slots[name@].page == location.page,
        final(shm)@.slots[name@].offset == location.offset,
        final(shm)@.slots[name@].size == size,
        size <= old(shm)@.page_size,
        align <= old(shm)@.page_size,
        location.offset as int % align as int == 0,
        location.offset + size <= old(shm)@.page_size,
        final(shm)@.page_size == old(shm)@.page_size,
        final(shm)@.free_ptr == location.offset + size,
        location.page == final(shm)@.pages.len() - 1,
        final(shm)@.pages.len() == old(shm)@.pages.len() ==> {
            &&& final(shm)@.pages == old(shm)@.pages
            &&& old(shm)@.free_ptr <= location.offset < old(shm)@.free_ptr + align
        },
        final(shm)@.pages.len() != old(shm)@.pages.len() ==> {
            &&& final(shm)@.pages == old(shm)@.pages.push(location.fd)
            &&& location.offset == 0
            &&& steps.made(old(shm)@.page_size as usize, Ok::<i32, E>(location.fd))
            &&& old(shm)@.pages.len() > 0 ==> forall|offset: int|
                old(shm)@.free_ptr <= offset && #[trigger] (offset % align as int) == 0 ==> offset
                    + size > old(shm)@.page_size
        },
{
    old(shm).lemma_wf();
    final(shm).lemma_wf();
    lemma_place(
        old(shm)@,
        name@,
        type_id,
        size as int,
        align as int,
        steps.outcomes(old(shm)@.page_size as usize),
        constructing(placement_constructor),
        final(shm)@,
        location,
    );
}

/// A construction that fails leaves all resources as they are and has one of these reasons: the name
/// is taken, the resource or its alignment is larger than a page, a page that is needed could not be
/// made, or the constructor failed. The first three change nothing at all.
pub proof fn law_constructions_fail_for_a_reason<E, C, R, S, M, F>(
    shm: &mut ShmAllocator,
    name: &str,
    type_id: u128,
    size: usize,
    align: usize,
    steps: PageSteps<C, R, S, M>,
    placement_constructor: F,
    failure: Failure<E>,
) where
    C: FnOnce(&'static str, u32) -> Result<i32, E>,
    R: FnOnce(i32, i64) -> Result<(), E>,
    S: FnOnce(i32, i32) -> Result<(), E>,
    M: FnOnce(i32, usize, i32, i32) -> Result<(), E>,
    F: FnOnce(usize, usize) -> Result<(), E>,

    requires
        old(shm).wf(),
        align > 0,
        call_ensures(
            ShmAllocator::construct_in_shm::<E, C, R, S, M, F>,
            (shm, name, type_id, size, align, steps, placement_constructor),
            Err::<ClientResourceLocation, Failure<E>>(failure),
        ),
    ensures
        final(shm)@.slots == old(shm)@.slots,
        final(shm)@.page_size == old(shm)@.page_size,
        match failure {
            Failure::Service(
                ServiceError::Runtime(RuntimeError::ResourceNameAlreadyInUse { resource_name }),
            ) => final(shm)@ == old(shm)@ && old(shm)@.slots.contains_key(name@) && resource_name@
                == name@,
            Failure::Service(
                ServiceError::Runtime(
                    RuntimeError::ResourceTooLargeForPage { page_size, size: asked },
                ),
            ) => final(shm)@ == old(shm)@ && !old(shm)@.slots.contains_key(name@) && page_size
                == old(shm)@.page_size && asked == size && size > page_size,
            Failure::Service(
                ServiceError::Runtime(
                    RuntimeError::ResourceAlignmentLargerThanPage { page_size, alignment },
                ),
            ) => final(shm)@ == old(shm)@ && !old(shm)@.slots.contains_key(name@) && size
                <= page_size && page_size == old(shm)@.page_size && alignment == align && align
                > page_size,
            Failure::Service(_) => false,
            Failure::Outside(e) => {
                &&& !old(shm)@.slots.contains_key(name@)
                &&& size <= old(shm)@.page_size
                &&& align <= old(shm)@.page_size
                &&& (final(shm)@ == old(shm)@ && steps.made(
                    old(shm)@.page_size as usize,
                    Err::<i32, E>(e),
                )) || exists|page: usize, offset: usize|
                    {
                        &&& #[trigger] call_ensures(
                            placement_constructor,
                            (page, offset),
                            Err::<(), E>(e),
                        )
                        &&& page == final(shm)@.pages.len() - 1
                        &&& final(shm)@.free_ptr == offset + size
                        &&& final(shm)@.pages == old(shm)@.pages || (final(shm)@.pages == old(
                            shm,
                        )@.pages.push(final(shm)@.pages.last()) && steps.made(
                            old(shm)@.page_size as usize,
                            Ok::<i32, E>(final(shm)@.pages.last()),
                        ))
                    }
            },
        },
{
    old(shm).lemma_wf();
    final(shm).lemma_wf();
    lemma_no_place(
        old(shm)@,
        name@,
        type_id,
        size as int,
        align as int,
        steps.outcomes(old(shm)@.page_size as usize),
        constructing(placement_constructor),
        final(shm)@,
        failure,
    );
}

/// A resource that has been moved has been written at exactly the page and the offset that are handed
/// out, and the file that is handed out is the one of that page.
///
/// It stands under its new name, at the first offset past everything else in the last page that its
/// alignment divides. A page is made for it only where the last one has no such offset with room
/// behind it, and then the resource comes first in it.
pub proof fn law_moved_resources_are_written_in_place<E, T, C, R, S, M, W>(
    shm: &mut ShmAllocator,
    name: &str,
    type_id: u128,
    size: usize,
    align: usize,
    resource: T,
    steps: PageSteps<C, R, S, M>,
    write: W,
    location: ClientResourceLocation,
) where
    C: FnOnce(&'static str, u32) -> Result<i32, E>,
    R: FnOnce(i32, i64) -> Result<(), E>,
    S: FnOnce(i32, i32) -> Result<(), E>,
    M: FnOnce(i32, usize, i32, i32) -> Result<(), E>,
    W: FnOnce(T, usize, usize),

    requires
        old(shm).wf(),
        align > 0,
        call_ensures(
            ShmAllocator::move_into_shm::<E, T, C, R, S, M, W>,
            (shm, name, type_id, size, align, resource, steps, write),
            Ok::<ClientResourceLocation, Failure<E>>(location),
        ),
    ensures
        call_ensures(write, (resource, location.page, location.offset), ()),
        location.page < final(shm)@.pages.len(),
        location.fd == final(shm)@.pages[location.page as int],
        !old(shm)@.slots.contains_key(name@),
        forall|other: Seq<char>| #[trigger]
            final(shm)@.slots.contains_key(other) <==> other == name@
                || old(shm)@.slots.contains_key(other),
        forall|other: Seq<char>|
            old(shm)@.slots.contains_key(other) ==> #[trigger] final(shm)@.slots[other] == old(
                shm,
            )@.slots[other],
        final(shm)@.slots[name@].type_id == type_id,
        final(shm)@.slots[name@].page == location.page,
        final(shm)@.slots[name@].offset == location.offset,
        final(shm)@.slots[name@].size == size,
        size <= old(shm)@.page_size,
        align <= old(shm)@.page_size,
        location.offset as int % align as int == 0,
        location.offset + size <= old(shm)@.page_size,
        final(shm)@.page_size == old(shm)@.page_size,
        final(shm)@.free_ptr == location.offset + size,
        location.page == final(shm)@.pages.len() - 1,
        final(shm)@.pages.len() == old(shm)@.pages.len() ==> {
            &&& final(shm)@.pages == old(shm)@.pages
            &&& old(shm)@.free_ptr <= location.offset < old(shm)@.free_ptr + align
        },
        final(shm)@.pages.len() != old(shm)@.pages.len() ==> {
            &&& final(shm)@.pages == old(shm)@.pages.push(location.fd)
            &&& location.offset == 0
            &&& steps.made(old(shm)@.page_size as usize, Ok::<i32, E>(location.fd))
            &&& old(shm)@.pages.len() > 0 ==> forall|offset: int|
                old(shm)@.free_ptr <= offset && #[trigger] (offset % align as int) == 0 ==> offset
                    + size > old(shm)@.page_size
        },
{
    old(shm).lemma_wf();
    final(shm).lemma_wf();
    lemma_place(
        old(shm)@,
        name@,
        type_id,
        size as int,
        align as int,
        steps.outcomes(old(shm)@.page_size as usize),
        moving(resource, write),
        final(shm)@,
        location,
    );
}

/// A move that fails leaves the allocator as it is and has one of these reasons: the name is taken,
/// the resource or its alignment is larger than a page, or a page that is needed could not be made.
pub proof fn law_moves_fail_for_a_reason<E, T, C, R, S, M, W>(
    shm: &mut ShmAllocator,
    name: &str,
    type_id: u128,
    size: usize,
    align: usize,
    resource: T,
    steps: PageSteps<C, R, S, M>,
    write: W,
    failure: Failure<E>,
) where
    C: FnOnce(&'static str, u32) -> Result<i32, E>,
    R: FnOnce(i32, i64) -> Result<(), E>,
    S: FnOnce(i32, i32) -> Result<(), E>,
    M: FnOnce(i32, usize, i32, i32) -> Result<(), E>,
    W: FnOnce(T, usize, usize),

    requires
        old(shm).wf(),
        align > 0,
        call_ensures(
            ShmAllocator::move_into_shm::<E, T, C, R, S, M, W>,
            (shm, name, type_id, size, align, resource, steps, write),
            Err::<ClientResourceLocation, Failure<E>>(failure),
        ),
    ensures
        final(shm)@.slots == old(shm)@.slots,
        final(shm)@.page_size == old(shm)@.page_size,
        match failure {
            Failure::Service(
                ServiceError::Runtime(RuntimeError::ResourceNameAlreadyInUse { resource_name }),
            ) => final(shm)@ == old(shm)@ && old(shm)@.slots.contains_key(name@) && resource_name@
                == name@,
            Failure::Service(
                ServiceError::Runtime(
                    RuntimeError::ResourceTooLargeForPage { page_size, size: asked },
                ),
            ) => final(shm)@ == old(shm)@ && !old(shm)@.slots.contains_key(name@) && page_size
                == old(shm)@.page_size && asked == size && size > page_size,
            Failure::Service(
                ServiceError::Runtime(
                    RuntimeError::ResourceAlignmentLargerThanPage { page_size, alignment },
                ),
            ) => final(shm)@ == old(shm)@ && !old(shm)@.slots.contains_key(name@) && size
                <= page_size && page_size == old(shm)@.page_size && alignment == align && align
                > page_size,
            Failure::Service(_) => false,
            Failure::Outside(e) => {
                &&& final(shm)@ == old(shm)@
                &&& !old(shm)@.slots.contains_key(name@)
                &&& size <= old(shm)@.page_size
                &&& align <= old(shm)@.page_size
                &&& steps.made(old(shm)@.page_size as usize, Err::<i32, E>(e))
            },
        },
{
    old(shm).lemma_wf();
    final(shm).lemma_wf();
    lemma_no_place(
        old(shm)@,
        name@,
        type_id,
        size as int,
        align as int,
        steps.outcomes(old(shm)@.page_size as usize),
        moving(resource, write),
        final(shm)@,
        failure,
    );
}

/// What may be handed to a constructor or a writer is a slot that is free, that its alignment divides
/// and that lies inside a page, the last one or the next.
pub proof fn law_slots_are_free<E>(
    before: ShmView,
    name: Seq<char>,
    size: int,
    align: int,
    made: spec_fn(Result<i32, E>) -> bool,
    page: usize,
    offset: usize,
    other: Seq<char>,
)
    requires
        before.wf(),
        0 <= size,
        0 < align,
        may_build(before, name, size, align, made, page, offset),
    ensures
        !before.slots.contains_key(name),
        offset as int % align == 0,
        offset + size <= before.page_size,
        page == before.pages.len() || page == before.pages.len() - 1,
        page == before.pages.len() ==> offset == 0 && exists|fd: i32| #[trigger] made(Ok(fd)),
        page == before.pages.len() - 1 ==> before.free_ptr <= offset < before.free_ptr + align,
        before.slots.contains_key(other) && before.slots[other].page == page
            ==> before.slots[other].offset + before.slots[other].size <= offset,
{
    lemma_align_up(before.free_ptr, align);
    vstd::arithmetic::div_mod::lemma_mod_bound(before.free_ptr, align);
    vstd::arithmetic::div_mod::lemma_mod_multiples_basic(
        (before.free_ptr + align - 1) / align,
        align,
    );
    vstd::arithmetic::div_mod::lemma_small_mod(0, align as nat);
    if before.slots.contains_key(other) {
        assert(before.holds(before.slots[other]));
    }
}

/// An allocator that is given up leaves every page, in its order, and every resource exactly once, in
/// its place.
pub proof fn law_nothing_is_left_behind(
    shm: ShmAllocator,
    r: Teardown,
    name: Seq<char>,
    i: int,
    j: int,
)
    requires
        shm.wf(),
        call_ensures(ShmAllocator::teardown, (shm,), r),
        0 <= i < r.destructions@.len(),
        0 <= j < r.destructions@.len(),
    ensures
        r.pages@ == shm@.pages,
        r.page_size == shm@.page_size,
        shm@.slots.contains_key(r.destructions@[i].name@),
        shm@.slots[r.destructions@[i].name@].page == r.destructions@[i].page,
        shm@.slots[r.destructions@[i].name@].offset == r.destructions@[i].offset,
        r.destructions@[i].name@ == r.destructions@[j].name@ ==> i == j,
        shm@.slots.contains_key(name) ==> exists|k: int|
            0 <= k < r.destructions@.len() && (#[trigger] r.destructions@[k]).name@ == name,
{
}

/// An allocator that holds anything leaves something to destroy.
pub proof fn law_every_resource_is_destroyed(shm: ShmAllocator, r: Teardown, name: Seq<char>)
    requires
        shm.wf(),
        call_ensures(ShmAllocator::teardown, (shm,), r),
    ensures
        r.pages@ == shm@.pages,
        r.page_size == shm@.page_size,
        shm@.slots.contains_key(name) <==> exists|k: int|
            0 <= k < r.destructions@.len() && (#[trigger] r.destructions@[k]).name@ == name,
{
}

} // verus!
