//! What the users of the shared memory can rely on.

use vstd::prelude::*;

use crate::linux::runtime_error::RuntimeError;
use crate::linux::service_error::{Failure, ServiceError};
use crate::linux::shm_allocator::{
    align_up, constructed, found, lemma_align_up, placed, ClientResourceLocation, ShmAllocator,
    ShmView, Slot,
};

verus! {

/// Every resource lies inside one page that exists, and no byte of shared memory belongs to two
/// resources.
pub proof fn law_resources_are_separate(shm: &ShmAllocator, a: Seq<char>, b: Seq<char>, byte: int)
    requires
        shm.wf(),
        shm@.slots.contains_key(a),
        shm@.slots.contains_key(b),
    ensures
        0 <= shm@.slots[a].page < shm@.pages.len(),
        0 <= shm@.slots[a].offset,
        shm@.slots[a].offset + shm@.slots[a].size <= shm@.page_size,
        ({
            let s = shm@.slots[a];
            let t = shm@.slots[b];
            s.page == t.page && s.offset <= byte < s.offset + s.size && t.offset <= byte < t.offset
                + t.size ==> a == b
        }),
{
    shm.lemma_wf();
    assert(shm@.holds(shm@.slots[a]));
    assert(a != b ==> !shm@.slots[a].overlaps(shm@.slots[b]));
}

/// `align_up` gives a multiple of the alignment, not less than where it started, and the first one
/// that there is.
pub proof fn law_align_up_is_least(x: int, align: int, other: int)
    requires
        0 <= x,
        0 < align,
        other % align == 0,
        x <= other,
    ensures
        align_up(x, align) % align == 0,
        x <= align_up(x, align) <= other,
{
    lemma_align_up(x, align);
    let up = align_up(x, align);
    assert(up % align == 0) by {
        vstd::arithmetic::div_mod::lemma_mod_multiples_basic((x + align - 1) / align, align);
    }
    vstd::arithmetic::div_mod::lemma_mod_bound(x, align);
    if other < up {
        // `x <= other < up < x + align` leaves no room for two multiples.
        vstd::arithmetic::div_mod::lemma_fundamental_div_mod(other, align);
        let q = (x + align - 1) / align;
        let p = other / align;
        assert(up == q * align);
        assert(other == align * p);
        assert(up < x + align);
        assert(p + 1 <= q) by (nonlinear_arith)
            requires
                align * p < q * align,
                0 < align,
        ;
        assert(align * (p + 1) <= q * align) by (nonlinear_arith)
            requires
                p + 1 <= q,
                0 < align,
        ;
        assert(align * (p + 1) == align * p + align) by (nonlinear_arith);
    }
}

/// A resource is put at an offset that its alignment divides, so that its address is aligned
/// wherever the page is mapped: the pages begin at multiples of the page size, which every
/// alignment divides that the allocator is asked for.
pub proof fn law_addresses_are_aligned<E>(
    before: ShmView,
    name: Seq<char>,
    type_id: u128,
    size: int,
    align: int,
    made: spec_fn(Result<i32, E>) -> bool,
    built_with: spec_fn(usize, usize, Result<(), E>) -> bool,
    after: ShmView,
    location: ClientResourceLocation,
    base: int,
)
    requires
        before.wf(),
        0 <= size,
        0 < align,
        before.page_size % align == 0,
        base % before.page_size == 0,
        constructed(
            before,
            name,
            type_id,
            size,
            align,
            made,
            built_with,
            after,
            Ok::<ClientResourceLocation, Failure<E>>(location),
        ),
    ensures
        location.offset as int % align == 0,
        (base + location.offset) % align == 0,
{
    lemma_constructed(
        before,
        name,
        type_id,
        size,
        align,
        made,
        built_with,
        after,
        Ok::<ClientResourceLocation, Failure<E>>(location),
    );
    let room = if before.needs_page(size, align) {
        before.with_page(after.pages.last())
    } else {
        before
    };
    let up = align_up(room.free_ptr, align);
    assert(location.offset == up);
    assert(up % align == 0) by {
        vstd::arithmetic::div_mod::lemma_mod_multiples_basic(
            (room.free_ptr + align - 1) / align,
            align,
        );
    }
    let k = base / before.page_size;
    let m = before.page_size / align;
    vstd::arithmetic::div_mod::lemma_fundamental_div_mod(base, before.page_size);
    vstd::arithmetic::div_mod::lemma_fundamental_div_mod(before.page_size, align);
    vstd::arithmetic::div_mod::lemma_fundamental_div_mod(up, align);
    let n = up / align;
    assert(base + up == align * (m * k + n)) by (nonlinear_arith)
        requires
            base == before.page_size * k,
            before.page_size == align * m,
            up == align * n,
    ;
    vstd::arithmetic::div_mod::lemma_mod_multiples_basic(m * k + n, align);
    assert((m * k + n) * align == align * (m * k + n)) by (nonlinear_arith);
}

/// What is common to all ways in which a construction can end.
pub(crate) proof fn lemma_constructed<E>(
    before: ShmView,
    name: Seq<char>,
    type_id: u128,
    size: int,
    align: int,
    made: spec_fn(Result<i32, E>) -> bool,
    built_with: spec_fn(usize, usize, Result<(), E>) -> bool,
    after: ShmView,
    r: Result<ClientResourceLocation, Failure<E>>,
)
    requires
        before.wf(),
        0 <= size,
        0 < align,
        constructed(before, name, type_id, size, align, made, built_with, after, r),
    ensures
        after.page_size == before.page_size,
        after.pages == before.pages || (before.needs_page(size, align) && exists|fd: i32|
            after.pages == #[trigger] before.pages.push(fd)),
        r is Err ==> after.slots == before.slots,
        r matches Ok(location) ==> {
            &&& before.refusal(name, size, align) is None
            &&& before.needs_page(size, align) ==> after.pages == before.pages.push(
                after.pages.last(),
            )
            &&& !before.needs_page(size, align) ==> after.pages == before.pages
            &&& ({
                let room = if before.needs_page(size, align) {
                    before.with_page(after.pages.last())
                } else {
                    before
                };
                let slot = Slot {
                    type_id,
                    page: after.pages.len() - 1,
                    offset: align_up(room.free_ptr, align),
                    size,
                };
                &&& room.aligned_free_ptr(size, align) == Some(slot.offset)
                &&& slot.offset >= 0
                &&& after.slots == before.slots.insert(name, slot)
                &&& location == after.location(slot)
                &&& location.offset == slot.offset
                &&& location.page == slot.page
            })
        },
{
    lemma_align_up(0, align);
    lemma_align_up(before.free_ptr, align);
    vstd::arithmetic::div_mod::lemma_mod_bound(before.free_ptr, align);
    if before.refusal(name, size, align) is None && before.needs_page(size, align) {
        let created = choose|created: Result<i32, E>| #[trigger]
            made(created) && match created {
                Ok(fd) => placed(
                    before.with_page(fd),
                    name,
                    type_id,
                    size,
                    align,
                    built_with,
                    after,
                    r,
                ),
                Err(e) => after == before && r == Err::<ClientResourceLocation, Failure<E>>(
                    Failure::Outside(e),
                ),
            };
        if let Ok(fd) = created {
            assert(after.pages == before.pages.push(fd));
            assert(after.pages.last() == fd);
        }
    }
}

/// A resource that has been constructed is found again under its name and its type, in the place
/// that its construction returned.
pub proof fn law_constructed_resource_is_found<E>(
    before: ShmView,
    name: Seq<char>,
    type_id: u128,
    size: int,
    align: int,
    made: spec_fn(Result<i32, E>) -> bool,
    built_with: spec_fn(usize, usize, Result<(), E>) -> bool,
    after: ShmView,
    location: ClientResourceLocation,
    requested_type: &'static str,
    search: Result<Option<ClientResourceLocation>, RuntimeError>,
)
    requires
        before.wf(),
        0 <= size,
        0 < align,
        constructed(
            before,
            name,
            type_id,
            size,
            align,
            made,
            built_with,
            after,
            Ok::<ClientResourceLocation, Failure<E>>(location),
        ),
        found(after, name, type_id, requested_type, search),
    ensures
        search == Ok::<Option<ClientResourceLocation>, RuntimeError>(Some(location)),
{
    lemma_constructed(
        before,
        name,
        type_id,
        size,
        align,
        made,
        built_with,
        after,
        Ok::<ClientResourceLocation, Failure<E>>(location),
    );
}

/// A construction, whether it succeeds or fails, changes nothing about what a search for another
/// name gives; a failed one changes nothing about any search.
pub proof fn law_other_searches_unchanged<E>(
    before: ShmView,
    name: Seq<char>,
    type_id: u128,
    size: int,
    align: int,
    made: spec_fn(Result<i32, E>) -> bool,
    built_with: spec_fn(usize, usize, Result<(), E>) -> bool,
    after: ShmView,
    r: Result<ClientResourceLocation, Failure<E>>,
    other: Seq<char>,
    other_type: u128,
    requested_type: &'static str,
    search: Result<Option<ClientResourceLocation>, RuntimeError>,
    later: Result<Option<ClientResourceLocation>, RuntimeError>,
)
    requires
        before.wf(),
        0 <= size,
        0 < align,
        constructed(before, name, type_id, size, align, made, built_with, after, r),
        other != name || r is Err,
        found(before, other, other_type, requested_type, search),
        found(after, other, other_type, requested_type, later),
    ensures
        search == later,
{
    lemma_constructed(before, name, type_id, size, align, made, built_with, after, r);
    if before.slots.contains_key(other) {
        assert(before.holds(before.slots[other]));
    }
}

/// A name that has been given to a resource is refused for every other one, and the refusal
/// changes nothing.
pub proof fn law_names_are_given_once<E>(
    before: ShmView,
    name: Seq<char>,
    type_id: u128,
    size: int,
    align: int,
    made: spec_fn(Result<i32, E>) -> bool,
    built_with: spec_fn(usize, usize, Result<(), E>) -> bool,
    after: ShmView,
    location: ClientResourceLocation,
    again_type: u128,
    again_size: int,
    again_align: int,
    again_made: spec_fn(Result<i32, E>) -> bool,
    again_built_with: spec_fn(usize, usize, Result<(), E>) -> bool,
    last: ShmView,
    r: Result<ClientResourceLocation, Failure<E>>,
)
    requires
        before.wf(),
        0 <= size,
        0 < align,
        constructed(
            before,
            name,
            type_id,
            size,
            align,
            made,
            built_with,
            after,
            Ok::<ClientResourceLocation, Failure<E>>(location),
        ),
        constructed(
            after,
            name,
            again_type,
            again_size,
            again_align,
            again_made,
            again_built_with,
            last,
            r,
        ),
    ensures
        last == after,
        r matches Err(
            Failure::Service(
                ServiceError::Runtime(RuntimeError::ResourceNameAlreadyInUse { resource_name }),
            ),
        ) && resource_name@ == name,
{
    lemma_constructed(
        before,
        name,
        type_id,
        size,
        align,
        made,
        built_with,
        after,
        Ok::<ClientResourceLocation, Failure<E>>(location),
    );
}

/// Whatever is not refused is placed, as long as the caller's own steps succeed: a fresh page has
/// room for it.
pub proof fn law_accepted_resources_are_placed<E>(
    before: ShmView,
    name: Seq<char>,
    type_id: u128,
    size: int,
    align: int,
    made: spec_fn(Result<i32, E>) -> bool,
    built_with: spec_fn(usize, usize, Result<(), E>) -> bool,
    after: ShmView,
    r: Result<ClientResourceLocation, Failure<E>>,
)
    requires
        before.wf(),
        0 <= size,
        0 < align,
        constructed(before, name, type_id, size, align, made, built_with, after, r),
        forall|created: Result<i32, E>| #[trigger] made(created) ==> created is Ok,
        forall|page: usize, offset: usize, built: Result<(), E>| #[trigger]
            built_with(page, offset, built) ==> built is Ok,
    ensures
        r is Ok <==> before.refusal(name, size, align) is None,
{
}

/// A page is made only where the last one has no room, never more than one at a time, and the
/// pages that exist stay as they are.
pub proof fn law_pages_are_kept<E>(
    before: ShmView,
    name: Seq<char>,
    type_id: u128,
    size: int,
    align: int,
    made: spec_fn(Result<i32, E>) -> bool,
    built_with: spec_fn(usize, usize, Result<(), E>) -> bool,
    after: ShmView,
    r: Result<ClientResourceLocation, Failure<E>>,
)
    requires
        before.wf(),
        0 <= size,
        0 < align,
        constructed(before, name, type_id, size, align, made, built_with, after, r),
    ensures
        before.pages.is_prefix_of(after.pages),
        after.pages.len() <= before.pages.len() + 1,
        after.pages.len() > before.pages.len() ==> before.needs_page(size, align),
{
    lemma_constructed(before, name, type_id, size, align, made, built_with, after, r);
}

} // verus!
