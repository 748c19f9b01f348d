//! Placement of named resources in pages of shared memory.
//!
//! The allocator fills one page after the other from front to back and never moves or frees a
//! resource before it is torn down as a whole. The pages themselves are made by the caller, who
//! also runs the constructors and destructors of the resources.

use vstd::hash_map::StringHashMap;
use vstd::prelude::*;

use crate::linux::runtime_error::RuntimeError;
use crate::linux::service_error::{Failure, ServiceError};
use crate::linux::shm_page::{create_page, PageSteps};
use crate::linux::system::{page_size_answer, page_size_setting};

verus! {

/// Where a client finds a resource: the page, the offset in it, and the file to map it from.
#[derive(Debug, Copy, Clone, PartialEq, Eq)]
pub struct ClientResourceLocation {
    pub page: usize,
    pub offset: usize,
    pub fd: i32,
}

/// A resource that has been constructed.
struct ResourceMetadata {
    name: String,
    type_id: u128,
    page: usize,
    offset: usize,
    size: Ghost<nat>,
}

/// Hands out the space in the pages of shared memory.
pub struct ShmAllocator {
    index: StringHashMap<usize>,
    resources: Vec<ResourceMetadata>,
    page_size: usize,
    pages: Vec<i32>,
    free_ptr: usize,
}

/// The space that a resource takes up, and its type.
pub struct Slot {
    pub type_id: u128,
    pub page: int,
    pub offset: int,
    pub size: int,
}

impl Slot {
    /// Whether two resources share a byte of memory.
    pub open spec fn overlaps(self, other: Slot) -> bool {
        &&& self.page == other.page
        &&& self.offset < other.offset + other.size
        &&& other.offset < self.offset + self.size
    }
}

/// The least multiple of `align` that is not less than `x`.
pub open spec fn align_up(x: int, align: int) -> int {
    (x + align - 1) / align * align
}

/// Why a resource is turned away before anything is done for it.
pub enum Refusal {
    NameInUse,
    TooLarge,
    AlignmentTooLarge,
}

/// What an allocator holds: the slot of each resource by its name, the files behind the pages,
/// and how far the last page is filled.
pub struct ShmView {
    pub slots: Map<Seq<char>, Slot>,
    pub pages: Seq<i32>,
    pub page_size: int,
    pub free_ptr: int,
}

impl ShmView {
    /// Every slot lies inside a page that exists and below the free part of the last page, and no
    /// two slots overlap.
    pub open spec fn wf(self) -> bool {
        &&& 0 < self.page_size <= isize::MAX
        &&& 0 <= self.free_ptr <= self.page_size
        &&& self.pages.len() <= usize::MAX
        &&& self.pages.len() == 0 ==> self.free_ptr == 0
        &&& forall|name: Seq<char>| #[trigger]
            self.slots.contains_key(name) ==> self.holds(self.slots[name])
        &&& forall|a: Seq<char>, b: Seq<char>|
            #![trigger self.slots[a], self.slots[b]]
            self.slots.contains_key(a) && self.slots.contains_key(b) && a != b
                ==> !self.slots[a].overlaps(self.slots[b])
    }

    /// Whether `slot` lies in the part of the pages that has been handed out.
    pub open spec fn holds(self, slot: Slot) -> bool {
        &&& 0 <= slot.page < self.pages.len()
        &&& 0 <= slot.offset
        &&& 0 <= slot.size
        &&& slot.offset + slot.size <= self.page_size
        &&& slot.page == self.pages.len() - 1 ==> slot.offset + slot.size <= self.free_ptr
    }

    /// Where a resource would go in the last page, if there is room for it.
    pub open spec fn aligned_free_ptr(self, size: int, align: int) -> Option<int> {
        let offset = align_up(self.free_ptr, align);
        if offset + size > self.page_size {
            None
        } else {
            Some(offset)
        }
    }

    /// Whether a page has to be made before the resource can be placed.
    pub open spec fn needs_page(self, size: int, align: int) -> bool {
        self.pages.len() == 0 || self.aligned_free_ptr(size, align) is None
    }

    /// With one more page, of which nothing is used yet.
    pub open spec fn with_page(self, fd: i32) -> ShmView {
        ShmView { pages: self.pages.push(fd), free_ptr: 0, ..self }
    }

    /// With the last page used up to `end`.
    pub open spec fn reserved(self, end: int) -> ShmView {
        ShmView { free_ptr: end, ..self }
    }

    /// With one more resource.
    pub open spec fn with_slot(self, name: Seq<char>, slot: Slot) -> ShmView {
        ShmView { slots: self.slots.insert(name, slot), ..self }
    }

    /// The reason to turn a resource away, the first that applies.
    pub open spec fn refusal(self, name: Seq<char>, size: int, align: int) -> Option<Refusal> {
        if self.slots.contains_key(name) {
            Some(Refusal::NameInUse)
        } else if size > self.page_size {
            Some(Refusal::TooLarge)
        } else if align > self.page_size {
            Some(Refusal::AlignmentTooLarge)
        } else {
            None
        }
    }

    /// Where the client finds `slot`.
    pub open spec fn location(self, slot: Slot) -> ClientResourceLocation {
        ClientResourceLocation {
            page: slot.page as usize,
            offset: slot.offset as usize,
            fd: self.pages[slot.page],
        }
    }
}

/// Whether `e` tells of `refusal`, with the numbers and the name that it is about.
pub open spec fn tells_refusal(
    e: RuntimeError,
    refusal: Refusal,
    page_size: int,
    name: Seq<char>,
    size: int,
    align: int,
) -> bool {
    match refusal {
        Refusal::NameInUse => e matches RuntimeError::ResourceNameAlreadyInUse { resource_name }
            && resource_name@ == name,
        Refusal::TooLarge => e == (RuntimeError::ResourceTooLargeForPage {
            page_size: page_size as usize,
            size: size as usize,
        }),
        Refusal::AlignmentTooLarge => e == (RuntimeError::ResourceAlignmentLargerThanPage {
            page_size: page_size as usize,
            alignment: align as usize,
        }),
    }
}

/// Whether a page may be asked for: nothing speaks against the resource, and the last page has no
/// room for it.
pub open spec fn may_make_page(
    before: ShmView,
    name: Seq<char>,
    size: int,
    align: int,
) -> bool {
    before.refusal(name, size, align) is None && before.needs_page(size, align)
}

/// Whether a resource may be built in the slot at `offset` in `page`: nothing speaks against the
/// resource, and the slot is the one that is chosen for it, at the beginning of the page that has
/// been made for it or else in the free part of the last page. `made` is what the making of a page
/// can lead to.
pub open spec fn may_build<E>(
    before: ShmView,
    name: Seq<char>,
    size: int,
    align: int,
    made: spec_fn(Result<i32, E>) -> bool,
    page: usize,
    offset: usize,
) -> bool {
    &&& before.refusal(name, size, align) is None
    &&& if before.needs_page(size, align) {
        &&& page == before.pages.len()
        &&& offset == 0
        &&& exists|fd: i32| #[trigger] made(Ok(fd))
    } else {
        &&& page == before.pages.len() - 1
        &&& offset == before.aligned_free_ptr(size, align)->0
    }
}

/// How the placement of a resource ends that fits into the last page of `room`: the resource is built
/// in the slot; where that fails, the space stays lost, and where it succeeds, the resource is known
/// by its name from then on. `built_with` is what the building in a slot can lead to.
pub open spec fn placed<E>(
    room: ShmView,
    name: Seq<char>,
    type_id: u128,
    size: int,
    align: int,
    built_with: spec_fn(usize, usize, Result<(), E>) -> bool,
    after: ShmView,
    r: Result<ClientResourceLocation, Failure<E>>,
) -> bool {
    let slot = Slot {
        type_id,
        page: room.pages.len() - 1,
        offset: room.aligned_free_ptr(size, align)->0,
        size,
    };
    let reserved = room.reserved(slot.offset + size);
    exists|built: Result<(), E>| #[trigger]
        built_with(slot.page as usize, slot.offset as usize, built) && match built {
            Ok(_) => after == reserved.with_slot(name, slot) && r == Ok::<
                ClientResourceLocation,
                Failure<E>,
            >(reserved.location(slot)),
            Err(e) => after == reserved && r == Err::<ClientResourceLocation, Failure<E>>(
                Failure::Outside(e),
            ),
        }
}

/// What a constructor can lead to in a slot.
pub open spec fn constructing<E, F: FnOnce(usize, usize) -> Result<(), E>>(
    constructor: F,
) -> spec_fn(usize, usize, Result<(), E>) -> bool {
    |page: usize, offset: usize, built: Result<(), E>|
        call_ensures(constructor, (page, offset), built)
}

/// What the moving of a value into a slot leads to: it cannot fail.
pub open spec fn moving<E, T, W: FnOnce(T, usize, usize)>(
    value: T,
    write: W,
) -> spec_fn(usize, usize, Result<(), E>) -> bool {
    |page: usize, offset: usize, built: Result<(), E>|
        built is Ok && call_ensures(write, (value, page, offset), ())
}

impl ResourceMetadata {
    /// The space that the resource takes up.
    spec fn slot(&self) -> Slot {
        Slot {
            type_id: self.type_id,
            page: self.page as int,
            offset: self.offset as int,
            size: self.size@ as int,
        }
    }
}

impl View for ShmAllocator {
    type V = ShmView;

    closed spec fn view(&self) -> ShmView {
        ShmView {
            slots: Map::new(
                |name: Seq<char>| self.index@.contains_key(name),
                |name: Seq<char>| self.resources@[self.index@[name] as int].slot(),
            ),
            pages: self.pages@,
            page_size: self.page_size as int,
            free_ptr: self.free_ptr as int,
        }
    }
}

/// The page size that the system's answer stands for.
pub open spec fn page_size_of(setting: Result<Option<i64>, i32>) -> Result<usize, ServiceError> {
    match setting {
        Err(errno) => Err(ServiceError::Os(errno)),
        Ok(None) => Err(ServiceError::Runtime(RuntimeError::GetPageSizeFailed)),
        Ok(Some(size)) => if size == 0 {
            Err(ServiceError::Runtime(RuntimeError::GetPageSizeFailed))
        } else if 0 < size <= isize::MAX {
            Ok(size as usize)
        } else {
            Err(ServiceError::PageSizeOutOfRange)
        },
    }
}

/// Makes a page size of the system's answer.
pub fn page_size_from(setting: Result<Option<i64>, i32>) -> (r: Result<usize, ServiceError>)
    ensures
        r == page_size_of(setting),
{
    match setting {
        Err(errno) => Err(ServiceError::Os(errno)),
        Ok(None) => Err(ServiceError::Runtime(RuntimeError::GetPageSizeFailed)),
        Ok(Some(size)) => if size == 0 {
            Err(ServiceError::Runtime(RuntimeError::GetPageSizeFailed))
        } else if 0 < size && size <= isize::MAX as i64 {
            Ok(size as usize)
        } else {
            Err(ServiceError::PageSizeOutOfRange)
        },
    }
}

impl ShmAllocator {
    /// The allocator's own bookkeeping is in order, and so is what it stands for.
    pub closed spec fn wf(&self) -> bool {
        &&& self@.wf()
        &&& forall|name: Seq<char>| #[trigger]
            self.index@.contains_key(name) ==> self.index@[name] < self.resources@.len()
                && self.resources@[self.index@[name] as int].name@ == name
        &&& forall|i: int|
            #![trigger self.resources@[i]]
            0 <= i < self.resources@.len() ==> self.index@.contains_key(
                self.resources@[i].name@,
            ) && self.index@[self.resources@[i].name@] == i
    }

    /// An allocator whose bookkeeping is in order stands for resources that are in order.
    pub proof fn lemma_wf(&self)
        requires
            self.wf(),
        ensures
            self@.wf(),
    {
    }

    /// An allocator without pages, for pages of the given size.
    pub fn with_page_size(page_size: usize) -> (r: Self)
        requires
            0 < page_size <= isize::MAX,
        ensures
            r.wf(),
            r@ == (ShmView {
                slots: Map::empty(),
                pages: Seq::empty(),
                page_size: page_size as int,
                free_ptr: 0,
            }),
    {
        let r = ShmAllocator {
            index: StringHashMap::new(),
            resources: Vec::new(),
            page_size,
            pages: Vec::new(),
            free_ptr: 0,
        };
        assert(r@.slots =~= Map::empty());
        r
    }

    /// An allocator without pages, for pages of the size that the system uses.
    pub fn new() -> (r: Result<Self, ServiceError>)
        ensures
            exists|setting: Result<Option<i64>, i32>| #[trigger]
                page_size_answer(setting) && match page_size_of(setting) {
                    Err(e) => r == Err::<Self, ServiceError>(e),
                    Ok(page_size) => r matches Ok(a) && a.wf() && a@ == (ShmView {
                        slots: Map::empty(),
                        pages: Seq::empty(),
                        page_size: page_size as int,
                        free_ptr: 0,
                    }),
                },
    {
        let setting = page_size_setting();
        assert(page_size_answer(setting));
        match page_size_from(setting) {
            Ok(page_size) => Ok(Self::with_page_size(page_size)),
            Err(e) => Err(e),
        }
    }

    fn get_aligned_free_pointer(&self, size: usize, align: usize) -> (r: Option<usize>)
        requires
            self.wf(),
            0 < align <= self@.page_size,
        ensures
            match r {
                Some(offset) => self@.aligned_free_ptr(size as int, align as int) == Some(
                    offset as int,
                ),
                None => self@.aligned_free_ptr(size as int, align as int) is None,
            },
    {
        proof {
            lemma_align_up(self.free_ptr as int, align as int);
        }
        let aligned_free_ptr: usize = if self.free_ptr.is_multiple_of(align) {
            self.free_ptr
        } else {
            self.free_ptr + (align - self.free_ptr % align)
        };
        if aligned_free_ptr > self.page_size || size > self.page_size - aligned_free_ptr {
            return None;
        }
        Some(aligned_free_ptr)
    }

    /// Adds a page, of which nothing is used yet, on the file that the steps make.
    fn create_new_page<E, C, R, S, M>(&mut self, steps: PageSteps<C, R, S, M>) -> (r: Result<
        (),
        E,
    >) where
        C: FnOnce(&'static str, u32) -> Result<i32, E>,
        R: FnOnce(i32, i64) -> Result<(), E>,
        S: FnOnce(i32, i32) -> Result<(), E>,
        M: FnOnce(i32, usize, i32, i32) -> Result<(), E>,

        requires
            old(self).wf(),
            steps.callable(old(self)@.page_size as usize),
        ensures
            final(self).wf(),
            exists|created: Result<i32, E>| #[trigger]
                steps.made(old(self)@.page_size as usize, created) && match created {
                    Ok(fd) => r is Ok && final(self)@ == old(self)@.with_page(fd),
                    Err(e) => r == Err::<(), E>(e) && final(self)@ == old(self)@,
                },
    {
        let fd = match create_page(self.page_size, steps) {
            Ok(fd) => fd,
            Err(e) => return Err(e),
        };
        self.free_ptr = 0;
        self.pages.push(fd);
        proof {
            assert(self.pages.len() == self.pages@.len());
            assert(self@.slots =~= old(self)@.slots);
            assert forall|name: Seq<char>| #[trigger]
                self@.slots.contains_key(name) implies self@.holds(self@.slots[name]) by {
                assert(old(self)@.slots.contains_key(name));
            }
            assert(self@ == old(self)@.with_page(fd));
        }
        Ok(())
    }

    /// Sets space aside for a resource: gives the page and the offset, and the allocator as it was
    /// just before, with the page that was made where one was needed.
    fn reserve<E, C, R, S, M>(
        &mut self,
        name: &str,
        size: usize,
        align: usize,
        steps: PageSteps<C, R, S, M>,
    ) -> (r: Result<(usize, usize, Ghost<ShmView>), Failure<E>>) where
        C: FnOnce(&'static str, u32) -> Result<i32, E>,
        R: FnOnce(i32, i64) -> Result<(), E>,
        S: FnOnce(i32, i32) -> Result<(), E>,
        M: FnOnce(i32, usize, i32, i32) -> Result<(), E>,

        requires
            old(self).wf(),
            align > 0,
            may_make_page(old(self)@, name@, size as int, align as int) ==> steps.callable(
                old(self)@.page_size as usize,
            ),
        ensures
            final(self).wf(),
            match r {
                Ok((page, offset, room)) => {
                    &&& old(self)@.refusal(name@, size as int, align as int) is None
                    &&& if old(self)@.needs_page(size as int, align as int) {
                        offset == 0 && exists|fd: i32|
                            room@ == old(self)@.with_page(fd) && #[trigger] steps.made(
                                old(self)@.page_size as usize,
                                Ok(fd),
                            )
                    } else {
                        room@ == old(self)@
                    }
                    &&& room@.wf()
                    &&& page == room@.pages.len() - 1
                    &&& room@.aligned_free_ptr(size as int, align as int) == Some(offset as int)
                    &&& final(self)@ == room@.reserved(offset + size)
                },
                Err(failure) => final(self)@ == old(self)@ && match old(self)@.refusal(
                    name@,
                    size as int,
                    align as int,
                ) {
                    Some(refusal) => failure matches Failure::Service(ServiceError::Runtime(e))
                        && tells_refusal(
                        e,
                        refusal,
                        old(self)@.page_size,
                        name@,
                        size as int,
                        align as int,
                    ),
                    None => old(self)@.needs_page(size as int, align as int) && (failure matches
                        Failure::Outside(e) && steps.made(
                        old(self)@.page_size as usize,
                        Err(e),
                    )),
                },
            },
    {
        if self.index.contains_key(name) {
            return Err(
                Failure::Service(
                    ServiceError::Runtime(
                        RuntimeError::ResourceNameAlreadyInUse { resource_name: name.to_string() },
                    ),
                ),
            );
        }
        if size > self.page_size {
            return Err(
                Failure::Service(
                    ServiceError::Runtime(
                        RuntimeError::ResourceTooLargeForPage { page_size: self.page_size, size },
                    ),
                ),
            );
        }
        if align > self.page_size {
            return Err(
                Failure::Service(
                    ServiceError::Runtime(
                        RuntimeError::ResourceAlignmentLargerThanPage {
                            page_size: self.page_size,
                            alignment: align,
                        },
                    ),
                ),
            );
        }
        let mut fitting: Option<usize> = None;
        if self.pages.len() > 0 {
            fitting = self.get_aligned_free_pointer(size, align);
        }
        let offset: usize = match fitting {
            Some(offset) => offset,
            None => {
                match self.create_new_page(steps) {
                    Ok(_) => {},
                    Err(e) => return Err(Failure::Outside(e)),
                }
                proof {
                    lemma_align_up(0, align as int);
                }
                0
            },
        };
        let ghost room = self@;
        assert(room.aligned_free_ptr(size as int, align as int) == Some(offset as int));
        let page: usize = self.pages.len() - 1;
        self.free_ptr = offset + size;
        proof {
            assert(self@.slots =~= room.slots);
            lemma_reserved_wf(room, size as int, align as int);
            assert(self@ == room.reserved(offset + size));
        }
        Ok((page, offset, Ghost(room)))
    }

    /// Makes a resource known that has been built in the space that was set aside for it.
    fn enter(
        &mut self,
        name: &str,
        type_id: u128,
        size: usize,
        align: usize,
        page: usize,
        offset: usize,
        room: Ghost<ShmView>,
    ) -> (r: ClientResourceLocation)
        requires
            old(self).wf(),
            align > 0,
            room@.wf(),
            !room@.slots.contains_key(name@),
            page == room@.pages.len() - 1,
            room@.aligned_free_ptr(size as int, align as int) == Some(offset as int),
            old(self)@ == room@.reserved(offset + size),
        ensures
            final(self).wf(),
            ({
                let slot = Slot {
                    type_id,
                    page: page as int,
                    offset: offset as int,
                    size: size as int,
                };
                &&& final(self)@ == old(self)@.with_slot(name@, slot)
                &&& r == old(self)@.location(slot)
            }),
    {
        let ghost slot = Slot {
            type_id,
            page: page as int,
            offset: offset as int,
            size: size as int,
        };
        let position: usize = self.resources.len();
        self.resources.push(
            ResourceMetadata {
                name: name.to_string(),
                type_id,
                page,
                offset,
                size: Ghost(size as nat),
            },
        );
        self.index.insert(name.to_string(), position);
        proof {
            assert(self@.slots =~= old(self)@.slots.insert(name@, slot));
            lemma_placed_wf(room@, name@, type_id, size as int, align as int);
        }
        ClientResourceLocation { page, offset, fd: self.pages[page] }
    }

    /// Places a resource of the given type, size and alignment under a new name.
    ///
    /// Where the last page has no room for it, and only there, the steps make a file for a new page,
    /// once. Then `placement_constructor` gets the page and the offset of the slot and builds the
    /// resource there; it gets no other slot. Neither is called for a resource that is turned away.
    pub fn construct_in_shm<E, C, R, S, M, F>(
        &mut self,
        name: &str,
        type_id: u128,
        size: usize,
        align: usize,
        steps: PageSteps<C, R, S, M>,
        placement_constructor: F,
    ) -> (r: Result<ClientResourceLocation, Failure<E>>) where
        C: FnOnce(&'static str, u32) -> Result<i32, E>,
        R: FnOnce(i32, i64) -> Result<(), E>,
        S: FnOnce(i32, i32) -> Result<(), E>,
        M: FnOnce(i32, usize, i32, i32) -> Result<(), E>,
        F: FnOnce(usize, usize) -> Result<(), E>,

        requires
            old(self).wf(),
            align > 0,
            may_make_page(old(self)@, name@, size as int, align as int) ==> steps.callable(
                old(self)@.page_size as usize,
            ),
            forall|page: usize, offset: usize|
                may_build(
                    old(self)@,
                    name@,
                    size as int,
                    align as int,
                    steps.outcomes(old(self)@.page_size as usize),
                    page,
                    offset,
                ) ==> #[trigger] call_requires(placement_constructor, (page, offset)),
        ensures
            final(self).wf(),
            constructed(
                old(self)@,
                name@,
                type_id,
                size as int,
                align as int,
                steps.outcomes(old(self)@.page_size as usize),
                constructing(placement_constructor),
                final(self)@,
                r,
            ),
    {
        let ghost made = steps.outcomes::<E>(self.page_size);
        let ghost built_with = constructing::<E, F>(placement_constructor);
        let (page, offset, room) = match self.reserve(name, size, align, steps) {
            Ok(space) => space,
            Err(failure) => {
                assert(failure matches Failure::Outside(e) ==> made(Err(e)));
                return Err(failure);
            },
        };
        assert(old(self)@.needs_page(size as int, align as int) ==> made(
            Ok(room@.pages.last()),
        ));
        let built = placement_constructor(page, offset);
        let ghost slot = Slot {
            type_id,
            page: room@.pages.len() - 1,
            offset: room@.aligned_free_ptr(size as int, align as int)->0,
            size: size as int,
        };
        assert(built_with(slot.page as usize, slot.offset as usize, built));
        match built {
            Ok(_) => {},
            Err(e) => {
                assert(placed(
                    room@,
                    name@,
                    type_id,
                    size as int,
                    align as int,
                    built_with,
                    self@,
                    Err(Failure::Outside(e)),
                ));
                return Err(Failure::Outside(e));
            },
        }
        let location = self.enter(name, type_id, size, align, page, offset, room);
        assert(placed(
            room@,
            name@,
            type_id,
            size as int,
            align as int,
            built_with,
            self@,
            Ok(location),
        ));
        Ok(location)
    }

    /// Places a resource that has been made elsewhere under a new name: `write` moves it into its
    /// slot, as [`ShmAllocator::construct_in_shm`] builds one there. It is dropped where there is no
    /// slot for it.
    pub fn move_into_shm<E, T, C, R, S, M, W>(
        &mut self,
        name: &str,
        type_id: u128,
        size: usize,
        align: usize,
        resource: T,
        steps: PageSteps<C, R, S, M>,
        write: W,
    ) -> (r: Result<ClientResourceLocation, Failure<E>>) where
        C: FnOnce(&'static str, u32) -> Result<i32, E>,
        R: FnOnce(i32, i64) -> Result<(), E>,
        S: FnOnce(i32, i32) -> Result<(), E>,
        M: FnOnce(i32, usize, i32, i32) -> Result<(), E>,
        W: FnOnce(T, usize, usize),

        requires
            old(self).wf(),
            align > 0,
            may_make_page(old(self)@, name@, size as int, align as int) ==> steps.callable(
                old(self)@.page_size as usize,
            ),
            forall|page: usize, offset: usize|
                may_build(
                    old(self)@,
                    name@,
                    size as int,
                    align as int,
                    steps.outcomes(old(self)@.page_size as usize),
                    page,
                    offset,
                ) ==> #[trigger] call_requires(write, (resource, page, offset)),
        ensures
            final(self).wf(),
            constructed(
                old(self)@,
                name@,
                type_id,
                size as int,
                align as int,
                steps.outcomes(old(self)@.page_size as usize),
                moving(resource, write),
                final(self)@,
                r,
            ),
    {
        let ghost made = steps.outcomes::<E>(self.page_size);
        let ghost built_with = moving::<E, T, W>(resource, write);
        let (page, offset, room) = match self.reserve(name, size, align, steps) {
            Ok(space) => space,
            Err(failure) => {
                assert(failure matches Failure::Outside(e) ==> made(Err(e)));
                return Err(failure);
            },
        };
        assert(old(self)@.needs_page(size as int, align as int) ==> made(
            Ok(room@.pages.last()),
        ));
        write(resource, page, offset);
        assert(built_with(page, offset, Ok(())));
        let location = self.enter(name, type_id, size, align, page, offset, room);
        assert(placed(
            room@,
            name@,
            type_id,
            size as int,
            align as int,
            built_with,
            self@,
            Ok(location),
        ));
        Ok(location)
    }

    /// Where the resource of the given name is, if there is one. `requested_type` is what the type
    /// that `type_id` stands for is called.
    pub fn find_resource(
        &self,
        name: &str,
        type_id: u128,
        requested_type: &'static str,
    ) -> (r: Result<Option<ClientResourceLocation>, RuntimeError>)
        requires
            self.wf(),
        ensures
            found(self@, name@, type_id, requested_type, r),
    {
        match self.index.get(name) {
            None => Ok(None),
            Some(position) => {
                assert(self@.slots.contains_key(name@));
                let resource = &self.resources[*position];
                if resource.type_id != type_id {
                    return Err(
                        RuntimeError::ResourceTypeMismatch {
                            requested_type,
                            resource_type: "<unavailable at runtime>",
                        },
                    );
                }
                Ok(
                    Some(
                        ClientResourceLocation {
                            page: resource.page,
                            offset: resource.offset,
                            fd: self.pages[resource.page],
                        },
                    ),
                )
            },
        }
    }

    /// What is left to do when the allocator is given up: first the resources are destroyed, then
    /// the pages are unmapped, as [`ShmTeardown`](crate::linux::shm_teardown::ShmTeardown) says.
    pub fn teardown(self) -> (r: Teardown)
        requires
            self.wf(),
        ensures
            r.pages@ == self@.pages,
            r.page_size == self@.page_size,
            destroys_all(self@, r.destructions@),
    {
        let ghost view = self@;
        let ShmAllocator { index, resources, page_size, pages, free_ptr } = self;
        let mut destructions: Vec<Destruction> = Vec::new();
        let mut i: usize = 0;
        while i < resources.len()
            invariant
                i <= resources@.len(),
                destructions@.len() == i,
                forall|k: int|
                    #![trigger destructions@[k]]
                    0 <= k < i ==> destructions@[k].name@ == resources@[k].name@
                        && destructions@[k].page == resources@[k].page && destructions@[k].offset
                        == resources@[k].offset,
            decreases resources@.len() - i,
        {
            let resource = &resources[i];
            destructions.push(
                Destruction {
                    name: resource.name.clone(),
                    page: resource.page,
                    offset: resource.offset,
                },
            );
            i += 1;
        }
        proof {
            let d = destructions@;
            assert forall|k: int| #![trigger d[k]] 0 <= k < d.len() implies view.slots.contains_key(
                d[k].name@,
            ) && view.slots[d[k].name@].page == d[k].page && view.slots[d[k].name@].offset
                == d[k].offset by {
                assert(index@.contains_key(resources@[k].name@));
            }
            assert forall|a: int, b: int|
                #![trigger d[a], d[b]]
                0 <= a < b < d.len() implies d[a].name@ != d[b].name@ by {
                assert(index@[resources@[a].name@] == a);
                assert(index@[resources@[b].name@] == b);
            }
            assert forall|name: Seq<char>| #[trigger] view.slots.contains_key(name) implies exists|
                k: int,
            |
                0 <= k < d.len() && (#[trigger] d[k]).name@ == name by {
                let k = index@[name] as int;
                assert(index@.contains_key(name));
                assert(d[k].name@ == name);
            }
        }
        Teardown { destructions, pages, page_size }
    }
}

/// A resource that has to be destroyed, and where it is.
#[derive(Debug, PartialEq, Eq)]
pub struct Destruction {
    pub name: String,
    pub page: usize,
    pub offset: usize,
}

/// What is left to do when an allocator is given up.
#[derive(Debug, PartialEq, Eq)]
pub struct Teardown {
    pub destructions: Vec<Destruction>,
    pub pages: Vec<i32>,
    pub page_size: usize,
}

/// Whether `destructions` names every resource exactly once, in its place.
pub open spec fn destroys_all(shm: ShmView, destructions: Seq<Destruction>) -> bool {
    &&& forall|k: int|
        #![trigger destructions[k]]
        0 <= k < destructions.len() ==> shm.slots.contains_key(destructions[k].name@)
            && shm.slots[destructions[k].name@].page == destructions[k].page
            && shm.slots[destructions[k].name@].offset == destructions[k].offset
    &&& forall|a: int, b: int|
        #![trigger destructions[a], destructions[b]]
        0 <= a < b < destructions.len() ==> destructions[a].name@ != destructions[b].name@
    &&& forall|name: Seq<char>| #[trigger]
        shm.slots.contains_key(name) ==> exists|k: int|
            0 <= k < destructions.len() && (#[trigger] destructions[k]).name@ == name
}

/// How a construction ends that starts from `before`.
///
/// `made` is what the making of a page can lead to, and `built_with` what the building in a slot can.
pub open spec fn constructed<E>(
    before: ShmView,
    name: Seq<char>,
    type_id: u128,
    size: int,
    align: int,
    made: spec_fn(Result<i32, E>) -> bool,
    built_with: spec_fn(usize, usize, Result<(), E>) -> bool,
    after: ShmView,
    r: Result<ClientResourceLocation, Failure<E>>,
) -> bool {
    match before.refusal(name, size, align) {
        Some(refusal) => after == before && (r matches Err(
            Failure::Service(ServiceError::Runtime(e)),
        ) && tells_refusal(e, refusal, before.page_size, name, size, align)),
        None => if before.needs_page(size, align) {
            exists|created: Result<i32, E>| #[trigger]
                made(created) && match created {
                    Ok(fd) => placed(
                        before.with_page(fd),
                        name,
                        type_id,
                        size,
                        align,
                        built_with,
                        after,
                        r,
                    ),
                    Err(e) => after == before && r == Err::<ClientResourceLocation, Failure<E>>(
                        Failure::Outside(e),
                    ),
                }
        } else {
            placed(before, name, type_id, size, align, built_with, after, r)
        },
    }
}

/// What a search for a resource gives.
pub open spec fn found(
    shm: ShmView,
    name: Seq<char>,
    type_id: u128,
    requested_type: &'static str,
    r: Result<Option<ClientResourceLocation>, RuntimeError>,
) -> bool {
    if !shm.slots.contains_key(name) {
        r == Ok::<Option<ClientResourceLocation>, RuntimeError>(None)
    } else if shm.slots[name].type_id != type_id {
        r == Err::<Option<ClientResourceLocation>, RuntimeError>(
            RuntimeError::ResourceTypeMismatch {
                requested_type,
                resource_type: "<unavailable at runtime>",
            },
        )
    } else {
        r == Ok::<Option<ClientResourceLocation>, RuntimeError>(
            Some(shm.location(shm.slots[name])),
        )
    }
}

/// The slot for a resource that fits into the last page begins past everything that has been
/// handed out there.
proof fn lemma_reserved_wf(room: ShmView, size: int, align: int)
    requires
        room.wf(),
        room.pages.len() > 0,
        0 <= size,
        0 < align,
        room.aligned_free_ptr(size, align) is Some,
    ensures
        room.reserved(room.aligned_free_ptr(size, align)->0 + size).wf(),
        room.free_ptr <= room.aligned_free_ptr(size, align)->0,
{
    lemma_align_up(room.free_ptr, align);
    let offset = room.aligned_free_ptr(size, align)->0;
    let after = room.reserved(offset + size);
    if room.free_ptr % align != 0 {
        vstd::arithmetic::div_mod::lemma_mod_bound(room.free_ptr, align);
    }
    assert forall|name: Seq<char>| #[trigger] after.slots.contains_key(name) implies after.holds(
        after.slots[name],
    ) by {
        assert(room.slots.contains_key(name));
    }
}

/// A resource that is placed in the last page leaves the allocator in order.
proof fn lemma_placed_wf(room: ShmView, name: Seq<char>, type_id: u128, size: int, align: int)
    requires
        room.wf(),
        room.pages.len() > 0,
        0 <= size,
        0 < align,
        room.aligned_free_ptr(size, align) is Some,
        !room.slots.contains_key(name),
    ensures
        ({
            let slot = Slot {
                type_id,
                page: room.pages.len() - 1,
                offset: room.aligned_free_ptr(size, align)->0,
                size,
            };
            room.reserved(slot.offset + size).with_slot(name, slot).wf()
        }),
{
    lemma_reserved_wf(room, size, align);
    let slot = Slot {
        type_id,
        page: room.pages.len() - 1,
        offset: room.aligned_free_ptr(size, align)->0,
        size,
    };
    let reserved = room.reserved(slot.offset + size);
    let after = reserved.with_slot(name, slot);
    assert forall|n: Seq<char>| #[trigger] after.slots.contains_key(n) implies after.holds(
        after.slots[n],
    ) by {
        if n != name {
            assert(reserved.slots.contains_key(n));
        }
    }
    assert forall|a: Seq<char>, b: Seq<char>|
        #![trigger after.slots[a], after.slots[b]]
        after.slots.contains_key(a) && after.slots.contains_key(b) && a != b implies !after.slots[a].overlaps(
        after.slots[b],
    ) by {
        if a == name {
            assert(room.slots.contains_key(b) && room.holds(room.slots[b]));
        } else if b == name {
            assert(room.slots.contains_key(a) && room.holds(room.slots[a]));
        } else {
            assert(!room.slots[a].overlaps(room.slots[b]));
        }
    }
}

/// `align_up` in the form in which it is computed.
pub proof fn lemma_align_up(x: int, align: int)
    requires
        0 <= x,
        0 < align,
    ensures
        align_up(x, align) == if x % align == 0 {
            x
        } else {
            x + (align - x % align)
        },
{
    let q = x / align;
    let m = x % align;
    vstd::arithmetic::div_mod::lemma_fundamental_div_mod(x, align);
    assert(x == align * q + m);
    if m == 0 {
        assert((x + align - 1) / align == q) by {
            vstd::arithmetic::div_mod::lemma_fundamental_div_mod_converse(x + align - 1, align, q, align - 1);
        }
        assert(q * align == align * q) by (nonlinear_arith);
    } else {
        assert(x + align - 1 == align * (q + 1) + (m - 1)) by (nonlinear_arith)
            requires x == align * q + m;
        vstd::arithmetic::div_mod::lemma_fundamental_div_mod_converse(x + align - 1, align, q + 1, m - 1);
        assert((q + 1) * align == align * q + align) by (nonlinear_arith);
    }
}

} // verus!
