use std::cell::Cell;

use garnd::linux::runtime_error::RuntimeError;
use garnd::linux::service_error::{Failure, ServiceError};
use garnd::linux::shm_allocator::{page_size_from, ClientResourceLocation, ShmAllocator};
use garnd::linux::shm_page::{create_page, PageSteps};

const MUTEX: u128 = 7;

/// Steps that make a page on the given file.
fn page<E>(
    created: Result<i32, E>,
) -> PageSteps<
    impl FnOnce(&'static str, u32) -> Result<i32, E>,
    impl FnOnce(i32, i64) -> Result<(), E>,
    impl FnOnce(i32, i32) -> Result<(), E>,
    impl FnOnce(i32, usize, i32, i32) -> Result<(), E>,
> {
    PageSteps {
        create: |_, _| created,
        resize: |_, _| Ok(()),
        seal: |_, _| Ok(()),
        map: |_, _, _, _| Ok(()),
    }
}

type Constructed = Result<ClientResourceLocation, Failure<&'static str>>;

fn construct(
    shm: &mut ShmAllocator,
    name: &str,
    size: usize,
    align: usize,
    created: Result<i32, &'static str>,
) -> Constructed {
    shm.construct_in_shm(name, MUTEX, size, align, page(created), |_page, _offset| Ok(()))
}

fn runtime(e: RuntimeError) -> Constructed {
    Err(Failure::Service(ServiceError::Runtime(e)))
}

fn at(page: usize, offset: usize, fd: i32) -> Constructed {
    Ok(ClientResourceLocation { page, offset, fd })
}

#[test]
fn page_size_of_the_system_is_used() {
    assert_eq!(page_size_from(Ok(Some(4096))), Ok(4096));
    assert!(ShmAllocator::new().is_ok());
}

#[test]
fn page_size_has_to_be_known() {
    let failed = Err(ServiceError::Runtime(RuntimeError::GetPageSizeFailed));
    assert_eq!(page_size_from(Ok(None)), failed);
    let failed = Err(ServiceError::Runtime(RuntimeError::GetPageSizeFailed));
    assert_eq!(page_size_from(Ok(Some(0))), failed);
    assert_eq!(page_size_from(Ok(Some(-1))), Err(ServiceError::PageSizeOutOfRange));
    assert_eq!(page_size_from(Err(22)), Err(ServiceError::Os(22)));
}

#[test]
fn system_page_size_bounds_the_resources() {
    let page_size = nix::unistd::sysconf(nix::unistd::SysconfVar::PAGE_SIZE).unwrap().unwrap();
    let page_size = page_size as usize;
    let mut shm = ShmAllocator::new().unwrap();
    assert_eq!(construct(&mut shm, "whole", page_size, 1, Ok(3)), at(0, 0, 3));
    assert_eq!(
        construct(&mut shm, "more", page_size + 1, 1, Ok(4)),
        runtime(RuntimeError::ResourceTooLargeForPage { page_size, size: page_size + 1 })
    );
}

#[test]
fn resources_are_placed_one_after_the_other() {
    let mut shm = ShmAllocator::with_page_size(64);
    assert_eq!(construct(&mut shm, "a", 3, 1, Ok(10)), at(0, 0, 10));
    assert_eq!(construct(&mut shm, "b", 8, 8, Ok(11)), at(0, 8, 10));
    assert_eq!(construct(&mut shm, "c", 1, 1, Ok(11)), at(0, 16, 10));
    assert_eq!(construct(&mut shm, "d", 4, 4, Ok(11)), at(0, 20, 10));
    assert_eq!(construct(&mut shm, "e", 40, 8, Ok(11)), at(0, 24, 10));
}

#[test]
fn a_full_page_is_followed_by_a_new_one() {
    let mut shm = ShmAllocator::with_page_size(64);
    assert_eq!(construct(&mut shm, "a", 60, 4, Ok(10)), at(0, 0, 10));
    assert_eq!(construct(&mut shm, "b", 8, 8, Ok(11)), at(1, 0, 11));
    assert_eq!(construct(&mut shm, "c", 8, 8, Ok(12)), at(1, 8, 11));
    assert_eq!(
        shm.find_resource("a", MUTEX, "Mutex"),
        Ok(Some(ClientResourceLocation { page: 0, offset: 0, fd: 10 }))
    );
}

#[test]
fn pages_are_made_of_the_page_size() {
    let mut shm = ShmAllocator::with_page_size(64);
    let r = shm.construct_in_shm(
        "a",
        MUTEX,
        8,
        8,
        PageSteps {
            create: |_, _| Ok(5),
            resize: |fd, size| if (fd, size) == (5, 64) { Ok(()) } else { Err("wrong size") },
            seal: |_, _| Ok(()),
            map: |fd, size, _, _| if (fd, size) == (5, 64) { Ok(()) } else { Err("wrong size") },
        },
        |page, offset| if (page, offset) == (0, 0) { Ok(()) } else { Err("wrong slot") },
    );
    assert_eq!(r, at(0, 0, 5));
}

#[test]
fn nothing_is_built_for_a_resource_that_is_turned_away() {
    let built = Cell::new(0);
    let made = Cell::new(0);
    let mut shm = ShmAllocator::with_page_size(64);
    let mut attempt = |name: &str, size: usize, align: usize| {
        shm.construct_in_shm(
            name,
            MUTEX,
            size,
            align,
            PageSteps {
                create: |_, _| {
                    made.set(made.get() + 1);
                    Ok::<i32, ()>(10)
                },
                resize: |_, _| Ok(()),
                seal: |_, _| Ok(()),
                map: |_, _, _, _| Ok(()),
            },
            |_, _| {
                built.set(built.get() + 1);
                Ok(())
            },
        )
        .is_ok()
    };
    assert!(attempt("a", 8, 8));
    assert!(attempt("b", 8, 8));
    assert_eq!((made.get(), built.get()), (1, 2));
    assert!(!attempt("a", 8, 8));
    assert!(!attempt("c", 65, 8));
    assert!(!attempt("c", 8, 128));
    assert_eq!((made.get(), built.get()), (1, 2));
}

#[test]
fn resources_are_moved_into_their_slots() {
    let moved = Cell::new(None);
    let mut shm = ShmAllocator::with_page_size(64);
    assert_eq!(construct(&mut shm, "a", 3, 1, Ok(10)), at(0, 0, 10));
    let r = shm.move_into_shm("b", MUTEX, 8, 8, 'b', page::<&str>(Ok(11)), |value, page, offset| {
        moved.set(Some((value, page, offset)))
    });
    assert_eq!(r, at(0, 8, 10));
    assert_eq!(moved.get(), Some(('b', 0, 8)));
    assert_eq!(
        shm.find_resource("b", MUTEX, "Mutex"),
        Ok(Some(ClientResourceLocation { page: 0, offset: 8, fd: 10 }))
    );
}

#[test]
fn nothing_is_moved_for_a_resource_that_is_turned_away() {
    let mut shm = ShmAllocator::with_page_size(64);
    let mut attempt = |name: &str, size: usize, align: usize, created| {
        shm.move_into_shm(name, MUTEX, size, align, (), page(created), |_, _, _| {
            panic!("nothing is moved")
        })
    };
    assert_eq!(
        attempt("a", 65, 8, Ok(10)),
        runtime(RuntimeError::ResourceTooLargeForPage { page_size: 64, size: 65 })
    );
    assert_eq!(
        attempt("a", 8, 128, Ok(10)),
        runtime(RuntimeError::ResourceAlignmentLargerThanPage { page_size: 64, alignment: 128 })
    );
    assert_eq!(attempt("a", 8, 8, Err("EMFILE")), Err(Failure::Outside("EMFILE")));
    assert_eq!(construct(&mut shm, "a", 8, 8, Ok(10)), at(0, 0, 10));
    let r = shm.move_into_shm("a", MUTEX, 8, 8, (), page(Ok(11)), |_, _, _| {
        panic!("nothing is moved")
    });
    assert_eq!(
        r,
        runtime(RuntimeError::ResourceNameAlreadyInUse { resource_name: "a".to_string() })
    );
}

#[test]
fn names_are_given_once() {
    let mut shm = ShmAllocator::with_page_size(64);
    assert_eq!(construct(&mut shm, "a", 8, 8, Ok(10)), at(0, 0, 10));
    assert_eq!(
        construct(&mut shm, "a", 8, 8, Ok(10)),
        runtime(RuntimeError::ResourceNameAlreadyInUse { resource_name: "a".to_string() })
    );
}

#[test]
fn large_resources_are_refused() {
    let mut shm = ShmAllocator::with_page_size(64);
    assert_eq!(
        construct(&mut shm, "a", 65, 8, Ok(10)),
        runtime(RuntimeError::ResourceTooLargeForPage { page_size: 64, size: 65 })
    );
    assert_eq!(
        construct(&mut shm, "a", 64, 128, Ok(10)),
        runtime(RuntimeError::ResourceAlignmentLargerThanPage { page_size: 64, alignment: 128 })
    );
    assert_eq!(construct(&mut shm, "a", 64, 64, Ok(10)), at(0, 0, 10));
}

#[test]
fn the_first_refusal_counts() {
    let mut shm = ShmAllocator::with_page_size(64);
    assert_eq!(construct(&mut shm, "a", 8, 8, Ok(10)), at(0, 0, 10));
    assert_eq!(
        construct(&mut shm, "a", 65, 128, Ok(10)),
        runtime(RuntimeError::ResourceNameAlreadyInUse { resource_name: "a".to_string() })
    );
    assert_eq!(
        construct(&mut shm, "b", 65, 128, Ok(10)),
        runtime(RuntimeError::ResourceTooLargeForPage { page_size: 64, size: 65 })
    );
}

#[test]
fn a_page_that_cannot_be_made_is_an_error() {
    let mut shm = ShmAllocator::with_page_size(64);
    assert_eq!(construct(&mut shm, "a", 8, 8, Err("ENOMEM")), Err(Failure::Outside("ENOMEM")));
    assert_eq!(shm.find_resource("a", MUTEX, "Mutex"), Ok(None));
    assert_eq!(construct(&mut shm, "a", 8, 8, Ok(10)), at(0, 0, 10));
}

#[test]
fn a_page_counts_only_when_it_has_been_mapped() {
    let mut shm = ShmAllocator::with_page_size(64);
    let steps = PageSteps {
        create: |_, _| Ok(10),
        resize: |_, _| Ok(()),
        seal: |_, _| Ok(()),
        map: |_, _, _, _| Err("ENOMEM"),
    };
    let r = shm.construct_in_shm("a", MUTEX, 8, 8, steps, |_, _| Err("not asked"));
    assert_eq!(r, Err(Failure::Outside("ENOMEM")));
    assert_eq!(shm.teardown().pages, Vec::<i32>::new());
}

#[test]
fn the_space_of_a_failed_construction_is_lost() {
    let mut shm = ShmAllocator::with_page_size(64);
    let r = shm.construct_in_shm("a", MUTEX, 8, 8, page(Ok(10)), |_, _| Err("broken"));
    assert_eq!(r, Err(Failure::Outside("broken")));
    assert_eq!(shm.find_resource("a", MUTEX, "Mutex"), Ok(None));
    assert_eq!(construct(&mut shm, "a", 8, 8, Ok(11)), at(0, 8, 10));
}

#[test]
fn resources_are_found_by_name_and_type() {
    let mut shm = ShmAllocator::with_page_size(64);
    assert_eq!(shm.find_resource("a", MUTEX, "Mutex"), Ok(None));
    assert_eq!(construct(&mut shm, "a", 4, 4, Ok(10)), at(0, 0, 10));
    assert_eq!(construct(&mut shm, "b", 8, 8, Ok(11)), at(0, 8, 10));
    assert_eq!(
        shm.find_resource("b", MUTEX, "Mutex"),
        Ok(Some(ClientResourceLocation { page: 0, offset: 8, fd: 10 }))
    );
    assert_eq!(
        shm.find_resource("b", MUTEX + 1, "Queue"),
        Err(RuntimeError::ResourceTypeMismatch {
            requested_type: "Queue",
            resource_type: "<unavailable at runtime>",
        })
    );
}

#[test]
fn resources_without_size_take_no_room() {
    let mut shm = ShmAllocator::with_page_size(16);
    assert_eq!(construct(&mut shm, "a", 16, 1, Ok(10)), at(0, 0, 10));
    assert_eq!(construct(&mut shm, "b", 0, 1, Ok(11)), at(0, 16, 10));
    assert_eq!(construct(&mut shm, "c", 1, 1, Ok(11)), at(1, 0, 11));
}

#[test]
fn no_two_resources_share_a_byte() {
    let sizes = [5usize, 8, 1, 24, 3, 40, 64, 2, 16, 7];
    let aligns = [1usize, 8, 1, 8, 2, 4, 16, 2, 16, 1];
    let mut shm = ShmAllocator::with_page_size(64);
    let mut used: Vec<(usize, usize, usize)> = Vec::new();
    for i in 0..sizes.len() {
        let name = format!("r{i}");
        let r = construct(&mut shm, &name, sizes[i], aligns[i], Ok(100 + i as i32)).unwrap();
        assert_eq!(r.offset % aligns[i], 0);
        assert!(r.offset + sizes[i] <= 64);
        for (page, start, end) in &used {
            assert!(r.page != *page || r.offset >= *end || r.offset + sizes[i] <= *start);
        }
        used.push((r.page, r.offset, r.offset + sizes[i]));
    }
}

#[test]
fn everything_is_destroyed_in_the_end() {
    let mut shm = ShmAllocator::with_page_size(16);
    assert_eq!(construct(&mut shm, "a", 8, 8, Ok(10)), at(0, 0, 10));
    assert_eq!(construct(&mut shm, "b", 8, 8, Ok(11)), at(0, 8, 10));
    assert_eq!(construct(&mut shm, "c", 8, 8, Ok(12)), at(1, 0, 12));
    let teardown = shm.teardown();
    assert_eq!(teardown.pages, vec![10, 12]);
    assert_eq!(teardown.page_size, 16);
    let mut places: Vec<(String, usize, usize)> =
        teardown.destructions.into_iter().map(|d| (d.name, d.page, d.offset)).collect();
    places.sort();
    assert_eq!(
        places,
        vec![("a".to_string(), 0, 0), ("b".to_string(), 0, 8), ("c".to_string(), 1, 0)]
    );
}

/// Makes the file of a page with the given outcomes of the steps.
fn make_page(
    created: Result<i32, &'static str>,
    resized: Result<(), &'static str>,
    sealed: Result<(), &'static str>,
    mapped: Result<(), &'static str>,
) -> Result<i32, &'static str> {
    let steps = PageSteps {
        create: |name, flags| {
            let expected = libc::MFD_CLOEXEC | libc::MFD_ALLOW_SEALING;
            if (name, flags) == ("shm", expected) { created } else { Err("wrong file") }
        },
        resize: |fd, size| if (fd, size) == (9, 64) { resized } else { Err("wrong size") },
        seal: |fd, seals| {
            let expected = libc::F_SEAL_SEAL | libc::F_SEAL_SHRINK | libc::F_SEAL_GROW;
            if (fd, seals) == (9, expected) { sealed } else { Err("wrong seals") }
        },
        map: |fd, size, protection, flags| {
            let expected = (9, 64, libc::PROT_READ | libc::PROT_WRITE, libc::MAP_SHARED);
            if (fd, size, protection, flags) == expected { mapped } else { Err("wrong mapping") }
        },
    };
    create_page(64, steps)
}

#[test]
fn a_page_is_made_in_four_steps() {
    assert_eq!(make_page(Ok(9), Ok(()), Ok(()), Ok(())), Ok(9));
    assert_eq!(make_page(Err("a"), Err("b"), Err("c"), Err("d")), Err("a"));
    assert_eq!(make_page(Ok(9), Err("b"), Err("c"), Err("d")), Err("b"));
    assert_eq!(make_page(Ok(9), Ok(()), Err("c"), Err("d")), Err("c"));
    assert_eq!(make_page(Ok(9), Ok(()), Ok(()), Err("d")), Err("d"));
}
