use garnd::linux::settings::{
    AF_UNIX, EPOLL_CLOEXEC, EVENT_FLAGS, EVENT_START, EVENT_TRIGGER, MAP_SHARED, PAGE_FILE_FLAGS,
    PAGE_PROTECTION, PAGE_SEALS, SA_RESTART, SOCK_CLOEXEC, SOCK_SEQPACKET, SOMAXCONN,
};

#[test]
fn settings_are_those_of_the_kernel() {
    assert_eq!(EVENT_START, 0);
    assert_eq!(EVENT_TRIGGER, 1);
    assert_eq!(EVENT_FLAGS, libc::EFD_CLOEXEC | libc::EFD_NONBLOCK);
    assert_eq!(AF_UNIX, libc::AF_UNIX);
    assert_eq!(SOCK_SEQPACKET, libc::SOCK_SEQPACKET);
    assert_eq!(SOCK_CLOEXEC, libc::SOCK_CLOEXEC);
    assert_eq!(SOMAXCONN, libc::SOMAXCONN);
    assert_eq!(EPOLL_CLOEXEC, libc::EPOLL_CLOEXEC);
    assert_eq!(PAGE_FILE_FLAGS, libc::MFD_CLOEXEC | libc::MFD_ALLOW_SEALING);
    assert_eq!(PAGE_SEALS, libc::F_SEAL_SEAL | libc::F_SEAL_SHRINK | libc::F_SEAL_GROW);
    assert_eq!(PAGE_PROTECTION, libc::PROT_READ | libc::PROT_WRITE);
    assert_eq!(MAP_SHARED, libc::MAP_SHARED);
    assert_eq!(SA_RESTART, libc::SA_RESTART);
}
