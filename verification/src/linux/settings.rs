//! The numbers with which the service asks the kernel for files.
//!
//! They are those of Linux on the architectures that share its generic numbers, such as x86-64 and
//! AArch64, and of the GNU C library, which sets the backlog.

use vstd::prelude::*;

verus! {

/// What an event counts from: nothing is pending.
pub const EVENT_START: u32 = 0;

/// An event is closed on `exec` and does not block: `EFD_CLOEXEC | EFD_NONBLOCK`.
pub const EVENT_FLAGS: i32 = 0x80800;

/// What is written to an event to trigger it.
pub const EVENT_TRIGGER: u64 = 1;

/// Sockets of this machine.
pub const AF_UNIX: i32 = 1;

/// Sockets with connections that keep the bounds of messages.
pub const SOCK_SEQPACKET: i32 = 5;

/// The socket is closed on `exec`.
pub const SOCK_CLOEXEC: i32 = 0x80000;

/// How many clients can wait to be accepted: the most that the GNU C library names.
pub const SOMAXCONN: i32 = 4096;

/// The `epoll` instance is closed on `exec`.
pub const EPOLL_CLOEXEC: i32 = 0x80000;

/// The file of a page is closed on `exec` and can be sealed: `MFD_CLOEXEC | MFD_ALLOW_SEALING`.
pub const PAGE_FILE_FLAGS: u32 = 0x3;

/// The file of a page cannot shrink, grow or be sealed further:
/// `F_SEAL_SEAL | F_SEAL_SHRINK | F_SEAL_GROW`.
pub const PAGE_SEALS: i32 = 0x7;

/// A page can be read and written: `PROT_READ | PROT_WRITE`.
pub const PAGE_PROTECTION: i32 = 0x3;

/// What is written to a page is seen by everybody who has mapped it.
pub const MAP_SHARED: i32 = 0x1;

/// Calls into the system go on after a signal has been handled.
pub const SA_RESTART: i32 = 0x1000_0000;

} // verus!
