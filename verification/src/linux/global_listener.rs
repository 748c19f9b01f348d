//! The socket that all clients know.

use rustix::net::SocketAddrUnix;
use vstd::prelude::*;

use crate::linux::system::{path_fault, socket_address, socket_address_answer};
use crate::text::join_path;

verus! {

pub struct GlobalListener {
    sock_path: String,
}

impl GlobalListener {
    /// Where in the file system the socket is bound.
    pub closed spec fn path(&self) -> Seq<char> {
        self.sock_path@
    }

    /// A listener on the socket of the given name in the working directory.
    pub fn new(working_dir: &str, sock_name: &str) -> (r: Self)
        ensures
            r.path() == crate::text::joined_path(working_dir@, sock_name@),
    {
        GlobalListener { sock_path: join_path(working_dir, sock_name) }
    }

    /// The path to bind the socket to.
    pub fn sock_path(&self) -> (r: &str)
        ensures
            r@ == self.path(),
    {
        self.sock_path.as_str()
    }

    /// The address to bind the socket to, or the error for a path that cannot be one.
    pub fn address(&self) -> (r: Result<SocketAddrUnix, i32>)
        ensures
            exists|path: &str|
                path@ == self.path() && #[trigger] socket_address_answer(path, r),
            match r {
                Ok(_) => path_fault(self.path()) is None,
                Err(errno) => path_fault(self.path()) == Some(errno),
            },
    {
        socket_address(self.sock_path.as_str())
    }
}

} // verus!
