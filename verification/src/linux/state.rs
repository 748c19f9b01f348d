//! The state of a service that listens on a socket in the file system.

use vstd::prelude::*;

use crate::linux::global_listener::GlobalListener;

verus! {

pub struct State {
    working_dir: String,
    welcome_sock_name: String,
    global_listener: GlobalListener,
}

impl State {
    pub closed spec fn dir(&self) -> Seq<char> {
        self.working_dir@
    }

    pub closed spec fn sock_name(&self) -> Seq<char> {
        self.welcome_sock_name@
    }

    pub closed spec fn listener(&self) -> GlobalListener {
        self.global_listener
    }

    /// The state for the given working directory, or for the default one where none is given. The
    /// listener's socket lies in that directory.
    pub fn new(
        working_dir: Option<&str>,
        default_working_dir: &str,
        welcome_sock_name: &str,
    ) -> (r: Self)
        ensures
            r.dir() == (match working_dir {
                Some(dir) => dir@,
                None => default_working_dir@,
            }),
            r.sock_name() == welcome_sock_name@,
            r.listener().path() == crate::text::joined_path(r.dir(), welcome_sock_name@),
    {
        let dir: &str = match working_dir {
            Some(dir) => dir,
            None => default_working_dir,
        };
        State {
            working_dir: dir.to_string(),
            welcome_sock_name: welcome_sock_name.to_string(),
            global_listener: GlobalListener::new(dir, welcome_sock_name),
        }
    }

    pub fn working_dir(&self) -> (r: &str)
        ensures
            r@ == self.dir(),
    {
        self.working_dir.as_str()
    }

    pub fn global_listener(&self) -> (r: &GlobalListener)
        ensures
            *r == self.listener(),
    {
        &self.global_listener
    }
}

} // verus!
