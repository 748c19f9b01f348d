//! Where the service keeps what lasts for one run.

use vstd::prelude::*;

verus! {

pub struct State {
    pub run_dir: String,
    pub welcome_sock_name: String,
}

impl State {
    /// A state that uses the given directory and name.
    pub fn new(run_dir: &str, welcome_sock_name: &str) -> (r: Self)
        ensures
            r.run_dir@ == run_dir@,
            r.welcome_sock_name@ == welcome_sock_name@,
    {
        State { run_dir: run_dir.to_string(), welcome_sock_name: welcome_sock_name.to_string() }
    }
}

} // verus!
