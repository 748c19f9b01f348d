//! The verified core of `garnd`, a service that lets processes share mutexes.
//!
//! Clients ask the service for an environment by its name and an environment for a mutex by its
//! name; whoever asks for the same names gets the same mutex, in shared memory. The core holds what
//! the service decides: where resources lie in shared memory, what its threads do next, whom it
//! answers what, under which privileges it runs, and what it says about failures. Files, sockets and
//! threads are made by the program around it, which carries out the steps that the core asks for.

pub mod constants;
pub mod linux;
pub mod logger;
pub mod protocol;
pub mod shutdown_signal;
pub mod state;
pub mod teardown;
pub mod text;
pub mod text_laws;
pub mod util;
