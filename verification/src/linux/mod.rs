pub mod environment;
pub mod environment_laws;
pub mod environment_step_laws;
pub mod environment_thread;
pub mod global_listener;
pub mod order_laws;
pub mod privileges;
pub mod privileges_laws;
pub mod runtime;
pub mod runtime_error;
pub mod runtime_laws;
pub mod service_error;
pub mod settings;
pub mod shm_allocator;
pub mod shm_laws;
pub mod shm_operation_laws;
pub mod shm_page;
pub mod shm_teardown;
pub mod socket_set;
pub mod state;
pub mod system;
pub mod welcome_laws;
pub mod welcome_step_laws;
pub mod welcome_thread;
pub mod working_dir;
pub mod working_dir_laws;
