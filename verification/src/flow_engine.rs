//! Admission of executions and the pacing of their steps.

pub mod admission;
pub mod admission_laws;
pub mod pacing;
pub mod recovery;
pub mod scheduler;
pub mod scheduler_laws;

pub use admission::process_incoming_message;
pub use recovery::recover_running_executions;
pub use scheduler::schedule_step;
