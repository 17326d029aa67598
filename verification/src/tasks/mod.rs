//! The work of the commands: what they run and what they decide.
pub mod new;
pub mod run;
pub mod dev;
pub mod build_task;
