//! Helpers of the commands.
pub mod fetch_examples;
