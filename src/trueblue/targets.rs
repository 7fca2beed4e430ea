//! Display targets.
pub mod cli;
