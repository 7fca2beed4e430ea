//! What the subcommands decide.
pub mod connect;
