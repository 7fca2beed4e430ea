//! Reports the track a user is listening to, polling a streaming provider
//! with credentials obtained through an authorization-code login.
pub mod commands;
pub mod config;
pub mod database;
pub mod providers;
pub mod text;
pub mod trueblue;
