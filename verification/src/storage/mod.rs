//! What a session is started with.

pub mod config;
