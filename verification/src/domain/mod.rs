//! The values that the session works on: stations, queries, commands and the palette.

pub mod commands;
pub mod models;
pub mod palette;
