//! The interaction engine of a terminal radio client: the command language, the palette
//! matcher, the playback state machine, the station catalog and the session that ties them
//! together. Everything here works on plain values; reading files, talking to the network and
//! drawing the terminal are left to the program around it.

pub mod app;
pub mod domain;
pub mod integrations;
pub mod ranking;
pub mod storage;
pub mod text;
