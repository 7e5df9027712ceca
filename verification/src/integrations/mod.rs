//! The outside world as the session sees it: the media player and the station catalog.

pub mod playback;
pub mod station_catalog;
pub mod vlc_http;
pub mod vlc_process;
pub mod vlc_rc;
