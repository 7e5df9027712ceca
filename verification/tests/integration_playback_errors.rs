use iradio::app::{App, AppError, Focus, PlaybackCall};
use iradio::domain::models::{Station, StationSearchQuery};
use iradio::integrations::playback::{PlaybackController, PlaybackError, PlaybackState};
use iradio::integrations::station_catalog::{CatalogError, StationCatalog};

struct FailingPlayback {
    state: PlaybackState,
    shutdown_fails: bool,
}

impl FailingPlayback {
    fn new() -> Self {
        Self {
            state: PlaybackState::Stopped,
            shutdown_fails: false,
        }
    }
}

impl PlaybackController for FailingPlayback {
    fn play(&mut self, _stream_url: &str) -> Result<(), PlaybackError> {
        Err(PlaybackError::Transport("simulated play failure".to_string()))
    }

    fn set_volume(&mut self, _value: u8) -> Result<(), PlaybackError> {
        Err(PlaybackError::Transport("simulated volume failure".to_string()))
    }

    fn stop(&mut self) -> Result<(), PlaybackError> {
        Err(PlaybackError::Transport("simulated stop failure".to_string()))
    }

    fn pause(&mut self) -> Result<(), PlaybackError> {
        Err(PlaybackError::Transport("simulated pause failure".to_string()))
    }

    fn resume(&mut self) -> Result<(), PlaybackError> {
        Err(PlaybackError::Transport("simulated resume failure".to_string()))
    }

    fn shutdown(&mut self) -> Result<(), PlaybackError> {
        if self.shutdown_fails {
            return Err(PlaybackError::Transport("simulated shutdown failure".to_string()));
        }
        self.state = PlaybackState::Stopped;
        Ok(())
    }

    fn state(&self) -> PlaybackState {
        self.state
    }
}

struct StaticOneStationCatalog;

fn one_station() -> Station {
    Station {
        station_uuid: "station-1".to_string(),
        name: "Sample FM".to_string(),
        url_resolved: "https://example.com/stream".to_string(),
        homepage: None,
        favicon: None,
        tags: vec!["jazz".to_string()],
        country: Some("US".to_string()),
        country_code: Some("US".to_string()),
        language: Some("english".to_string()),
        codec: Some("mp3".to_string()),
        bitrate: Some(128),
        votes: Some(10),
        click_count: Some(11),
    }
}

impl StationCatalog for StaticOneStationCatalog {
    fn search(&self, _query: &StationSearchQuery) -> Result<Vec<Station>, CatalogError> {
        Ok(vec![one_station()])
    }
}

struct BrokenCatalog;

impl StationCatalog for BrokenCatalog {
    fn search(&self, _query: &StationSearchQuery) -> Result<Vec<Station>, CatalogError> {
        Err(CatalogError::ServerError(502))
    }
}

#[test]
fn playback_errors_do_not_crash_submit_flow() {
    let playback = Box::new(FailingPlayback::new());
    let catalog = Box::new(StaticOneStationCatalog);
    let mut app = App::new_with_catalog(playback, Vec::new(), catalog);

    app.focus = Focus::Slash;
    app.slash_input = "/play selected".to_string();
    app.submit_current_input()
        .expect("play failure should be handled gracefully");
    assert!(app.status_message.contains("Playback play failed"));
    assert!(app.now_playing().is_none());

    app.focus = Focus::Slash;
    app.slash_input = "/pause".to_string();
    app.submit_current_input()
        .expect("pause failure should be handled gracefully");
    assert!(app.status_message.contains("Playback pause failed"));

    app.focus = Focus::Slash;
    app.slash_input = "/resume".to_string();
    app.submit_current_input()
        .expect("resume failure should be handled gracefully");
    assert!(app.status_message.contains("Playback resume failed"));

    app.focus = Focus::Slash;
    app.slash_input = "/stop".to_string();
    app.submit_current_input()
        .expect("stop failure should be handled gracefully");
    assert!(app.status_message.contains("Playback stop failed"));
}

#[test]
fn playback_failures_are_shown_with_their_reason() {
    let playback = Box::new(FailingPlayback::new());
    let catalog = Box::new(StaticOneStationCatalog);
    let mut app = App::new_with_catalog(playback, Vec::new(), catalog);
    app.focus = Focus::Slash;
    app.slash_input = "/volume 10".to_string();
    app.submit_current_input().expect("volume failure is shown");
    assert_eq!(app.status_message, "Playback volume failed: simulated volume failure");
    app.slash_input = "/play 1".to_string();
    app.submit_current_input().expect("play failure is shown");
    assert_eq!(app.status_message, "Playback play failed: simulated play failure");
    assert!(app.running);
}

#[test]
fn shutdown_failure_is_surfaced_and_the_session_goes_on() {
    let mut playback = FailingPlayback::new();
    playback.shutdown_fails = true;
    let mut app = App::new_with_catalog(
        Box::new(playback),
        Vec::new(),
        Box::new(StaticOneStationCatalog),
    );
    let err = app.request_quit().expect_err("shutdown fails");
    assert_eq!(
        err,
        AppError::ShutdownFailed(PlaybackError::Transport(
            "simulated shutdown failure".to_string()
        ))
    );
    assert_eq!(
        err.message(),
        "shutdown playback while quitting: simulated shutdown failure"
    );
    assert_eq!(
        app.status_message,
        "Error: shutdown playback while quitting: simulated shutdown failure"
    );
    assert!(app.running);
    assert!(app.shutdown_playback().is_err());
}

#[test]
fn catalog_failure_at_startup_is_shown_and_later_is_an_error() {
    let mut app = App::new_with_catalog(
        Box::new(FailingPlayback::new()),
        Vec::new(),
        Box::new(BrokenCatalog),
    );
    assert_eq!(
        app.status_message,
        "Station discovery unavailable: search failed (query='', sort=votes): station catalog server error: HTTP 502"
    );
    assert!(app.visible_stations().is_empty());

    app.focus = Focus::Slash;
    app.slash_input = "/search jazz".to_string();
    let err = app.submit_current_input().expect_err("search fails");
    assert_eq!(
        err,
        AppError::SearchFailed(
            "jazz".to_string(),
            iradio::domain::models::StationSort::Votes,
            CatalogError::ServerError(502)
        )
    );
    assert_eq!(
        app.status_message,
        "Error: search failed (query='jazz', sort=votes): station catalog server error: HTTP 502"
    );
    assert_eq!(app.search_input, "jazz");

    app.focus = Focus::Search;
    app.push_char('!');
    assert!(app.search_dirty());
    assert!(app.submit_current_input().is_err());
    assert!(app.search_dirty());
}

#[test]
fn outcomes_of_the_player_decide_what_is_shown() {
    let mut app = App::new_with_catalog(
        Box::new(FailingPlayback::new()),
        Vec::new(),
        Box::new(StaticOneStationCatalog),
    );
    app.apply_playback_outcome(PlaybackCall::Play(one_station()), Ok(()))
        .expect("playing");
    assert_eq!(app.status_message, "Playing Sample FM");
    assert_eq!(app.now_playing(), Some(&one_station()));
    assert_eq!(app.details_station(), Some(&one_station()));

    app.apply_playback_outcome(PlaybackCall::Pause, Err(PlaybackError::NotPlaying))
        .expect("pause refused");
    assert_eq!(
        app.status_message,
        "Playback pause failed: cannot pause because no stream is currently playing; start playback first"
    );
    assert_eq!(app.now_playing(), Some(&one_station()));

    app.apply_playback_outcome(PlaybackCall::SetVolume(30), Ok(()))
        .expect("volume");
    assert_eq!(app.status_message, "Volume set to 30%");

    app.apply_playback_outcome(PlaybackCall::Stop, Ok(())).expect("stop");
    assert_eq!(app.status_message, "Playback stopped");
    assert!(app.now_playing().is_none());

    assert!(app
        .apply_playback_outcome(PlaybackCall::Shutdown, Err(PlaybackError::Authentication))
        .is_err());
    assert!(app.running);
    app.apply_playback_outcome(PlaybackCall::Shutdown, Ok(())).expect("bye");
    assert!(!app.running);
    assert_eq!(app.status_message, "Bye");
}
