use std::sync::{Arc, Mutex};

use iradio::app::{App, Focus};
use iradio::integrations::playback::{PlaybackController, PlaybackError, PlaybackState};

struct ScriptedPlayback {
    events: Arc<Mutex<Vec<String>>>,
    state: PlaybackState,
}

impl ScriptedPlayback {
    fn new(events: Arc<Mutex<Vec<String>>>) -> Self {
        Self {
            events,
            state: PlaybackState::Stopped,
        }
    }
}

impl PlaybackController for ScriptedPlayback {
    fn play(&mut self, stream_url: &str) -> Result<(), PlaybackError> {
        self.events
            .lock()
            .expect("lock events")
            .push(format!("play:{stream_url}"));
        self.state = PlaybackState::Playing;
        Ok(())
    }

    fn set_volume(&mut self, value: u8) -> Result<(), PlaybackError> {
        self.events
            .lock()
            .expect("lock events")
            .push(format!("volume:{value}"));
        Ok(())
    }

    fn stop(&mut self) -> Result<(), PlaybackError> {
        self.events
            .lock()
            .expect("lock events")
            .push("stop".to_string());
        self.state = PlaybackState::Stopped;
        Ok(())
    }

    fn pause(&mut self) -> Result<(), PlaybackError> {
        self.events
            .lock()
            .expect("lock events")
            .push("pause".to_string());
        self.state = PlaybackState::Paused;
        Ok(())
    }

    fn resume(&mut self) -> Result<(), PlaybackError> {
        self.events
            .lock()
            .expect("lock events")
            .push("resume".to_string());
        self.state = PlaybackState::Playing;
        Ok(())
    }

    fn shutdown(&mut self) -> Result<(), PlaybackError> {
        self.events
            .lock()
            .expect("lock events")
            .push("shutdown".to_string());
        self.state = PlaybackState::Stopped;
        Ok(())
    }

    fn state(&self) -> PlaybackState {
        self.state
    }
}

#[test]
fn e2e_mock_user_flow_search_play_pause_resume_stop_quit() {
    let events = Arc::new(Mutex::new(Vec::new()));
    let playback = Box::new(ScriptedPlayback::new(events.clone()));

    let mut app = App::new(playback, Vec::new());

    app.focus = Focus::Search;
    for c in "news".chars() {
        app.push_char(c);
    }
    app.submit_current_input()
        .expect("refresh search results from catalog");

    app.focus = Focus::Slash;
    for cmd in [
        "/play selected",
        "/volume 30",
        "/pause",
        "/resume",
        "/stop",
        "/quit",
    ] {
        app.slash_input = cmd.to_string();
        app.submit_current_input().expect("execute command");
    }

    let calls = events.lock().expect("lock events").clone();
    assert_eq!(
        calls,
        vec![
            "play:https://npr-ice.streamguys1.com/live.mp3",
            "volume:30",
            "pause",
            "resume",
            "stop",
            "shutdown"
        ]
    );
    assert!(!app.running);
}

#[test]
fn e2e_play_selected_pause_resume_stop_quit_on_a_fresh_session() {
    let events = Arc::new(Mutex::new(Vec::new()));
    let playback = Box::new(ScriptedPlayback::new(events.clone()));
    let mut app = App::new(playback, Vec::new());
    assert!(app.running);
    assert_eq!(app.status_message, "Loaded 3 stations");
    app.push_char('n');
    app.push_char('p');
    app.push_char('r');
    app.submit_current_input().expect("search");
    assert_eq!(app.status_message, "Search refreshed (1 results, sort=votes)");
    assert_eq!(app.visible_stations().len(), 1);
    assert_eq!(app.visible_stations()[0].name, "NPR");

    app.focus = Focus::Slash;
    let mut statuses = Vec::new();
    for cmd in ["/play selected", "/pause", "/resume", "/stop", "/quit"] {
        app.slash_input = cmd.to_string();
        app.submit_current_input().expect("execute command");
        assert_eq!(app.slash_input, "");
        statuses.push(app.status_message.clone());
    }
    assert_eq!(
        statuses,
        vec![
            "Playing NPR",
            "Playback paused",
            "Playback resumed",
            "Playback stopped",
            "Bye"
        ]
    );
    let calls = events.lock().expect("lock events").clone();
    assert_eq!(
        calls,
        vec![
            "play:https://npr-ice.streamguys1.com/live.mp3",
            "pause",
            "resume",
            "stop",
            "shutdown"
        ]
    );
    assert!(!app.running);
    assert!(app.now_playing().is_none());
    assert_eq!(app.playback_state(), PlaybackState::Stopped);
}

#[test]
fn pause_key_follows_the_state_that_the_player_reports() {
    let events = Arc::new(Mutex::new(Vec::new()));
    let playback = Box::new(ScriptedPlayback::new(events.clone()));
    let mut app = App::new(playback, Vec::new());
    app.submit_current_input().expect("play selection");
    assert_eq!(app.status_message, "Playing SomaFM Groove Salad");
    app.pause_or_resume().expect("pause");
    assert_eq!(app.status_message, "Playback paused");
    app.pause_or_resume().expect("resume");
    assert_eq!(app.status_message, "Playback resumed");
    app.stop_playback().expect("stop");
    assert!(app.now_playing().is_none());
    app.request_quit().expect("quit");
    assert!(!app.running);
    app.shutdown_playback().expect("shutdown again");
    let calls = events.lock().expect("lock events").clone();
    assert_eq!(
        calls,
        vec![
            "play:https://ice2.somafm.com/groovesalad-128-mp3",
            "pause",
            "resume",
            "stop",
            "shutdown",
            "shutdown"
        ]
    );
}
