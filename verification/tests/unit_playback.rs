use iradio::integrations::playback::{
    volume_percent_to_vlc_scale, PlaybackError, PlaybackOp, PlaybackState,
};
use iradio::integrations::vlc_http::VlcHttpController;
use iradio::integrations::vlc_process::{ShutdownAction, VlcProcessController};
use iradio::integrations::vlc_rc::VlcRcController;

#[test]
fn invalid_transitions_are_rejected_before_network_io() {
    let controller = VlcRcController::new("127.0.0.1", 1);

    let err = controller
        .pause()
        .expect_err("pause from stopped should fail");
    assert!(err.message().contains("cannot pause"));
    assert_eq!(controller.state(), PlaybackState::Stopped);

    let err = controller
        .resume()
        .expect_err("resume from stopped should fail");
    assert!(err.message().contains("cannot resume"));
    assert_eq!(controller.state(), PlaybackState::Stopped);

    let err = controller
        .stop()
        .expect_err("stop from stopped should fail");
    assert!(err.message().contains("already stopped"));
    assert_eq!(controller.state(), PlaybackState::Stopped);
}

#[test]
fn invalid_transitions_are_rejected_before_http_calls() {
    let controller = VlcHttpController::new("http://127.0.0.1:65535", "secret");

    let err = controller
        .pause()
        .expect_err("pause from stopped should fail");
    assert!(err.message().contains("cannot pause"));
    assert_eq!(controller.state(), PlaybackState::Stopped);

    let err = controller
        .resume()
        .expect_err("resume from stopped should fail");
    assert!(err.message().contains("cannot resume"));
    assert_eq!(controller.state(), PlaybackState::Stopped);

    let err = controller
        .stop()
        .expect_err("stop from stopped should fail");
    assert!(err.message().contains("already stopped"));
    assert_eq!(controller.state(), PlaybackState::Stopped);
}

#[test]
fn play_sends_add_command() {
    let controller = VlcRcController::new("127.0.0.1", 4212);
    let payload = controller
        .play("http://example.com/radio.mp3")
        .expect("send play command");
    assert_eq!(payload, "add http://example.com/radio.mp3\n");
}

#[test]
fn missing_vlc_binary_returns_actionable_error() {
    let controller = VlcProcessController::new_with_program("definitely-not-vlc-binary");
    let err = controller.start_failure(true, "No such file or directory");
    assert!(err.message().contains("not found on PATH"));
    assert_eq!(
        err.message(),
        "failed to start VLC: 'definitely-not-vlc-binary' not found on PATH; install VLC (e.g. apt install vlc)"
    );
}

#[test]
fn shutdown_without_process_is_noop() {
    let mut controller = VlcProcessController::new_with_program("cvlc");
    controller.shutdown();
    assert_eq!(controller.state(), PlaybackState::Stopped);
    controller.shutdown();
    assert_eq!(controller.state(), PlaybackState::Stopped);
}

#[test]
fn reject_stream_url_with_control_characters() {
    let err = VlcProcessController::validate_stream_url("https://a\nb")
        .expect_err("newline should be rejected");
    assert!(err
        .message()
        .contains("invalid stream URL characters detected"));
}

#[test]
fn reject_stream_url_with_surrounding_whitespace() {
    let err = VlcProcessController::validate_stream_url(" https://example.com ")
        .expect_err("surrounding whitespace should be rejected");
    assert!(err
        .message()
        .contains("invalid stream URL characters detected"));
}

#[test]
fn clean_stream_urls_pass_validation() {
    assert_eq!(
        VlcProcessController::validate_stream_url("https://example.com/a b?x=1"),
        Ok("https://example.com/a b?x=1")
    );
    assert_eq!(VlcProcessController::validate_stream_url(""), Ok(""));
    assert_eq!(
        VlcProcessController::validate_stream_url("https://a\u{7f}b"),
        Err(PlaybackError::InvalidStreamUrl)
    );
    assert_eq!(
        VlcProcessController::validate_stream_url("https://a\u{0}b"),
        Err(PlaybackError::InvalidStreamUrl)
    );
    assert_eq!(
        VlcProcessController::validate_stream_url("https://example.com\u{a0}"),
        Err(PlaybackError::InvalidStreamUrl)
    );
}

#[test]
fn guard_matrix_over_all_states_and_operations() {
    let states = [PlaybackState::Stopped, PlaybackState::Playing, PlaybackState::Paused];
    let ops = [
        PlaybackOp::Play,
        PlaybackOp::Stop,
        PlaybackOp::Pause,
        PlaybackOp::Resume,
        PlaybackOp::Shutdown,
    ];
    for state in states {
        for op in ops {
            let expected: Result<(), PlaybackError> = match (state, op) {
                (PlaybackState::Stopped, PlaybackOp::Stop) => Err(PlaybackError::AlreadyStopped),
                (PlaybackState::Stopped, PlaybackOp::Pause) => Err(PlaybackError::NotPlaying),
                (PlaybackState::Paused, PlaybackOp::Pause) => Err(PlaybackError::NotPlaying),
                (PlaybackState::Stopped, PlaybackOp::Resume) => Err(PlaybackError::NotPaused),
                (PlaybackState::Playing, PlaybackOp::Resume) => Err(PlaybackError::NotPaused),
                _ => Ok(()),
            };
            assert_eq!(state.guard(op), expected);
            let (next, outcome) = state.transition(op);
            assert_eq!(outcome, expected);
            if expected.is_err() {
                assert_eq!(next, state);
            }
        }
    }
    assert_eq!(PlaybackState::Stopped.transition(PlaybackOp::Play).0, PlaybackState::Playing);
    assert_eq!(PlaybackState::Playing.transition(PlaybackOp::Pause).0, PlaybackState::Paused);
    assert_eq!(PlaybackState::Paused.transition(PlaybackOp::Resume).0, PlaybackState::Playing);
    assert_eq!(PlaybackState::Paused.transition(PlaybackOp::Stop).0, PlaybackState::Stopped);
    assert_eq!(PlaybackState::Playing.transition(PlaybackOp::Play).0, PlaybackState::Playing);
    assert_eq!(PlaybackState::Playing.transition(PlaybackOp::Shutdown).0, PlaybackState::Stopped);
}

#[test]
fn rc_controller_walks_through_the_states() {
    let mut controller = VlcRcController::new("localhost", 4212);
    assert_eq!(controller.host(), "localhost");
    assert_eq!(controller.port(), 4212);
    assert_eq!(controller.confirm(PlaybackOp::Pause), Err(PlaybackError::NotPlaying));
    assert_eq!(controller.state(), PlaybackState::Stopped);

    assert_eq!(controller.play("http://a/b"), Ok("add http://a/b\n".to_string()));
    assert_eq!(controller.state(), PlaybackState::Stopped);
    assert_eq!(controller.confirm(PlaybackOp::Play), Ok(()));
    assert_eq!(controller.state(), PlaybackState::Playing);

    assert_eq!(controller.resume(), Err(PlaybackError::NotPaused));
    assert_eq!(controller.state(), PlaybackState::Playing);
    assert_eq!(controller.pause(), Ok("pause\n".to_string()));
    assert_eq!(controller.confirm(PlaybackOp::Pause), Ok(()));
    assert_eq!(controller.state(), PlaybackState::Paused);

    assert_eq!(controller.pause(), Err(PlaybackError::NotPlaying));
    assert_eq!(controller.state(), PlaybackState::Paused);
    assert_eq!(controller.resume(), Ok("pause\n".to_string()));
    assert_eq!(controller.confirm(PlaybackOp::Resume), Ok(()));
    assert_eq!(controller.state(), PlaybackState::Playing);

    assert_eq!(controller.stop(), Ok("stop\n".to_string()));
    assert_eq!(controller.confirm(PlaybackOp::Stop), Ok(()));
    assert_eq!(controller.state(), PlaybackState::Stopped);
    assert_eq!(controller.stop(), Err(PlaybackError::AlreadyStopped));

    assert_eq!(controller.set_volume(30), "volume 77\n");
}

#[test]
fn rc_controller_reports_connection_failures_with_guidance() {
    let controller = VlcRcController::new("127.0.0.1", 4212);
    assert_eq!(
        controller.connect_failure().message(),
        "failed to connect VLC RC at 127.0.0.1:4212; start VLC with `cvlc --extraintf rc --rc-host 127.0.0.1:4212`"
    );
    assert_eq!(
        VlcRcController::send_failure("stop").message(),
        "failed to send command to VLC RC: stop"
    );
}

#[test]
fn http_controller_builds_requests_and_reads_statuses() {
    let mut controller = VlcHttpController::new("http://127.0.0.1:8080", "secret");
    let play = controller.play("http://a/b").expect("play is always allowed");
    assert_eq!(play.url, "http://127.0.0.1:8080/requests/status.json");
    assert_eq!(play.password, "secret");
    assert_eq!(play.command, "in_play");
    assert_eq!(
        play.params,
        vec![
            ("command".to_string(), "in_play".to_string()),
            ("input".to_string(), "http://a/b".to_string()),
        ]
    );
    assert_eq!(controller.confirm(PlaybackOp::Play), Ok(()));
    assert_eq!(controller.state(), PlaybackState::Playing);

    let pause = controller.pause().expect("pause while playing");
    assert_eq!(pause.params, vec![("command".to_string(), "pl_pause".to_string())]);
    assert_eq!(controller.confirm(PlaybackOp::Pause), Ok(()));
    let resume = controller.resume().expect("resume while paused");
    assert_eq!(resume.command, "pl_forceresume");
    let stop = controller.stop().expect("stop while paused");
    assert_eq!(stop.command, "pl_stop");

    let volume = controller.set_volume(100);
    assert_eq!(
        volume.params,
        vec![
            ("command".to_string(), "volume".to_string()),
            ("val".to_string(), "256".to_string()),
        ]
    );

    assert_eq!(VlcHttpController::check_status("pl_stop", 200), Ok(()));
    assert_eq!(VlcHttpController::check_status("pl_stop", 204), Ok(()));
    assert_eq!(VlcHttpController::check_status("pl_stop", 299), Ok(()));
    assert_eq!(
        VlcHttpController::check_status("pl_stop", 302),
        Err(PlaybackError::HttpStatus("pl_stop".to_string(), 302))
    );
    assert_eq!(
        VlcHttpController::check_status("pl_stop", 199),
        Err(PlaybackError::HttpStatus("pl_stop".to_string(), 199))
    );
    assert_eq!(
        VlcHttpController::check_status("pl_stop", 300),
        Err(PlaybackError::HttpStatus("pl_stop".to_string(), 300))
    );
    assert_eq!(
        VlcHttpController::check_status("pl_stop", 401),
        Err(PlaybackError::Authentication)
    );
    assert_eq!(
        VlcHttpController::check_status("pl_stop", 404),
        Err(PlaybackError::HttpStatus("pl_stop".to_string(), 404))
    );
    assert_eq!(
        VlcHttpController::check_status("pl_stop", 503).unwrap_err().message(),
        "VLC HTTP command 'pl_stop' returned HTTP 503"
    );
    assert_eq!(
        PlaybackError::Authentication.message(),
        "VLC HTTP authentication failed (401); check IRADIO_VLC_HTTP_PASSWORD"
    );
    assert_eq!(
        controller.send_failure("connection refused").message(),
        "failed sending VLC HTTP command to http://127.0.0.1:8080; enable VLC web interface and verify host/port: connection refused"
    );
    controller.shutdown();
    assert_eq!(controller.state(), PlaybackState::Stopped);
}

#[test]
fn process_controller_plans_lines_for_the_pipe() {
    let mut controller = VlcProcessController::new();
    assert_eq!(controller.program(), "cvlc");
    assert_eq!(
        VlcProcessController::arguments(),
        vec!["--intf", "rc", "--rc-fake-tty", "--no-video", "--quiet"]
    );

    let first = controller.play("https://a/b").expect("clean address");
    assert!(first.start_player);
    assert_eq!(first.lines, vec!["add https://a/b\n"]);
    assert_eq!(controller.confirm(PlaybackOp::Play), Ok(()));

    let again = controller.play("https://c/d").expect("clean address");
    assert!(again.start_player);
    assert_eq!(again.lines, vec!["clear\n", "add https://c/d\n"]);

    assert_eq!(
        controller.play("https://a\nquit"),
        Err(PlaybackError::InvalidStreamUrl)
    );
    assert_eq!(controller.state(), PlaybackState::Playing);

    let pause = controller.pause().expect("pause while playing");
    assert!(!pause.start_player);
    assert_eq!(pause.lines, vec!["pause\n"]);
    assert_eq!(controller.resume(), Err(PlaybackError::NotPaused));
    assert_eq!(controller.stop().expect("stop while playing").lines, vec!["stop\n"]);
    assert_eq!(controller.set_volume(50).lines, vec!["volume 128\n"]);
    assert_eq!(VlcProcessController::quit_line(), "quit\n");
    assert_eq!(
        VlcProcessController::not_running().message(),
        "VLC process is not running; use /play to start playback"
    );
    assert_eq!(
        VlcProcessController::write_failure("stop").message(),
        "failed writing command to VLC process (stop); VLC may have exited unexpectedly"
    );
    assert_eq!(
        controller.start_failure(false, "permission denied").message(),
        "failed to start VLC process 'cvlc --intf rc --rc-fake-tty --no-video --quiet': permission denied"
    );
}

#[test]
fn shutdown_waits_in_steps_and_then_kills() {
    assert_eq!(VlcProcessController::shutdown_poll(true, 0), ShutdownAction::Finished);
    assert_eq!(VlcProcessController::shutdown_poll(true, 10_000), ShutdownAction::Finished);
    assert_eq!(VlcProcessController::shutdown_poll(false, 0), ShutdownAction::Wait(50));
    assert_eq!(VlcProcessController::shutdown_poll(false, 450), ShutdownAction::Wait(50));
    assert_eq!(VlcProcessController::shutdown_poll(false, 499), ShutdownAction::Wait(50));
    assert_eq!(VlcProcessController::shutdown_poll(false, 500), ShutdownAction::Kill);
    assert_eq!(VlcProcessController::shutdown_poll(false, u64::MAX), ShutdownAction::Kill);

    let mut waited = 0;
    let mut sleeps = 0;
    while let ShutdownAction::Wait(ms) = VlcProcessController::shutdown_poll(false, waited) {
        waited += ms;
        sleeps += 1;
    }
    assert_eq!(sleeps, 10);
}

#[test]
fn volume_scale_rounds_to_the_nearest_step() {
    assert_eq!(volume_percent_to_vlc_scale(0), 0);
    assert_eq!(volume_percent_to_vlc_scale(1), 3);
    assert_eq!(volume_percent_to_vlc_scale(30), 77);
    assert_eq!(volume_percent_to_vlc_scale(50), 128);
    assert_eq!(volume_percent_to_vlc_scale(100), 256);
    assert_eq!(volume_percent_to_vlc_scale(255), 653);
}

#[test]
fn playback_errors_tell_transitions_from_failures() {
    assert!(PlaybackError::AlreadyStopped.is_transition());
    assert!(PlaybackError::NotPlaying.is_transition());
    assert!(PlaybackError::NotPaused.is_transition());
    assert!(!PlaybackError::InvalidStreamUrl.is_transition());
    assert!(!PlaybackError::Authentication.is_transition());
    assert!(!PlaybackError::Transport("gone".to_string()).is_transition());
    assert_eq!(PlaybackError::Transport("gone".to_string()).message(), "gone");
    assert_eq!(PlaybackState::Paused.label(), "Paused");
}
