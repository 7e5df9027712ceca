//! The player behind a line protocol on a TCP port.
//!
//! The controller decides what is written and keeps the state; the connection itself belongs
//! to its caller. Each operation checks the guard and gives the line to write on a fresh
//! connection; once the line is written, [`VlcRcController::confirm`] applies the transition.
//! An operation that the state does not allow gives no line, so nothing is sent for it.

use crate::integrations::playback::{
    guard_view, refusal, state_after, volume_percent_to_vlc_scale, PlaybackError,
    PlaybackErrorView, PlaybackOp, PlaybackState,
};
use crate::text::{concat, concat3, decimal_digits, decimal_string};
use vstd::prelude::*;

verus! {

/// The controller of a player that listens on `host:port`.
pub struct VlcRcController {
    host: String,
    port: u16,
    state: PlaybackState,
}

/// What a [`VlcRcController`] holds.
pub struct VlcRcView {
    pub host: Seq<char>,
    pub port: u16,
    pub state: PlaybackState,
}

impl View for VlcRcController {
    type V = VlcRcView;

    closed spec fn view(&self) -> VlcRcView {
        VlcRcView { host: self.host@, port: self.port, state: self.state }
    }
}

/// What the line of a request, or its refusal, says.
pub open spec fn line_view(r: Result<String, PlaybackError>) -> Result<
    Seq<char>,
    PlaybackErrorView,
> {
    match r {
        Ok(line) => Ok(line@),
        Err(e) => Err(e@),
    }
}

/// The line that asks the player for an operation; `url` counts for `play` only. Resuming is
/// asked for by the verb that pauses, which toggles.
pub open spec fn rc_line(op: PlaybackOp, url: Seq<char>) -> Seq<char> {
    match op {
        PlaybackOp::Play => "add "@ + url + "\n"@,
        PlaybackOp::Stop => "stop\n"@,
        PlaybackOp::Pause => "pause\n"@,
        PlaybackOp::Resume => "pause\n"@,
        PlaybackOp::Shutdown => "quit\n"@,
    }
}

/// The line to write for an operation in a state, or the refusal of the guard.
pub open spec fn rc_request(state: PlaybackState, op: PlaybackOp, url: Seq<char>) -> Result<
    Seq<char>,
    PlaybackErrorView,
> {
    match refusal(state, op) {
        Some(e) => Err(e),
        None => Ok(rc_line(op, url)),
    }
}

/// The line that sets the volume to a value in percent.
pub open spec fn rc_volume_line(value: u8) -> Seq<char> {
    "volume "@ + decimal_digits(((value * 256 + 50) / 100) as nat) + "\n"@
}

/// The message for a connection that could not be opened: it says how to start the player
/// with the control interface on.
pub open spec fn rc_connect_message(host: Seq<char>, port: u16) -> Seq<char> {
    "failed to connect VLC RC at "@ + host + ":"@ + decimal_digits(port as nat)
        + "; start VLC with `cvlc --extraintf rc --rc-host "@ + host + ":"@ + decimal_digits(
        port as nat,
    ) + "`"@
}

impl VlcRcController {
    pub fn new(host: &str, port: u16) -> (r: Self)
        ensures
            r@ == (VlcRcView { host: host@, port, state: PlaybackState::Stopped }),
    {
        VlcRcController { host: host.to_owned(), port, state: PlaybackState::Stopped }
    }

    pub fn host(&self) -> (r: &String)
        ensures
            r@ == self@.host,
    {
        &self.host
    }

    pub fn port(&self) -> (r: u16)
        ensures
            r == self@.port,
    {
        self.port
    }

    pub fn state(&self) -> (r: PlaybackState)
        ensures
            r == self@.state,
    {
        self.state
    }

    fn request(&self, op: PlaybackOp, url: &str) -> (r: Result<String, PlaybackError>)
        ensures
            line_view(r) == rc_request(self@.state, op, url@),
    {
        match self.state.guard(op) {
            Ok(()) => Ok(
                match op {
                    PlaybackOp::Play => concat3("add ", url, "\n"),
                    PlaybackOp::Stop => "stop\n".to_owned(),
                    PlaybackOp::Pause => "pause\n".to_owned(),
                    PlaybackOp::Resume => "pause\n".to_owned(),
                    PlaybackOp::Shutdown => "quit\n".to_owned(),
                },
            ),
            Err(e) => Err(e),
        }
    }

    /// The line that starts the stream. Playing is allowed in every state.
    pub fn play(&self, stream_url: &str) -> (r: Result<String, PlaybackError>)
        ensures
            line_view(r) == Ok::<Seq<char>, PlaybackErrorView>("add "@ + stream_url@ + "\n"@),
    {
        self.request(PlaybackOp::Play, stream_url)
    }

    /// The line that stops playback, or the refusal while stopped.
    pub fn stop(&self) -> (r: Result<String, PlaybackError>)
        ensures
            line_view(r) == rc_request(self@.state, PlaybackOp::Stop, Seq::empty()),
            self@.state == PlaybackState::Stopped ==> r is Err,
    {
        self.request(PlaybackOp::Stop, "")
    }

    /// The line that pauses playback, or the refusal while nothing plays.
    pub fn pause(&self) -> (r: Result<String, PlaybackError>)
        ensures
            line_view(r) == rc_request(self@.state, PlaybackOp::Pause, Seq::empty()),
            self@.state != PlaybackState::Playing ==> r is Err,
    {
        self.request(PlaybackOp::Pause, "")
    }

    /// The line that resumes playback, or the refusal while not paused.
    pub fn resume(&self) -> (r: Result<String, PlaybackError>)
        ensures
            line_view(r) == rc_request(self@.state, PlaybackOp::Resume, Seq::empty()),
            self@.state != PlaybackState::Paused ==> r is Err,
    {
        self.request(PlaybackOp::Resume, "")
    }

    /// The line that sets the volume, on the player's scale.
    pub fn set_volume(&self, value: u8) -> (r: String)
        ensures
            r@ == rc_volume_line(value),
    {
        let scaled = volume_percent_to_vlc_scale(value);
        concat3("volume ", decimal_string(scaled as u64).as_str(), "\n")
    }

    /// Applies the transition of an operation that the player took. An operation that the
    /// state does not allow is refused and changes nothing.
    pub fn confirm(&mut self, op: PlaybackOp) -> (r: Result<(), PlaybackError>)
        ensures
            guard_view(r) == refusal(old(self)@.state, op),
            final(self)@ == (VlcRcView {
                state: if refusal(old(self)@.state, op) is None {
                    state_after(op)
                } else {
                    old(self)@.state
                },
                ..old(self)@
            }),
    {
        let (next, r) = self.state.transition(op);
        self.state = next;
        r
    }

    /// Forgets what was playing. The player runs on its own, so nothing is sent, and shutting
    /// down twice is as good as once.
    pub fn shutdown(&mut self)
        ensures
            final(self)@ == (VlcRcView { state: PlaybackState::Stopped, ..old(self)@ }),
    {
        self.state = PlaybackState::Stopped;
    }

    /// The error for a connection that could not be opened.
    pub fn connect_failure(&self) -> (r: PlaybackError)
        ensures
            r@ == PlaybackErrorView::Transport(rc_connect_message(self@.host, self@.port)),
    {
        let port = decimal_string(self.port as u64);
        let mut m = concat3("failed to connect VLC RC at ", self.host.as_str(), ":");
        m.append(port.as_str());
        m.append("; start VLC with `cvlc --extraintf rc --rc-host ");
        m.append(self.host.as_str());
        m.append(":");
        m.append(port.as_str());
        m.append("`");
        PlaybackError::Transport(m)
    }

    /// The error for a line that could not be written.
    pub fn send_failure(line: &str) -> (r: PlaybackError)
        ensures
            r@ == PlaybackErrorView::Transport("failed to send command to VLC RC: "@ + line@),
    {
        PlaybackError::Transport(concat("failed to send command to VLC RC: ", line))
    }
}

} // verus!
