//! The playback state machine and the capability through which the session reaches a player.

use crate::text::{concat, decimal_digits, decimal_string};
use vstd::prelude::*;

verus! {

/// What the player is doing, as far as the controller knows.
#[derive(Debug, Clone, Copy, PartialEq, Eq, Structural)]
pub enum PlaybackState {
    Stopped,
    Playing,
    Paused,
}

/// The operations that move the playback state.
#[derive(Debug, Clone, Copy, PartialEq, Eq, Structural)]
pub enum PlaybackOp {
    Play,
    Stop,
    Pause,
    Resume,
    Shutdown,
}

/// Why a playback operation failed.
#[derive(Debug, PartialEq, Eq)]
pub enum PlaybackError {
    /// `stop` while stopped.
    AlreadyStopped,
    /// `pause` while nothing plays.
    NotPlaying,
    /// `resume` while not paused.
    NotPaused,
    /// A stream address with white space at an end, or with a control character.
    InvalidStreamUrl,
    /// The control endpoint rejected the credentials.
    Authentication,
    /// The control endpoint answered the command with this status outside 200 to 299.
    HttpStatus(String, u16),
    /// The player could not be reached or started; it carries the whole message.
    Transport(String),
}

/// What a [`PlaybackError`] says.
pub enum PlaybackErrorView {
    AlreadyStopped,
    NotPlaying,
    NotPaused,
    InvalidStreamUrl,
    Authentication,
    HttpStatus(Seq<char>, u16),
    Transport(Seq<char>),
}

impl View for PlaybackError {
    type V = PlaybackErrorView;

    open spec fn view(&self) -> PlaybackErrorView {
        match self {
            PlaybackError::AlreadyStopped => PlaybackErrorView::AlreadyStopped,
            PlaybackError::NotPlaying => PlaybackErrorView::NotPlaying,
            PlaybackError::NotPaused => PlaybackErrorView::NotPaused,
            PlaybackError::InvalidStreamUrl => PlaybackErrorView::InvalidStreamUrl,
            PlaybackError::Authentication => PlaybackErrorView::Authentication,
            PlaybackError::HttpStatus(c, s) => PlaybackErrorView::HttpStatus(c@, *s),
            PlaybackError::Transport(m) => PlaybackErrorView::Transport(m@),
        }
    }
}

impl PlaybackErrorView {
    /// Whether the error refuses a transition that the state does not allow.
    pub open spec fn is_transition(self) -> bool {
        self is AlreadyStopped || self is NotPlaying || self is NotPaused
    }

    /// The sentence that reports the error.
    pub open spec fn message(self) -> Seq<char> {
        match self {
            PlaybackErrorView::AlreadyStopped =>
                "cannot stop because playback is already stopped; start a stream first with /play"@,
            PlaybackErrorView::NotPlaying =>
                "cannot pause because no stream is currently playing; start playback first"@,
            PlaybackErrorView::NotPaused =>
                "cannot resume because playback is not paused; pause first or use /play"@,
            PlaybackErrorView::InvalidStreamUrl =>
                "invalid stream URL characters detected; remove control characters and leading/trailing whitespace"@,
            PlaybackErrorView::Authentication =>
                "VLC HTTP authentication failed (401); check IRADIO_VLC_HTTP_PASSWORD"@,
            PlaybackErrorView::HttpStatus(c, s) => "VLC HTTP command '"@ + c + "' returned HTTP "@
                + decimal_digits(s as nat),
            PlaybackErrorView::Transport(m) => m,
        }
    }
}

impl Clone for PlaybackError {
    fn clone(&self) -> (r: Self)
        ensures
            r@ == self@,
    {
        match self {
            PlaybackError::AlreadyStopped => PlaybackError::AlreadyStopped,
            PlaybackError::NotPlaying => PlaybackError::NotPlaying,
            PlaybackError::NotPaused => PlaybackError::NotPaused,
            PlaybackError::InvalidStreamUrl => PlaybackError::InvalidStreamUrl,
            PlaybackError::Authentication => PlaybackError::Authentication,
            PlaybackError::HttpStatus(c, s) => PlaybackError::HttpStatus(c.clone(), *s),
            PlaybackError::Transport(m) => PlaybackError::Transport(m.clone()),
        }
    }
}

impl PlaybackError {
    /// The sentence that reports the error.
    pub fn message(&self) -> (r: String)
        ensures
            r@ == self@.message(),
    {
        match self {
            PlaybackError::AlreadyStopped =>
                "cannot stop because playback is already stopped; start a stream first with /play".to_owned(),
            PlaybackError::NotPlaying =>
                "cannot pause because no stream is currently playing; start playback first".to_owned(),
            PlaybackError::NotPaused =>
                "cannot resume because playback is not paused; pause first or use /play".to_owned(),
            PlaybackError::InvalidStreamUrl =>
                "invalid stream URL characters detected; remove control characters and leading/trailing whitespace".to_owned(),
            PlaybackError::Authentication =>
                "VLC HTTP authentication failed (401); check IRADIO_VLC_HTTP_PASSWORD".to_owned(),
            PlaybackError::HttpStatus(c, s) => {
                let mut r = concat("VLC HTTP command '", c.as_str());
                r.append("' returned HTTP ");
                r.append(decimal_string(*s as u64).as_str());
                r
            },
            PlaybackError::Transport(m) => m.clone(),
        }
    }

    /// Whether the error refuses a transition that the state does not allow.
    pub fn is_transition(&self) -> (r: bool)
        ensures
            r == self@.is_transition(),
    {
        match self {
            PlaybackError::AlreadyStopped => true,
            PlaybackError::NotPlaying => true,
            PlaybackError::NotPaused => true,
            _ => false,
        }
    }
}

/// What the outcome of a controller call says.
pub open spec fn outcome_view(r: Result<(), PlaybackError>) -> Result<(), PlaybackErrorView> {
    match r {
        Ok(_) => Ok(()),
        Err(e) => Err(e@),
    }
}

/// The error with which `op` is refused in `state`, or `None` where the state allows it:
/// `play` and `shutdown` are always allowed, `stop` unless stopped, `pause` only while
/// playing, `resume` only while paused.
pub open spec fn refusal(state: PlaybackState, op: PlaybackOp) -> Option<PlaybackErrorView> {
    match op {
        PlaybackOp::Play => None,
        PlaybackOp::Shutdown => None,
        PlaybackOp::Stop => if state == PlaybackState::Stopped {
            Some(PlaybackErrorView::AlreadyStopped)
        } else {
            None
        },
        PlaybackOp::Pause => if state == PlaybackState::Playing {
            None
        } else {
            Some(PlaybackErrorView::NotPlaying)
        },
        PlaybackOp::Resume => if state == PlaybackState::Paused {
            None
        } else {
            Some(PlaybackErrorView::NotPaused)
        },
    }
}

/// The state in which an operation that succeeded leaves the player.
pub open spec fn state_after(op: PlaybackOp) -> PlaybackState {
    match op {
        PlaybackOp::Play => PlaybackState::Playing,
        PlaybackOp::Stop => PlaybackState::Stopped,
        PlaybackOp::Pause => PlaybackState::Paused,
        PlaybackOp::Resume => PlaybackState::Playing,
        PlaybackOp::Shutdown => PlaybackState::Stopped,
    }
}

/// What a guard check says.
pub open spec fn guard_view(r: Result<(), PlaybackError>) -> Option<PlaybackErrorView> {
    match r {
        Ok(_) => None,
        Err(e) => Some(e@),
    }
}

impl PlaybackState {
    /// Whether the state allows `op`. Nothing is sent to a player before this has said yes.
    pub fn guard(self, op: PlaybackOp) -> (r: Result<(), PlaybackError>)
        ensures
            guard_view(r) == refusal(self, op),
    {
        match op {
            PlaybackOp::Play => Ok(()),
            PlaybackOp::Shutdown => Ok(()),
            PlaybackOp::Stop => match self {
                PlaybackState::Stopped => Err(PlaybackError::AlreadyStopped),
                _ => Ok(()),
            },
            PlaybackOp::Pause => match self {
                PlaybackState::Playing => Ok(()),
                _ => Err(PlaybackError::NotPlaying),
            },
            PlaybackOp::Resume => match self {
                PlaybackState::Paused => Ok(()),
                _ => Err(PlaybackError::NotPaused),
            },
        }
    }

    /// The state after `op`: the one that `op` leads to where the state allows it, and the
    /// state as it was, with the refusal, where it does not.
    pub fn transition(self, op: PlaybackOp) -> (r: (PlaybackState, Result<(), PlaybackError>))
        ensures
            guard_view(r.1) == refusal(self, op),
            r.0 == (if refusal(self, op) is None {
                state_after(op)
            } else {
                self
            }),
    {
        match self.guard(op) {
            Ok(()) => {
                let next = match op {
                    PlaybackOp::Play => PlaybackState::Playing,
                    PlaybackOp::Stop => PlaybackState::Stopped,
                    PlaybackOp::Pause => PlaybackState::Paused,
                    PlaybackOp::Resume => PlaybackState::Playing,
                    PlaybackOp::Shutdown => PlaybackState::Stopped,
                };
                (next, Ok(()))
            },
            Err(e) => (self, Err(e)),
        }
    }

    /// The word that shows the state.
    pub fn label(self) -> (r: &'static str)
        ensures
            r@ == (match self {
                PlaybackState::Stopped => "Stopped"@,
                PlaybackState::Playing => "Playing"@,
                PlaybackState::Paused => "Paused"@,
            }),
    {
        match self {
            PlaybackState::Stopped => "Stopped",
            PlaybackState::Playing => "Playing",
            PlaybackState::Paused => "Paused",
        }
    }
}

/// The guard matrix: while stopped neither `pause` nor `resume` nor `stop` is allowed, while
/// playing `resume` is not, while paused `pause` is not; every other operation is allowed, and
/// a refused one leaves the state as it was.
pub proof fn lemma_guard_matrix(state: PlaybackState, op: PlaybackOp)
    ensures
        refusal(state, op) is Some <==> (state == PlaybackState::Stopped && (op == PlaybackOp::Stop
            || op == PlaybackOp::Pause || op == PlaybackOp::Resume)) || (state
            == PlaybackState::Playing && op == PlaybackOp::Resume) || (state
            == PlaybackState::Paused && op == PlaybackOp::Pause),
        refusal(state, op) is Some ==> refusal(state, op).unwrap().is_transition(),
{
}

/// A media player that the session can command. Implementations check the guard of
/// [`PlaybackState::guard`] before they reach for the player, and change the state they report
/// only after the player took the command.
pub trait PlaybackController {
    fn play(&mut self, stream_url: &str) -> Result<(), PlaybackError>;

    fn set_volume(&mut self, value: u8) -> Result<(), PlaybackError>;

    fn stop(&mut self) -> Result<(), PlaybackError>;

    fn pause(&mut self) -> Result<(), PlaybackError>;

    fn resume(&mut self) -> Result<(), PlaybackError>;

    fn shutdown(&mut self) -> Result<(), PlaybackError>;

    fn state(&self) -> PlaybackState;
}

/// A volume in percent on the player's scale, on which 256 stands for 100 percent, rounded to
/// the nearest step.
pub fn volume_percent_to_vlc_scale(value: u8) -> (r: u16)
    ensures
        r == (value * 256 + 50) / 100,
{
    let wide: u32 = value as u32;
    ((wide * 256 + 50) / 100) as u16
}

} // verus!
