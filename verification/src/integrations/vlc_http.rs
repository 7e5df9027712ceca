//! The player behind an HTTP control endpoint.
//!
//! The controller decides what is requested, reads the status of the answer and keeps the
//! state; sending the request belongs to its caller. An operation that the state does not
//! allow gives no request, so nothing is sent for it.

use crate::integrations::playback::{
    guard_view, refusal, state_after, volume_percent_to_vlc_scale, PlaybackError,
    PlaybackErrorView, PlaybackOp, PlaybackState,
};
use crate::text::{concat, concat3, decimal_digits, decimal_string};
use vstd::prelude::*;

verus! {

/// The controller of a player whose control endpoint is at `base_url`.
pub struct VlcHttpController {
    base_url: String,
    password: String,
    state: PlaybackState,
}

/// What a [`VlcHttpController`] holds.
pub struct VlcHttpView {
    pub base_url: Seq<char>,
    pub password: Seq<char>,
    pub state: PlaybackState,
}

impl View for VlcHttpController {
    type V = VlcHttpView;

    closed spec fn view(&self) -> VlcHttpView {
        VlcHttpView { base_url: self.base_url@, password: self.password@, state: self.state }
    }
}

/// One request to the control endpoint: a GET of `url` with basic authentication, an empty
/// user name and `password`, and the query parameters `params`.
#[derive(Debug, PartialEq, Eq)]
pub struct HttpCommand {
    pub url: String,
    pub password: String,
    pub command: String,
    pub params: Vec<(String, String)>,
}

/// What an [`HttpCommand`] says.
pub struct HttpCommandView {
    pub url: Seq<char>,
    pub password: Seq<char>,
    pub command: Seq<char>,
    pub params: Seq<(Seq<char>, Seq<char>)>,
}

impl View for HttpCommand {
    type V = HttpCommandView;

    open spec fn view(&self) -> HttpCommandView {
        HttpCommandView {
            url: self.url@,
            password: self.password@,
            command: self.command@,
            params: self.params@.map_values(|p: (String, String)| (p.0@, p.1@)),
        }
    }
}

/// What a request, or its refusal, says.
pub open spec fn command_view(r: Result<HttpCommand, PlaybackError>) -> Result<
    HttpCommandView,
    PlaybackErrorView,
> {
    match r {
        Ok(c) => Ok(c@),
        Err(e) => Err(e@),
    }
}

/// The name by which the endpoint knows an operation.
pub open spec fn http_verb(op: PlaybackOp) -> Seq<char> {
    match op {
        PlaybackOp::Play => "in_play"@,
        PlaybackOp::Stop => "pl_stop"@,
        PlaybackOp::Pause => "pl_pause"@,
        PlaybackOp::Resume => "pl_forceresume"@,
        PlaybackOp::Shutdown => "pl_stop"@,
    }
}

/// The request for a command with one optional further parameter.
pub open spec fn http_command(
    c: VlcHttpView,
    verb: Seq<char>,
    extra: Option<(Seq<char>, Seq<char>)>,
) -> HttpCommandView {
    HttpCommandView {
        url: c.base_url + "/requests/status.json"@,
        password: c.password,
        command: verb,
        params: match extra {
            Some(p) => seq![("command"@, verb), p],
            None => seq![("command"@, verb)],
        },
    }
}

/// The request for an operation in the controller's state, or the refusal of the guard; `url`
/// counts for `play` only.
pub open spec fn http_request(c: VlcHttpView, op: PlaybackOp, url: Seq<char>) -> Result<
    HttpCommandView,
    PlaybackErrorView,
> {
    match refusal(c.state, op) {
        Some(e) => Err(e),
        None => Ok(
            http_command(
                c,
                http_verb(op),
                if op == PlaybackOp::Play {
                    Some(("input"@, url))
                } else {
                    None
                },
            ),
        ),
    }
}

/// What the status of an answer means for the command: a status from 200 to 299 is success,
/// 401 a rejected password, and any other status a failure that carries the status.
pub open spec fn status_meaning(command: Seq<char>, status: u16) -> Option<PlaybackErrorView> {
    if status == 401 {
        Some(PlaybackErrorView::Authentication)
    } else if 200 <= status <= 299 {
        None
    } else {
        Some(PlaybackErrorView::HttpStatus(command, status))
    }
}

impl VlcHttpController {
    pub fn new(base_url: &str, password: &str) -> (r: Self)
        ensures
            r@ == (VlcHttpView {
                base_url: base_url@,
                password: password@,
                state: PlaybackState::Stopped,
            }),
    {
        VlcHttpController {
            base_url: base_url.to_owned(),
            password: password.to_owned(),
            state: PlaybackState::Stopped,
        }
    }

    pub fn state(&self) -> (r: PlaybackState)
        ensures
            r == self@.state,
    {
        self.state
    }

    fn command(&self, verb: &str, extra: Option<(String, String)>) -> (r: HttpCommand)
        ensures
            r@ == http_command(
                self@,
                verb@,
                match extra {
                    Some(p) => Some((p.0@, p.1@)),
                    None => None,
                },
            ),
    {
        let mut params: Vec<(String, String)> = Vec::new();
        params.push(("command".to_owned(), verb.to_owned()));
        match extra {
            Some(p) => {
                params.push(p);
            },
            None => {},
        }
        let r = HttpCommand {
            url: concat(self.base_url.as_str(), "/requests/status.json"),
            password: self.password.clone(),
            command: verb.to_owned(),
            params,
        };
        assert(r@.params =~= http_command(
            self@,
            verb@,
            match extra {
                Some(p) => Some((p.0@, p.1@)),
                None => None,
            },
        ).params);
        r
    }

    fn request(&self, op: PlaybackOp, url: &str) -> (r: Result<HttpCommand, PlaybackError>)
        ensures
            command_view(r) == http_request(self@, op, url@),
    {
        match self.state.guard(op) {
            Ok(()) => Ok(
                match op {
                    PlaybackOp::Play => self.command(
                        "in_play",
                        Some(("input".to_owned(), url.to_owned())),
                    ),
                    PlaybackOp::Stop => self.command("pl_stop", None),
                    PlaybackOp::Pause => self.command("pl_pause", None),
                    PlaybackOp::Resume => self.command("pl_forceresume", None),
                    PlaybackOp::Shutdown => self.command("pl_stop", None),
                },
            ),
            Err(e) => Err(e),
        }
    }

    /// The request that starts the stream. Playing is allowed in every state.
    pub fn play(&self, stream_url: &str) -> (r: Result<HttpCommand, PlaybackError>)
        ensures
            command_view(r) == http_request(self@, PlaybackOp::Play, stream_url@),
            r is Ok,
    {
        self.request(PlaybackOp::Play, stream_url)
    }

    /// The request that stops playback, or the refusal while stopped.
    pub fn stop(&self) -> (r: Result<HttpCommand, PlaybackError>)
        ensures
            command_view(r) == http_request(self@, PlaybackOp::Stop, Seq::empty()),
            self@.state == PlaybackState::Stopped ==> r is Err,
    {
        self.request(PlaybackOp::Stop, "")
    }

    /// The request that pauses playback, or the refusal while nothing plays.
    pub fn pause(&self) -> (r: Result<HttpCommand, PlaybackError>)
        ensures
            command_view(r) == http_request(self@, PlaybackOp::Pause, Seq::empty()),
            self@.state != PlaybackState::Playing ==> r is Err,
    {
        self.request(PlaybackOp::Pause, "")
    }

    /// The request that resumes playback, or the refusal while not paused.
    pub fn resume(&self) -> (r: Result<HttpCommand, PlaybackError>)
        ensures
            command_view(r) == http_request(self@, PlaybackOp::Resume, Seq::empty()),
            self@.state != PlaybackState::Paused ==> r is Err,
    {
        self.request(PlaybackOp::Resume, "")
    }

    /// The request that sets the volume, on the player's scale.
    pub fn set_volume(&self, value: u8) -> (r: HttpCommand)
        ensures
            r@ == http_command(
                self@,
                "volume"@,
                Some(("val"@, decimal_digits(((value * 256 + 50) / 100) as nat))),
            ),
    {
        let scaled = volume_percent_to_vlc_scale(value);
        self.command("volume", Some(("val".to_owned(), decimal_string(scaled as u64))))
    }

    /// What the status of the answer to a command means.
    pub fn check_status(command: &str, status: u16) -> (r: Result<(), PlaybackError>)
        ensures
            guard_view(r) == status_meaning(command@, status),
    {
        if status == 401 {
            Err(PlaybackError::Authentication)
        } else if status >= 200 && status <= 299 {
            Ok(())
        } else {
            Err(PlaybackError::HttpStatus(command.to_owned(), status))
        }
    }

    /// Applies the transition of an operation that the player took. An operation that the
    /// state does not allow is refused and changes nothing.
    pub fn confirm(&mut self, op: PlaybackOp) -> (r: Result<(), PlaybackError>)
        ensures
            guard_view(r) == refusal(old(self)@.state, op),
            final(self)@ == (VlcHttpView {
                state: if refusal(old(self)@.state, op) is None {
                    state_after(op)
                } else {
                    old(self)@.state
                },
                ..old(self)@
            }),
    {
        let (next, r) = self.state.transition(op);
        self.state = next;
        r
    }

    /// Forgets what was playing. The player runs on its own, so nothing is sent, and shutting
    /// down twice is as good as once.
    pub fn shutdown(&mut self)
        ensures
            final(self)@ == (VlcHttpView { state: PlaybackState::Stopped, ..old(self)@ }),
    {
        self.state = PlaybackState::Stopped;
    }

    /// The error for a request that could not be sent; `detail` says what went wrong.
    pub fn send_failure(&self, detail: &str) -> (r: PlaybackError)
        ensures
            r@ == PlaybackErrorView::Transport(
                "failed sending VLC HTTP command to "@ + self@.base_url
                    + "; enable VLC web interface and verify host/port: "@ + detail@,
            ),
    {
        let mut m = concat3(
            "failed sending VLC HTTP command to ",
            self.base_url.as_str(),
            "; enable VLC web interface and verify host/port: ",
        );
        m.append(detail);
        PlaybackError::Transport(m)
    }
}

} // verus!
