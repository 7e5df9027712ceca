//! The player as a child process with a piped control channel.
//!
//! The controller decides whether the process has to run, which lines go down the pipe, how
//! long a shutdown waits and when it kills; starting the process, writing to its pipe and
//! waiting belong to its caller. An operation that the state does not allow gives no plan, so
//! nothing is written for it.

use crate::integrations::playback::{
    guard_view, refusal, state_after, volume_percent_to_vlc_scale, PlaybackError,
    PlaybackErrorView, PlaybackOp, PlaybackState,
};
use crate::text::{
    chars_of, concat3, decimal_digits, decimal_string, same_chars, texts, trim, trimmed,
};
use vstd::prelude::*;

verus! {

/// How long a shutdown waits for the process to exit, in milliseconds.
pub const SHUTDOWN_WAIT_MS: u64 = 500;

/// How long a shutdown sleeps between two looks at the process, in milliseconds.
pub const SHUTDOWN_POLL_MS: u64 = 50;

/// The controller of a player that runs as a child process.
pub struct VlcProcessController {
    program: String,
    state: PlaybackState,
}

/// What a [`VlcProcessController`] holds.
pub struct VlcProcessView {
    pub program: Seq<char>,
    pub state: PlaybackState,
}

impl View for VlcProcessController {
    type V = VlcProcessView;

    closed spec fn view(&self) -> VlcProcessView {
        VlcProcessView { program: self.program@, state: self.state }
    }
}

/// What to do for one operation: start the process first unless it runs, then write the
/// lines to its pipe in order.
#[derive(Debug, PartialEq, Eq)]
pub struct ProcessPlan {
    pub start_player: bool,
    pub lines: Vec<String>,
}

/// What a [`ProcessPlan`] says.
pub struct ProcessPlanView {
    pub start_player: bool,
    pub lines: Seq<Seq<char>>,
}

impl View for ProcessPlan {
    type V = ProcessPlanView;

    open spec fn view(&self) -> ProcessPlanView {
        ProcessPlanView { start_player: self.start_player, lines: texts(self.lines@) }
    }
}

/// What a plan, or its refusal, says.
pub open spec fn plan_view(r: Result<ProcessPlan, PlaybackError>) -> Result<
    ProcessPlanView,
    PlaybackErrorView,
> {
    match r {
        Ok(p) => Ok(p@),
        Err(e) => Err(e@),
    }
}

/// What a shutdown does next.
#[derive(Debug, Clone, Copy, PartialEq, Eq, Structural)]
pub enum ShutdownAction {
    /// The process is gone.
    Finished,
    /// Sleep this many milliseconds, then look again.
    Wait(u64),
    /// The wait is over: kill the process.
    Kill,
}

pub open spec fn is_ascii_control(c: char) -> bool {
    (c as u32) <= 0x1F || (c as u32) == 0x7F
}

/// Whether a stream address can go down the pipe as it is: no white space at either end and
/// no control character anywhere, so that it cannot end the line or start another.
pub open spec fn is_clean_url(url: Seq<char>) -> bool {
    trimmed(url) == url && forall|i: int| 0 <= i < url.len() ==> !is_ascii_control(#[trigger] url[i])
}

/// The plan for starting a stream in a state: the process must run, a stream that plays or is
/// paused is cleared first, and the new one is added.
pub open spec fn play_plan(state: PlaybackState, url: Seq<char>) -> ProcessPlanView {
    ProcessPlanView {
        start_player: true,
        lines: if state == PlaybackState::Stopped {
            seq!["add "@ + url + "\n"@]
        } else {
            seq!["clear\n"@, "add "@ + url + "\n"@]
        },
    }
}

/// The plan for one line to a process that must be running already.
pub open spec fn line_plan(line: Seq<char>) -> ProcessPlanView {
    ProcessPlanView { start_player: false, lines: seq![line] }
}

/// The line of an operation other than `play`. Resuming is asked for by the verb that pauses,
/// which toggles.
pub open spec fn control_line(op: PlaybackOp) -> Seq<char> {
    match op {
        PlaybackOp::Stop => "stop\n"@,
        PlaybackOp::Pause => "pause\n"@,
        PlaybackOp::Resume => "pause\n"@,
        _ => "quit\n"@,
    }
}

/// The plan for an operation other than `play` in a state, or the refusal of the guard.
pub open spec fn control_plan(state: PlaybackState, op: PlaybackOp) -> Result<
    ProcessPlanView,
    PlaybackErrorView,
> {
    match refusal(state, op) {
        Some(e) => Err(e),
        None => Ok(line_plan(control_line(op))),
    }
}

/// What a shutdown does after it has waited `waited_ms` for a process that has or has not
/// exited: it is done once the process is gone, kills it once the wait is used up, and sleeps
/// one interval else.
pub open spec fn shutdown_step(exited: bool, waited_ms: u64) -> ShutdownAction {
    if exited {
        ShutdownAction::Finished
    } else if waited_ms >= SHUTDOWN_WAIT_MS {
        ShutdownAction::Kill
    } else {
        ShutdownAction::Wait(SHUTDOWN_POLL_MS)
    }
}

/// A shutdown sleeps at most ten times: after ten intervals it waits no longer.
pub proof fn lemma_shutdown_is_bounded(exited: bool, sleeps: nat)
    requires
        sleeps >= 10,
        sleeps * SHUTDOWN_POLL_MS <= u64::MAX,
    ensures
        !(shutdown_step(exited, (sleeps * SHUTDOWN_POLL_MS) as u64) is Wait),
{
}

fn one_line(line: String) -> (r: ProcessPlan)
    ensures
        r@ == line_plan(line@),
{
    let mut lines: Vec<String> = Vec::new();
    lines.push(line);
    let r = ProcessPlan { start_player: false, lines };
    assert(r@.lines =~= seq![line@]);
    r
}

impl VlcProcessController {
    /// The controller of `cvlc`.
    pub fn new() -> (r: Self)
        ensures
            r@ == (VlcProcessView { program: "cvlc"@, state: PlaybackState::Stopped }),
    {
        VlcProcessController::new_with_program("cvlc")
    }

    pub fn new_with_program(program: &str) -> (r: Self)
        ensures
            r@ == (VlcProcessView { program: program@, state: PlaybackState::Stopped }),
    {
        VlcProcessController { program: program.to_owned(), state: PlaybackState::Stopped }
    }

    pub fn program(&self) -> (r: &String)
        ensures
            r@ == self@.program,
    {
        &self.program
    }

    pub fn state(&self) -> (r: PlaybackState)
        ensures
            r == self@.state,
    {
        self.state
    }

    /// The arguments with which the player is started: a control interface on its standard
    /// input, no video, no chatter.
    pub fn arguments() -> (r: Vec<String>)
        ensures
            texts(r@) == seq!["--intf"@, "rc"@, "--rc-fake-tty"@, "--no-video"@, "--quiet"@],
    {
        let mut r: Vec<String> = Vec::new();
        r.push("--intf".to_owned());
        r.push("rc".to_owned());
        r.push("--rc-fake-tty".to_owned());
        r.push("--no-video".to_owned());
        r.push("--quiet".to_owned());
        assert(texts(r@) =~= seq!["--intf"@, "rc"@, "--rc-fake-tty"@, "--no-video"@, "--quiet"@]);
        r
    }

    /// The address itself where it can go down the pipe, else the refusal.
    pub fn validate_stream_url(url: &str) -> (r: Result<&str, PlaybackError>)
        ensures
            match r {
                Ok(u) => is_clean_url(url@) && u@ == url@,
                Err(e) => !is_clean_url(url@) && e@ == PlaybackErrorView::InvalidStreamUrl,
            },
    {
        let v = chars_of(url);
        if !same_chars(&trim(&v), &v) {
            return Err(PlaybackError::InvalidStreamUrl);
        }
        let mut i: usize = 0;
        while i < v.len()
            invariant
                i <= v.len(),
                v@ == url@,
                forall|j: int| 0 <= j < i ==> !is_ascii_control(#[trigger] v@[j]),
            decreases v.len() - i,
        {
            let n: u32 = v[i] as u32;
            if n <= 0x1F || n == 0x7F {
                assert(is_ascii_control(url@[i as int]));
                return Err(PlaybackError::InvalidStreamUrl);
            }
            i += 1;
        }
        Ok(url)
    }

    /// The plan that starts the stream, or the refusal of an address that is not clean.
    /// Playing is allowed in every state.
    pub fn play(&self, stream_url: &str) -> (r: Result<ProcessPlan, PlaybackError>)
        ensures
            plan_view(r) == (if is_clean_url(stream_url@) {
                Ok::<ProcessPlanView, PlaybackErrorView>(play_plan(self@.state, stream_url@))
            } else {
                Err::<ProcessPlanView, PlaybackErrorView>(PlaybackErrorView::InvalidStreamUrl)
            }),
    {
        let url = match VlcProcessController::validate_stream_url(stream_url) {
            Ok(u) => u,
            Err(e) => {
                return Err(e);
            },
        };
        let mut lines: Vec<String> = Vec::new();
        match self.state {
            PlaybackState::Stopped => {},
            _ => {
                lines.push("clear\n".to_owned());
            },
        }
        lines.push(concat3("add ", url, "\n"));
        let plan = ProcessPlan { start_player: true, lines };
        assert(plan@.lines =~= play_plan(self@.state, stream_url@).lines);
        Ok(plan)
    }

    fn control(&self, op: PlaybackOp) -> (r: Result<ProcessPlan, PlaybackError>)
        requires
            op != PlaybackOp::Play,
        ensures
            plan_view(r) == control_plan(self@.state, op),
    {
        match self.state.guard(op) {
            Ok(()) => Ok(
                one_line(
                    match op {
                        PlaybackOp::Stop => "stop\n".to_owned(),
                        PlaybackOp::Pause => "pause\n".to_owned(),
                        PlaybackOp::Resume => "pause\n".to_owned(),
                        _ => "quit\n".to_owned(),
                    },
                ),
            ),
            Err(e) => Err(e),
        }
    }

    /// The plan that stops playback, or the refusal while stopped.
    pub fn stop(&self) -> (r: Result<ProcessPlan, PlaybackError>)
        ensures
            plan_view(r) == control_plan(self@.state, PlaybackOp::Stop),
            self@.state == PlaybackState::Stopped ==> r is Err,
    {
        self.control(PlaybackOp::Stop)
    }

    /// The plan that pauses playback, or the refusal while nothing plays.
    pub fn pause(&self) -> (r: Result<ProcessPlan, PlaybackError>)
        ensures
            plan_view(r) == control_plan(self@.state, PlaybackOp::Pause),
            self@.state != PlaybackState::Playing ==> r is Err,
    {
        self.control(PlaybackOp::Pause)
    }

    /// The plan that resumes playback, or the refusal while not paused.
    pub fn resume(&self) -> (r: Result<ProcessPlan, PlaybackError>)
        ensures
            plan_view(r) == control_plan(self@.state, PlaybackOp::Resume),
            self@.state != PlaybackState::Paused ==> r is Err,
    {
        self.control(PlaybackOp::Resume)
    }

    /// The plan that sets the volume, on the player's scale.
    pub fn set_volume(&self, value: u8) -> (r: ProcessPlan)
        ensures
            r@ == line_plan(
                "volume "@ + decimal_digits(((value * 256 + 50) / 100) as nat) + "\n"@,
            ),
    {
        let scaled = volume_percent_to_vlc_scale(value);
        one_line(concat3("volume ", decimal_string(scaled as u64).as_str(), "\n"))
    }

    /// The line that asks the process to quit.
    pub fn quit_line() -> (r: String)
        ensures
            r@ == control_line(PlaybackOp::Shutdown),
    {
        "quit\n".to_owned()
    }

    /// What a shutdown does next.
    pub fn shutdown_poll(exited: bool, waited_ms: u64) -> (r: ShutdownAction)
        ensures
            r == shutdown_step(exited, waited_ms),
    {
        if exited {
            ShutdownAction::Finished
        } else if waited_ms >= SHUTDOWN_WAIT_MS {
            ShutdownAction::Kill
        } else {
            ShutdownAction::Wait(SHUTDOWN_POLL_MS)
        }
    }

    /// Applies the transition of an operation that the player took. An operation that the
    /// state does not allow is refused and changes nothing.
    pub fn confirm(&mut self, op: PlaybackOp) -> (r: Result<(), PlaybackError>)
        ensures
            guard_view(r) == refusal(old(self)@.state, op),
            final(self)@ == (VlcProcessView {
                state: if refusal(old(self)@.state, op) is None {
                    state_after(op)
                } else {
                    old(self)@.state
                },
                ..old(self)@
            }),
    {
        let (next, r) = self.state.transition(op);
        self.state = next;
        r
    }

    /// Notes that the process is gone, or never ran. Shutting down twice is as good as once.
    pub fn shutdown(&mut self)
        ensures
            final(self)@ == (VlcProcessView { state: PlaybackState::Stopped, ..old(self)@ }),
    {
        self.state = PlaybackState::Stopped;
    }

    /// The error for a player that could not be started: a program that is not there gets a
    /// hint how to install it, anything else the reason.
    pub fn start_failure(&self, not_found: bool, detail: &str) -> (r: PlaybackError)
        ensures
            r@ == PlaybackErrorView::Transport(
                if not_found {
                    "failed to start VLC: '"@ + self@.program
                        + "' not found on PATH; install VLC (e.g. apt install vlc)"@
                } else {
                    "failed to start VLC process '"@ + self@.program
                        + " --intf rc --rc-fake-tty --no-video --quiet': "@ + detail@
                },
            ),
    {
        if not_found {
            PlaybackError::Transport(
                concat3(
                    "failed to start VLC: '",
                    self.program.as_str(),
                    "' not found on PATH; install VLC (e.g. apt install vlc)",
                ),
            )
        } else {
            let mut m = concat3(
                "failed to start VLC process '",
                self.program.as_str(),
                " --intf rc --rc-fake-tty --no-video --quiet': ",
            );
            m.append(detail);
            PlaybackError::Transport(m)
        }
    }

    /// The error for a line that has no running process to go to.
    pub fn not_running() -> (r: PlaybackError)
        ensures
            r@ == PlaybackErrorView::Transport(
                "VLC process is not running; use /play to start playback"@,
            ),
    {
        PlaybackError::Transport(
            "VLC process is not running; use /play to start playback".to_owned(),
        )
    }

    /// The error for a line that could not be written to the pipe.
    pub fn write_failure(line: &str) -> (r: PlaybackError)
        ensures
            r@ == PlaybackErrorView::Transport(
                "failed writing command to VLC process ("@ + line@
                    + "); VLC may have exited unexpectedly"@,
            ),
    {
        PlaybackError::Transport(
            concat3(
                "failed writing command to VLC process (",
                line,
                "); VLC may have exited unexpectedly",
            ),
        )
    }
}

} // verus!
