//! The live-device path: the shutdown coordinator and the decisions of the
//! blocking run loop. The caller performs each action (open the stream,
//! start playback, install the termination hook, read the shutdown flag)
//! and reports what happened as the next event.
use crate::output::PipelineError;
use vstd::prelude::*;

verus! {

/// The shutdown coordinator's two states.
#[derive(Clone, Copy, Debug, PartialEq, Eq, Structural)]
pub enum RunState {
    Running,
    Stopped,
}

impl RunState {
    /// The state established just before playback starts.
    pub fn initial() -> (r: RunState)
        ensures
            r == RunState::Running,
    {
        RunState::Running
    }

    /// The state that a shared "still running" flag stands for.
    pub fn from_flag(running: bool) -> (r: RunState)
        ensures
            r == (if running {
                RunState::Running
            } else {
                RunState::Stopped
            }),
    {
        if running {
            RunState::Running
        } else {
            RunState::Stopped
        }
    }

    /// What a termination request leads to: always `Stopped`, so a second
    /// request changes nothing.
    pub fn request_stop(self) -> (r: RunState)
        ensures
            r == RunState::Stopped,
    {
        RunState::Stopped
    }

    /// The value of the shared flag for this state.
    pub fn is_running(&self) -> (r: bool)
        ensures
            r == (*self == RunState::Running),
    {
        match self {
            RunState::Running => true,
            RunState::Stopped => false,
        }
    }
}

/// Where a live run stands.
#[derive(Clone, Copy, Debug, PartialEq, Eq, Structural)]
pub enum Phase {
    /// The output stream is being built.
    Opening,
    /// The stream exists; playback is being started.
    Starting,
    /// Playback runs; the termination hook is being installed.
    Arming,
    /// Polling the shutdown state.
    Waiting,
    /// The run has returned.
    Finished,
}

/// What the caller reports after performing an action.
#[derive(Clone, Copy, Debug, PartialEq, Eq, Structural)]
pub enum Event {
    Opened,
    OpenFailed,
    Played,
    PlayFailed,
    HandlerInstalled,
    HandlerFailed,
    Polled(RunState),
}

/// What the caller does next.
#[derive(Clone, Copy, Debug, PartialEq, Eq, Structural)]
pub enum Action {
    /// Start playback of the opened stream.
    Play,
    /// Register the termination hook that stops the run.
    InstallHandler,
    /// Read the shutdown state again.
    Poll,
    /// Return success; dropping the stream stops playback.
    Succeed,
    /// Return this error.
    Fail(PipelineError),
    /// The event does not belong to this phase; nothing to do.
    Ignore,
}

/// One step of the run loop.
pub open spec fn spec_step(phase: Phase, event: Event) -> (Phase, Action) {
    match (phase, event) {
        (Phase::Opening, Event::Opened) => (Phase::Starting, Action::Play),
        (Phase::Opening, Event::OpenFailed) => (
            Phase::Finished,
            Action::Fail(PipelineError::DeviceUnavailable),
        ),
        (Phase::Starting, Event::Played) => (Phase::Arming, Action::InstallHandler),
        (Phase::Starting, Event::PlayFailed) => (
            Phase::Finished,
            Action::Fail(PipelineError::StreamStartFailure),
        ),
        (Phase::Arming, Event::HandlerInstalled) => (Phase::Waiting, Action::Poll),
        (Phase::Arming, Event::HandlerFailed) => (
            Phase::Finished,
            Action::Fail(PipelineError::SignalHandlerInstallFailure),
        ),
        (Phase::Waiting, Event::Polled(RunState::Running)) => (Phase::Waiting, Action::Poll),
        (Phase::Waiting, Event::Polled(RunState::Stopped)) => (Phase::Finished, Action::Succeed),
        _ => (phase, Action::Ignore),
    }
}

/// The run loop of one live stream.
pub struct DirectSession {
    phase: Phase,
}

impl DirectSession {
    pub closed spec fn spec_phase(&self) -> Phase {
        self.phase
    }

    /// A session whose stream is about to be opened.
    pub fn new() -> (r: DirectSession)
        ensures
            r.spec_phase() == Phase::Opening,
    {
        DirectSession { phase: Phase::Opening }
    }

    /// The current phase.
    pub fn phase(&self) -> (r: Phase)
        ensures
            r == self.spec_phase(),
    {
        self.phase
    }

    /// Takes the outcome of the last action and decides the next one.
    pub fn on_event(&mut self, event: Event) -> (r: Action)
        ensures
            (final(self).spec_phase(), r) == spec_step(old(self).spec_phase(), event),
    {
        let (next, action) = match (self.phase, event) {
            (Phase::Opening, Event::Opened) => (Phase::Starting, Action::Play),
            (Phase::Opening, Event::OpenFailed) => (
                Phase::Finished,
                Action::Fail(PipelineError::DeviceUnavailable),
            ),
            (Phase::Starting, Event::Played) => (Phase::Arming, Action::InstallHandler),
            (Phase::Starting, Event::PlayFailed) => (
                Phase::Finished,
                Action::Fail(PipelineError::StreamStartFailure),
            ),
            (Phase::Arming, Event::HandlerInstalled) => (Phase::Waiting, Action::Poll),
            (Phase::Arming, Event::HandlerFailed) => (
                Phase::Finished,
                Action::Fail(PipelineError::SignalHandlerInstallFailure),
            ),
            (Phase::Waiting, Event::Polled(RunState::Running)) => (Phase::Waiting, Action::Poll),
            (Phase::Waiting, Event::Polled(RunState::Stopped)) => (
                Phase::Finished,
                Action::Succeed,
            ),
            _ => (self.phase, Action::Ignore),
        };
        self.phase = next;
        action
    }
}

/// Once the shutdown state reads `Stopped`, the very next decision of a
/// waiting loop is to return success; while it reads `Running` the loop
/// only polls again. A finished run ignores everything.
pub proof fn lemma_stop_returns_at_next_poll(event: Event)
    ensures
        spec_step(Phase::Waiting, Event::Polled(RunState::Stopped)) == (
            Phase::Finished,
            Action::Succeed,
        ),
        spec_step(Phase::Waiting, Event::Polled(RunState::Running)) == (
            Phase::Waiting,
            Action::Poll,
        ),
        spec_step(Phase::Finished, event) == (Phase::Finished, Action::Ignore),
{
}

} // verus!
