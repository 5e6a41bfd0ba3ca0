//! The coordinator's state machine: spawn capture, wait for its start
//! handshake, run for the configured duration, stop, join.
use crate::capture::CaptureEvent;
use vstd::prelude::*;

verus! {

/// Where a run stands.
#[derive(Clone, Copy, Debug, PartialEq, Eq, Structural)]
pub enum RunState {
    Init,
    WaitStart,
    Running,
    Stopping,
    Joined,
}

/// What happened, as seen by the coordinator.
#[derive(Clone, Copy, Debug, PartialEq, Eq, Structural)]
pub enum RunEvent {
    /// The capture thread was spawned.
    CaptureSpawned,
    /// The capture thread reported in.
    Handshake(CaptureEvent),
    /// The capture thread went away before reporting in.
    HandshakeLost,
    /// The run duration is over.
    DurationElapsed,
    /// Every thread has been joined without error.
    AllJoined,
    /// A stage failed.
    Failed,
}

/// What the coordinator does next.
#[derive(Clone, Copy, Debug, PartialEq, Eq, Structural)]
pub enum RunAction {
    /// Wait for the capture thread's handshake.
    AwaitHandshake,
    /// Spawn the rest of the pipeline and sleep for the run duration.
    StartPipeline,
    /// Set the stop flag and join every thread.
    SignalStop,
    /// Return success.
    Finish,
    /// Return the error.
    Abort,
    /// Nothing: the event does not apply in this state.
    Ignore,
}

/// The transition table. A failure, or a capture thread that exits or goes
/// away before its start handshake, ends the run at once; an event that does
/// not apply leaves the state as it is.
pub open spec fn transition(state: RunState, event: RunEvent) -> (RunState, RunAction) {
    match (state, event) {
        (RunState::Joined, _) => (RunState::Joined, RunAction::Ignore),
        (_, RunEvent::Failed) => (RunState::Joined, RunAction::Abort),
        (RunState::Init, RunEvent::CaptureSpawned) => (RunState::WaitStart, RunAction::AwaitHandshake),
        (RunState::WaitStart, RunEvent::Handshake(CaptureEvent::Start)) => (
            RunState::Running,
            RunAction::StartPipeline,
        ),
        (RunState::WaitStart, RunEvent::Handshake(CaptureEvent::Exit)) => (
            RunState::Joined,
            RunAction::Abort,
        ),
        (RunState::WaitStart, RunEvent::HandshakeLost) => (RunState::Joined, RunAction::Abort),
        (RunState::Running, RunEvent::DurationElapsed) => (RunState::Stopping, RunAction::SignalStop),
        (RunState::Stopping, RunEvent::AllJoined) => (RunState::Joined, RunAction::Finish),
        _ => (state, RunAction::Ignore),
    }
}

/// The next state and action of the coordinator in `state` on `event`.
pub fn step(state: RunState, event: RunEvent) -> (r: (RunState, RunAction))
    ensures
        r == transition(state, event),
{
    match (state, event) {
        (RunState::Joined, _) => (RunState::Joined, RunAction::Ignore),
        (_, RunEvent::Failed) => (RunState::Joined, RunAction::Abort),
        (RunState::Init, RunEvent::CaptureSpawned) => (RunState::WaitStart, RunAction::AwaitHandshake),
        (RunState::WaitStart, RunEvent::Handshake(CaptureEvent::Start)) => (
            RunState::Running,
            RunAction::StartPipeline,
        ),
        (RunState::WaitStart, RunEvent::Handshake(CaptureEvent::Exit)) => (
            RunState::Joined,
            RunAction::Abort,
        ),
        (RunState::WaitStart, RunEvent::HandshakeLost) => (RunState::Joined, RunAction::Abort),
        (RunState::Running, RunEvent::DurationElapsed) => (RunState::Stopping, RunAction::SignalStop),
        (RunState::Stopping, RunEvent::AllJoined) => (RunState::Joined, RunAction::Finish),
        _ => (state, RunAction::Ignore),
    }
}

/// Once joined, a run stays joined and does nothing more, whatever happens.
pub proof fn lemma_joined_is_final(event: RunEvent)
    ensures
        transition(RunState::Joined, event) == (RunState::Joined, RunAction::Ignore),
{
}

/// A failure in any unfinished state ends the run, and only a failure or a
/// lost handshake aborts it.
pub proof fn lemma_failure_short_circuits(state: RunState, event: RunEvent)
    ensures
        state != RunState::Joined && event == RunEvent::Failed ==> transition(state, event) == (
            RunState::Joined,
            RunAction::Abort,
        ),
        transition(state, event).1 == RunAction::Abort ==> event == RunEvent::Failed || (state
            == RunState::WaitStart && (event == RunEvent::HandshakeLost || event
            == RunEvent::Handshake(CaptureEvent::Exit))),
{
}

} // verus!
