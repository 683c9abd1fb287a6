use vstd::prelude::*;

use crate::error::SessionError;
use crate::geometry::Size;

verus! {

/// The lifecycle of an encoding session; it only moves forward.
#[derive(Clone, Copy, Debug, PartialEq, Eq, Structural)]
pub enum SessionState {
    /// Resources acquired, nothing running.
    Created,
    /// The pump is active and the encoder and writer consume its frames.
    Running,
    /// Terminal: everything flushed and released.
    Stopped,
}

/// What the caller of `stop` has to do.
#[derive(Clone, Copy, Debug, PartialEq, Eq, Structural)]
pub enum StopAction {
    /// Stop the capture, let the stream drain and finalize, and wait for it.
    StopCaptureAndFinalize,
    /// Nothing: the session had already stopped.
    Nothing,
}

/// The position of a state in the forward order Created, Running, Stopped.
pub open spec fn state_rank(s: SessionState) -> int {
    match s {
        SessionState::Created => 0,
        SessionState::Running => 1,
        SessionState::Stopped => 2,
    }
}

/// The state after `start`, and its result.
pub open spec fn start_transition(s: SessionState) -> (SessionState, Result<(), SessionError>) {
    match s {
        SessionState::Created => (SessionState::Running, Ok(())),
        SessionState::Running => (s, Err(SessionError::AlreadyStarted)),
        SessionState::Stopped => (s, Err(SessionError::AlreadyStopped)),
    }
}

/// The state after `stop`, and its result.
pub open spec fn stop_transition(s: SessionState) -> (SessionState, Result<StopAction, SessionError>) {
    match s {
        SessionState::Created => (s, Err(SessionError::NotStarted)),
        SessionState::Running => (SessionState::Stopped, Ok(StopAction::StopCaptureAndFinalize)),
        SessionState::Stopped => (s, Ok(StopAction::Nothing)),
    }
}

/// The control side of one recording: the state machine that `start` and
/// `stop` drive, touched only by the thread that calls them.
pub struct EncodingSession {
    state: SessionState,
}

impl EncodingSession {
    pub closed spec fn state_spec(&self) -> SessionState {
        self.state
    }

    /// A session whose resources are acquired and that has not started.
    pub fn new() -> (r: EncodingSession)
        ensures
            r.state_spec() == SessionState::Created,
    {
        EncodingSession { state: SessionState::Created }
    }

    pub fn state(&self) -> (r: SessionState)
        ensures
            r == self.state_spec(),
    {
        self.state
    }

    /// Created to Running; starting twice, or after a stop, is refused and
    /// leaves the state as it was.
    pub fn start(&mut self) -> (r: Result<(), SessionError>)
        ensures
            (final(self).state_spec(), r) == start_transition(old(self).state_spec()),
            state_rank(old(self).state_spec()) <= state_rank(final(self).state_spec()),
    {
        match self.state {
            SessionState::Created => {
                self.state = SessionState::Running;
                Ok(())
            },
            SessionState::Running => Err(SessionError::AlreadyStarted),
            SessionState::Stopped => Err(SessionError::AlreadyStopped),
        }
    }

    /// Running to Stopped, telling the caller to stop the capture and wait for
    /// the finalized output; on a stopped session a no-op; before a start refused.
    pub fn stop(&mut self) -> (r: Result<StopAction, SessionError>)
        ensures
            (final(self).state_spec(), r) == stop_transition(old(self).state_spec()),
            state_rank(old(self).state_spec()) <= state_rank(final(self).state_spec()),
    {
        match self.state {
            SessionState::Created => Err(SessionError::NotStarted),
            SessionState::Running => {
                self.state = SessionState::Stopped;
                Ok(StopAction::StopCaptureAndFinalize)
            },
            SessionState::Stopped => Ok(StopAction::Nothing),
        }
    }
}

/// A second `stop` is a no-op: once a `stop` has succeeded, another leaves the
/// session Stopped and asks for nothing, so the output is finalized at most once.
pub proof fn lemma_stop_twice_is_noop(s: SessionState)
    requires
        stop_transition(s).1 is Ok,
    ensures
        stop_transition(s).0 == SessionState::Stopped,
        stop_transition(stop_transition(s).0) == (SessionState::Stopped, Ok::<
            StopAction,
            SessionError,
        >(StopAction::Nothing)),
        !(stop_transition(s).1 == Ok::<StopAction, SessionError>(
            StopAction::StopCaptureAndFinalize,
        ) && stop_transition(stop_transition(s).0).1 == Ok::<StopAction, SessionError>(
            StopAction::StopCaptureAndFinalize,
        )),
{
}

} // verus!
