//! The session manager: the connection state machine to the gateway, the
//! one-time setup on reaching `Ready`, and the fatal-error taxonomy of the
//! startup and steady-state phases.
//!
//! The transport itself (sockets, heartbeats, backoff timers) lives outside
//! the crate; it reports what happened as a [`SessionEvent`], and the
//! manager answers with the next [`SessionAction`] to perform. The manager
//! owns the process-wide [`SharedState`] and constructs it exactly once,
//! however many times the session becomes ready again after a reconnect.

use vstd::prelude::*;
use crate::publish::PublishError;

verus! {

/// The process-wide value handed by reference to every dispatched
/// invocation. It carries no fields yet: it is the place where future
/// commands keep cross-command memory, and its sole invariant is that the
/// process holds exactly one live instance.
pub struct SharedState {
}

/// The observable states of one authenticated connection to the gateway.
#[derive(Clone, Copy)]
pub enum SessionState {
    Disconnected,
    Connecting,
    Authenticated,
    Ready,
}

/// What the transport reports to the session manager.
#[derive(Clone, Copy)]
pub enum SessionEvent {
    /// The transport began connecting (initially, or as a retry after a drop).
    ConnectStarted,
    /// The gateway accepted the credentials.
    AuthAccepted,
    /// The gateway rejected the credentials; fatal at startup.
    AuthRejected,
    /// The session reached `Ready`.
    GatewayReady,
    /// The one-time registration publish succeeded.
    PublishAccepted,
    /// The one-time registration publish failed; fatal at startup.
    PublishRejected(PublishError),
    /// The connection dropped; the transport will retry with its own backoff.
    ConnectionDropped,
    /// The transport gave up reconnecting.
    RetriesExhausted,
}

/// A fatal condition: the process terminates with a non-zero exit code.
#[derive(Clone, Copy)]
pub enum FatalError {
    /// The gateway rejected the credentials before `Ready`.
    AuthenticationFailed,
    /// The one-time setup failed, because publishing the registry failed.
    SetupFailed(PublishError),
    /// Reconnection retries are exhausted; the session is lost for good.
    SessionLost,
}

/// What the session manager asks its caller to do next.
#[derive(Clone, Copy)]
pub enum SessionAction {
    /// Nothing to perform; keep feeding events.
    Continue,
    /// Run the one-time setup: publish the registry to the guild scope.
    PublishRegistry,
    /// Terminate the process with the given fatal error.
    Exit(FatalError),
}

/// The session manager: the current connection state, the shared state (once
/// constructed), and how many times the one-time setup has run.
pub struct SessionManager {
    pub state: SessionState,
    pub shared: Option<SharedState>,
    pub setup_runs: u64,
}

impl SessionManager {
    /// The manager's invariant: the setup counter agrees with whether the
    /// shared state is live, so it can never exceed one.
    pub open spec fn wf(&self) -> bool {
        self.setup_runs == (if self.shared is Some { 1int } else { 0int })
    }

    /// A fresh manager: disconnected, no shared state, setup never run.
    pub fn new() -> (m: SessionManager)
        ensures
            m.state is Disconnected,
            m.shared is None,
            m.setup_runs == 0,
            m.wf(),
    {
        SessionManager { state: SessionState::Disconnected, shared: None, setup_runs: 0 }
    }

    /// Feeds one transport event through the state machine. The new manager
    /// state and the requested action are exactly [`spec_step`].
    pub fn step(&mut self, ev: SessionEvent) -> (a: SessionAction)
        requires
            old(self).wf(),
        ensures
            *final(self) == spec_step(*old(self), ev).0,
            a == spec_step(*old(self), ev).1,
            final(self).wf(),
    {
        match (self.state, ev) {
            (SessionState::Disconnected, SessionEvent::ConnectStarted) => {
                self.state = SessionState::Connecting;
                SessionAction::Continue
            },
            (SessionState::Connecting, SessionEvent::AuthAccepted) => {
                self.state = SessionState::Authenticated;
                SessionAction::Continue
            },
            (SessionState::Connecting, SessionEvent::AuthRejected) => {
                self.state = SessionState::Disconnected;
                SessionAction::Exit(FatalError::AuthenticationFailed)
            },
            (SessionState::Authenticated, SessionEvent::GatewayReady) => {
                self.state = SessionState::Ready;
                if self.shared.is_none() {
                    SessionAction::PublishRegistry
                } else {
                    // A session already exists from before a reconnect:
                    // setup is not re-run.
                    SessionAction::Continue
                }
            },
            (SessionState::Ready, SessionEvent::PublishAccepted) => {
                if self.shared.is_none() {
                    self.shared = Some(SharedState {});
                    self.setup_runs = self.setup_runs + 1;
                }
                SessionAction::Continue
            },
            (SessionState::Ready, SessionEvent::PublishRejected(e)) => {
                if self.shared.is_none() {
                    self.state = SessionState::Disconnected;
                    SessionAction::Exit(FatalError::SetupFailed(e))
                } else {
                    SessionAction::Continue
                }
            },
            (SessionState::Ready, SessionEvent::ConnectionDropped) => {
                self.state = SessionState::Disconnected;
                SessionAction::Continue
            },
            (_, SessionEvent::RetriesExhausted) => {
                self.state = SessionState::Disconnected;
                SessionAction::Exit(FatalError::SessionLost)
            },
            _ => {
                // An event that does not apply in the current state is
                // ignored, like a stray heartbeat.
                SessionAction::Continue
            },
        }
    }
}

/// The transition table of the session state machine, as a mathematical
/// function from manager state and transport event to the next manager
/// state and the requested action.
pub open spec fn spec_step(m: SessionManager, ev: SessionEvent) -> (SessionManager, SessionAction) {
    match (m.state, ev) {
        (SessionState::Disconnected, SessionEvent::ConnectStarted) => (
            SessionManager { state: SessionState::Connecting, ..m },
            SessionAction::Continue,
        ),
        (SessionState::Connecting, SessionEvent::AuthAccepted) => (
            SessionManager { state: SessionState::Authenticated, ..m },
            SessionAction::Continue,
        ),
        (SessionState::Connecting, SessionEvent::AuthRejected) => (
            SessionManager { state: SessionState::Disconnected, ..m },
            SessionAction::Exit(FatalError::AuthenticationFailed),
        ),
        (SessionState::Authenticated, SessionEvent::GatewayReady) => (
            SessionManager { state: SessionState::Ready, ..m },
            if m.shared is None {
                SessionAction::PublishRegistry
            } else {
                SessionAction::Continue
            },
        ),
        (SessionState::Ready, SessionEvent::PublishAccepted) => (
            if m.shared is None {
                SessionManager {
                    shared: Some(SharedState {}),
                    setup_runs: (m.setup_runs + 1) as u64,
                    ..m
                }
            } else {
                m
            },
            SessionAction::Continue,
        ),
        (SessionState::Ready, SessionEvent::PublishRejected(e)) => if m.shared is None {
            (
                SessionManager { state: SessionState::Disconnected, ..m },
                SessionAction::Exit(FatalError::SetupFailed(e)),
            )
        } else {
            (m, SessionAction::Continue)
        },
        (SessionState::Ready, SessionEvent::ConnectionDropped) => (
            SessionManager { state: SessionState::Disconnected, ..m },
            SessionAction::Continue,
        ),
        (_, SessionEvent::RetriesExhausted) => (
            SessionManager { state: SessionState::Disconnected, ..m },
            SessionAction::Exit(FatalError::SessionLost),
        ),
        _ => (m, SessionAction::Continue),
    }
}

/// The manager after feeding a whole sequence of transport events, first
/// event first.
pub open spec fn run_events(m: SessionManager, evs: Seq<SessionEvent>) -> SessionManager
    decreases evs.len(),
{
    if evs.len() == 0 {
        m
    } else {
        run_events(spec_step(m, evs[0]).0, evs.drop_first())
    }
}

/// One step preserves the invariant, never runs setup a second time, and
/// never replaces or drops a shared state that is already live.
pub proof fn lemma_step_preserves_wf(m: SessionManager, ev: SessionEvent)
    requires
        m.wf(),
    ensures
        spec_step(m, ev).0.wf(),
        spec_step(m, ev).0.setup_runs <= 1,
        m.shared is Some ==> spec_step(m, ev).0.shared == m.shared,
        m.shared is Some ==> spec_step(m, ev).0.setup_runs == m.setup_runs,
{
}

/// The shared state is constructed at most once per process lifetime,
/// however many events arrive and however many `Ready` transitions they
/// contain; and once it is live, the same single instance stays live for
/// the rest of the lifetime.
pub proof fn lemma_shared_state_single_construction(m: SessionManager, evs: Seq<SessionEvent>)
    requires
        m.wf(),
    ensures
        run_events(m, evs).wf(),
        run_events(m, evs).setup_runs <= 1,
        m.shared is Some ==> run_events(m, evs).shared == m.shared,
    decreases evs.len(),
{
    if evs.len() > 0 {
        lemma_step_preserves_wf(m, evs[0]);
        lemma_shared_state_single_construction(spec_step(m, evs[0]).0, evs.drop_first());
    }
}

/// The exit code the process reports for a fatal error: always non-zero.
pub fn fatal_exit_code(e: &FatalError) -> (c: i32)
    ensures
        c != 0,
{
    1
}

} // verus!
