//! The daemon's protocol logic: choosing the endpoint, the startup sequence
//! that clears a stale endpoint file before binding, the accept-loop state
//! machine racing inbound messages against the interrupt signal, and the
//! per-session decoding of one received message. The surrounding process
//! owns the socket, the signal and the filesystem; it feeds events in and
//! carries the returned actions out.
use vstd::prelude::*;
use crate::codec::{dec_ctx, deserialize, CodecError};
use crate::context::{ContextView, ExecutionContext};
use crate::discovery::LocalFileStrategy;

verus! {

/// The daemon's command-line surface: a verbosity flag, nothing more; the
/// daemon runs until interrupted.
pub struct Cli {
    pub verbose: bool,
}

/// What one received datagram became.
pub enum SessionOutcome {
    /// A validated execution request: the reconstructed context together
    /// with its full accompanying descriptor set, handed onward to the
    /// execution collaborator as one pair.
    Execute(ExecutionContext, Vec<i32>),
    /// The payload did not decode; the session is dropped after logging,
    /// in isolation.
    Rejected(CodecError),
}

/// The model of a session outcome.
pub enum OutcomeView {
    Execute(ContextView, Seq<i32>),
    Rejected(CodecError),
}

impl View for SessionOutcome {
    type V = OutcomeView;

    open spec fn view(&self) -> OutcomeView {
        match self {
            SessionOutcome::Execute(c, fds) => OutcomeView::Execute(c@, fds@),
            SessionOutcome::Rejected(e) => OutcomeView::Rejected(*e),
        }
    }
}

/// The outcome one received message must produce: a decoded request carrying
/// the message's whole descriptor set, or an isolated rejection.
pub open spec fn spec_outcome(payload: Seq<u8>, descriptors: Seq<i32>) -> OutcomeView {
    match dec_ctx(payload) {
        Some(c) => OutcomeView::Execute(c, descriptors),
        None => OutcomeView::Rejected(CodecError::Malformed),
    }
}

/// Decodes one received message into a session outcome. The payload and its
/// descriptors are observed together, exactly once: a well-formed payload
/// yields the context with the full descriptor set, a malformed one an
/// isolated rejection. Fewer descriptors than the conventional three —
/// including none — is not a transport error; whether the request is
/// well-formed is decided here, in the session.
pub fn handle_session(payload: Vec<u8>, descriptors: Vec<i32>) -> (r: SessionOutcome)
    ensures
        r@ == spec_outcome(payload@, descriptors@),
{
    match deserialize(&payload) {
        Ok(ctx) => SessionOutcome::Execute(ctx, descriptors),
        Err(e) => SessionOutcome::Rejected(e),
    }
}

/// Where the accept loop stands.
#[derive(Debug, Clone, Copy, PartialEq, Eq, Structural)]
pub enum DaemonPhase {
    /// Bound and accepting messages.
    Listening,
    /// Interrupted; the endpoint is to be removed and no message accepted.
    Stopped,
}

/// One wake of the accept loop, whichever source became ready first.
pub enum DaemonEvent {
    /// An inbound message: payload bytes and accompanying descriptors.
    Datagram(Vec<u8>, Vec<i32>),
    /// The receive itself failed; logged and isolated, never fatal.
    ReceiveError,
    /// The process interrupt signal.
    Interrupt,
}

/// The model of an event.
pub enum EventView {
    Datagram(Seq<u8>, Seq<i32>),
    ReceiveError,
    Interrupt,
}

impl View for DaemonEvent {
    type V = EventView;

    open spec fn view(&self) -> EventView {
        match self {
            DaemonEvent::Datagram(p, fds) => EventView::Datagram(p@, fds@),
            DaemonEvent::ReceiveError => EventView::ReceiveError,
            DaemonEvent::Interrupt => EventView::Interrupt,
        }
    }
}

/// What the surrounding process must do after one step of the loop.
pub enum DaemonAction {
    /// Hand the session outcome on: deliver an `Execute` to the execution
    /// collaborator, log a `Rejected`.
    Dispatch(SessionOutcome),
    /// Log the failed receive and keep listening.
    LogReceiveError,
    /// Stop accepting and remove the endpoint file at this path.
    RemoveEndpoint(String),
}

/// The model of an action.
pub enum ActionView {
    Dispatch(OutcomeView),
    LogReceiveError,
    RemoveEndpoint(Seq<char>),
}

impl View for DaemonAction {
    type V = ActionView;

    open spec fn view(&self) -> ActionView {
        match self {
            DaemonAction::Dispatch(o) => ActionView::Dispatch(o@),
            DaemonAction::LogReceiveError => ActionView::LogReceiveError,
            DaemonAction::RemoveEndpoint(p) => ActionView::RemoveEndpoint(p@),
        }
    }
}

/// The model of the daemon: its endpoint path and where the loop stands.
pub struct DaemonView {
    pub endpoint: Seq<char>,
    pub phase: DaemonPhase,
}

/// The daemon's accept-loop state around one bound endpoint.
pub struct Daemon {
    pub endpoint: String,
    pub phase: DaemonPhase,
}

impl View for Daemon {
    type V = DaemonView;

    open spec fn view(&self) -> DaemonView {
        DaemonView { endpoint: self.endpoint@, phase: self.phase }
    }
}

/// One step of the accept loop: an inbound message is dispatched to its own
/// session and the loop keeps listening; a failed receive is logged and the
/// loop keeps listening; the interrupt stops the loop and orders the
/// endpoint file removed. Shutdown always wins its race: no event after an
/// interrupt is accepted.
pub open spec fn spec_step(d: DaemonView, e: EventView) -> (DaemonView, ActionView) {
    match e {
        EventView::Datagram(p, fds) => (d, ActionView::Dispatch(spec_outcome(p, fds))),
        EventView::ReceiveError => (d, ActionView::LogReceiveError),
        EventView::Interrupt => (
            DaemonView { endpoint: d.endpoint, phase: DaemonPhase::Stopped },
            ActionView::RemoveEndpoint(d.endpoint),
        ),
    }
}

/// One step of the daemon's startup sequence, in order.
pub enum StartupStep {
    /// Best-effort removal of whatever a crashed prior instance left at the
    /// path; a stale file is cleared, never treated as a conflict.
    RemoveStale(String),
    /// Bind and listen at the path.
    Bind(String),
}

impl Daemon {
    /// A daemon about to listen at the strategy's canonical creation path,
    /// chosen deterministically — creation never consults the environment
    /// or the disk.
    pub fn new(strategy: &LocalFileStrategy) -> (r: Daemon)
        ensures
            r@.endpoint == strategy.spec_create_path(),
            r@.phase == DaemonPhase::Listening,
    {
        Daemon { endpoint: strategy.create(), phase: DaemonPhase::Listening }
    }

    /// The startup sequence the surrounding process performs, in order:
    /// remove any stale endpoint file unconditionally, then bind. A fresh
    /// start after an unclean prior exit therefore binds the same path.
    pub fn startup_steps(&self) -> (r: Vec<StartupStep>)
        ensures
            r@.len() == 2,
            r@[0] matches StartupStep::RemoveStale(p) && p@ == self@.endpoint,
            r@[1] matches StartupStep::Bind(p) && p@ == self@.endpoint,
    {
        let mut steps: Vec<StartupStep> = Vec::new();
        steps.push(StartupStep::RemoveStale(self.endpoint.clone()));
        steps.push(StartupStep::Bind(self.endpoint.clone()));
        steps
    }

    /// Services one wake of the accept loop, exactly as [`spec_step`] says.
    pub fn on_event(&mut self, event: DaemonEvent) -> (a: DaemonAction)
        requires
            old(self)@.phase == DaemonPhase::Listening,
        ensures
            (final(self)@, a@) == spec_step(old(self)@, event@),
    {
        match event {
            DaemonEvent::Datagram(payload, descriptors) => DaemonAction::Dispatch(
                handle_session(payload, descriptors),
            ),
            DaemonEvent::ReceiveError => DaemonAction::LogReceiveError,
            DaemonEvent::Interrupt => {
                self.phase = DaemonPhase::Stopped;
                DaemonAction::RemoveEndpoint(self.endpoint.clone())
            },
        }
    }
}

/// Session isolation: a malformed datagram is rejected within its own
/// session — the daemon keeps listening, and a later well-formed datagram on
/// the same daemon still yields its execution request, undisturbed.
pub proof fn lemma_session_isolation(
    d: DaemonView,
    bad: Seq<u8>,
    bad_fds: Seq<i32>,
    good: Seq<u8>,
    good_fds: Seq<i32>,
)
    requires
        d.phase == DaemonPhase::Listening,
        dec_ctx(bad) is None,
        dec_ctx(good) is Some,
    ensures
        spec_step(d, EventView::Datagram(bad, bad_fds)).0.phase == DaemonPhase::Listening,
        spec_step(d, EventView::Datagram(bad, bad_fds)).1 == ActionView::Dispatch(
            OutcomeView::Rejected(CodecError::Malformed),
        ),
        spec_step(spec_step(d, EventView::Datagram(bad, bad_fds)).0, EventView::Datagram(good, good_fds)).1
            == ActionView::Dispatch(OutcomeView::Execute(dec_ctx(good)->0, good_fds)),
{
}

/// Shutdown cleanup: the interrupt, and only the interrupt, stops the loop,
/// and the step it produces orders exactly the daemon's own endpoint file
/// removed.
pub proof fn lemma_shutdown_cleanup(d: DaemonView, e: EventView)
    requires
        d.phase == DaemonPhase::Listening,
    ensures
        spec_step(d, EventView::Interrupt).0.phase == DaemonPhase::Stopped,
        spec_step(d, EventView::Interrupt).1 == ActionView::RemoveEndpoint(d.endpoint),
        spec_step(d, e).0.phase == DaemonPhase::Stopped ==> e == EventView::Interrupt,
{
}

} // verus!
