use vstd::prelude::*;

use crate::api::{HandshakeError, HandshakeErrorView, HandshakeResult, HandshakeResultView, HandshakeStage};
use crate::extract::outcome_view;

verus! {

/// Which side of the connection a handshake runs on.
#[derive(Debug, Clone, Copy, PartialEq, Eq, Structural)]
pub enum HandshakeRole {
    /// `client_connect`: the local endpoint dials the peer.
    Client,
    /// `server_accept`: the local endpoint accepts an incoming connection.
    Server,
}

/// Where a handshake run stands.
#[derive(Debug, Clone, Copy, PartialEq, Eq, Structural)]
pub enum FlowPhase {
    /// The client is opening the connection, or the server is waiting for
    /// an incoming one.
    Opening,
    /// Waiting, under the timeout, for the QUIC connection to be established.
    Awaiting,
    /// The connection is up; its handshake result is being extracted.
    Extracting,
    /// The run has produced its outcome.
    Done,
}

/// What the outside world reported to a handshake run.
pub enum FlowEvent {
    /// The client's connect call was accepted, or the server's endpoint
    /// yielded an incoming connection.
    Opened,
    /// The client's connect call was refused, with the transport's message.
    OpenFailed(String),
    /// The server's endpoint closed before an incoming connection arrived.
    EndpointClosed,
    /// The QUIC connection was established within the timeout.
    Established,
    /// The connection attempt failed, with the transport's message.
    ConnectionFailed(String),
    /// The timeout elapsed.
    TimedOut,
    /// Extraction of the handshake result (with any downgrade check) ended.
    Extracted(Result<HandshakeResult, HandshakeError>),
}

/// Abstract value of a flow event.
pub enum FlowEventView {
    Opened,
    OpenFailed(Seq<char>),
    EndpointClosed,
    Established,
    ConnectionFailed(Seq<char>),
    TimedOut,
    Extracted(Result<HandshakeResultView, HandshakeErrorView>),
}

impl View for FlowEvent {
    type V = FlowEventView;

    open spec fn view(&self) -> FlowEventView {
        match self {
            FlowEvent::Opened => FlowEventView::Opened,
            FlowEvent::OpenFailed(m) => FlowEventView::OpenFailed(m@),
            FlowEvent::EndpointClosed => FlowEventView::EndpointClosed,
            FlowEvent::Established => FlowEventView::Established,
            FlowEvent::ConnectionFailed(m) => FlowEventView::ConnectionFailed(m@),
            FlowEvent::TimedOut => FlowEventView::TimedOut,
            FlowEvent::Extracted(r) => FlowEventView::Extracted(outcome_view(*r)),
        }
    }
}

/// What the caller does after firing the step's hook.
pub enum FlowNext {
    /// Await the connection, under the handshake timeout.
    AwaitConnection,
    /// Extract the handshake result from the established connection.
    ExtractResult,
    /// Return this outcome to the caller.
    Finish(Result<HandshakeResult, HandshakeError>),
}

/// Abstract value of a next action.
pub enum FlowNextView {
    AwaitConnection,
    ExtractResult,
    Finish(Result<HandshakeResultView, HandshakeErrorView>),
}

impl View for FlowNext {
    type V = FlowNextView;

    open spec fn view(&self) -> FlowNextView {
        match self {
            FlowNext::AwaitConnection => FlowNextView::AwaitConnection,
            FlowNext::ExtractResult => FlowNextView::ExtractResult,
            FlowNext::Finish(r) => FlowNextView::Finish(outcome_view(*r)),
        }
    }
}

/// The decision taken on one event: the lifecycle hook to fire, if any,
/// then what to do next.
pub struct FlowStep {
    pub hook: Option<HandshakeStage>,
    pub next: FlowNext,
}

/// Abstract value of a step.
pub struct FlowStepView {
    pub hook: Option<HandshakeStage>,
    pub next: FlowNextView,
}

impl View for FlowStep {
    type V = FlowStepView;

    open spec fn view(&self) -> FlowStepView {
        FlowStepView { hook: self.hook, next: self.next@ }
    }
}

/// The stage reported when a run has opened its connection.
pub open spec fn opening_stage(role: HandshakeRole) -> HandshakeStage {
    match role {
        HandshakeRole::Client => HandshakeStage::ClientConnecting,
        HandshakeRole::Server => HandshakeStage::ServerAccepted,
    }
}

/// Whether a run of `role` in `phase` can receive `event`.
pub open spec fn expects(role: HandshakeRole, phase: FlowPhase, event: FlowEventView) -> bool {
    match phase {
        FlowPhase::Opening => match event {
            FlowEventView::Opened => true,
            FlowEventView::OpenFailed(_) => role == HandshakeRole::Client,
            FlowEventView::EndpointClosed => role == HandshakeRole::Server,
            FlowEventView::TimedOut => role == HandshakeRole::Server,
            _ => false,
        },
        FlowPhase::Awaiting => match event {
            FlowEventView::Established => true,
            FlowEventView::ConnectionFailed(_) => true,
            FlowEventView::TimedOut => true,
            _ => false,
        },
        FlowPhase::Extracting => event is Extracted,
        FlowPhase::Done => false,
    }
}

/// A step that ends the run with `outcome` and fires no hook.
pub open spec fn finish_step(outcome: Result<HandshakeResultView, HandshakeErrorView>) -> (
    FlowPhase,
    FlowStepView,
) {
    (FlowPhase::Done, FlowStepView { hook: None, next: FlowNextView::Finish(outcome) })
}

/// The phase a run moves to on an expected event, and the step it takes.
pub open spec fn transition(role: HandshakeRole, phase: FlowPhase, event: FlowEventView) -> (
    FlowPhase,
    FlowStepView,
) {
    match event {
        FlowEventView::Opened => (
            FlowPhase::Awaiting,
            FlowStepView { hook: Some(opening_stage(role)), next: FlowNextView::AwaitConnection },
        ),
        FlowEventView::OpenFailed(m) => finish_step(Err(HandshakeErrorView::Io(m))),
        FlowEventView::EndpointClosed => finish_step(
            Err(HandshakeErrorView::Io("endpoint closed before incoming connection"@)),
        ),
        FlowEventView::Established => (
            FlowPhase::Extracting,
            FlowStepView {
                hook: Some(HandshakeStage::ConnectionEstablished),
                next: FlowNextView::ExtractResult,
            },
        ),
        FlowEventView::ConnectionFailed(m) => finish_step(Err(HandshakeErrorView::Io(m))),
        FlowEventView::TimedOut => finish_step(Err(HandshakeErrorView::Timeout)),
        FlowEventView::Extracted(outcome) => match outcome {
            Ok(r) => (
                FlowPhase::Done,
                FlowStepView {
                    hook: Some(HandshakeStage::HandshakeComplete),
                    next: FlowNextView::Finish(Ok(r)),
                },
            ),
            Err(e) => finish_step(Err(e)),
        },
    }
}

/// The decisions of a `client_connect` or `server_accept` run: which
/// lifecycle hook fires when, and which outcome each outside event leads to.
/// The caller performs the I/O and reports each event to `step`.
pub struct HandshakeFlow {
    pub role: HandshakeRole,
    pub phase: FlowPhase,
}

impl HandshakeFlow {
    /// A run that dials a peer.
    pub fn client() -> (f: Self)
        ensures
            f.role == HandshakeRole::Client,
            f.phase == FlowPhase::Opening,
    {
        HandshakeFlow { role: HandshakeRole::Client, phase: FlowPhase::Opening }
    }

    /// A run that accepts an incoming connection.
    pub fn server() -> (f: Self)
        ensures
            f.role == HandshakeRole::Server,
            f.phase == FlowPhase::Opening,
    {
        HandshakeFlow { role: HandshakeRole::Server, phase: FlowPhase::Opening }
    }

    /// Whether the run has produced its outcome.
    pub fn is_done(&self) -> (done: bool)
        ensures
            done == (self.phase == FlowPhase::Done),
    {
        match self.phase {
            FlowPhase::Done => true,
            _ => false,
        }
    }

    /// Whether the run can receive `event` now.
    pub fn expects(&self, event: &FlowEvent) -> (b: bool)
        ensures
            b == expects(self.role, self.phase, event@),
    {
        let client = match self.role {
            HandshakeRole::Client => true,
            HandshakeRole::Server => false,
        };
        match self.phase {
            FlowPhase::Opening => match event {
                FlowEvent::Opened => true,
                FlowEvent::OpenFailed(_) => client,
                FlowEvent::EndpointClosed => !client,
                FlowEvent::TimedOut => !client,
                _ => false,
            },
            FlowPhase::Awaiting => match event {
                FlowEvent::Established => true,
                FlowEvent::ConnectionFailed(_) => true,
                FlowEvent::TimedOut => true,
                _ => false,
            },
            FlowPhase::Extracting => match event {
                FlowEvent::Extracted(_) => true,
                _ => false,
            },
            FlowPhase::Done => false,
        }
    }

    /// Takes the decision for `event`: moves the run to its next phase and
    /// returns the hook to fire and what to do next.
    pub fn step(&mut self, event: FlowEvent) -> (s: FlowStep)
        requires
            expects(old(self).role, old(self).phase, event@),
        ensures
            final(self).role == old(self).role,
            (final(self).phase, s@) == transition(old(self).role, old(self).phase, event@),
    {
        let (phase, s) = match event {
            FlowEvent::Opened => {
                let hook = match self.role {
                    HandshakeRole::Client => HandshakeStage::ClientConnecting,
                    HandshakeRole::Server => HandshakeStage::ServerAccepted,
                };
                (FlowPhase::Awaiting, FlowStep { hook: Some(hook), next: FlowNext::AwaitConnection })
            },
            FlowEvent::OpenFailed(m) => (
                FlowPhase::Done,
                FlowStep { hook: None, next: FlowNext::Finish(Err(HandshakeError::Io(m))) },
            ),
            FlowEvent::EndpointClosed => (
                FlowPhase::Done,
                FlowStep {
                    hook: None,
                    next: FlowNext::Finish(
                        Err(
                            HandshakeError::Io(
                                "endpoint closed before incoming connection".to_owned(),
                            ),
                        ),
                    ),
                },
            ),
            FlowEvent::Established => (
                FlowPhase::Extracting,
                FlowStep {
                    hook: Some(HandshakeStage::ConnectionEstablished),
                    next: FlowNext::ExtractResult,
                },
            ),
            FlowEvent::ConnectionFailed(m) => (
                FlowPhase::Done,
                FlowStep { hook: None, next: FlowNext::Finish(Err(HandshakeError::Io(m))) },
            ),
            FlowEvent::TimedOut => (
                FlowPhase::Done,
                FlowStep { hook: None, next: FlowNext::Finish(Err(HandshakeError::Timeout)) },
            ),
            FlowEvent::Extracted(outcome) => match outcome {
                Ok(r) => (
                    FlowPhase::Done,
                    FlowStep {
                        hook: Some(HandshakeStage::HandshakeComplete),
                        next: FlowNext::Finish(Ok(r)),
                    },
                ),
                Err(e) => (FlowPhase::Done, FlowStep { hook: None, next: FlowNext::Finish(Err(e)) }),
            },
        };
        self.phase = phase;
        s
    }
}

} // verus!
