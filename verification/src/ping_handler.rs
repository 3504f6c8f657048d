//! The decisions of a liveness-check exchange.
//!
//! The exchange waits for at most one request, acknowledges it, and shuts the
//! session down. The caller owns the connection: it performs the pending
//! action of the current state, reports what happened as an event, and gets
//! the next state back. Nothing is retried, and no failure is fatal.

use vstd::prelude::*;

verus! {

/// Where an exchange stands.
#[derive(Debug, Clone, Copy, PartialEq, Eq, Structural)]
pub enum PingState {
    /// Nothing was read yet.
    AwaitingRequest,
    /// A request arrived and its acknowledgment is due.
    Responding,
    /// The session is to be shut down.
    ShuttingDown,
    /// The exchange is over.
    Closed,
}

/// What the caller has to do in a state.
#[derive(Debug, Clone, Copy, PartialEq, Eq, Structural)]
pub enum PingAction {
    /// Wait for one request.
    AwaitRequest,
    /// Send the success acknowledgment.
    SendOkResponse,
    /// Shut the session down gracefully.
    ShutDown,
}

/// What the connection reported.
#[derive(Debug, Clone, Copy, PartialEq, Eq, Structural)]
pub enum PingEvent {
    /// A request was read.
    RequestReceived,
    /// The peer closed the connection before any request.
    ClosedBeforeRequest,
    /// Reading failed.
    SessionFailed,
    /// The acknowledgment was sent.
    ResponseSent,
    /// Sending the acknowledgment failed.
    ResponseFailed,
    /// The session was shut down.
    ShutdownCompleted,
    /// Shutting the session down failed.
    ShutdownFailed,
}

/// What is worth a line in the diagnostic log.
#[derive(Debug, Clone, Copy, PartialEq, Eq, Structural)]
pub enum PingDiagnostic {
    RequestReceived,
    ClosedBeforeRequest,
    SessionError,
    ResponseNotSent,
    ShutdownFailed,
}

/// The outcome of one event: the next state, and what to log.
#[derive(Debug, Clone, Copy, PartialEq, Eq, Structural)]
pub struct PingStep {
    pub state: PingState,
    pub diagnostic: Option<PingDiagnostic>,
}

impl PingState {
    /// The action that is pending in this state; none once the exchange is
    /// over.
    pub open spec fn pending(self) -> Option<PingAction> {
        match self {
            PingState::AwaitingRequest => Some(PingAction::AwaitRequest),
            PingState::Responding => Some(PingAction::SendOkResponse),
            PingState::ShuttingDown => Some(PingAction::ShutDown),
            PingState::Closed => None,
        }
    }

    /// The largest number of events that can still follow.
    pub open spec fn remaining(self) -> nat {
        match self {
            PingState::AwaitingRequest => 3,
            PingState::Responding => 2,
            PingState::ShuttingDown => 1,
            PingState::Closed => 0,
        }
    }

    /// Tells whether an event can be the result of this state's action.
    pub open spec fn expects(self, event: PingEvent) -> bool {
        match self {
            PingState::AwaitingRequest => event == PingEvent::RequestReceived || event
                == PingEvent::ClosedBeforeRequest || event == PingEvent::SessionFailed,
            PingState::Responding => event == PingEvent::ResponseSent || event
                == PingEvent::ResponseFailed,
            PingState::ShuttingDown => event == PingEvent::ShutdownCompleted || event
                == PingEvent::ShutdownFailed,
            PingState::Closed => false,
        }
    }

    /// The state in which an exchange begins.
    pub fn start() -> (state: PingState)
        ensures
            state == PingState::AwaitingRequest,
    {
        PingState::AwaitingRequest
    }

    /// Returns the action that the caller has to perform next, or `None` when
    /// the exchange is over.
    pub fn action(&self) -> (action: Option<PingAction>)
        ensures
            action == self.pending(),
    {
        match self {
            PingState::AwaitingRequest => Some(PingAction::AwaitRequest),
            PingState::Responding => Some(PingAction::SendOkResponse),
            PingState::ShuttingDown => Some(PingAction::ShutDown),
            PingState::Closed => None,
        }
    }
}

/// The step that an event causes in a state; none where the state does not
/// expect the event.
///
/// Only a request leads to an acknowledgment. Everything else, failures
/// included, leads to the shutdown, and the shutdown ends the exchange
/// whether it succeeded or not.
pub open spec fn transition(state: PingState, event: PingEvent) -> Option<PingStep> {
    match (state, event) {
        (PingState::AwaitingRequest, PingEvent::RequestReceived) => Some(
            PingStep {
                state: PingState::Responding,
                diagnostic: Some(PingDiagnostic::RequestReceived),
            },
        ),
        (PingState::AwaitingRequest, PingEvent::ClosedBeforeRequest) => Some(
            PingStep {
                state: PingState::ShuttingDown,
                diagnostic: Some(PingDiagnostic::ClosedBeforeRequest),
            },
        ),
        (PingState::AwaitingRequest, PingEvent::SessionFailed) => Some(
            PingStep {
                state: PingState::ShuttingDown,
                diagnostic: Some(PingDiagnostic::SessionError),
            },
        ),
        (PingState::Responding, PingEvent::ResponseSent) => Some(
            PingStep { state: PingState::ShuttingDown, diagnostic: None },
        ),
        (PingState::Responding, PingEvent::ResponseFailed) => Some(
            PingStep {
                state: PingState::ShuttingDown,
                diagnostic: Some(PingDiagnostic::ResponseNotSent),
            },
        ),
        (PingState::ShuttingDown, PingEvent::ShutdownCompleted) => Some(
            PingStep { state: PingState::Closed, diagnostic: None },
        ),
        (PingState::ShuttingDown, PingEvent::ShutdownFailed) => Some(
            PingStep { state: PingState::Closed, diagnostic: Some(PingDiagnostic::ShutdownFailed) },
        ),
        _ => None,
    }
}

/// Takes the step that an event causes. Returns `None`, and decides nothing,
/// exactly when the state does not expect the event.
pub fn advance(state: PingState, event: PingEvent) -> (step: Option<PingStep>)
    ensures
        step == transition(state, event),
        step is Some <==> state.expects(event),
{
    match state {
        PingState::AwaitingRequest => match event {
            PingEvent::RequestReceived => Some(
                PingStep {
                    state: PingState::Responding,
                    diagnostic: Some(PingDiagnostic::RequestReceived),
                },
            ),
            PingEvent::ClosedBeforeRequest => Some(
                PingStep {
                    state: PingState::ShuttingDown,
                    diagnostic: Some(PingDiagnostic::ClosedBeforeRequest),
                },
            ),
            PingEvent::SessionFailed => Some(
                PingStep {
                    state: PingState::ShuttingDown,
                    diagnostic: Some(PingDiagnostic::SessionError),
                },
            ),
            _ => None,
        },
        PingState::Responding => {
            let diagnostic = match event {
                PingEvent::ResponseSent => None,
                PingEvent::ResponseFailed => Some(PingDiagnostic::ResponseNotSent),
                _ => {
                    return None;
                },
            };
            Some(PingStep { state: PingState::ShuttingDown, diagnostic })
        },
        PingState::ShuttingDown => {
            let diagnostic = match event {
                PingEvent::ShutdownCompleted => None,
                PingEvent::ShutdownFailed => Some(PingDiagnostic::ShutdownFailed),
                _ => {
                    return None;
                },
            };
            Some(PingStep { state: PingState::Closed, diagnostic })
        },
        PingState::Closed => None,
    }
}

impl PingDiagnostic {
    /// The line that describes the diagnostic.
    pub open spec fn description(self) -> Seq<char> {
        match self {
            PingDiagnostic::RequestReceived => "Received request"@,
            PingDiagnostic::ClosedBeforeRequest => "Connection closed before any request"@,
            PingDiagnostic::SessionError => "Session error"@,
            PingDiagnostic::ResponseNotSent => "Failed to send ping response"@,
            PingDiagnostic::ShutdownFailed => "Failed to shut down session"@,
        }
    }

    /// Returns the line that describes the diagnostic.
    pub fn text(&self) -> (text: &'static str)
        ensures
            text@ == self.description(),
    {
        match self {
            PingDiagnostic::RequestReceived => "Received request",
            PingDiagnostic::ClosedBeforeRequest => "Connection closed before any request",
            PingDiagnostic::SessionError => "Session error",
            PingDiagnostic::ResponseNotSent => "Failed to send ping response",
            PingDiagnostic::ShutdownFailed => "Failed to shut down session",
        }
    }
}

/// Every step brings the end nearer, so an exchange is over after at most
/// three events and nothing is ever retried.
pub proof fn lemma_exchange_is_bounded(state: PingState, event: PingEvent)
    requires
        transition(state, event) is Some,
    ensures
        transition(state, event)->0.state.remaining() < state.remaining(),
        state.remaining() <= 3,
{
}

/// An exchange that is not over expects some event, and an exchange that is
/// over expects none: the caller is never stuck and never asked twice.
pub proof fn lemma_pending_action_has_results(state: PingState)
    ensures
        state.pending() is Some <==> exists|event: PingEvent| #[trigger] state.expects(event),
        state.pending() is None <==> state == PingState::Closed,
{
    match state {
        PingState::AwaitingRequest => {
            assert(state.expects(PingEvent::RequestReceived));
        },
        PingState::Responding => {
            assert(state.expects(PingEvent::ResponseSent));
        },
        PingState::ShuttingDown => {
            assert(state.expects(PingEvent::ShutdownCompleted));
        },
        PingState::Closed => {},
    }
}

/// An acknowledgment is due only after a request was read.
pub proof fn lemma_response_follows_request(state: PingState, event: PingEvent)
    requires
        transition(state, event) matches Some(step) && step.state == PingState::Responding,
    ensures
        state == PingState::AwaitingRequest,
        event == PingEvent::RequestReceived,
{
}

/// The exchange ends only through the shutdown, and every failure leads to
/// the shutdown.
pub proof fn lemma_shutdown_is_always_attempted(state: PingState, event: PingEvent)
    requires
        transition(state, event) is Some,
    ensures
        transition(state, event)->0.state == PingState::Closed <==> state
            == PingState::ShuttingDown,
        event == PingEvent::ClosedBeforeRequest || event == PingEvent::SessionFailed || event
            == PingEvent::ResponseFailed ==> transition(state, event)->0.state
            == PingState::ShuttingDown,
{
}

} // verus!
