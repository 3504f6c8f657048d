use protocol_selector::ping_handler::{
    advance, PingAction, PingDiagnostic, PingEvent, PingState, PingStep,
};

const EVENTS: [PingEvent; 7] = [
    PingEvent::RequestReceived,
    PingEvent::ClosedBeforeRequest,
    PingEvent::SessionFailed,
    PingEvent::ResponseSent,
    PingEvent::ResponseFailed,
    PingEvent::ShutdownCompleted,
    PingEvent::ShutdownFailed,
];

const STATES: [PingState; 4] = [
    PingState::AwaitingRequest,
    PingState::Responding,
    PingState::ShuttingDown,
    PingState::Closed,
];

fn rank(state: PingState) -> u32 {
    match state {
        PingState::AwaitingRequest => 3,
        PingState::Responding => 2,
        PingState::ShuttingDown => 1,
        PingState::Closed => 0,
    }
}

#[test]
fn exchange_starts_by_awaiting_a_request() {
    assert_eq!(PingState::start(), PingState::AwaitingRequest);
    assert_eq!(PingState::start().action(), Some(PingAction::AwaitRequest));
}

#[test]
fn each_state_has_its_action() {
    assert_eq!(PingState::AwaitingRequest.action(), Some(PingAction::AwaitRequest));
    assert_eq!(PingState::Responding.action(), Some(PingAction::SendOkResponse));
    assert_eq!(PingState::ShuttingDown.action(), Some(PingAction::ShutDown));
    assert_eq!(PingState::Closed.action(), None);
}

#[test]
fn answered_request_runs_to_the_end_quietly() {
    let first = advance(PingState::start(), PingEvent::RequestReceived);
    assert_eq!(
        first,
        Some(PingStep {
            state: PingState::Responding,
            diagnostic: Some(PingDiagnostic::RequestReceived)
        })
    );
    let second = advance(PingState::Responding, PingEvent::ResponseSent);
    assert_eq!(second, Some(PingStep { state: PingState::ShuttingDown, diagnostic: None }));
    let third = advance(PingState::ShuttingDown, PingEvent::ShutdownCompleted);
    assert_eq!(third, Some(PingStep { state: PingState::Closed, diagnostic: None }));
}

#[test]
fn failures_are_logged_and_lead_to_the_shutdown() {
    assert_eq!(
        advance(PingState::AwaitingRequest, PingEvent::ClosedBeforeRequest),
        Some(PingStep {
            state: PingState::ShuttingDown,
            diagnostic: Some(PingDiagnostic::ClosedBeforeRequest)
        })
    );
    assert_eq!(
        advance(PingState::AwaitingRequest, PingEvent::SessionFailed),
        Some(PingStep {
            state: PingState::ShuttingDown,
            diagnostic: Some(PingDiagnostic::SessionError)
        })
    );
    assert_eq!(
        advance(PingState::Responding, PingEvent::ResponseFailed),
        Some(PingStep {
            state: PingState::ShuttingDown,
            diagnostic: Some(PingDiagnostic::ResponseNotSent)
        })
    );
    assert_eq!(
        advance(PingState::ShuttingDown, PingEvent::ShutdownFailed),
        Some(PingStep { state: PingState::Closed, diagnostic: Some(PingDiagnostic::ShutdownFailed) })
    );
}

#[test]
fn unexpected_events_decide_nothing() {
    let mut expected = 0;
    for state in STATES {
        for event in EVENTS {
            if advance(state, event).is_some() {
                expected += 1;
            }
        }
    }
    assert_eq!(expected, 7);
    assert_eq!(advance(PingState::AwaitingRequest, PingEvent::ResponseSent), None);
    assert_eq!(advance(PingState::Responding, PingEvent::RequestReceived), None);
    assert_eq!(advance(PingState::ShuttingDown, PingEvent::SessionFailed), None);
    for event in EVENTS {
        assert_eq!(advance(PingState::Closed, event), None);
    }
}

#[test]
fn every_step_brings_the_end_nearer() {
    for state in STATES {
        for event in EVENTS {
            if let Some(step) = advance(state, event) {
                assert!(rank(step.state) < rank(state));
            }
        }
    }
}

#[test]
fn only_a_request_is_answered() {
    for state in STATES {
        for event in EVENTS {
            if let Some(step) = advance(state, event) {
                if step.state == PingState::Responding {
                    assert_eq!(state, PingState::AwaitingRequest);
                    assert_eq!(event, PingEvent::RequestReceived);
                }
                if step.state == PingState::Closed {
                    assert_eq!(state, PingState::ShuttingDown);
                }
            }
        }
    }
}

#[test]
fn diagnostics_have_their_lines() {
    assert_eq!(PingDiagnostic::RequestReceived.text(), "Received request");
    assert_eq!(PingDiagnostic::ClosedBeforeRequest.text(), "Connection closed before any request");
    assert_eq!(PingDiagnostic::SessionError.text(), "Session error");
    assert_eq!(PingDiagnostic::ResponseNotSent.text(), "Failed to send ping response");
    assert_eq!(PingDiagnostic::ShutdownFailed.text(), "Failed to shut down session");
}
