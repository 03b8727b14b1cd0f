use quinn_hyphae::{
    FlowEvent, FlowNext, FlowPhase, HandshakeError, HandshakeFlow, HandshakeResult, HandshakeRole,
    HandshakeStage,
};

fn sample_result() -> HandshakeResult {
    HandshakeResult::new([4u8; 32], None, None, "p".to_string())
}

fn run(mut flow: HandshakeFlow, events: Vec<FlowEvent>) -> (Vec<HandshakeStage>, Option<Result<HandshakeResult, HandshakeError>>) {
    let mut hooks = Vec::new();
    let mut outcome = None;
    for ev in events {
        assert!(flow.expects(&ev));
        let step = flow.step(ev);
        if let Some(h) = step.hook {
            hooks.push(h);
        }
        if let FlowNext::Finish(r) = step.next {
            outcome = Some(r);
        }
    }
    (hooks, outcome)
}

#[test]
fn client_success_fires_all_hooks_in_order() {
    let (hooks, outcome) = run(
        HandshakeFlow::client(),
        vec![FlowEvent::Opened, FlowEvent::Established, FlowEvent::Extracted(Ok(sample_result()))],
    );
    assert_eq!(
        hooks,
        vec![
            HandshakeStage::ClientConnecting,
            HandshakeStage::ConnectionEstablished,
            HandshakeStage::HandshakeComplete
        ]
    );
    assert_eq!(outcome.unwrap().unwrap().handshake_hash, [4u8; 32]);
}

#[test]
fn server_success_fires_all_hooks_in_order() {
    let (hooks, outcome) = run(
        HandshakeFlow::server(),
        vec![FlowEvent::Opened, FlowEvent::Established, FlowEvent::Extracted(Ok(sample_result()))],
    );
    assert_eq!(
        hooks,
        vec![
            HandshakeStage::ServerAccepted,
            HandshakeStage::ConnectionEstablished,
            HandshakeStage::HandshakeComplete
        ]
    );
    assert!(outcome.unwrap().is_ok());
}

#[test]
fn timeout_while_awaiting_is_timeout_error() {
    let (hooks, outcome) = run(HandshakeFlow::client(), vec![FlowEvent::Opened, FlowEvent::TimedOut]);
    assert_eq!(hooks, vec![HandshakeStage::ClientConnecting]);
    assert!(matches!(outcome, Some(Err(HandshakeError::Timeout))));
}

#[test]
fn server_timeout_before_incoming_is_timeout_error() {
    let mut flow = HandshakeFlow::server();
    let (hooks, outcome) = {
        let step = flow.step(FlowEvent::TimedOut);
        (step.hook, step.next)
    };
    assert_eq!(hooks, None);
    assert!(matches!(outcome, FlowNext::Finish(Err(HandshakeError::Timeout))));
    assert!(flow.is_done());
    assert_eq!(flow.phase, FlowPhase::Done);
}

#[test]
fn endpoint_closed_is_io_error() {
    let (hooks, outcome) = run(HandshakeFlow::server(), vec![FlowEvent::EndpointClosed]);
    assert!(hooks.is_empty());
    assert!(matches!(outcome, Some(Err(HandshakeError::Io(ref m))) if m == "endpoint closed before incoming connection"));
}

#[test]
fn refused_connect_is_io_error() {
    let (hooks, outcome) = run(HandshakeFlow::client(), vec![FlowEvent::OpenFailed("invalid remote address".into())]);
    assert!(hooks.is_empty());
    assert!(matches!(outcome, Some(Err(HandshakeError::Io(ref m))) if m == "invalid remote address"));
}

#[test]
fn failed_connection_is_io_error() {
    let (hooks, outcome) = run(
        HandshakeFlow::client(),
        vec![FlowEvent::Opened, FlowEvent::ConnectionFailed("closed by peer".into())],
    );
    assert_eq!(hooks, vec![HandshakeStage::ClientConnecting]);
    assert!(matches!(outcome, Some(Err(HandshakeError::Io(ref m))) if m == "closed by peer"));
}

#[test]
fn failed_extraction_skips_completion_hook() {
    let (hooks, outcome) = run(
        HandshakeFlow::server(),
        vec![
            FlowEvent::Opened,
            FlowEvent::Established,
            FlowEvent::Extracted(Err(HandshakeError::Payload("too large".into()))),
        ],
    );
    assert_eq!(hooks, vec![HandshakeStage::ServerAccepted, HandshakeStage::ConnectionEstablished]);
    assert!(matches!(outcome, Some(Err(HandshakeError::Payload(_)))));
}

#[test]
fn expected_events_by_phase() {
    let client = HandshakeFlow::client();
    assert_eq!(client.role, HandshakeRole::Client);
    assert!(client.expects(&FlowEvent::Opened));
    assert!(client.expects(&FlowEvent::OpenFailed(String::new())));
    assert!(!client.expects(&FlowEvent::EndpointClosed));
    assert!(!client.expects(&FlowEvent::TimedOut));
    assert!(!client.expects(&FlowEvent::Established));
    let server = HandshakeFlow::server();
    assert!(server.expects(&FlowEvent::EndpointClosed));
    assert!(server.expects(&FlowEvent::TimedOut));
    assert!(!server.expects(&FlowEvent::OpenFailed(String::new())));
    let mut done = HandshakeFlow::client();
    done.step(FlowEvent::OpenFailed(String::new()));
    assert!(done.is_done());
    assert!(!done.expects(&FlowEvent::Opened));
    assert!(!done.expects(&FlowEvent::Extracted(Ok(sample_result()))));
}
