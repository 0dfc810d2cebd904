use socks_relay::codec::{Endpoint, Host};
use socks_relay::error::SocksError;
use socks_relay::session::{session_step, SessionAction, SessionEvent, SessionState, StepResult};

fn dialing_something() -> SessionState {
    SessionState::Dialing {
        endpoint: Endpoint { host: Host::V4(10, 0, 0, 1), port: 80 },
    }
}

#[test]
fn command_other_than_connect_aborts_silently() {
    let StepResult { state, output, action } = session_step(
        SessionState::RequestHeader,
        SessionEvent::BytesRead(vec![5, 2, 0, 1]),
    );
    assert!(matches!(
        state,
        SessionState::Failed { error: SocksError::UnsupportedCommand }
    ));
    assert!(output.is_empty());
    assert!(matches!(action, SessionAction::Close));
}

#[test]
fn bad_reserved_byte_aborts_silently() {
    let StepResult { state, output, .. } = session_step(
        SessionState::RequestHeader,
        SessionEvent::BytesRead(vec![5, 1, 1, 1]),
    );
    assert!(matches!(
        state,
        SessionState::Failed { error: SocksError::MalformedHeader }
    ));
    assert!(output.is_empty());
}

#[test]
fn request_version_mismatch_aborts_silently() {
    let StepResult { state, output, .. } = session_step(
        SessionState::RequestHeader,
        SessionEvent::BytesRead(vec![4, 1, 0, 1]),
    );
    assert!(matches!(
        state,
        SessionState::Failed { error: SocksError::ProtocolVersionMismatch }
    ));
    assert!(output.is_empty());
}

#[test]
fn unsupported_address_type_aborts_silently() {
    let StepResult { state, output, .. } = session_step(
        SessionState::RequestHeader,
        SessionEvent::BytesRead(vec![5, 1, 0, 4]),
    );
    assert!(matches!(
        state,
        SessionState::Failed { error: SocksError::UnsupportedAddressType }
    ));
    assert!(output.is_empty());
}

#[test]
fn dial_failure_sends_failure_reply_and_closes() {
    let StepResult { state, output, action } =
        session_step(dialing_something(), SessionEvent::DialFailed);
    assert_eq!(output, vec![5, 1, 0, 1, 0, 0, 0, 0, 0, 0]);
    assert!(matches!(action, SessionAction::Close));
    assert!(matches!(
        state,
        SessionState::Failed { error: SocksError::DialFailure }
    ));
}

#[test]
fn dial_success_sends_success_reply_then_relays() {
    let StepResult { state, output, action } =
        session_step(dialing_something(), SessionEvent::DialSucceeded);
    assert_eq!(output, vec![5, 0, 0, 1, 0, 0, 0, 0, 0, 0]);
    assert!(matches!(action, SessionAction::Relay));
    assert!(matches!(state, SessionState::Relaying));
}

#[test]
fn domain_request_walks_length_then_payload() {
    let StepResult { state, output, action } = session_step(
        SessionState::RequestHeader,
        SessionEvent::BytesRead(vec![5, 1, 0, 3]),
    );
    assert!(matches!(state, SessionState::DomainLen));
    assert!(output.is_empty());
    assert!(matches!(action, SessionAction::Read(1)));

    let StepResult { state, output, action } =
        session_step(SessionState::DomainLen, SessionEvent::BytesRead(vec![9]));
    assert!(matches!(state, SessionState::DomainPayload { len: 9 }));
    assert!(output.is_empty());
    assert!(matches!(action, SessionAction::Read(11)));

    let mut payload = b"localhost".to_vec();
    payload.push(0x00);
    payload.push(0x50);
    let StepResult { state, output, action } = session_step(
        SessionState::DomainPayload { len: 9 },
        SessionEvent::BytesRead(payload),
    );
    assert!(output.is_empty());
    match action {
        SessionAction::Dial(ep) => assert_eq!(ep.to_bytes(), b"localhost:80".to_vec()),
        _ => panic!("expected a dial"),
    }
    match state {
        SessionState::Dialing { endpoint } => {
            assert_eq!(endpoint.to_bytes(), b"localhost:80".to_vec())
        }
        _ => panic!("expected a dialing state"),
    }
}

#[test]
fn non_utf8_domain_payload_aborts() {
    let StepResult { state, output, action } = session_step(
        SessionState::DomainPayload { len: 2 },
        SessionEvent::BytesRead(vec![0xFF, 0xFE, 0x00, 0x50]),
    );
    assert!(matches!(
        state,
        SessionState::Failed { error: SocksError::InvalidDomainEncoding }
    ));
    assert!(output.is_empty());
    assert!(matches!(action, SessionAction::Close));
}

#[test]
fn full_connect_scenario() {
    // Greeting [5, 1] then the one method [0]: reply [5, 0].
    let StepResult { state, output, action } =
        session_step(SessionState::Greeting, SessionEvent::BytesRead(vec![5, 1]));
    assert!(output.is_empty());
    assert!(matches!(action, SessionAction::Read(1)));
    let StepResult { state, output, action } =
        session_step(state, SessionEvent::BytesRead(vec![0]));
    assert_eq!(output, vec![5, 0]);
    assert!(matches!(action, SessionAction::Read(4)));
    assert!(matches!(state, SessionState::RequestHeader));

    // CONNECT to 93.184.216.34:80.
    let StepResult { state, output, action } =
        session_step(state, SessionEvent::BytesRead(vec![5, 1, 0, 1]));
    assert!(output.is_empty());
    assert!(matches!(action, SessionAction::Read(6)));
    let StepResult { state, output, action } =
        session_step(state, SessionEvent::BytesRead(vec![93, 184, 216, 34, 0, 80]));
    assert!(output.is_empty());
    match action {
        SessionAction::Dial(ep) => {
            assert_eq!(ep.to_bytes(), b"93.184.216.34:80".to_vec())
        }
        _ => panic!("expected a dial"),
    }

    // The dial succeeds: the success reply goes out and the relay starts.
    let StepResult { state, output, action } =
        session_step(state, SessionEvent::DialSucceeded);
    assert_eq!(output, vec![5, 0, 0, 1, 0, 0, 0, 0, 0, 0]);
    assert!(matches!(action, SessionAction::Relay));
    assert!(matches!(state, SessionState::Relaying));
}
