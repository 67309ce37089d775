use status_flood::message::{
    handshake_message, ping_message, probe_message, probe_sequence, status_request_message,
    ConnectionIntent, Endpoint, OutboundMessage, ProtocolState, StatusMessage, PROTOCOL_NUMBER,
};

fn endpoint() -> Endpoint {
    Endpoint::new("play.example.net".to_string(), 25565)
}

#[test]
fn handshake_carries_endpoint_and_status_intent() {
    match handshake_message(&endpoint()) {
        OutboundMessage::Handshake(i) => {
            assert_eq!(i.protocol_version, 754);
            assert_eq!(i.protocol_version, PROTOCOL_NUMBER);
            assert_eq!(i.hostname, "play.example.net");
            assert_eq!(i.port, 25565);
            assert_eq!(i.intention, ConnectionIntent::Status);
        }
        other => panic!("expected a handshake, got {:?}", other),
    }
}

#[test]
fn ping_time_is_zero() {
    match ping_message() {
        OutboundMessage::Status(StatusMessage::PingRequest { time }) => assert_eq!(time, 0),
        other => panic!("expected a ping, got {:?}", other),
    }
}

#[test]
fn status_request_has_no_fields() {
    assert!(matches!(
        status_request_message(),
        OutboundMessage::Status(StatusMessage::StatusRequest)
    ));
}

#[test]
fn probe_sequence_is_handshake_status_ping() {
    let seq = probe_sequence(&endpoint());
    assert_eq!(seq.len(), 3);
    assert!(matches!(seq[0], OutboundMessage::Handshake(_)));
    assert!(matches!(seq[1], OutboundMessage::Status(StatusMessage::StatusRequest)));
    assert!(matches!(
        seq[2],
        OutboundMessage::Status(StatusMessage::PingRequest { time: 0 })
    ));
}

#[test]
fn probe_message_matches_sequence() {
    let ep = endpoint();
    let seq = probe_sequence(&ep);
    for i in 0..3 {
        assert_eq!(probe_message(&ep, i).id(), seq[i].id());
        assert_eq!(probe_message(&ep, i).state(), seq[i].state());
    }
}

#[test]
fn identifiers_and_states() {
    let seq = probe_sequence(&endpoint());
    let ids: Vec<u32> = seq.iter().map(|m| m.id()).collect();
    assert_eq!(ids, vec![0, 0, 1]);
    assert_eq!(seq[0].state(), ProtocolState::Handshake);
    assert_eq!(seq[1].state(), ProtocolState::Status);
    assert_eq!(seq[2].state(), ProtocolState::Status);
}

#[test]
fn handshake_with_empty_host_and_port_zero() {
    match handshake_message(&Endpoint::new(String::new(), 0)) {
        OutboundMessage::Handshake(i) => {
            assert_eq!(i.hostname, "");
            assert_eq!(i.port, 0);
            assert_eq!(i.intention, ConnectionIntent::Status);
        }
        other => panic!("expected a handshake, got {:?}", other),
    }
}
