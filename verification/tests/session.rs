use rumqtt::errors::{ConnectError, EncodeError, ProtocolError, UnsolicitedAck};
use rumqtt::options::{MqttOptions, ReconnectOptions};
use rumqtt::packets::{Connack, ConnectReturnCode, Packet, Publish, QoS, Request};
use rumqtt::state::{MqttState, MAX_PAYLOAD_SIZE};

fn base_opts() -> MqttOptions {
    MqttOptions {
        broker_addr: "127.0.0.1:1883".to_string(),
        client_id: "client-1".to_string(),
        keep_alive: Some(10),
        clean_session: true,
        username: None,
        password: None,
        reconnect: ReconnectOptions::Always(1),
    }
}

fn connack_ok() -> Connack {
    Connack { session_present: false, code: ConnectReturnCode::Accepted }
}

/// A session whose handshake has completed.
fn connected() -> MqttState {
    let mut state = MqttState::new(base_opts());
    assert!(state.handle_incoming_connack(connack_ok()).is_ok());
    state
}

fn publish(topic: &str, payload: &[u8], qos: QoS) -> Publish {
    Publish { topic: topic.to_string(), payload: payload.to_vec(), qos, pkid: None }
}

#[test]
fn connect_packet_is_built_from_options() {
    let mut state = MqttState::new(base_opts());
    let connect = state.handle_outgoing_connect();
    assert_eq!(connect.client_id, "client-1".to_string());
    assert_eq!(connect.keep_alive, 10);
    assert!(connect.clean_session);
    assert_eq!(connect.username, None);
    assert_eq!(connect.password, None);
}

#[test]
fn connect_packet_without_keep_alive_sends_zero() {
    let mut opts = base_opts();
    opts.keep_alive = None;
    let mut state = MqttState::new(opts);
    let connect = state.handle_outgoing_connect();
    assert_eq!(connect.keep_alive, 0);
}

#[test]
fn connack_refused_reports_the_code() {
    let mut state = MqttState::new(base_opts());
    let refused = Connack { session_present: false, code: ConnectReturnCode::NotAuthorized };
    assert_eq!(
        state.handle_incoming_connack(refused),
        Err(ConnectError::ConnectionRefused(ConnectReturnCode::NotAuthorized))
    );
    // The handshake never completed, so user packets may not be sent.
    assert_eq!(state.handle_client_requests(Request::Ping), Err(EncodeError::NotConnected));
}

#[test]
fn request_before_handshake_is_rejected() {
    let mut state = MqttState::new(base_opts());
    assert_eq!(
        state.handle_client_requests(Request::Publish(publish("a", b"x", QoS::AtMostOnce))),
        Err(EncodeError::NotConnected)
    );
}

#[test]
fn qos1_publishes_get_sequential_packet_ids() {
    let mut state = connected();
    let p1 = state.handle_client_requests(Request::Publish(publish("a", b"1", QoS::AtLeastOnce)));
    let p2 = state.handle_client_requests(Request::Publish(publish("a", b"2", QoS::AtLeastOnce)));
    match p1 {
        Ok(Packet::Publish(p)) => assert_eq!(p.pkid, Some(1)),
        other => panic!("expected a publish packet, got {:?}", other),
    }
    match p2 {
        Ok(Packet::Publish(p)) => assert_eq!(p.pkid, Some(2)),
        other => panic!("expected a publish packet, got {:?}", other),
    }
}

#[test]
fn qos0_publish_is_not_tracked() {
    let mut state = connected();
    assert!(state.handle_reconnection().is_none());  // first connection: nothing to replay
    let r = state.handle_client_requests(Request::Publish(publish("a", b"x", QoS::AtMostOnce)));
    assert_eq!(r, Ok(Packet::Publish(publish("a", b"x", QoS::AtMostOnce))));
    // A later reconnection has nothing to replay.
    assert!(state.handle_reconnection().is_none());
}

#[test]
fn qos2_publish_is_rejected() {
    let mut state = connected();
    assert_eq!(
        state.handle_client_requests(Request::Publish(publish("a", b"x", QoS::ExactlyOnce))),
        Err(EncodeError::UnsupportedQos)
    );
}

#[test]
fn oversized_payload_is_rejected() {
    let mut state = connected();
    let big = Publish {
        topic: "a".to_string(),
        payload: vec![0u8; MAX_PAYLOAD_SIZE + 1],
        qos: QoS::AtLeastOnce,
        pkid: None,
    };
    assert_eq!(state.handle_client_requests(Request::Publish(big)), Err(EncodeError::PayloadTooLong));
    // Nothing was recorded.
    assert!(state.handle_reconnection().is_none());
    assert!(state.handle_reconnection().is_none());
}

#[test]
fn resumption_replays_unacked_publishes_in_order() {
    let mut state = connected();
    assert!(state.handle_reconnection().is_none());  // first connection
    state.handle_client_requests(Request::Publish(publish("t", b"first", QoS::AtLeastOnce))).unwrap();
    state.handle_client_requests(Request::Publish(publish("t", b"second", QoS::AtLeastOnce))).unwrap();
    // The transport dies; a fresh attempt completes its handshake.
    state.handle_outgoing_connect();
    assert!(state.handle_incoming_connack(connack_ok()).is_ok());
    let replay = state.handle_reconnection().expect("outstanding publishes must be replayed");
    assert_eq!(replay.len(), 2);
    assert_eq!(replay[0].payload, b"first".to_vec());
    assert_eq!(replay[0].pkid, Some(1));
    assert_eq!(replay[1].payload, b"second".to_vec());
    assert_eq!(replay[1].pkid, Some(2));
}

#[test]
fn killed_transport_retransmits_same_payload_and_id() {
    // Publish once with an automatically assigned id, lose the transport
    // before any ack, reconnect: the identical payload and id come first.
    let mut state = connected();
    assert!(state.handle_reconnection().is_none());
    let sent = state
        .handle_client_requests(Request::Publish(publish("t", b"payload", QoS::AtLeastOnce)))
        .unwrap();
    let sent_pkid = match sent {
        Packet::Publish(p) => p.pkid,
        other => panic!("expected a publish packet, got {:?}", other),
    };
    state.handle_outgoing_connect();
    assert!(state.handle_incoming_connack(connack_ok()).is_ok());
    let replay = state.handle_reconnection().expect("the unacked publish must be replayed");
    assert_eq!(replay.len(), 1);
    assert_eq!(replay[0].payload, b"payload".to_vec());
    assert_eq!(replay[0].pkid, sent_pkid);
    assert_eq!(replay[0].pkid, Some(1));
}

#[test]
fn matching_puback_retires_the_publish() {
    let mut state = connected();
    assert!(state.handle_reconnection().is_none());
    state.handle_client_requests(Request::Publish(publish("t", b"x", QoS::AtLeastOnce))).unwrap();
    assert_eq!(state.handle_incoming_puback(1), Ok(()));
    // Nothing is left to replay after a reconnect.
    state.handle_outgoing_connect();
    assert!(state.handle_incoming_connack(connack_ok()).is_ok());
    assert!(state.handle_reconnection().is_none());
}

#[test]
fn unsolicited_puback_changes_nothing() {
    let mut state = connected();
    assert!(state.handle_reconnection().is_none());
    state.handle_client_requests(Request::Publish(publish("t", b"x", QoS::AtLeastOnce))).unwrap();
    assert_eq!(state.handle_incoming_puback(42), Err(UnsolicitedAck { pkid: 42 }));
    // The outstanding publish is still there, untouched.
    state.handle_outgoing_connect();
    assert!(state.handle_incoming_connack(connack_ok()).is_ok());
    let replay = state.handle_reconnection().unwrap();
    assert_eq!(replay.len(), 1);
    assert_eq!(replay[0].pkid, Some(1));
}

#[test]
fn ping_flag_set_by_traffic_cleared_by_pingresp() {
    let mut state = connected();
    assert!(!state.is_ping_required());
    state.handle_client_requests(Request::Publish(publish("t", b"x", QoS::AtMostOnce))).unwrap();
    assert!(state.is_ping_required());
    state.handle_incoming_pingresp();
    assert!(!state.is_ping_required());
}

#[test]
fn incoming_qos1_publish_is_delivered_and_acked() {
    let state = connected();
    let inbound = Publish { topic: "t".to_string(), payload: b"m".to_vec(), qos: QoS::AtLeastOnce, pkid: Some(5) };
    let (deliver, ack) = state.handle_incoming_publish(inbound).unwrap();
    let delivered = deliver.expect("the payload must be offered for delivery");
    assert_eq!(delivered.payload, b"m".to_vec());
    assert_eq!(delivered.pkid, Some(5));
    assert_eq!(ack, Some(Packet::Puback(5)));
}

#[test]
fn incoming_qos0_publish_needs_no_reply() {
    let state = connected();
    let inbound = Publish { topic: "t".to_string(), payload: b"m".to_vec(), qos: QoS::AtMostOnce, pkid: None };
    let (deliver, ack) = state.handle_incoming_publish(inbound).unwrap();
    assert!(deliver.is_some());
    assert_eq!(ack, None);
}

#[test]
fn incoming_qos1_publish_without_id_is_a_protocol_error() {
    let state = connected();
    let inbound = Publish { topic: "t".to_string(), payload: b"m".to_vec(), qos: QoS::AtLeastOnce, pkid: None };
    assert_eq!(state.handle_incoming_publish(inbound), Err(ProtocolError::PacketIdMissing));
}

#[test]
fn incoming_qos2_publish_is_a_protocol_error() {
    let state = connected();
    let inbound = Publish { topic: "t".to_string(), payload: b"m".to_vec(), qos: QoS::ExactlyOnce, pkid: Some(3) };
    assert_eq!(state.handle_incoming_publish(inbound), Err(ProtocolError::UnsupportedQos));
}

#[test]
fn packet_ids_exhaust_and_wrap_when_freed() {
    let mut state = connected();
    // Walk the counter through the whole identifier space while the very
    // first publish stays unacknowledged.
    for i in 1..=65535u32 {
        let r = state.handle_client_requests(Request::Publish(publish("t", b"", QoS::AtLeastOnce)));
        match r {
            Ok(Packet::Publish(p)) => assert_eq!(p.pkid, Some(i as u16)),
            other => panic!("publish {} failed: {:?}", i, other),
        }
        if i > 1 {
            assert_eq!(state.handle_incoming_puback(i as u16), Ok(()));
        }
    }
    // The counter wraps onto id 1, which is still taken: no id can be assigned.
    assert_eq!(
        state.handle_client_requests(Request::Publish(publish("t", b"", QoS::AtLeastOnce))),
        Err(EncodeError::PacketIdsExhausted)
    );
    // Retiring the publish with id 1 frees it; the counter wraps onto it.
    assert_eq!(state.handle_incoming_puback(1), Ok(()));
    match state.handle_client_requests(Request::Publish(publish("t", b"", QoS::AtLeastOnce))) {
        Ok(Packet::Publish(p)) => assert_eq!(p.pkid, Some(1)),
        other => panic!("expected the freed id to be reused, got {:?}", other),
    }
}

#[test]
fn non_publish_requests_map_to_their_packets() {
    let mut state = connected();
    assert_eq!(state.handle_client_requests(Request::Ping), Ok(Packet::Pingreq));
    assert_eq!(state.handle_client_requests(Request::Puback(7)), Ok(Packet::Puback(7)));
    assert_eq!(state.handle_client_requests(Request::Disconnect), Ok(Packet::Disconnect));
}
