use flvmux::errors::ErrorKind;
use flvmux::rtmp::{
    admit_connection, AckCounter, Action, ConnState, Connection, HandshakeProgress,
    InboundMessage, ServerHandshake,
};
use rml_rtmp::handshake::{Handshake, HandshakeProcessResult, PeerType};

fn command(name: &str, tx: u32) -> InboundMessage {
    InboundMessage::Command { name: name.to_string(), transaction_id: tx }
}

#[test]
fn handshake_happy_path() {
    // A real client handshake from the RTMP library against the library's
    // server half.
    let mut client = Handshake::new(PeerType::Client);
    let c0_c1 = client.generate_outbound_p0_and_p1().unwrap();

    let (mut server, s0_s1) = ServerHandshake::begin().unwrap();
    assert_eq!(s0_s1.len(), 1537);
    assert_eq!(s0_s1[0], 3);

    let s2 = match server.consume(&c0_c1).unwrap() {
        HandshakeProgress::InProgress { response_bytes } => response_bytes,
        HandshakeProgress::Completed { .. } => panic!("server finished too early"),
    };
    assert!(!s2.is_empty());

    let c2 = match client.process_bytes(&s0_s1).unwrap() {
        HandshakeProcessResult::InProgress { response_bytes } => response_bytes,
        x => panic!("client finished without the server's packet 2: {:?}", x),
    };
    match client.process_bytes(&s2).unwrap() {
        HandshakeProcessResult::Completed { remaining_bytes, .. } => {
            assert!(remaining_bytes.is_empty());
        }
        x => panic!("client did not complete: {:?}", x),
    }

    match server.consume(&c2).unwrap() {
        HandshakeProgress::Completed { remaining_bytes, .. } => {
            assert!(remaining_bytes.is_empty());
        }
        HandshakeProgress::InProgress { .. } => panic!("server did not complete"),
    }
}

#[test]
fn connect_dialog_sequences_sends_in_order() {
    let mut conn = Connection::new();
    assert_eq!(conn.state, ConnState::Connecting);

    // Anything before connect is ignored.
    let acts = conn.on_message(command("releaseStream", 2)).unwrap();
    assert!(acts.is_empty());
    assert_eq!(conn.state, ConnState::Connecting);

    // connect sets the outbound chunk size to 128 and nothing else yet.
    let acts = conn.on_message(command("connect", 1)).unwrap();
    assert_eq!(acts.len(), 1);
    assert!(matches!(acts[0], Action::SetOutboundChunkSize { size: 128 }));
    assert_eq!(conn.state, ConnState::ChunkSizeWait);
    assert_eq!(conn.connect_transaction_id, 1);

    // The peer's SetChunkSize releases the ordered Ready sends.
    let acts = conn.on_message(InboundMessage::SetChunkSize { size: 4096 }).unwrap();
    assert_eq!(acts.len(), 6);
    assert!(matches!(acts[0], Action::ApplyInboundChunkSize { size: 4096 }));
    assert!(matches!(acts[1], Action::SendWindowAcknowledgement { size: 2500000 }));
    assert!(matches!(acts[2], Action::SendSetPeerBandwidth { size: 2500000 }));
    assert!(matches!(acts[3], Action::SendStreamBegin));
    assert!(matches!(acts[4], Action::SendConnectResult { transaction_id: 1 }));
    assert!(matches!(acts[5], Action::SendBwDone));
    assert_eq!(conn.state, ConnState::Ready);
}

#[test]
fn alternate_first_message_is_a_protocol_violation() {
    let mut conn = Connection::new();
    conn.on_message(command("connect", 1)).unwrap();
    let e = conn.on_message(command("publish", 4)).unwrap_err();
    assert_eq!(e.kind, ErrorKind::ProtocolViolation);
    assert_eq!(conn.state, ConnState::Closed);
}

fn ready_connection() -> Connection {
    let mut conn = Connection::new();
    conn.on_message(command("connect", 1)).unwrap();
    conn.on_message(InboundMessage::SetChunkSize { size: 4096 }).unwrap();
    conn
}

#[test]
fn command_loop_replies() {
    let mut conn = ready_connection();

    let acts = conn.on_message(command("FCPublish", 3)).unwrap();
    assert_eq!(acts.len(), 1);
    assert!(matches!(acts[0], Action::SendFcPublishResponse));

    // createStream bumps the stream id counter from its initial 3.
    let acts = conn.on_message(command("createStream", 4)).unwrap();
    assert_eq!(acts.len(), 1);
    assert!(matches!(
        acts[0],
        Action::SendCreateStreamResult { transaction_id: 4, stream_id: 4 }
    ));
    assert_eq!(conn.next_stream_id, 4);

    let acts = conn.on_message(command("releaseStream", 5)).unwrap();
    assert!(matches!(acts[0], Action::SendEmptyResult { transaction_id: 5 }));
    let acts = conn.on_message(command("_checkbw", 6)).unwrap();
    assert!(matches!(acts[0], Action::SendEmptyResult { transaction_id: 6 }));

    // publish answers onStatus and moves to Publishing.
    let acts = conn.on_message(command("publish", 0)).unwrap();
    assert!(matches!(acts[0], Action::SendPublishStart));
    assert_eq!(conn.state, ConnState::Publishing);

    // Replies a server itself receives, and unknown commands, are ignored.
    assert!(conn.on_message(command("_result", 7)).unwrap().is_empty());
    assert!(conn.on_message(command("onBWDone", 8)).unwrap().is_empty());
    assert!(conn.on_message(command("somethingNew", 9)).unwrap().is_empty());
    assert_eq!(conn.state, ConnState::Publishing);
}

#[test]
fn media_is_forwarded_with_signed_timestamps() {
    let mut conn = ready_connection();
    let acts = conn
        .on_message(InboundMessage::Audio { data: vec![0xAF, 1, 9], timestamp: 55 })
        .unwrap();
    assert_eq!(acts.len(), 1);
    match &acts[0] {
        Action::ForwardAudio { data, timestamp } => {
            assert_eq!(data, &vec![0xAF, 1, 9]);
            assert_eq!(*timestamp, 55);
        }
        _ => panic!("expected a forwarded audio payload"),
    }

    let acts = conn
        .on_message(InboundMessage::Video { data: vec![0x17, 1, 0, 0, 0], timestamp: 60 })
        .unwrap();
    match &acts[0] {
        Action::ForwardVideo { data, timestamp } => {
            assert_eq!(data, &vec![0x17, 1, 0, 0, 0]);
            assert_eq!(*timestamp, 60);
        }
        _ => panic!("expected a forwarded video payload"),
    }
}

#[test]
fn oversized_rtmp_timestamp_fails_with_overflow() {
    let mut conn = ready_connection();
    let e = conn
        .on_message(InboundMessage::Video { data: vec![0x17, 1, 0, 0, 0], timestamp: 0x80000000 })
        .unwrap_err();
    assert_eq!(e.kind, ErrorKind::Overflow);
    assert_eq!(conn.state, ConnState::Closed);
}

#[test]
fn set_chunk_size_applies_any_time_in_the_loop() {
    let mut conn = ready_connection();
    let acts = conn.on_message(InboundMessage::SetChunkSize { size: 65536 }).unwrap();
    assert_eq!(acts.len(), 1);
    assert!(matches!(acts[0], Action::ApplyInboundChunkSize { size: 65536 }));
    assert_eq!(conn.state, ConnState::Ready);
}

#[test]
fn connection_cap_refuses_the_eleventh() {
    assert!(admit_connection(9, 10).is_ok());
    let e = admit_connection(10, 10).unwrap_err();
    assert_eq!(e.kind, ErrorKind::CapExceeded);
    assert_eq!(e.message(), "too many connections");
}

#[test]
fn ack_counter_fires_at_threshold() {
    let mut acks = AckCounter::new();
    assert_eq!(acks.ack_after_bytes, 1048576);
    acks.add_bytes(1048575);
    assert!(acks.take_ack().is_none());
    acks.add_bytes(1);
    assert_eq!(acks.take_ack(), Some(1048576));
    assert_eq!(acks.bytes_since_ack, 0);
    assert!(acks.take_ack().is_none());
}
