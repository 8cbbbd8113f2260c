use bytes::Bytes;
use gfn_streamer::signaling::channel::{
    audio_codec, ice_settings, input_channel_settings, is_input_label, on_peer_state,
    on_server_message, on_track_packet, read_handshake, video_codec, wrap_input, PeerState,
};
use gfn_streamer::signaling::client::{
    on_socket_event, InputChannel, SignalingClient, SignalingEvent, SocketAction, SocketEvent,
    EVENT_QUEUE_LEN, INPUT_QUEUE_LEN,
};
use gfn_streamer::signaling::handler::{
    keep_gathering, HandlerAction, HandlerError, HandlerEvent, MessageHandler,
};
use gfn_streamer::signaling::messages::{
    ack_message, heartbeat_message, local_candidate_message, peer_message, GatheredCandidate,
    GfnPeerInfo, GfnPeerMessage, GfnPeerMsgContent, HEARTBEAT_PERIOD_MS,
};

const OFFER: &str = "v=0\r\na=ice-lite\r\na=ice-ufrag:srv\r\nm=audio 5004 RTP\r\n";

fn client() -> SignalingClient {
    SignalingClient::new(
        "80-250-101-43.cloudmatchbeta.nvidiagrid.net".to_string(),
        "session".to_string(),
        1920,
        1080,
        60,
    )
}

fn message(payload: &str) -> GfnPeerMessage {
    GfnPeerMessage {
        ackid: None,
        ack: None,
        peer_info: None,
        peer_msg: Some(GfnPeerMsgContent { from: 1, to: 2, msg: payload.to_string() }),
        hb: None,
    }
}

fn quoted(text: &str) -> String {
    serde_json::to_string(text).unwrap()
}

fn offer() -> String {
    format!("{{\"type\":\"offer\",\"sdp\":{}}}", quoted(OFFER))
}

/// Takes an offer to the point where its answer has gone out.
fn answered(client: &mut SignalingClient, payload: &str) -> (MessageHandler, HandlerAction) {
    let (mut handler, action) = MessageHandler::begin(message(payload));
    assert!(matches!(action, HandlerAction::SetRemoteDescription(_)));
    let action = handler.report(client, HandlerEvent::Done);
    assert!(matches!(action, HandlerAction::CreateAnswer));
    let action = handler.report(client, HandlerEvent::Answer("a=created\r\n".to_string()));
    assert!(matches!(action, HandlerAction::SetLocalDescription));
    let action = handler.report(client, HandlerEvent::Done);
    assert!(matches!(action, HandlerAction::CheckGathering));
    let action = handler.report(
        client,
        HandlerEvent::Gathering { local: None, elapsed_ms: 10, complete: true },
    );
    assert!(matches!(action, HandlerAction::ReadLocalDescription));
    let action = handler.report(
        client,
        HandlerEvent::Local(Some("a=ice-ufrag:loc\r\na=ice-pwd:pw\r\n".to_string())),
    );
    (handler, action)
}

#[test]
fn signing_in() {
    let mut client = client();
    assert!(client.send_input(&[1]).is_none());
    let sign_in = client.connect_as(123_456_789_012);
    assert_eq!(sign_in.peer_name, "peer-3456789012");
    assert_eq!(
        sign_in.url,
        "wss://80-250-101-43.cloudmatchbeta.nvidiagrid.net/nvst/sign_in?peer_id=peer-3456789012&version=2"
    );
    assert_eq!(sign_in.subprotocol, "x-nv-sessionid.session");
    assert_eq!(client.send_input(&[1, 2]), Some(vec![1, 2]));
}

#[test]
fn random_names_are_names() {
    let mut names = Vec::new();
    for _ in 0..8 {
        let sign_in = client().connect();
        let number: u64 = sign_in.peer_name.strip_prefix("peer-").unwrap().parse().unwrap();
        assert!(number < 10_000_000_000);
        assert!(sign_in.url.contains(&sign_in.peer_name));
        names.push(number);
    }
    names.dedup();
    assert!(names.len() > 1);
}

#[test]
fn introduction_takes_the_first_number() {
    let mut client = client();
    let message = client.introduce("peer-1".to_string());
    assert_eq!(message.ackid, Some(1));
    let info = message.peer_info.unwrap();
    assert_eq!(info.browser, "Chrome");
    assert_eq!(info.browser_version, "131");
    assert!(info.connected);
    assert_eq!(info.id, 2);
    assert_eq!(info.name, "peer-1");
    assert_eq!(info.peer_role, 0);
    assert_eq!(info.resolution, "1920x1080");
    assert_eq!(info.version, 2);
    assert_eq!(client.next_ack_id(), 2);
    assert_eq!(client.address("x".to_string()).ackid, Some(3));
}

#[test]
fn message_forms() {
    assert_eq!(heartbeat_message().hb, Some(1));
    assert_eq!(ack_message(7).ack, Some(7));
    let content = peer_message(4, "hello".to_string()).peer_msg.unwrap();
    assert_eq!((content.from, content.to), (2, 1));
    assert_eq!(content.msg, "hello");
    let gathered = GatheredCandidate {
        candidate: "c".to_string(),
        sdp_mid: Some("0".to_string()),
        sdp_mline_index: Some(3),
    };
    let message = local_candidate_message(Some(gathered));
    assert_eq!(message.candidate, "c");
    assert_eq!(message.sdp_mid, Some("0".to_string()));
    assert_eq!(message.sdp_mline_index, Some(3));
    let message = local_candidate_message(None);
    assert_eq!(message.candidate, "");
    assert!(message.sdp_mid.is_none());
}

#[test]
fn socket_events() {
    assert!(matches!(
        on_socket_event(SocketEvent::Text("t".to_string())),
        SocketAction::Handle(text) if text == "t"
    ));
    assert!(matches!(
        on_socket_event(SocketEvent::Ping(vec![1])),
        SocketAction::Pong(data) if data == vec![1]
    ));
    assert!(matches!(
        on_socket_event(SocketEvent::Close(None)),
        SocketAction::Finish(SignalingEvent::Disconnected(r)) if r == "Unknown"
    ));
    assert!(matches!(
        on_socket_event(SocketEvent::Close(Some("bye".to_string()))),
        SocketAction::Finish(SignalingEvent::Disconnected(r)) if r == "bye"
    ));
    assert!(matches!(
        on_socket_event(SocketEvent::Failed("io".to_string())),
        SocketAction::Finish(SignalingEvent::Error(r)) if r == "io"
    ));
    assert!(matches!(
        on_socket_event(SocketEvent::Ended),
        SocketAction::Finish(SignalingEvent::Disconnected(r)) if r == "Connection closed"
    ));
    assert!(matches!(on_socket_event(SocketEvent::Other), SocketAction::Ignore));
}

#[test]
fn messages_are_acknowledged() {
    let mut incoming = message("{}");
    incoming.ackid = Some(9);
    let (mut handler, action) = MessageHandler::begin(incoming);
    assert!(matches!(action, HandlerAction::Send(m) if m.ack == Some(9) && m.hb.is_none()));
    let action = handler.report(&mut client(), HandlerEvent::Done);
    assert!(matches!(action, HandlerAction::Finish(Ok(()))));
}

#[test]
fn own_introduction_is_not_acknowledged() {
    let incoming = GfnPeerMessage {
        ackid: Some(1),
        ack: None,
        peer_info: Some(GfnPeerInfo {
            browser: String::new(),
            browser_version: String::new(),
            connected: true,
            id: 2,
            name: String::new(),
            peer_role: 0,
            resolution: String::new(),
            version: 2,
        }),
        peer_msg: None,
        hb: None,
    };
    let (_, action) = MessageHandler::begin(incoming);
    assert!(matches!(action, HandlerAction::Finish(Ok(()))));
}

#[test]
fn heartbeats_are_answered() {
    let mut incoming = message("not looked at");
    incoming.hb = Some(1);
    incoming.ackid = Some(3);
    let mut client = client();
    let (mut handler, action) = MessageHandler::begin(incoming);
    assert!(matches!(action, HandlerAction::Send(m) if m.ack == Some(3)));
    let action = handler.report(&mut client, HandlerEvent::Done);
    assert!(matches!(action, HandlerAction::Send(m) if m.hb == Some(1)));
    let action = handler.report(&mut client, HandlerEvent::Done);
    assert!(matches!(action, HandlerAction::Finish(Ok(()))));
}

#[test]
fn offers_are_answered() {
    let mut client = client();
    client.next_ack_id();
    let (_, action) = answered(&mut client, &offer());
    match action {
        HandlerAction::SendAnswer(id, answer) => {
            assert_eq!(id, 2);
            assert_eq!(answer.msg_type, "answer");
            assert_eq!(answer.sdp.unwrap(), "a=ice-ufrag:loc\r\na=ice-pwd:pw\r\n");
            let nvst = answer.nvst_sdp.unwrap();
            assert!(nvst.contains("a=general.icePassword:pw\n"));
            assert!(nvst.contains("a=video.clientViewportWd:1920\n"));
        }
        other => panic!("{:?}", other),
    }
    assert_eq!(client.ack_id, 2);
}

#[test]
fn created_answer_is_used_without_a_local_description() {
    let mut client = client();
    let (mut handler, _) = MessageHandler::begin(message(&offer()));
    handler.report(&mut client, HandlerEvent::Done);
    handler.report(&mut client, HandlerEvent::Answer("a=ice-ufrag:new\r\n".to_string()));
    handler.report(&mut client, HandlerEvent::Done);
    let action = handler.report(
        &mut client,
        HandlerEvent::Gathering { local: None, elapsed_ms: 999, complete: false },
    );
    assert!(matches!(action, HandlerAction::SleepMs(100)));
    let action = handler.report(&mut client, HandlerEvent::Done);
    assert!(matches!(action, HandlerAction::CheckGathering));
    let action = handler.report(
        &mut client,
        HandlerEvent::Gathering { local: None, elapsed_ms: 1000, complete: false },
    );
    assert!(matches!(action, HandlerAction::ReadLocalDescription));
    let action = handler.report(&mut client, HandlerEvent::Local(None));
    assert!(
        matches!(action, HandlerAction::SendAnswer(1, a) if a.sdp == Some("a=ice-ufrag:new\r\n".to_string()))
    );
}

#[test]
fn manual_candidate_is_tried_on_four_lines() {
    let mut client = client();
    let (mut handler, _) = answered(&mut client, &offer());
    let mut action = handler.report(&mut client, HandlerEvent::Done);
    for line in 0..4u16 {
        match action {
            HandlerAction::AddCandidate(candidate) => {
                assert_eq!(
                    candidate.candidate,
                    "candidate:1 1 udp 2130706431 80.250.101.43 5004 typ host"
                );
                assert_eq!(candidate.sdp_mid, line.to_string());
                assert_eq!(candidate.sdp_mline_index, line);
                assert_eq!(candidate.username_fragment, Some("srv".to_string()));
            }
            other => panic!("{:?}", other),
        }
        action = handler.report(&mut client, HandlerEvent::Failed("no such line".to_string()));
    }
    assert!(matches!(action, HandlerAction::Finish(Ok(()))));
}

#[test]
fn manual_candidate_stops_at_the_first_success() {
    let mut client = client();
    let (mut handler, _) = answered(&mut client, &offer());
    handler.report(&mut client, HandlerEvent::Done);
    handler.report(&mut client, HandlerEvent::Failed(String::new()));
    let action = handler.report(&mut client, HandlerEvent::Done);
    assert!(matches!(action, HandlerAction::Finish(Ok(()))));
}

#[test]
fn full_servers_get_no_manual_candidate() {
    let mut client = client();
    let payload = format!("{{\"type\":\"offer\",\"sdp\":{}}}", quoted("v=0\r\n"));
    let (mut handler, _) = answered(&mut client, &payload);
    let action = handler.report(&mut client, HandlerEvent::Done);
    assert!(matches!(action, HandlerAction::Finish(Ok(()))));
}

#[test]
fn trickled_candidates() {
    let payload = "{\"candidate\":\"cand\",\"sdpMid\":\"2\",\"sdpMLineIndex\":65538}";
    let (mut handler, action) = MessageHandler::begin(message(payload));
    match action {
        HandlerAction::AddCandidate(candidate) => {
            assert_eq!(candidate.candidate, "cand");
            assert_eq!(candidate.sdp_mid, "2");
            assert_eq!(candidate.sdp_mline_index, 2);
            assert!(candidate.username_fragment.is_none());
        }
        other => panic!("{:?}", other),
    }
    let action = handler.report(&mut client(), HandlerEvent::Failed("late".to_string()));
    assert!(matches!(action, HandlerAction::Finish(Ok(()))));
}

#[test]
fn trickled_candidates_have_defaults() {
    let payload = "{\"candidate\":\"cand\",\"sdpMid\":7,\"sdpMLineIndex\":-1}";
    let (_, action) = MessageHandler::begin(message(payload));
    match action {
        HandlerAction::AddCandidate(candidate) => {
            assert_eq!(candidate.sdp_mid, "0");
            assert_eq!(candidate.sdp_mline_index, 0);
        }
        other => panic!("{:?}", other),
    }
    for payload in ["{\"candidate\":\"\"}", "{\"candidate\":null}", "[1]", "{\"type\":\"bye\"}"] {
        let (_, action) = MessageHandler::begin(message(payload));
        assert!(matches!(action, HandlerAction::Finish(Ok(()))));
    }
}

#[test]
fn broken_payloads_are_refused() {
    let (_, action) = MessageHandler::begin(message("{"));
    assert!(matches!(action, HandlerAction::Finish(Err(HandlerError::Payload(_)))));
    let (_, action) = MessageHandler::begin(message("{\"type\":\"offer\",\"sdp\":1}"));
    match action {
        HandlerAction::Finish(Err(error)) => {
            assert!(matches!(error, HandlerError::MissingSdp));
            assert_eq!(error.message(), Some("Missing SDP in offer".to_string()));
        }
        other => panic!("{:?}", other),
    }
}

#[test]
fn failed_requests_end_the_handling() {
    let mut client = client();
    let (mut handler, _) = MessageHandler::begin(message(&offer()));
    let action = handler.report(&mut client, HandlerEvent::Failed("bad offer".to_string()));
    match action {
        HandlerAction::Finish(Err(error)) => {
            assert_eq!(error.message(), Some("bad offer".to_string()))
        }
        other => panic!("{:?}", other),
    }
}

#[test]
fn gathering() {
    assert!(keep_gathering(&None, 0, false));
    assert!(keep_gathering(&Some("typ host".to_string()), 999, false));
    assert!(!keep_gathering(&Some("a=candidate typ srflx".to_string()), 0, false));
    assert!(!keep_gathering(&None, 1000, false));
    assert!(!keep_gathering(&None, 0, true));
}

#[test]
fn peer_connection_settings() {
    let video = video_codec();
    assert_eq!((video.mime_type, video.clock_rate, video.payload_type), ("video/H264", 90000, 96));
    let audio = audio_codec();
    assert_eq!((audio.mime_type, audio.channels, audio.payload_type), ("audio/opus", 2, 111));
    assert_eq!(ice_settings().stun_server, "stun:turn.gamestream.nvidia.com:19302");
    assert_eq!(ice_settings().candidate_pool_size, 2);
    let input = input_channel_settings();
    assert_eq!((input.label, input.ordered, input.max_retransmits), ("input_channel_v1", false, 0));
}

#[test]
fn peer_states() {
    assert!(matches!(on_peer_state(PeerState::Connected), Some(SignalingEvent::Connected)));
    assert!(matches!(
        on_peer_state(PeerState::Disconnected),
        Some(SignalingEvent::Disconnected(r)) if r == "Peer disconnected"
    ));
    assert!(matches!(
        on_peer_state(PeerState::Failed),
        Some(SignalingEvent::Error(r)) if r == "Connection failed"
    ));
    assert!(on_peer_state(PeerState::Other).is_none());
}

#[test]
fn track_packets() {
    assert!(on_track_packet("video", Bytes::new()).is_none());
    assert!(matches!(
        on_track_packet("video", Bytes::from(vec![1, 2])),
        Some(SignalingEvent::VideoPacket(p)) if p[..] == [1, 2]
    ));
    assert!(matches!(
        on_track_packet("audio", Bytes::from(vec![3])),
        Some(SignalingEvent::AudioPacket(p)) if p[..] == [3]
    ));
}

#[test]
fn input_labels() {
    assert!(is_input_label("input_channel_v1"));
    assert!(is_input_label("x_ri_y"));
    assert!(!is_input_label("control"));
}

#[test]
fn handshakes() {
    assert_eq!(read_handshake(&[0x0e, 0x02, 0x03, 0x00]), Some(3));
    assert_eq!(read_handshake(&[0x0e, 0x02]), Some(526));
    assert_eq!(read_handshake(&[1, 2, 3, 4]), Some(0x0403));
    assert_eq!(read_handshake(&[0x0e, 0x02, 1, 1, 9]), Some(0x0101));
    assert_eq!(read_handshake(&[1, 2, 3]), None);
    assert_eq!(read_handshake(&[0x0e]), None);
    assert!(matches!(
        on_server_message(&[0x0e, 0x02, 0, 0]),
        Some(SignalingEvent::InputReady)
    ));
    assert!(on_server_message(&[7, 7]).is_none());
}

#[test]
fn handshake_decides_the_wrapper() {
    let mut channel = InputChannel::new();
    assert!(channel.packet(true, 0, &[1]).is_none());
    channel.on_open();
    assert!(channel.packet(false, 0, &[1]).is_none());
    assert_eq!(channel.packet(true, 0, &[1]).unwrap()[..], [1]);
    assert!(channel.on_message(&[5, 5], 10).is_none());
    let (echo, event) = channel.on_message(&[0x0e, 0x02, 3, 0], 1000).unwrap();
    assert!(matches!(event, SignalingEvent::InputReady));
    assert_eq!(echo[..], [0x0e, 0x02, 3, 0]);
    assert_eq!(channel.protocol_version, 3);
    let packet = channel.packet(true, 1258, &[7, 8]).unwrap();
    assert_eq!(packet[..], [0x23, 0, 0, 0, 0, 0, 0, 1, 2, 0x22, 7, 8]);
    let packet = channel.packet(true, 3, &[7]).unwrap();
    assert_eq!(packet[..], [0x23, 0, 0, 0, 0, 0, 0, 0, 0, 0x22, 7]);
    channel.on_message(&[0x0e, 0x02, 2, 0], 2000);
    assert_eq!(channel.packet(true, 3000, &[7]).unwrap()[..], [7]);
}

#[test]
fn wrapping_adds_ten_bytes() {
    assert_eq!(wrap_input(3, 5, &[1, 2, 3]).len(), 13);
    assert_eq!(wrap_input(3, 5, &[1, 2, 3])[10..], [1, 2, 3]);
    assert_ne!(wrap_input(3, 5, &[1]), wrap_input(3, 6, &[1]));
    assert_eq!(wrap_input(2, 5, &[1, 2, 3]).len(), 3);
}

#[test]
fn heartbeat_period_and_queues() {
    assert_eq!(HEARTBEAT_PERIOD_MS, 5000);
    assert_eq!((EVENT_QUEUE_LEN, INPUT_QUEUE_LEN), (8, 16));
}
