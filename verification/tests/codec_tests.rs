use mumble_client::codec::{decode_message, encode_frame, encode_frame_checked,
    encode_message_payload, known_tag, packet_tag, packet_wf_check, try_take_frame, FrameStep};
use mumble_client::packets::{AuthenticateData, ChannelRemoveData, ChannelStatePacket,
    ControlPacket, PingData, ServerConfigData, ServerSyncData, TextMessageData, UserRemoveData,
    UserStatePacket, VersionData};

fn assert_same_packet(a: &ControlPacket, b: &ControlPacket) {
    match (a, b) {
        (ControlPacket::Version(x), ControlPacket::Version(y)) => {
            assert_eq!(x.version, y.version);
            assert_eq!(x.release, y.release);
            assert_eq!(x.os, y.os);
            assert_eq!(x.os_version, y.os_version);
        }
        (ControlPacket::Authenticate(x), ControlPacket::Authenticate(y)) => {
            assert_eq!(x.username, y.username);
            assert_eq!(x.password, y.password);
            assert_eq!(x.opus, y.opus);
        }
        (ControlPacket::Ping(x), ControlPacket::Ping(y)) => {
            assert_eq!(x.timestamp, y.timestamp);
        }
        (ControlPacket::ServerSync(x), ControlPacket::ServerSync(y)) => {
            assert_eq!(x.session, y.session);
            assert_eq!(x.max_bandwidth, y.max_bandwidth);
            assert_eq!(x.welcome_text, y.welcome_text);
        }
        (ControlPacket::ChannelRemove(x), ControlPacket::ChannelRemove(y)) => {
            assert_eq!(x.channel_id, y.channel_id);
        }
        (ControlPacket::ChannelState(x), ControlPacket::ChannelState(y)) => {
            assert_eq!(x.channel_id, y.channel_id);
            assert_eq!(x.parent, y.parent);
            assert_eq!(x.name, y.name);
            assert_eq!(x.description, y.description);
            assert_eq!(x.max_users, y.max_users);
        }
        (ControlPacket::UserRemove(x), ControlPacket::UserRemove(y)) => {
            assert_eq!(x.session, y.session);
        }
        (ControlPacket::UserState(x), ControlPacket::UserState(y)) => {
            assert_eq!(x.session, y.session);
            assert_eq!(x.user_id, y.user_id);
            assert_eq!(x.channel_id, y.channel_id);
            assert_eq!(x.name, y.name);
            assert_eq!(x.self_mute, y.self_mute);
            assert_eq!(x.self_deaf, y.self_deaf);
        }
        (ControlPacket::TextMessage(x), ControlPacket::TextMessage(y)) => {
            assert_eq!(x.actor, y.actor);
            assert_eq!(x.message, y.message);
        }
        (ControlPacket::Other(tx, px), ControlPacket::Other(ty, py)) => {
            assert_eq!(tx, ty);
            assert_eq!(px, py);
        }
        (ControlPacket::ServerConfig(x), ControlPacket::ServerConfig(y)) => {
            assert_eq!(x.max_bandwidth, y.max_bandwidth);
            assert_eq!(x.welcome_text, y.welcome_text);
            assert_eq!(x.allow_html, y.allow_html);
            assert_eq!(x.message_length, y.message_length);
            assert_eq!(x.image_message_length, y.image_message_length);
            assert_eq!(x.max_users, y.max_users);
        }
        _ => panic!("packet variants differ"),
    }
}

fn round_trip(p: ControlPacket) {
    assert!(packet_wf_check(&p));
    let frame = encode_frame(&p);
    match try_take_frame(frame.as_slice()) {
        FrameStep::Frame(tag, payload, consumed) => {
            assert_eq!(tag, packet_tag(&p));
            assert_eq!(consumed, frame.len());
            let decoded = decode_message(tag, payload.as_slice()).expect("must decode");
            assert_same_packet(&p, &decoded);
        }
        FrameStep::NeedMoreData => panic!("a whole frame must split off"),
    }
}

#[test]
fn every_defined_type_round_trips() {
    round_trip(ControlPacket::Version(VersionData {
        version: 0x10512,
        release: "client:0.0.1".to_string(),
        os: "Linux".to_string(),
        os_version: "6.1".to_string(),
    }));
    round_trip(ControlPacket::Authenticate(AuthenticateData {
        username: "Ålice".to_string(),
        password: Some("SECRET-REDACTED".to_string()),
        opus: true,
    }));
    round_trip(ControlPacket::Authenticate(AuthenticateData {
        username: "".to_string(),
        password: None,
        opus: false,
    }));
    round_trip(ControlPacket::Ping(PingData { timestamp: u64::MAX }));
    round_trip(ControlPacket::ServerSync(ServerSyncData {
        session: Some(42),
        max_bandwidth: None,
        welcome_text: Some("wélcome ❤".to_string()),
    }));
    round_trip(ControlPacket::ChannelRemove(ChannelRemoveData { channel_id: 0 }));
    round_trip(ControlPacket::ChannelState(ChannelStatePacket {
        channel_id: Some(7),
        parent: Some(0),
        name: Some("Root".to_string()),
        description: None,
        max_users: Some(u32::MAX),
    }));
    round_trip(ControlPacket::UserRemove(UserRemoveData { session: 5 }));
    round_trip(ControlPacket::UserState(UserStatePacket {
        session: Some(5),
        user_id: None,
        channel_id: Some(2),
        name: Some("Alice".to_string()),
        self_mute: Some(true),
        self_deaf: Some(false),
    }));
    round_trip(ControlPacket::TextMessage(TextMessageData {
        actor: Some(5),
        message: "hi".to_string(),
    }));
    round_trip(ControlPacket::ServerConfig(ServerConfigData {
        max_bandwidth: Some(72000),
        welcome_text: Some("".to_string()),
        allow_html: Some(false),
        message_length: None,
        image_message_length: Some(131072),
        max_users: None,
    }));
    round_trip(ControlPacket::Other(20, vec![0xde, 0xad, 0xbe, 0xef]));
    round_trip(ControlPacket::Other(1, vec![]));
}

#[test]
fn incomplete_frames_ask_for_more_data() {
    assert!(matches!(try_take_frame(&[]), FrameStep::NeedMoreData));
    assert!(matches!(try_take_frame(&[0, 0, 1, 0, 0]), FrameStep::NeedMoreData));
    // header promises one payload byte that has not arrived yet
    assert!(matches!(try_take_frame(&[3, 0, 1, 0, 0, 0]), FrameStep::NeedMoreData));
}

#[test]
fn frame_splitting_leaves_following_bytes_alone() {
    let p = ControlPacket::Ping(PingData { timestamp: 99 });
    let mut bytes = encode_frame(&p);
    let frame_len = bytes.len();
    bytes.extend_from_slice(&[7, 7, 7]);
    match try_take_frame(bytes.as_slice()) {
        FrameStep::Frame(tag, _, consumed) => {
            assert_eq!(tag, packet_tag(&p));
            assert_eq!(consumed, frame_len);
        }
        FrameStep::NeedMoreData => panic!("the first frame is complete"),
    }
}

#[test]
fn malformed_payloads_are_rejected_not_crashed() {
    // a truncated user-state payload
    assert!(decode_message(9, &[1]).is_none());
    // a presence byte that is neither absent nor present
    assert!(decode_message(9, &[2]).is_none());
    // a boolean byte that is neither 0 nor 1
    assert!(decode_message(2, &[0, 0, 0, 0, 0, 7]).is_none());
    // a string whose bytes are not valid UTF-8
    assert!(decode_message(11, &[0, 1, 0, 0, 0, 0xff]).is_none());
    // trailing bytes after a complete message
    let ping = encode_message_payload(&ControlPacket::Ping(PingData { timestamp: 1 }));
    let mut padded = ping.clone();
    padded.push(0);
    assert!(decode_message(3, padded.as_slice()).is_none());
    assert!(decode_message(3, ping.as_slice()).is_some());
}

#[test]
fn unknown_tags_decode_without_error() {
    let decoded = decode_message(21, &[9, 9]).expect("unknown types are carried through");
    match decoded {
        ControlPacket::Other(tag, payload) => {
            assert_eq!(tag, 21);
            assert_eq!(payload, vec![9, 9]);
        }
        _ => panic!("expected an uninterpreted packet"),
    }
    assert!(!known_tag(21));
    assert!(known_tag(9));
}

#[test]
fn oversized_strings_are_refused_by_the_encoder() {
    let p = ControlPacket::TextMessage(TextMessageData {
        actor: None,
        message: "x".repeat(0x10000),
    });
    assert!(!packet_wf_check(&p));
    assert!(encode_frame_checked(&p).is_none());
    let q = ControlPacket::TextMessage(TextMessageData {
        actor: None,
        message: "x".repeat(0xFFFF),
    });
    assert!(encode_frame_checked(&q).is_some());
}

#[test]
fn an_uninterpreted_packet_may_not_claim_an_interpreted_tag() {
    let p = ControlPacket::Other(3, vec![1, 2, 3]);
    assert!(!packet_wf_check(&p));
    let q = ControlPacket::Other(4, vec![1, 2, 3]);
    assert!(packet_wf_check(&q));
}

#[test]
fn frame_layout_is_tag_then_length_then_payload() {
    let frame = encode_frame(&ControlPacket::Ping(PingData { timestamp: 2 }));
    assert_eq!(frame.len(), 6 + 8);
    assert_eq!(&frame[0..2], &[3, 0]);
    assert_eq!(&frame[2..6], &[8, 0, 0, 0]);
    assert_eq!(&frame[6..14], &[2, 0, 0, 0, 0, 0, 0, 0]);
}
