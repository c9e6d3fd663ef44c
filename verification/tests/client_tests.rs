use mumble_client::bridge::{bridge_actions, filter_reported_users, format_joined_text,
    format_status_text, resolve_state_query, PersistentState};
use mumble_client::client_info::{pack_client_version, MumbleClientInfo};
use mumble_client::config::MumbleClientConfig;
use mumble_client::event::MumbleEvent;
use mumble_client::idmap::IdMap;
use mumble_client::packets::ControlPacket;
use mumble_client::routing::{build_authenticate_packet, build_initial_mute_packet,
    build_ping_packet, get_unix_timestamp, inbound_loop_continues, outbound_loop_continues,
    InboundEvent, WriteOutcome, CHANNEL_CAPACITY, PING_INTERVAL_SECS};
use mumble_client::server::ServerState;
use mumble_client::strfmt::decimal_string;
use mumble_client::user::UserState;

fn user(name: &str) -> UserState {
    UserState {
        session_id: 1,
        user_id: None,
        current_channel_id: None,
        name: name.to_string(),
        muted: false,
        deafened: false,
    }
}

#[test]
fn connect_address_joins_host_and_port() {
    let config = MumbleClientConfig {
        server_address: "mumble.example.org".to_string(),
        server_port: 64738,
        override_tls_server_name: None,
        insecure_disable_certificate_verification: false,
        username: "bot".to_string(),
        password: None,
    };
    assert_eq!(config.connect_address(), "mumble.example.org:64738");
}

#[test]
fn decimal_rendering_is_exact() {
    assert_eq!(decimal_string(0), "0");
    assert_eq!(decimal_string(7), "7");
    assert_eq!(decimal_string(10), "10");
    assert_eq!(decimal_string(64738), "64738");
    assert_eq!(decimal_string(u64::MAX), "18446744073709551615");
}

#[test]
fn bot_inference_checks_the_name_suffix() {
    assert!(user("AlphaBot").infer_is_bot_user());
    assert!(user("Bot").infer_is_bot_user());
    assert!(!user("Alice").infer_is_bot_user());
    assert!(!user("robot").infer_is_bot_user());
    assert!(!user("Bo").infer_is_bot_user());
    assert!(!user("").infer_is_bot_user());
    assert!(user("åBot").infer_is_bot_user());
}

#[test]
fn client_version_packs_major_minor_patch() {
    assert_eq!(pack_client_version(1, 5, 18), 66834);
    assert_eq!(pack_client_version(0, 0, 0), 0);
    assert_eq!(pack_client_version(0xFFFF, 0xFF, 0xFF), 0xFFFF_FFFF);
}

#[test]
fn client_identity_reports_release_and_version() {
    let info = MumbleClientInfo::from_system();
    assert_eq!(info.client_release_name, "mumble-client-rs:0.0.1");
    assert_eq!(info.client_version, (1 << 16) | (5 << 8) | 18);
    match info.to_version_packet() {
        ControlPacket::Version(v) => {
            assert_eq!(v.version, 66834);
            assert_eq!(v.release, "mumble-client-rs:0.0.1");
        }
        _ => panic!("expected a version packet"),
    }
}

#[test]
fn timestamps_move_forward() {
    let t = get_unix_timestamp();
    assert!(t > 1_600_000_000);
    assert_eq!(PING_INTERVAL_SECS, 10);
    assert_eq!(CHANNEL_CAPACITY, 32);
}

#[test]
fn handshake_packets_carry_the_configured_values() {
    match build_authenticate_packet(&"Alice".to_string(), &Some("SECRET-REDACTED".to_string())) {
        ControlPacket::Authenticate(a) => {
            assert_eq!(a.username, "Alice");
            assert_eq!(a.password, Some("SECRET-REDACTED".to_string()));
            assert!(a.opus);
        }
        _ => panic!("expected an authenticate packet"),
    }
    match build_initial_mute_packet() {
        ControlPacket::UserState(u) => {
            assert_eq!(u.self_mute, Some(true));
            assert_eq!(u.self_deaf, Some(true));
            assert_eq!(u.session, None);
            assert_eq!(u.name, None);
        }
        _ => panic!("expected a user-state packet"),
    }
    match build_ping_packet(777) {
        ControlPacket::Ping(p) => assert_eq!(p.timestamp, 777),
        _ => panic!("expected a ping packet"),
    }
}

#[test]
fn only_a_broken_connection_stops_the_outbound_loop() {
    assert!(outbound_loop_continues(&WriteOutcome::Sent));
    assert!(outbound_loop_continues(&WriteOutcome::TransientError));
    assert!(!outbound_loop_continues(&WriteOutcome::BrokenConnection));
}

#[test]
fn only_a_closed_stream_stops_the_inbound_loop() {
    assert!(inbound_loop_continues(&InboundEvent::PacketDecoded));
    assert!(inbound_loop_continues(&InboundEvent::CorruptFrame));
    assert!(!inbound_loop_continues(&InboundEvent::StreamClosed));
}

#[test]
fn status_text_counts_and_lists_users() {
    assert_eq!(format_status_text(&vec![]), "0 users online");
    assert_eq!(format_status_text(&vec![user("Alice")]), "1 users online (Alice)");
    assert_eq!(
        format_status_text(&vec![user("Alice"), user("Bob"), user("Eve")]),
        "3 users online (Alice, Bob, Eve)"
    );
    assert_eq!(format_joined_text(&user("Alice")), "Alice joined mumble");
}

#[test]
fn bridge_reacts_to_roster_events_only() {
    let joined = MumbleEvent::UserJoinedServer(user("Alice"));
    let r = bridge_actions(&joined, false);
    assert!(r.refresh_status);
    assert_eq!(r.announce_join, Some("Alice joined mumble".to_string()));

    let bot_joined = MumbleEvent::UserJoinedServer(user("EchoBot"));
    let r = bridge_actions(&bot_joined, true);
    assert!(r.refresh_status);
    assert_eq!(r.announce_join, None);
    let r = bridge_actions(&bot_joined, false);
    assert_eq!(r.announce_join, Some("EchoBot joined mumble".to_string()));

    let left = MumbleEvent::UserLeftServer(user("Alice"));
    let r = bridge_actions(&left, false);
    assert!(r.refresh_status);
    assert_eq!(r.announce_join, None);

    let message = MumbleEvent::TextMessagePosted("hi".to_string(), None);
    let r = bridge_actions(&message, false);
    assert!(!r.refresh_status);
    assert_eq!(r.announce_join, None);
}

#[test]
fn bot_filter_drops_only_bot_looking_users() {
    let users = vec![user("Alice"), user("EchoBot"), user("Bob")];
    let kept = filter_reported_users(users.clone(), true);
    let names: Vec<&str> = kept.iter().map(|u| u.name.as_str()).collect();
    assert_eq!(names, vec!["Alice", "Bob"]);
    let kept = filter_reported_users(users, false);
    assert_eq!(kept.len(), 3);
}

#[test]
fn state_queries_prefer_cache_then_disk_then_default() {
    let cached = PersistentState { mumble_rolling_state_message_id: Some(11) };
    let disk = PersistentState { mumble_rolling_state_message_id: Some(22) };

    let r = resolve_state_query(&Some(cached), &Some(disk));
    assert_eq!(r.reply, cached);
    assert!(!r.write_default && !r.cache_reply);

    let r = resolve_state_query(&None, &Some(disk));
    assert_eq!(r.reply, disk);
    assert!(!r.write_default && !r.cache_reply);

    let r = resolve_state_query(&None, &None);
    assert_eq!(r.reply.mumble_rolling_state_message_id, None);
    assert!(r.write_default && r.cache_reply);
}

#[test]
fn id_map_stores_replaces_and_removes() {
    let mut m: IdMap<u32> = IdMap::new();
    assert_eq!(m.len(), 0);
    assert!(!m.contains(5));
    m.set(5, 50);
    m.set(6, 60);
    m.set(5, 51);
    assert_eq!(m.len(), 2);
    assert_eq!(m.get(5), Some(&51));
    assert_eq!(m.get(6), Some(&60));
    assert_eq!(m.get(7), None);
    assert_eq!(m.remove(7), None);
    assert_eq!(m.remove(5), Some(51));
    assert_eq!(m.len(), 1);
    assert!(!m.contains(5));
}

#[test]
fn server_state_starts_all_absent() {
    let s = ServerState::default();
    assert_eq!(s.user_session_id, None);
    assert_eq!(s.welcome_text, None);
    assert_eq!(s.max_bandwidth, None);
    assert!(!s.startup_finished);
}
