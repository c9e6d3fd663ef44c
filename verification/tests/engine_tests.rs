use mumble_client::engine::{process_inbound_packet, ClientState};
use mumble_client::event::MumbleEvent;
use mumble_client::packets::{ChannelRemoveData, ChannelStatePacket, ControlPacket,
    ServerConfigData, ServerSyncData, TextMessageData, UserRemoveData, UserStatePacket,
    VersionData};

fn channel_packet(id: u32, name: Option<&str>) -> ControlPacket {
    ControlPacket::ChannelState(ChannelStatePacket {
        channel_id: Some(id),
        parent: None,
        name: name.map(|s| s.to_string()),
        description: None,
        max_users: None,
    })
}

fn user_packet(session: u32, name: Option<&str>) -> UserStatePacket {
    UserStatePacket {
        session: Some(session),
        user_id: None,
        channel_id: None,
        name: name.map(|s| s.to_string()),
        self_mute: None,
        self_deaf: None,
    }
}

#[test]
fn channel_state_creates_root_channel() {
    // connect, then a channel-state packet {id=0, name="Root"}
    let mut state = ClientState::new();
    let events = state.handle_control_packet(channel_packet(0, Some("Root")));
    assert_eq!(events.len(), 1);
    match &events[0] {
        MumbleEvent::ChannelCreated(c) => {
            assert_eq!(c.id, 0);
            assert_eq!(c.name, "Root");
            assert_eq!(c.parent_channel_id, None);
        }
        _ => panic!("expected a channel-created event"),
    }
}

#[test]
fn channel_without_name_defaults_to_root_label() {
    let mut state = ClientState::new();
    let events = state.handle_control_packet(channel_packet(3, None));
    match &events[0] {
        MumbleEvent::ChannelCreated(c) => {
            assert_eq!(c.id, 3);
            assert_eq!(c.name, "Root");
        }
        _ => panic!("expected a channel-created event"),
    }
}

#[test]
fn unknown_user_joins_then_switches_channel() {
    // user-state {session=5, name="Alice", self_mute=true} for unknown session 5
    let mut state = ClientState::new();
    let mut first = user_packet(5, Some("Alice"));
    first.self_mute = Some(true);
    let events = state.handle_control_packet(ControlPacket::UserState(first));
    assert_eq!(events.len(), 1);
    match &events[0] {
        MumbleEvent::UserJoinedServer(u) => {
            assert_eq!(u.session_id, 5);
            assert_eq!(u.name, "Alice");
            assert!(u.muted);
            assert!(!u.deafened);
        }
        _ => panic!("expected a user-joined event"),
    }

    // a later packet {session=5, channel_id=2} emits switched-channel then updated
    let mut second = user_packet(5, None);
    second.channel_id = Some(2);
    let events = state.handle_control_packet(ControlPacket::UserState(second));
    assert_eq!(events.len(), 2);
    match (&events[0], &events[1]) {
        (MumbleEvent::UserSwitchedChannel(a), MumbleEvent::UserUpdated(b)) => {
            assert_eq!(a.current_channel_id, Some(2));
            assert_eq!(b.current_channel_id, Some(2));
            assert_eq!(a.name, b.name);
            assert_eq!(a.session_id, b.session_id);
            assert_eq!(a.muted, b.muted);
            assert_eq!(a.deafened, b.deafened);
            assert_eq!(a.user_id, b.user_id);
        }
        _ => panic!("expected switched-channel then updated"),
    }
}

#[test]
fn unchanged_update_emits_no_event() {
    // a packet that reports nothing different produces zero events
    let mut state = ClientState::new();
    state.handle_control_packet(channel_packet(7, Some("Lobby")));
    let events = state.handle_control_packet(channel_packet(7, Some("Lobby")));
    assert_eq!(events.len(), 0);

    let mut first = user_packet(5, Some("Alice"));
    first.self_mute = Some(false);
    state.handle_control_packet(ControlPacket::UserState(first.clone()));
    let events = state.handle_control_packet(ControlPacket::UserState(first));
    assert_eq!(events.len(), 0);
}

#[test]
fn update_for_unknown_id_creates_never_updates() {
    let mut state = ClientState::new();
    let events = state.handle_control_packet(channel_packet(9, Some("Den")));
    assert_eq!(events.len(), 1);
    assert!(matches!(events[0], MumbleEvent::ChannelCreated(_)));

    let events = state.handle_control_packet(ControlPacket::UserState(user_packet(4, None)));
    assert_eq!(events.len(), 1);
    match &events[0] {
        MumbleEvent::UserJoinedServer(u) => assert_eq!(u.name, "Unknown"),
        _ => panic!("expected a user-joined event"),
    }
}

#[test]
fn removing_unknown_ids_is_a_silent_noop() {
    let mut state = ClientState::new();
    state.handle_control_packet(channel_packet(1, Some("Hall")));
    state.handle_control_packet(ControlPacket::UserState(user_packet(5, Some("Alice"))));

    let events = state
        .handle_control_packet(ControlPacket::ChannelRemove(ChannelRemoveData { channel_id: 99 }));
    assert_eq!(events.len(), 0);
    let events =
        state.handle_control_packet(ControlPacket::UserRemove(UserRemoveData { session: 99 }));
    assert_eq!(events.len(), 0);
    assert_eq!(state.channels.len(), 1);
    assert_eq!(state.users.len(), 1);
}

#[test]
fn removing_known_ids_emits_deleted_and_left() {
    let mut state = ClientState::new();
    state.handle_control_packet(channel_packet(1, Some("Hall")));
    state.handle_control_packet(ControlPacket::UserState(user_packet(5, Some("Alice"))));

    let events = state
        .handle_control_packet(ControlPacket::ChannelRemove(ChannelRemoveData { channel_id: 1 }));
    assert_eq!(events.len(), 1);
    match &events[0] {
        MumbleEvent::ChannelDeleted(c) => assert_eq!(c.name, "Hall"),
        _ => panic!("expected a channel-deleted event"),
    }
    let events =
        state.handle_control_packet(ControlPacket::UserRemove(UserRemoveData { session: 5 }));
    assert_eq!(events.len(), 1);
    match &events[0] {
        MumbleEvent::UserLeftServer(u) => assert_eq!(u.name, "Alice"),
        _ => panic!("expected a user-left event"),
    }
    assert_eq!(state.channels.len(), 0);
    assert_eq!(state.users.len(), 0);
}

#[test]
fn channel_updates_keep_last_written_fields() {
    // across a run of updates, every field holds the last value ever
    // reported, and a field never reported keeps its initial value
    let mut state = ClientState::new();
    state.handle_control_packet(channel_packet(2, Some("First")));

    let mut p1 = ChannelStatePacket {
        channel_id: Some(2),
        parent: Some(0),
        name: None,
        description: Some("old words".to_string()),
        max_users: None,
    };
    state.handle_control_packet(ControlPacket::ChannelState(p1.clone()));
    p1.parent = Some(1);
    p1.description = None;
    p1.name = Some("Second".to_string());
    state.handle_control_packet(ControlPacket::ChannelState(p1));

    let ch = state.channels.get(2).expect("channel must exist");
    assert_eq!(ch.name, "Second");
    assert_eq!(ch.parent_channel_id, Some(1));
    assert_eq!(ch.description, Some("old words".to_string()));
    assert_eq!(ch.max_users, None);
}

#[test]
fn server_sync_opens_the_gate_without_an_event() {
    // server-sync with session=42: the aggregate learns the session,
    // the flag flips, nothing crosses the bus for this message, and
    // everything after it does
    let mut state = ClientState::new();
    let mut gate = false;

    // before the sync, events are computed but not forwarded
    let out = process_inbound_packet(&mut state, &mut gate, channel_packet(0, Some("Root")));
    assert!(out.is_empty());
    assert!(!gate);
    assert_eq!(state.channels.len(), 1);

    let sync = ControlPacket::ServerSync(ServerSyncData {
        session: Some(42),
        max_bandwidth: None,
        welcome_text: Some("hello".to_string()),
    });
    let out = process_inbound_packet(&mut state, &mut gate, sync);
    assert!(out.is_empty());
    assert!(gate);
    assert_eq!(state.server.user_session_id, Some(42));
    assert_eq!(state.server.welcome_text, Some("hello".to_string()));
    assert!(state.server.startup_finished);

    // after the sync, every event is forwarded in produced order
    let mut mover = user_packet(5, Some("Alice"));
    mover.channel_id = Some(1);
    let out = process_inbound_packet(&mut state, &mut gate, ControlPacket::UserState(mover));
    assert_eq!(out.len(), 1);
    assert!(matches!(out[0], MumbleEvent::UserJoinedServer(_)));
    let mut mover = user_packet(5, None);
    mover.channel_id = Some(2);
    let out = process_inbound_packet(&mut state, &mut gate, ControlPacket::UserState(mover));
    assert_eq!(out.len(), 2);
    assert!(matches!(out[0], MumbleEvent::UserSwitchedChannel(_)));
    assert!(matches!(out[1], MumbleEvent::UserUpdated(_)));
}

#[test]
fn server_sync_absent_fields_leave_prior_values() {
    // a limits packet fills the welcome text and bandwidth before the
    // replay completes; the sync packet reports neither, so both stay
    let mut state = ClientState::new();
    state.handle_control_packet(ControlPacket::ServerConfig(ServerConfigData {
        max_bandwidth: Some(72000),
        welcome_text: Some("hello".to_string()),
        allow_html: None,
        message_length: None,
        image_message_length: None,
        max_users: None,
    }));
    let events = state.handle_control_packet(ControlPacket::ServerSync(ServerSyncData {
        session: Some(42),
        max_bandwidth: None,
        welcome_text: None,
    }));
    assert!(events.is_empty());
    assert_eq!(state.server.user_session_id, Some(42));
    assert_eq!(state.server.welcome_text, Some("hello".to_string()));
    assert_eq!(state.server.max_bandwidth, Some(72000));
    assert!(state.server.startup_finished);
}

#[test]
fn text_message_carries_known_sender_snapshot() {
    // text-message {message:"hi", actor=5} where session 5 is "Alice"
    let mut state = ClientState::new();
    state.handle_control_packet(ControlPacket::UserState(user_packet(5, Some("Alice"))));
    let events = state.handle_control_packet(ControlPacket::TextMessage(TextMessageData {
        actor: Some(5),
        message: "hi".to_string(),
    }));
    assert_eq!(events.len(), 1);
    match &events[0] {
        MumbleEvent::TextMessagePosted(body, Some(sender)) => {
            assert_eq!(body, "hi");
            assert_eq!(sender.name, "Alice");
        }
        _ => panic!("expected a text-message event with a sender snapshot"),
    }

    let events = state.handle_control_packet(ControlPacket::TextMessage(TextMessageData {
        actor: Some(99),
        message: "void".to_string(),
    }));
    match &events[0] {
        MumbleEvent::TextMessagePosted(_, None) => {}
        _ => panic!("an unknown sender leaves no snapshot"),
    }
}

#[test]
fn version_packet_replaces_server_info_unconditionally() {
    let mut state = ClientState::new();
    let version = VersionData {
        version: 0x10203,
        release: "srv".to_string(),
        os: "linux".to_string(),
        os_version: "6".to_string(),
    };
    let events = state.handle_control_packet(ControlPacket::Version(version));
    assert_eq!(events.len(), 1);
    assert!(matches!(events[0], MumbleEvent::ServerStateUpdated(_)));
    assert_eq!(state.server.server_info.as_ref().unwrap().version, 0x10203);
}

#[test]
fn server_config_diffs_and_repeats_are_silent() {
    let mut state = ClientState::new();
    let cfg = ServerConfigData {
        max_bandwidth: Some(72000),
        welcome_text: None,
        allow_html: Some(true),
        message_length: Some(5000),
        image_message_length: None,
        max_users: Some(100),
    };
    let events = state.handle_control_packet(ControlPacket::ServerConfig(cfg.clone()));
    assert_eq!(events.len(), 1);
    assert!(matches!(events[0], MumbleEvent::ServerStateUpdated(_)));
    assert_eq!(state.server.max_message_length, Some(5000));
    assert_eq!(state.server.max_users, Some(100));

    let events = state.handle_control_packet(ControlPacket::ServerConfig(cfg));
    assert_eq!(events.len(), 0);
}

#[test]
fn ignored_packet_types_produce_nothing() {
    let mut state = ClientState::new();
    let events = state.handle_control_packet(ControlPacket::Other(20, vec![1, 2, 3]));
    assert_eq!(events.len(), 0);
    assert_eq!(state.channels.len(), 0);
    assert_eq!(state.users.len(), 0);
}

#[test]
fn online_users_reports_every_known_session() {
    let mut state = ClientState::new();
    state.handle_control_packet(ControlPacket::UserState(user_packet(5, Some("Alice"))));
    state.handle_control_packet(ControlPacket::UserState(user_packet(6, Some("Bob"))));
    let users = state.get_current_online_users();
    assert_eq!(users.len(), 2);
    let names: Vec<&str> = users.iter().map(|u| u.name.as_str()).collect();
    assert!(names.contains(&"Alice"));
    assert!(names.contains(&"Bob"));
}
