//! The state-reconstruction engine: canonical aggregates for the
//! server, every channel and every connected user, updated by applying
//! each inbound packet as a diff, plus the suppression of events to
//! external subscribers until the initial full-state replay has
//! completed.
use vstd::prelude::*;
use crate::channel::{spec_channel_apply, spec_channel_events, ChannelState, ChannelStateV};
use crate::event::{evs_view, MumbleEvent, MumbleEventV};
use crate::idmap::IdMap;
use crate::packets::{ChannelStatePacketV, ControlPacket, PacketV, UserStatePacketV};
use crate::server::{spec_server_config_apply, spec_server_config_events, spec_server_initial,
    spec_server_sync_apply, ServerState, ServerStateV};
use crate::user::{spec_user_apply, spec_user_events, UserState, UserStateV};

verus! {

/// Everything the client knows about the server's world: the server
/// aggregate and the id-keyed channel and user aggregates. It is the
/// only mutable shared state of a connection.
pub struct ClientState {
    pub server: ServerState,
    pub channels: IdMap<ChannelState>,
    pub users: IdMap<UserState>,
}

/// Mathematical mirror of `ClientState`.
pub ghost struct ClientStateV {
    pub server: ServerStateV,
    pub channels: Map<u32, ChannelStateV>,
    pub users: Map<u32, UserStateV>,
}

impl View for ClientState {
    type V = ClientStateV;

    open spec fn view(&self) -> ClientStateV {
        ClientStateV {
            server: self.server@,
            channels: self.channels@.map_values(|c: ChannelState| c@),
            users: self.users@.map_values(|u: UserState| u@),
        }
    }
}

impl ClientState {
    /// Well-formedness: the two id maps are well formed and every
    /// aggregate sits under its own id.
    pub open spec fn wf(&self) -> bool {
        &&& self.channels.wf()
        &&& self.users.wf()
        &&& forall|k: u32|
            self.channels@.contains_key(k) ==> (#[trigger] self.channels@[k]).id == k
        &&& forall|k: u32|
            self.users@.contains_key(k) ==> (#[trigger] self.users@[k]).session_id == k
    }
}

/// The state a connection starts from: default server aggregate, no
/// channels, no users.
pub open spec fn spec_client_initial() -> ClientStateV {
    ClientStateV {
        server: spec_server_initial(),
        channels: Map::<u32, ChannelStateV>::empty(),
        users: Map::<u32, UserStateV>::empty(),
    }
}

/// The channel aggregate constructed on first sighting of an id: the
/// fields the packet supplies, with the designated root label standing
/// in for an unreported name.
pub open spec fn spec_channel_create(p: ChannelStatePacketV) -> ChannelStateV {
    ChannelStateV {
        id: p.channel_id->0,
        parent_channel_id: p.parent,
        name: if p.name is Some {
            p.name->0
        } else {
            "Root"@
        },
        description: p.description,
        max_users: p.max_users,
    }
}

/// The user aggregate constructed on first sighting of a session id:
/// the fields the packet supplies, a placeholder name when unreported,
/// absent mute and deafen flags read as false.
pub open spec fn spec_user_create(p: UserStatePacketV) -> UserStateV {
    UserStateV {
        session_id: p.session->0,
        user_id: p.user_id,
        current_channel_id: p.channel_id,
        name: if p.name is Some {
            p.name->0
        } else {
            "Unknown"@
        },
        muted: if p.self_mute is Some {
            p.self_mute->0
        } else {
            false
        },
        deafened: if p.self_deaf is Some {
            p.self_deaf->0
        } else {
            false
        },
    }
}

/// One step of the engine: the state after applying one packet, and
/// the events that packet produces, under the per-message update
/// policy.
pub open spec fn spec_handle(s: ClientStateV, p: PacketV) -> (ClientStateV, Seq<MumbleEventV>) {
    match p {
        PacketV::ServerSync(d) => (
            ClientStateV { server: spec_server_sync_apply(s.server, d), ..s },
            Seq::<MumbleEventV>::empty(),
        ),
        PacketV::ServerConfig(d) => (
            ClientStateV { server: spec_server_config_apply(s.server, d), ..s },
            spec_server_config_events(s.server, d),
        ),
        PacketV::Version(v) => {
            let server = ServerStateV { server_info: Option::Some(v), ..s.server };
            (
                ClientStateV { server, ..s },
                seq![MumbleEventV::ServerStateUpdated(server)],
            )
        },
        PacketV::ChannelState(c) => {
            if c.channel_id is None {
                (s, Seq::<MumbleEventV>::empty())
            } else {
                let id = c.channel_id->0;
                if s.channels.contains_key(id) {
                    let ch = s.channels[id];
                    (
                        ClientStateV {
                            channels: s.channels.insert(id, spec_channel_apply(ch, c)),
                            ..s
                        },
                        spec_channel_events(ch, c),
                    )
                } else {
                    let nc = spec_channel_create(c);
                    (
                        ClientStateV { channels: s.channels.insert(id, nc), ..s },
                        seq![MumbleEventV::ChannelCreated(nc)],
                    )
                }
            }
        },
        PacketV::ChannelRemove(id) => {
            if s.channels.contains_key(id) {
                (
                    ClientStateV { channels: s.channels.remove(id), ..s },
                    seq![MumbleEventV::ChannelDeleted(s.channels[id])],
                )
            } else {
                (s, Seq::<MumbleEventV>::empty())
            }
        },
        PacketV::UserState(u) => {
            if u.session is None {
                (s, Seq::<MumbleEventV>::empty())
            } else {
                let id = u.session->0;
                if s.users.contains_key(id) {
                    let us = s.users[id];
                    (
                        ClientStateV { users: s.users.insert(id, spec_user_apply(us, u)), ..s },
                        spec_user_events(us, u),
                    )
                } else {
                    let nu = spec_user_create(u);
                    (
                        ClientStateV { users: s.users.insert(id, nu), ..s },
                        seq![MumbleEventV::UserJoinedServer(nu)],
                    )
                }
            }
        },
        PacketV::UserRemove(id) => {
            if s.users.contains_key(id) {
                (
                    ClientStateV { users: s.users.remove(id), ..s },
                    seq![MumbleEventV::UserLeftServer(s.users[id])],
                )
            } else {
                (s, Seq::<MumbleEventV>::empty())
            }
        },
        PacketV::TextMessage(t) => {
            let snapshot = if t.actor is Some && s.users.contains_key(t.actor->0) {
                Option::Some(s.users[t.actor->0])
            } else {
                Option::None
            };
            (s, seq![MumbleEventV::TextMessagePosted(t.message, snapshot)])
        },
        _ => (s, Seq::<MumbleEventV>::empty()),
    }
}

impl ClientState {
    /// The state a connection starts from.
    pub fn new() -> (r: Self)
        ensures
            r.wf(),
            r@ == spec_client_initial(),
    {
        let r = ClientState {
            server: ServerState::default(),
            channels: IdMap::new(),
            users: IdMap::new(),
        };
        proof {
            assert(r@.channels =~= spec_client_initial().channels);
            assert(r@.users =~= spec_client_initial().users);
        }
        r
    }

    /// Applies one inbound packet to the aggregates and returns the
    /// events the change warrants, exactly as `spec_handle` states.
    pub fn handle_control_packet(&mut self, packet: ControlPacket) -> (events: Vec<MumbleEvent>)
        requires
            old(self).wf(),
        ensures
            final(self).wf(),
            final(self)@ == spec_handle(old(self)@, packet@).0,
            evs_view(events@) == spec_handle(old(self)@, packet@).1,
    {
        let ghost s0 = self@;
        let ghost pv = packet@;
        match packet {
            ControlPacket::ServerSync(d) => {
                let events = self.server.update_from_server_sync(d);
                proof {
                    assert(self@ == spec_handle(s0, pv).0);
                }
                events
            },
            ControlPacket::ServerConfig(d) => {
                let events = self.server.update_from_server_config(d);
                proof {
                    assert(self@ == spec_handle(s0, pv).0);
                }
                events
            },
            ControlPacket::Version(v) => {
                self.server.server_info = Option::Some(v);
                let mut events: Vec<MumbleEvent> = Vec::new();
                events.push(MumbleEvent::ServerStateUpdated(self.server.clone()));
                proof {
                    assert(self@ == spec_handle(s0, pv).0);
                    assert(evs_view(events@) =~= spec_handle(s0, pv).1);
                }
                events
            },
            ControlPacket::ChannelState(c) => {
                match c.channel_id {
                    Option::None => {
                        let events: Vec<MumbleEvent> = Vec::new();
                        proof {
                            assert(evs_view(events@) =~= spec_handle(s0, pv).1);
                        }
                        events
                    },
                    Option::Some(id) => {
                        match self.channels.remove(id) {
                            Option::Some(mut ch) => {
                                let events = ch.update_from_channel_state_packet(c);
                                self.channels.set(id, ch);
                                proof {
                                    assert(self@.channels =~= spec_handle(s0, pv).0.channels);
                                    assert(self@ == spec_handle(s0, pv).0);
                                }
                                events
                            },
                            Option::None => {
                                let name = match c.name {
                                    Option::Some(n) => n,
                                    Option::None => "Root".to_owned(),
                                };
                                let nc = ChannelState {
                                    id,
                                    parent_channel_id: c.parent,
                                    name,
                                    description: c.description,
                                    max_users: c.max_users,
                                };
                                let snapshot = nc.clone();
                                self.channels.set(id, nc);
                                let mut events: Vec<MumbleEvent> = Vec::new();
                                events.push(MumbleEvent::ChannelCreated(snapshot));
                                proof {
                                    assert(self@.channels =~= spec_handle(s0, pv).0.channels);
                                    assert(self@ == spec_handle(s0, pv).0);
                                    assert(evs_view(events@) =~= spec_handle(s0, pv).1);
                                }
                                events
                            },
                        }
                    },
                }
            },
            ControlPacket::ChannelRemove(d) => {
                match self.channels.remove(d.channel_id) {
                    Option::Some(ch) => {
                        let mut events: Vec<MumbleEvent> = Vec::new();
                        events.push(MumbleEvent::ChannelDeleted(ch));
                        proof {
                            assert(self@.channels =~= spec_handle(s0, pv).0.channels);
                            assert(self@ == spec_handle(s0, pv).0);
                            assert(evs_view(events@) =~= spec_handle(s0, pv).1);
                        }
                        events
                    },
                    Option::None => {
                        let events: Vec<MumbleEvent> = Vec::new();
                        proof {
                            assert(evs_view(events@) =~= spec_handle(s0, pv).1);
                        }
                        events
                    },
                }
            },
            ControlPacket::UserState(u) => {
                match u.session {
                    Option::None => {
                        let events: Vec<MumbleEvent> = Vec::new();
                        proof {
                            assert(evs_view(events@) =~= spec_handle(s0, pv).1);
                        }
                        events
                    },
                    Option::Some(id) => {
                        match self.users.remove(id) {
                            Option::Some(mut us) => {
                                let events = us.update_from_user_state_packet(u);
                                self.users.set(id, us);
                                proof {
                                    assert(self@.users =~= spec_handle(s0, pv).0.users);
                                    assert(self@ == spec_handle(s0, pv).0);
                                }
                                events
                            },
                            Option::None => {
                                let name = match u.name {
                                    Option::Some(n) => n,
                                    Option::None => "Unknown".to_owned(),
                                };
                                let muted = match u.self_mute {
                                    Option::Some(m) => m,
                                    Option::None => false,
                                };
                                let deafened = match u.self_deaf {
                                    Option::Some(d) => d,
                                    Option::None => false,
                                };
                                let nu = UserState {
                                    session_id: id,
                                    user_id: u.user_id,
                                    current_channel_id: u.channel_id,
                                    name,
                                    muted,
                                    deafened,
                                };
                                let snapshot = nu.clone();
                                self.users.set(id, nu);
                                let mut events: Vec<MumbleEvent> = Vec::new();
                                events.push(MumbleEvent::UserJoinedServer(snapshot));
                                proof {
                                    assert(self@.users =~= spec_handle(s0, pv).0.users);
                                    assert(self@ == spec_handle(s0, pv).0);
                                    assert(evs_view(events@) =~= spec_handle(s0, pv).1);
                                }
                                events
                            },
                        }
                    },
                }
            },
            ControlPacket::UserRemove(d) => {
                match self.users.remove(d.session) {
                    Option::Some(us) => {
                        let mut events: Vec<MumbleEvent> = Vec::new();
                        events.push(MumbleEvent::UserLeftServer(us));
                        proof {
                            assert(self@.users =~= spec_handle(s0, pv).0.users);
                            assert(self@ == spec_handle(s0, pv).0);
                            assert(evs_view(events@) =~= spec_handle(s0, pv).1);
                        }
                        events
                    },
                    Option::None => {
                        let events: Vec<MumbleEvent> = Vec::new();
                        proof {
                            assert(evs_view(events@) =~= spec_handle(s0, pv).1);
                        }
                        events
                    },
                }
            },
            ControlPacket::TextMessage(t) => {
                let snapshot = match t.actor {
                    Option::Some(a) => {
                        match self.users.get(a) {
                            Option::Some(us) => Option::Some(us.clone()),
                            Option::None => Option::None,
                        }
                    },
                    Option::None => Option::None,
                };
                let mut events: Vec<MumbleEvent> = Vec::new();
                events.push(MumbleEvent::TextMessagePosted(t.message, snapshot));
                proof {
                    assert(evs_view(events@) =~= spec_handle(s0, pv).1);
                }
                events
            },
            _ => {
                let events: Vec<MumbleEvent> = Vec::new();
                proof {
                    assert(evs_view(events@) =~= spec_handle(s0, pv).1);
                }
                events
            },
        }
    }

    /// A snapshot list of every currently known user aggregate, in
    /// storage order.
    pub fn get_current_online_users(&self) -> (r: Vec<UserState>)
        requires
            self.wf(),
        ensures
            r@.len() == self.users.kseq().len(),
            forall|i: int| 0 <= i < r@.len() ==> r@[i] == (#[trigger] self.users.kseq()[i]).1,
            forall|i: int|
                0 <= i < r@.len() ==> self@.users.contains_key(
                    (#[trigger] r@[i])@.session_id,
                ) && self@.users[r@[i]@.session_id] == r@[i]@,
    {
        let n = self.users.len();
        let mut r: Vec<UserState> = Vec::new();
        let mut i: usize = 0;
        while i < n
            invariant
                self.wf(),
                n == self.users.kseq().len(),
                i <= n,
                r@.len() == i,
                forall|j: int| 0 <= j < i ==> r@[j] == (#[trigger] self.users.kseq()[j]).1,
            decreases n - i,
        {
            let entry = self.users.entry_at(i);
            r.push(entry.1.clone());
            i = i + 1;
        }
        proof {
            assert forall|i: int| 0 <= i < r@.len() implies self@.users.contains_key(
                (#[trigger] r@[i])@.session_id,
            ) && self@.users[r@[i]@.session_id] == r@[i]@ by {
                let k = self.users.kseq()[i].0;
                self.users.lemma_kseq_view(i);
                assert(r@[i]@.session_id == k);
            }
        }
        r
    }
}

/// Whether event suppression has ended after one more packet: the
/// flag rises on the sync-complete packet and never falls.
pub open spec fn spec_gate_after(gate: bool, p: PacketV) -> bool {
    gate || p is ServerSync
}

/// The events one packet lets through to external subscribers: all of
/// them once the sync-complete flag is up, none before.
pub open spec fn spec_forwarded(s: ClientStateV, gate: bool, p: PacketV) -> Seq<MumbleEventV> {
    if spec_gate_after(gate, p) {
        spec_handle(s, p).1
    } else {
        Seq::<MumbleEventV>::empty()
    }
}

/// One turn of the inbound consumer: raises the sync-complete flag
/// when its packet arrives, applies the packet to the aggregates, and
/// returns only the events that may reach external subscribers.
pub fn process_inbound_packet(
    state: &mut ClientState,
    startup_finished: &mut bool,
    packet: ControlPacket,
) -> (out: Vec<MumbleEvent>)
    requires
        old(state).wf(),
    ensures
        final(state).wf(),
        *final(startup_finished) == spec_gate_after(*old(startup_finished), packet@),
        final(state)@ == spec_handle(old(state)@, packet@).0,
        evs_view(out@) == spec_forwarded(old(state)@, *old(startup_finished), packet@),
{
    if matches!(packet, ControlPacket::ServerSync(_)) {
        *startup_finished = true;
    }
    let events = state.handle_control_packet(packet);
    if *startup_finished {
        events
    } else {
        let out: Vec<MumbleEvent> = Vec::new();
        proof {
            assert(evs_view(out@) =~= Seq::<MumbleEventV>::empty());
        }
        out
    }
}

} // verus!
