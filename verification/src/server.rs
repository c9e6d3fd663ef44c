//! The server aggregate: connection-wide limits, the session id the
//! server assigned to this client, and the sync-complete flag that
//! suppresses the event bus. The flag moves false to true exactly once, on
//! the sync-complete packet, and never reverts.
use vstd::prelude::*;
use crate::event::{evs_view, MumbleEvent, MumbleEventV};
use crate::packets::{ServerConfigData, ServerConfigDataV, ServerSyncData, ServerSyncDataV,
    VersionData, VersionDataV};
use crate::util::{opt_string_clone, opt_string_eq, opt_u32_eq, opt_bool_eq, opt_str_view};

verus! {

/// Version and platform information reported by the server.
pub type ServerInfo = VersionData;

/// Aggregate record for the server this client is connected to.
pub struct ServerState {
    pub server_info: Option<ServerInfo>,
    pub user_session_id: Option<u32>,
    pub max_bandwidth: Option<u32>,
    pub welcome_text: Option<String>,
    pub allow_html: Option<bool>,
    pub max_message_length: Option<u32>,
    pub max_image_message_length: Option<u32>,
    pub max_users: Option<u32>,
    pub startup_finished: bool,
}

/// Mathematical mirror of `ServerState`.
pub ghost struct ServerStateV {
    pub server_info: Option<VersionDataV>,
    pub user_session_id: Option<u32>,
    pub max_bandwidth: Option<u32>,
    pub welcome_text: Option<Seq<char>>,
    pub allow_html: Option<bool>,
    pub max_message_length: Option<u32>,
    pub max_image_message_length: Option<u32>,
    pub max_users: Option<u32>,
    pub startup_finished: bool,
}

/// Spec view of optional version information.
pub open spec fn opt_info_view(o: Option<VersionData>) -> Option<VersionDataV> {
    match o {
        Option::Some(v) => Option::Some(v@),
        Option::None => Option::None,
    }
}

impl View for ServerState {
    type V = ServerStateV;

    open spec fn view(&self) -> ServerStateV {
        ServerStateV {
            server_info: opt_info_view(self.server_info),
            user_session_id: self.user_session_id,
            max_bandwidth: self.max_bandwidth,
            welcome_text: opt_str_view(self.welcome_text),
            allow_html: self.allow_html,
            max_message_length: self.max_message_length,
            max_image_message_length: self.max_image_message_length,
            max_users: self.max_users,
            startup_finished: self.startup_finished,
        }
    }
}

impl Clone for VersionData {
    /// A clone is an equal snapshot.
    fn clone(&self) -> (r: Self)
        ensures
            r == *self,
    {
        VersionData {
            version: self.version,
            release: self.release.clone(),
            os: self.os.clone(),
            os_version: self.os_version.clone(),
        }
    }
}

impl Clone for ServerState {
    /// A clone is an equal snapshot.
    fn clone(&self) -> (r: Self)
        ensures
            r == *self,
    {
        ServerState {
            server_info: (match &self.server_info {
                Option::Some(v) => Option::Some(v.clone()),
                Option::None => Option::None,
            }),
            user_session_id: self.user_session_id,
            max_bandwidth: self.max_bandwidth,
            welcome_text: opt_string_clone(&self.welcome_text),
            allow_html: self.allow_html,
            max_message_length: self.max_message_length,
            max_image_message_length: self.max_image_message_length,
            max_users: self.max_users,
            startup_finished: self.startup_finished,
        }
    }
}

/// The all-absent server aggregate a connection starts from.
pub open spec fn spec_server_initial() -> ServerStateV {
    ServerStateV {
        server_info: Option::None,
        user_session_id: Option::None,
        max_bandwidth: Option::None,
        welcome_text: Option::None,
        allow_html: Option::None,
        max_message_length: Option::None,
        max_image_message_length: Option::None,
        max_users: Option::None,
        startup_finished: false,
    }
}

impl Default for ServerState {
    /// The aggregate a connection starts from: every value absent, the
    /// sync-complete flag down.
    fn default() -> (r: Self)
        ensures
            r@ == spec_server_initial(),
    {
        ServerState {
            server_info: Option::None,
            user_session_id: Option::None,
            max_bandwidth: Option::None,
            welcome_text: Option::None,
            allow_html: Option::None,
            max_message_length: Option::None,
            max_image_message_length: Option::None,
            max_users: Option::None,
            startup_finished: false,
        }
    }
}

/// The server aggregate after the sync-complete packet: session id,
/// welcome text and bandwidth take the packet's values when present
/// and keep their prior values when absent — absence never clears —
/// and the sync-complete flag is raised.
pub open spec fn spec_server_sync_apply(s: ServerStateV, p: ServerSyncDataV) -> ServerStateV {
    ServerStateV {
        server_info: s.server_info,
        user_session_id: if p.session is Some {
            p.session
        } else {
            s.user_session_id
        },
        max_bandwidth: if p.max_bandwidth is Some {
            p.max_bandwidth
        } else {
            s.max_bandwidth
        },
        welcome_text: if p.welcome_text is Some {
            p.welcome_text
        } else {
            s.welcome_text
        },
        allow_html: s.allow_html,
        max_message_length: s.max_message_length,
        max_image_message_length: s.max_image_message_length,
        max_users: s.max_users,
        startup_finished: true,
    }
}

/// The server aggregate after one server-limits packet: present fields
/// applied, absent fields untouched.
pub open spec fn spec_server_config_apply(s: ServerStateV, p: ServerConfigDataV) -> ServerStateV {
    ServerStateV {
        server_info: s.server_info,
        user_session_id: s.user_session_id,
        max_bandwidth: if p.max_bandwidth is Some {
            p.max_bandwidth
        } else {
            s.max_bandwidth
        },
        welcome_text: if p.welcome_text is Some {
            p.welcome_text
        } else {
            s.welcome_text
        },
        allow_html: if p.allow_html is Some {
            p.allow_html
        } else {
            s.allow_html
        },
        max_message_length: if p.message_length is Some {
            p.message_length
        } else {
            s.max_message_length
        },
        max_image_message_length: if p.image_message_length is Some {
            p.image_message_length
        } else {
            s.max_image_message_length
        },
        max_users: if p.max_users is Some {
            p.max_users
        } else {
            s.max_users
        },
        startup_finished: s.startup_finished,
    }
}

/// Whether one server-limits packet reports any field different from
/// the current aggregate.
pub open spec fn spec_server_config_changed(s: ServerStateV, p: ServerConfigDataV) -> bool {
    ||| (p.max_bandwidth is Some && p.max_bandwidth != s.max_bandwidth)
    ||| (p.welcome_text is Some && p.welcome_text != s.welcome_text)
    ||| (p.allow_html is Some && p.allow_html != s.allow_html)
    ||| (p.image_message_length is Some && p.image_message_length != s.max_image_message_length)
    ||| (p.max_users is Some && p.max_users != s.max_users)
    ||| (p.message_length is Some && p.message_length != s.max_message_length)
}

/// The events one server-limits packet produces: one "server state
/// updated" event with the new snapshot if and only if something
/// changed.
pub open spec fn spec_server_config_events(s: ServerStateV, p: ServerConfigDataV) -> Seq<
    MumbleEventV,
> {
    if spec_server_config_changed(s, p) {
        seq![MumbleEventV::ServerStateUpdated(spec_server_config_apply(s, p))]
    } else {
        seq![]
    }
}

impl ServerState {
    /// Applies the sync-complete packet: present fields applied,
    /// absent fields untouched. It raises the sync-complete flag and
    /// emits no event: it exists purely to end the event bus's
    /// suppression.
    pub fn update_from_server_sync(&mut self, packet: ServerSyncData) -> (events: Vec<MumbleEvent>)
        ensures
            final(self)@ == spec_server_sync_apply(old(self)@, packet@),
            evs_view(events@) == Seq::<MumbleEventV>::empty(),
    {
        if packet.welcome_text.is_some() {
            self.welcome_text = packet.welcome_text;
        }
        if packet.max_bandwidth.is_some() {
            self.max_bandwidth = packet.max_bandwidth;
        }
        if packet.session.is_some() {
            self.user_session_id = packet.session;
        }
        self.startup_finished = true;
        let events: Vec<MumbleEvent> = Vec::new();
        proof {
            assert(evs_view(events@) =~= Seq::<MumbleEventV>::empty());
        }
        events
    }

    /// Applies one server-limits packet as a diff against this
    /// aggregate and returns the events the change warrants.
    pub fn update_from_server_config(&mut self, packet: ServerConfigData) -> (events: Vec<
        MumbleEvent,
    >)
        ensures
            final(self)@ == spec_server_config_apply(old(self)@, packet@),
            evs_view(events@) == spec_server_config_events(old(self)@, packet@),
    {
        let mut state_changed: bool = false;
        if packet.max_bandwidth.is_some() && !opt_u32_eq(&packet.max_bandwidth, &self.max_bandwidth)
         {
            state_changed = true;
            self.max_bandwidth = packet.max_bandwidth;
        }
        if packet.welcome_text.is_some() && !opt_string_eq(&packet.welcome_text, &self.welcome_text)
         {
            state_changed = true;
            self.welcome_text = packet.welcome_text;
        }
        if packet.allow_html.is_some() && !opt_bool_eq(&packet.allow_html, &self.allow_html) {
            state_changed = true;
            self.allow_html = packet.allow_html;
        }
        if packet.image_message_length.is_some() && !opt_u32_eq(
            &packet.image_message_length,
            &self.max_image_message_length,
        ) {
            state_changed = true;
            self.max_image_message_length = packet.image_message_length;
        }
        if packet.max_users.is_some() && !opt_u32_eq(&packet.max_users, &self.max_users) {
            state_changed = true;
            self.max_users = packet.max_users;
        }
        if packet.message_length.is_some() && !opt_u32_eq(
            &packet.message_length,
            &self.max_message_length,
        ) {
            state_changed = true;
            self.max_message_length = packet.message_length;
        }
        let mut events: Vec<MumbleEvent> = Vec::new();
        if state_changed {
            events.push(MumbleEvent::ServerStateUpdated(self.clone()));
        }
        proof {
            assert(evs_view(events@) =~= spec_server_config_events(old(self)@, packet@));
        }
        events
    }
}

} // verus!
