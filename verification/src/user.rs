//! The user aggregate and its diff-based update policy. A channel move
//! is a distinguished transition: it emits its own "switched channel"
//! event in addition to the general "updated" event.
use vstd::prelude::*;
use crate::event::{evs_view, MumbleEvent, MumbleEventV};
use crate::packets::{UserStatePacket, UserStatePacketV};
use crate::util::{opt_u32_eq};

verus! {

/// Aggregate record for one connected session. The session id is the
/// only stable key for the life of a connection.
pub struct UserState {
    pub session_id: u32,
    pub user_id: Option<u32>,
    pub current_channel_id: Option<u32>,
    pub name: String,
    pub muted: bool,
    pub deafened: bool,
}

/// Mathematical mirror of `UserState`.
pub ghost struct UserStateV {
    pub session_id: u32,
    pub user_id: Option<u32>,
    pub current_channel_id: Option<u32>,
    pub name: Seq<char>,
    pub muted: bool,
    pub deafened: bool,
}

impl View for UserState {
    type V = UserStateV;

    open spec fn view(&self) -> UserStateV {
        UserStateV {
            session_id: self.session_id,
            user_id: self.user_id,
            current_channel_id: self.current_channel_id,
            name: self.name@,
            muted: self.muted,
            deafened: self.deafened,
        }
    }
}

impl Clone for UserState {
    /// A clone is an equal snapshot.
    fn clone(&self) -> (r: Self)
        ensures
            r == *self,
    {
        UserState {
            session_id: self.session_id,
            user_id: self.user_id,
            current_channel_id: self.current_channel_id,
            name: self.name.clone(),
            muted: self.muted,
            deafened: self.deafened,
        }
    }
}

/// A name that looks like an automated client rather than a person.
pub open spec fn spec_is_bot_name(n: Seq<char>) -> bool {
    n.len() >= 3 && n.subrange(n.len() - 3, n.len() as int) == seq!['B', 'o', 't']
}

/// The user aggregate after the identity half of one update packet:
/// persistent user id and current channel applied, the rest untouched.
/// This is the snapshot the "switched channel" event carries, because
/// the move is reported before the remaining fields are diffed.
pub open spec fn spec_user_mid(u: UserStateV, p: UserStatePacketV) -> UserStateV {
    UserStateV {
        session_id: u.session_id,
        user_id: if p.user_id is Some {
            p.user_id
        } else {
            u.user_id
        },
        current_channel_id: if p.channel_id is Some {
            p.channel_id
        } else {
            u.current_channel_id
        },
        name: u.name,
        muted: u.muted,
        deafened: u.deafened,
    }
}

/// The user aggregate after one whole update packet.
pub open spec fn spec_user_apply(u: UserStateV, p: UserStatePacketV) -> UserStateV {
    UserStateV {
        session_id: u.session_id,
        user_id: if p.user_id is Some {
            p.user_id
        } else {
            u.user_id
        },
        current_channel_id: if p.channel_id is Some {
            p.channel_id
        } else {
            u.current_channel_id
        },
        name: if p.name is Some {
            p.name->0
        } else {
            u.name
        },
        muted: if p.self_mute is Some {
            p.self_mute->0
        } else {
            u.muted
        },
        deafened: if p.self_deaf is Some {
            p.self_deaf->0
        } else {
            u.deafened
        },
    }
}

/// Whether one update packet moves the user to another channel.
pub open spec fn spec_user_switched(u: UserStateV, p: UserStatePacketV) -> bool {
    p.channel_id is Some && p.channel_id != u.current_channel_id
}

/// Whether one update packet reports any field different from the
/// current aggregate.
pub open spec fn spec_user_changed(u: UserStateV, p: UserStatePacketV) -> bool {
    ||| (p.user_id is Some && p.user_id != u.user_id)
    ||| spec_user_switched(u, p)
    ||| (p.name is Some && p.name != Option::Some(u.name))
    ||| (p.self_mute is Some && p.self_mute != Option::Some(u.muted))
    ||| (p.self_deaf is Some && p.self_deaf != Option::Some(u.deafened))
}

/// The events one user-update packet produces against an existing
/// aggregate: a "switched channel" event (with the mid-update snapshot)
/// when the channel moved, then one "updated" event (with the final
/// snapshot) if and only if anything changed.
pub open spec fn spec_user_events(u: UserStateV, p: UserStatePacketV) -> Seq<MumbleEventV> {
    if spec_user_switched(u, p) {
        seq![
            MumbleEventV::UserSwitchedChannel(spec_user_mid(u, p)),
            MumbleEventV::UserUpdated(spec_user_apply(u, p)),
        ]
    } else if spec_user_changed(u, p) {
        seq![MumbleEventV::UserUpdated(spec_user_apply(u, p))]
    } else {
        seq![]
    }
}

impl UserState {
    /// Whether this user's display name carries the conventional
    /// automated-client suffix.
    pub fn infer_is_bot_user(&self) -> (r: bool)
        ensures
            r == spec_is_bot_name(self.name@),
    {
        let chars = crate::util::str_chars(self.name.as_str());
        let n = chars.len();
        if n < 3 {
            return false;
        }
        let r = chars[n - 3] == 'B' && chars[n - 2] == 'o' && chars[n - 1] == 't';
        proof {
            if r {
                assert(self.name@.subrange(self.name@.len() - 3, self.name@.len() as int) =~= seq![
                    'B',
                    'o',
                    't',
                ]);
            } else {
                if self.name@.len() >= 3 && self.name@.subrange(
                    self.name@.len() - 3,
                    self.name@.len() as int,
                ) == seq!['B', 'o', 't'] {
                    assert(self.name@[self.name@.len() - 3] == 'B');
                    assert(self.name@[self.name@.len() - 2] == 'o');
                    assert(self.name@[self.name@.len() - 1] == 't');
                }
            }
        }
        r
    }

    /// Applies one update packet as a diff against this aggregate and
    /// returns the events the change warrants.
    pub fn update_from_user_state_packet(&mut self, packet: UserStatePacket) -> (events: Vec<
        MumbleEvent,
    >)
        ensures
            final(self)@ == spec_user_apply(old(self)@, packet@),
            evs_view(events@) == spec_user_events(old(self)@, packet@),
    {
        let mut events: Vec<MumbleEvent> = Vec::new();
        let mut state_changed: bool = false;
        if packet.user_id.is_some() && !opt_u32_eq(&packet.user_id, &self.user_id) {
            state_changed = true;
            self.user_id = packet.user_id;
        }
        if packet.channel_id.is_some() && !opt_u32_eq(&packet.channel_id, &self.current_channel_id)
         {
            state_changed = true;
            self.current_channel_id = packet.channel_id;
            events.push(MumbleEvent::UserSwitchedChannel(self.clone()));
        }
        match packet.name {
            Option::Some(new_name) => {
                if !(new_name == self.name) {
                    state_changed = true;
                    self.name = new_name;
                }
            },
            Option::None => {},
        }
        match packet.self_mute {
            Option::Some(m) => {
                if m != self.muted {
                    state_changed = true;
                    self.muted = m;
                }
            },
            Option::None => {},
        }
        match packet.self_deaf {
            Option::Some(d) => {
                if d != self.deafened {
                    state_changed = true;
                    self.deafened = d;
                }
            },
            Option::None => {},
        }
        if state_changed {
            events.push(MumbleEvent::UserUpdated(self.clone()));
        }
        proof {
            assert(evs_view(events@) =~= spec_user_events(old(self)@, packet@));
        }
        events
    }
}

} // verus!
