//! The channel aggregate and its diff-based update policy: a field of
//! an update packet is applied only when present and different, absence
//! never clears anything, and an "updated" event is emitted exactly
//! when at least one field changed.
use vstd::prelude::*;
use crate::event::{evs_view, MumbleEvent, MumbleEventV};
use crate::packets::{ChannelStatePacket, ChannelStatePacketV};
use crate::util::{opt_string_clone, opt_string_eq, opt_u32_eq};

verus! {

/// Aggregate record for one channel known to the server. The id is
/// immutable after creation.
pub struct ChannelState {
    pub id: u32,
    pub parent_channel_id: Option<u32>,
    pub name: String,
    pub description: Option<String>,
    pub max_users: Option<u32>,
}

/// Mathematical mirror of `ChannelState`.
pub ghost struct ChannelStateV {
    pub id: u32,
    pub parent_channel_id: Option<u32>,
    pub name: Seq<char>,
    pub description: Option<Seq<char>>,
    pub max_users: Option<u32>,
}

impl View for ChannelState {
    type V = ChannelStateV;

    open spec fn view(&self) -> ChannelStateV {
        ChannelStateV {
            id: self.id,
            parent_channel_id: self.parent_channel_id,
            name: self.name@,
            description: crate::util::opt_str_view(self.description),
            max_users: self.max_users,
        }
    }
}

impl Clone for ChannelState {
    /// A clone is an equal snapshot.
    fn clone(&self) -> (r: Self)
        ensures
            r == *self,
    {
        ChannelState {
            id: self.id,
            parent_channel_id: self.parent_channel_id,
            name: self.name.clone(),
            description: opt_string_clone(&self.description),
            max_users: self.max_users,
        }
    }
}

/// The channel aggregate after one update packet: every present field
/// is written, every absent field is left untouched, the id never
/// moves.
pub open spec fn spec_channel_apply(c: ChannelStateV, p: ChannelStatePacketV) -> ChannelStateV {
    ChannelStateV {
        id: c.id,
        parent_channel_id: if p.parent is Some {
            p.parent
        } else {
            c.parent_channel_id
        },
        name: if p.name is Some {
            p.name->0
        } else {
            c.name
        },
        description: if p.description is Some {
            p.description
        } else {
            c.description
        },
        max_users: if p.max_users is Some {
            p.max_users
        } else {
            c.max_users
        },
    }
}

/// Whether one update packet reports any field different from the
/// current aggregate.
pub open spec fn spec_channel_changed(c: ChannelStateV, p: ChannelStatePacketV) -> bool {
    ||| (p.max_users is Some && p.max_users != c.max_users)
    ||| (p.parent is Some && p.parent != c.parent_channel_id)
    ||| (p.name is Some && p.name != Option::Some(c.name))
    ||| (p.description is Some && p.description != c.description)
}

/// The events one channel-update packet produces against an existing
/// aggregate: one "updated" event carrying the new snapshot if and only
/// if something changed.
pub open spec fn spec_channel_events(c: ChannelStateV, p: ChannelStatePacketV) -> Seq<
    MumbleEventV,
> {
    if spec_channel_changed(c, p) {
        seq![MumbleEventV::ChannelUpdated(spec_channel_apply(c, p))]
    } else {
        seq![]
    }
}

impl ChannelState {
    /// Applies one update packet as a diff against this aggregate and
    /// returns the events the change warrants.
    pub fn update_from_channel_state_packet(&mut self, packet: ChannelStatePacket) -> (events:
        Vec<MumbleEvent>)
        ensures
            final(self)@ == spec_channel_apply(old(self)@, packet@),
            evs_view(events@) == spec_channel_events(old(self)@, packet@),
    {
        let mut state_changed: bool = false;
        if packet.max_users.is_some() && !opt_u32_eq(&packet.max_users, &self.max_users) {
            state_changed = true;
            self.max_users = packet.max_users;
        }
        if packet.parent.is_some() && !opt_u32_eq(&packet.parent, &self.parent_channel_id) {
            state_changed = true;
            self.parent_channel_id = packet.parent;
        }
        match packet.name {
            Option::Some(new_name) => {
                if !(new_name == self.name) {
                    state_changed = true;
                    self.name = new_name;
                }
            },
            Option::None => {},
        }
        if packet.description.is_some() && !opt_string_eq(&packet.description, &self.description) {
            state_changed = true;
            self.description = packet.description;
        }
        let mut events: Vec<MumbleEvent> = Vec::new();
        if state_changed {
            events.push(MumbleEvent::ChannelUpdated(self.clone()));
            proof {
                assert(evs_view(events@) =~= spec_channel_events(old(self)@, packet@));
            }
        } else {
            proof {
                assert(evs_view(events@) =~= spec_channel_events(old(self)@, packet@));
            }
        }
        events
    }
}

} // verus!
