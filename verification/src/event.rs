//! Domain events: immutable, snapshot-carrying notifications of one
//! semantic state change, distinct from the raw packets that caused
//! them. Each event owns a copy of the aggregate at the moment of the
//! change, so a subscriber's view cannot be invalidated later.
use vstd::prelude::*;
use crate::channel::{ChannelState, ChannelStateV};
use crate::server::{ServerState, ServerStateV};
use crate::user::{UserState, UserStateV};

verus! {

/// One semantic state change, with a snapshot of the aggregate it
/// concerns. A text message carries the body and, if the sender was
/// known, a snapshot of the sender.
#[derive(Clone)]
pub enum MumbleEvent {
    ServerStateUpdated(ServerState),
    UserJoinedServer(UserState),
    UserLeftServer(UserState),
    UserSwitchedChannel(UserState),
    UserUpdated(UserState),
    ChannelCreated(ChannelState),
    ChannelUpdated(ChannelState),
    ChannelDeleted(ChannelState),
    TextMessagePosted(String, Option<UserState>),
}

/// Mathematical mirror of `MumbleEvent`.
pub ghost enum MumbleEventV {
    ServerStateUpdated(ServerStateV),
    UserJoinedServer(UserStateV),
    UserLeftServer(UserStateV),
    UserSwitchedChannel(UserStateV),
    UserUpdated(UserStateV),
    ChannelCreated(ChannelStateV),
    ChannelUpdated(ChannelStateV),
    ChannelDeleted(ChannelStateV),
    TextMessagePosted(Seq<char>, Option<UserStateV>),
}

/// Spec view of an optional user snapshot.
pub open spec fn opt_user_view(o: Option<UserState>) -> Option<UserStateV> {
    match o {
        Option::Some(u) => Option::Some(u@),
        Option::None => Option::None,
    }
}

impl View for MumbleEvent {
    type V = MumbleEventV;

    open spec fn view(&self) -> MumbleEventV {
        match self {
            MumbleEvent::ServerStateUpdated(s) => MumbleEventV::ServerStateUpdated(s@),
            MumbleEvent::UserJoinedServer(u) => MumbleEventV::UserJoinedServer(u@),
            MumbleEvent::UserLeftServer(u) => MumbleEventV::UserLeftServer(u@),
            MumbleEvent::UserSwitchedChannel(u) => MumbleEventV::UserSwitchedChannel(u@),
            MumbleEvent::UserUpdated(u) => MumbleEventV::UserUpdated(u@),
            MumbleEvent::ChannelCreated(c) => MumbleEventV::ChannelCreated(c@),
            MumbleEvent::ChannelUpdated(c) => MumbleEventV::ChannelUpdated(c@),
            MumbleEvent::ChannelDeleted(c) => MumbleEventV::ChannelDeleted(c@),
            MumbleEvent::TextMessagePosted(m, u) => (MumbleEventV::TextMessagePosted(
                m@,
                opt_user_view(*u),
            )),
        }
    }
}

/// The view of a whole event list.
pub open spec fn evs_view(s: Seq<MumbleEvent>) -> Seq<MumbleEventV> {
    s.map_values(|e: MumbleEvent| e@)
}

} // verus!
