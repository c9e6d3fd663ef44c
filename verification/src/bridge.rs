//! Decisions of the chat-bridge collaborator, separated from the
//! messaging I/O that app code performs: which events warrant which
//! outbound actions, the texts those actions carry, and the small
//! persisted record the bridge keeps.
use vstd::prelude::*;
use vstd::string::StringExecFns;
use crate::event::MumbleEvent;
use crate::strfmt::{append_decimal, spec_decimal, spec_joined};
use crate::user::{spec_is_bot_name, UserState, UserStateV};

verus! {

/// The names of a user list.
pub open spec fn spec_names(users: Seq<UserState>) -> Seq<Seq<char>> {
    users.map_values(|u: UserState| u.name@)
}

/// The status text for a user list: the user count and the joined
/// names, or the fixed all-quiet text when nobody is online.
pub open spec fn spec_status_text(users: Seq<UserState>) -> Seq<char> {
    if users.len() == 0 {
        "0 users online"@
    } else {
        spec_decimal(users.len() as nat) + " users online ("@ + spec_joined(spec_names(users))
            + ")"@
    }
}

/// Renders the status text for a user list, exactly as
/// `spec_status_text` states.
pub fn format_status_text(users: &Vec<UserState>) -> (r: String)
    ensures
        r@ == spec_status_text(users@),
{
    let n = users.len();
    if n == 0 {
        return "0 users online".to_owned();
    }
    let mut s = String::new();
    append_decimal(&mut s, n as u64);
    proof {
        assert(Seq::<char>::empty() + spec_decimal(n as nat) =~= spec_decimal(n as nat));
    }
    s.append(" users online (");
    let mut joined = users[0].name.clone();
    let mut i: usize = 1;
    while i < n
        invariant
            1 <= i <= n,
            n == users@.len(),
            joined@ == spec_joined(spec_names(users@.take(i as int))),
        decreases n - i,
    {
        joined.append(", ");
        joined.append(users[i].name.as_str());
        proof {
            let t1 = spec_names(users@.take(i as int + 1));
            assert(t1.drop_last() =~= spec_names(users@.take(i as int)));
            assert(t1.last() == users@[i as int].name@);
            assert(joined@ =~= spec_joined(t1));
        }
        i = i + 1;
    }
    proof {
        assert(users@.take(n as int) =~= users@);
        assert(spec_names(users@.take(1)).len() == 1);
        assert(spec_names(users@.take(1))[0] == users@[0].name@);
    }
    s.append(joined.as_str());
    s.append(")");
    proof {
        assert(s@ =~= spec_status_text(users@));
    }
    s
}

/// The announcement text for a newly joined user.
pub fn format_joined_text(user: &UserState) -> (r: String)
    ensures
        r@ == user.name@ + " joined mumble"@,
{
    let mut s = user.name.clone();
    s.append(" joined mumble");
    s
}

/// What the bridge does in reaction to one domain event.
pub struct BridgeActions {
    /// The pinned status message must be refreshed: someone joined,
    /// left, or changed.
    pub refresh_status: bool,
    /// A join announcement to post, already rendered.
    pub announce_join: Option<String>,
}

/// Whether an event concerns the set or state of online users.
pub open spec fn spec_user_roster_event(event: MumbleEvent) -> bool {
    ||| event is UserJoinedServer
    ||| event is UserLeftServer
    ||| event is UserUpdated
}

/// Decides the bridge's reaction to one event: any user-roster event
/// refreshes the pinned status message, and a join is announced —
/// unless the joiner looks like a bot and bots are filtered out.
pub fn bridge_actions(event: &MumbleEvent, filter_out_bot_users: bool) -> (r: BridgeActions)
    ensures
        r.refresh_status == spec_user_roster_event(*event),
        match *event {
            MumbleEvent::UserJoinedServer(u) => if filter_out_bot_users && spec_is_bot_name(
                u.name@,
            ) {
                r.announce_join is None
            } else {
                r.announce_join is Some && r.announce_join->0@ == u.name@ + " joined mumble"@
            },
            _ => r.announce_join is None,
        },
{
    let refresh_status = match event {
        MumbleEvent::UserJoinedServer(_) => true,
        MumbleEvent::UserLeftServer(_) => true,
        MumbleEvent::UserUpdated(_) => true,
        _ => false,
    };
    let announce_join = match event {
        MumbleEvent::UserJoinedServer(u) => {
            if filter_out_bot_users && u.infer_is_bot_user() {
                Option::None
            } else {
                Option::Some(format_joined_text(u))
            }
        },
        _ => Option::None,
    };
    BridgeActions { refresh_status, announce_join }
}

/// Keeps from a user list only those that do not look like bots.
pub open spec fn spec_keep_humans(users: Seq<UserState>) -> Seq<UserState> {
    users.filter(|u: UserState| !spec_is_bot_name(u.name@))
}

/// The user list as the bridge reports it: unchanged, or with
/// bot-looking users dropped when the filter is on.
pub fn filter_reported_users(users: Vec<UserState>, filter_out_bot_users: bool) -> (r: Vec<
    UserState,
>)
    ensures
        filter_out_bot_users ==> r@ == spec_keep_humans(users@),
        !filter_out_bot_users ==> r@ == users@,
{
    if !filter_out_bot_users {
        return users;
    }
    let n = users.len();
    let mut r: Vec<UserState> = Vec::new();
    let mut i: usize = 0;
    proof {
        reveal(Seq::filter);
        assert(r@ =~= spec_keep_humans(users@.take(0)));
    }
    while i < n
        invariant
            i <= n,
            n == users@.len(),
            r@ == spec_keep_humans(users@.take(i as int)),
        decreases n - i,
    {
        let keep = !users[i].infer_is_bot_user();
        if keep {
            r.push(users[i].clone());
        }
        proof {
            reveal(Seq::filter);
            assert(users@.take(i as int + 1).drop_last() =~= users@.take(i as int));
            assert(users@.take(i as int + 1).last() == users@[i as int]);
            if keep {
                assert(r@ =~= spec_keep_humans(users@.take(i as int + 1)));
            } else {
                assert(r@ =~= spec_keep_humans(users@.take(i as int + 1)));
            }
        }
        i = i + 1;
    }
    proof {
        assert(users@.take(n as int) =~= users@);
    }
    r
}

/// The small record the bridge persists between runs: the identifier
/// of its pinned, rolling status message, if one was ever created.
#[derive(Clone, Copy, PartialEq, Eq, Structural, Debug)]
pub struct PersistentState {
    pub mumble_rolling_state_message_id: Option<i32>,
}

/// How one state query is answered.
pub struct StateResolution {
    /// The record to reply with.
    pub reply: PersistentState,
    /// A fresh default record must be written to disk.
    pub write_default: bool,
    /// The reply should become the in-memory snapshot.
    pub cache_reply: bool,
}

/// Decides a state query from the in-memory snapshot and what the
/// disk held: a cached snapshot answers directly; otherwise the disk
/// record answers; with neither, a default record answers and is both
/// written out and cached.
pub fn resolve_state_query(cached: &Option<PersistentState>, disk: &Option<PersistentState>) -> (r:
    StateResolution)
    ensures
        match *cached {
            Option::Some(c) => r.reply == c && !r.write_default && !r.cache_reply,
            Option::None => match *disk {
                Option::Some(d) => r.reply == d && !r.write_default && !r.cache_reply,
                Option::None => {
                    &&& r.reply == (PersistentState {
                        mumble_rolling_state_message_id: Option::None,
                    })
                    &&& r.write_default
                    &&& r.cache_reply
                },
            },
        },
{
    match cached {
        Option::Some(c) => StateResolution {
            reply: *c,
            write_default: false,
            cache_reply: false,
        },
        Option::None => match disk {
            Option::Some(d) => StateResolution {
                reply: *d,
                write_default: false,
                cache_reply: false,
            },
            Option::None => StateResolution {
                reply: PersistentState { mumble_rolling_state_message_id: Option::None },
                write_default: true,
                cache_reply: true,
            },
        },
    }
}

} // verus!
