//! Laws of the engine, stated over the spec functions its contracts
//! use: what a run of packets does to an aggregate, and what the
//! sync-complete flag lets through to external subscribers.
use vstd::prelude::*;
use crate::channel::{spec_channel_apply, spec_channel_changed, ChannelStateV};
use crate::engine::{spec_forwarded, spec_gate_after, spec_handle, ClientStateV};
use crate::event::MumbleEventV;
use crate::packets::{ChannelStatePacketV, PacketV, UserStatePacketV};
use crate::user::{spec_user_apply, spec_user_changed, spec_user_mid, spec_user_switched};

verus! {

/// A channel aggregate after a whole run of update packets, applied in
/// arrival order.
pub open spec fn spec_channel_run(c: ChannelStateV, ps: Seq<ChannelStatePacketV>) -> ChannelStateV
    decreases ps.len(),
{
    if ps.len() == 0 {
        c
    } else {
        spec_channel_run(spec_channel_apply(c, ps[0]), ps.drop_first())
    }
}

/// The value a field holds after a run of reports: the last value any
/// report carried, or the initial value when every report was absent.
pub open spec fn spec_last_written<T>(init: T, reports: Seq<Option<T>>) -> T
    decreases reports.len(),
{
    if reports.len() == 0 {
        init
    } else if reports.last() is Some {
        reports.last()->0
    } else {
        spec_last_written(init, reports.drop_last())
    }
}

/// The name reports of a packet run.
pub open spec fn names_of(ps: Seq<ChannelStatePacketV>) -> Seq<Option<Seq<char>>> {
    ps.map_values(|p: ChannelStatePacketV| p.name)
}

/// The parent-id reports of a packet run: `Some(written value)` where
/// the field was present.
pub open spec fn parents_of(ps: Seq<ChannelStatePacketV>) -> Seq<Option<Option<u32>>> {
    ps.map_values(
        |p: ChannelStatePacketV|
            if p.parent is Some {
                Option::Some(p.parent)
            } else {
                Option::None
            },
    )
}

/// The description reports of a packet run.
pub open spec fn descriptions_of(ps: Seq<ChannelStatePacketV>) -> Seq<
    Option<Option<Seq<char>>>,
> {
    ps.map_values(
        |p: ChannelStatePacketV|
            if p.description is Some {
                Option::Some(p.description)
            } else {
                Option::None
            },
    )
}

/// The user-limit reports of a packet run.
pub open spec fn max_users_of(ps: Seq<ChannelStatePacketV>) -> Seq<Option<Option<u32>>> {
    ps.map_values(
        |p: ChannelStatePacketV|
            if p.max_users is Some {
                Option::Some(p.max_users)
            } else {
                Option::None
            },
    )
}

/// Running one more packet after a run is one more application.
proof fn lemma_channel_run_snoc(c: ChannelStateV, ps: Seq<ChannelStatePacketV>, p: ChannelStatePacketV)
    ensures
        spec_channel_run(c, ps.push(p)) == spec_channel_apply(spec_channel_run(c, ps), p),
    decreases ps.len(),
{
    reveal_with_fuel(spec_channel_run, 3);
    if ps.len() == 0 {
        assert(ps.push(p)[0] == p);
        assert(ps.push(p).drop_first() =~= Seq::<ChannelStatePacketV>::empty());
    } else {
        assert(ps.push(p)[0] == ps[0]);
        assert(ps.push(p).drop_first() =~= ps.drop_first().push(p));
        lemma_channel_run_snoc(spec_channel_apply(c, ps[0]), ps.drop_first(), p);
    }
}

/// For any run of channel-update packets, the final aggregate holds,
/// in every field, the last value any packet of the run reported — and
/// the initial value where no packet ever reported one. The id never
/// moves.
pub proof fn lemma_channel_last_write_wins(c: ChannelStateV, ps: Seq<ChannelStatePacketV>)
    ensures
        spec_channel_run(c, ps).id == c.id,
        spec_channel_run(c, ps).name == spec_last_written(c.name, names_of(ps)),
        spec_channel_run(c, ps).parent_channel_id == spec_last_written(
            c.parent_channel_id,
            parents_of(ps),
        ),
        spec_channel_run(c, ps).description == spec_last_written(
            c.description,
            descriptions_of(ps),
        ),
        spec_channel_run(c, ps).max_users == spec_last_written(c.max_users, max_users_of(ps)),
    decreases ps.len(),
{
    if ps.len() == 0 {
    } else {
        let ps0 = ps.drop_last();
        let p = ps.last();
        lemma_channel_last_write_wins(c, ps0);
        lemma_channel_run_snoc(c, ps0, p);
        assert(ps0.push(p) =~= ps);
        assert(names_of(ps).drop_last() =~= names_of(ps0));
        assert(parents_of(ps).drop_last() =~= parents_of(ps0));
        assert(descriptions_of(ps).drop_last() =~= descriptions_of(ps0));
        assert(max_users_of(ps).drop_last() =~= max_users_of(ps0));
    }
}

/// Whether a packet is a channel update addressed to the id `k`.
pub open spec fn channel_update_for(p: PacketV, k: u32) -> bool {
    p is ChannelState && p->ChannelState_0.channel_id == Option::Some(k)
}

/// The channel-update contents of a packet run.
pub open spec fn channel_data_of(ps: Seq<PacketV>) -> Seq<ChannelStatePacketV> {
    ps.map_values(|p: PacketV| p->ChannelState_0)
}

/// Feeding the engine a run of update packets that all address one
/// known channel id leaves that channel exactly as the field-by-field
/// fold of those updates says — so, with `lemma_channel_last_write_wins`,
/// every field ends at the last value some packet reported.
pub proof fn lemma_engine_channel_run(s: ClientStateV, ps: Seq<PacketV>, k: u32)
    requires
        s.channels.contains_key(k),
        forall|i: int| 0 <= i < ps.len() ==> channel_update_for(#[trigger] ps[i], k),
    ensures
        spec_run(s, ps).channels.contains_key(k),
        spec_run(s, ps).channels[k] == spec_channel_run(s.channels[k], channel_data_of(ps)),
    decreases ps.len(),
{
    if ps.len() == 0 {
    } else {
        assert(channel_update_for(ps[0], k));
        let c = ps[0]->ChannelState_0;
        let s1 = spec_handle(s, ps[0]).0;
        assert(s1.channels == s.channels.insert(k, spec_channel_apply(s.channels[k], c)));
        assert(forall|i: int|
            0 <= i < ps.drop_first().len() ==> channel_update_for(
                #[trigger] ps.drop_first()[i],
                k,
            ));
        lemma_engine_channel_run(s1, ps.drop_first(), k);
        assert(channel_data_of(ps).drop_first() =~= channel_data_of(ps.drop_first()));
        assert(channel_data_of(ps)[0] == c);
    }
}

/// An update packet that reports nothing different from the current
/// channel aggregate produces zero events and leaves the whole client
/// state unchanged.
pub proof fn lemma_channel_unchanged_is_silent(s: ClientStateV, c: ChannelStatePacketV)
    requires
        c.channel_id is Some,
        s.channels.contains_key(c.channel_id->0),
        !spec_channel_changed(s.channels[c.channel_id->0], c),
    ensures
        spec_handle(s, PacketV::ChannelState(c)).1 == Seq::<MumbleEventV>::empty(),
        spec_handle(s, PacketV::ChannelState(c)).0 == s,
{
    let id = c.channel_id->0;
    let ch = s.channels[id];
    assert(spec_channel_apply(ch, c) == ch);
    assert(s.channels.insert(id, ch) =~= s.channels);
}

/// An update packet that reports nothing different from the current
/// user aggregate produces zero events and leaves the whole client
/// state unchanged.
pub proof fn lemma_user_unchanged_is_silent(s: ClientStateV, u: UserStatePacketV)
    requires
        u.session is Some,
        s.users.contains_key(u.session->0),
        !spec_user_changed(s.users[u.session->0], u),
    ensures
        spec_handle(s, PacketV::UserState(u)).1 == Seq::<MumbleEventV>::empty(),
        spec_handle(s, PacketV::UserState(u)).0 == s,
{
    let id = u.session->0;
    let us = s.users[id];
    assert(spec_user_apply(us, u) == us);
    assert(s.users.insert(id, us) =~= s.users);
}

/// A user-update packet that changes only the channel-id field
/// produces exactly two events — "switched channel" then "updated" —
/// both carrying the same resulting snapshot.
pub proof fn lemma_channel_move_emits_pair(s: ClientStateV, u: UserStatePacketV)
    requires
        u.session is Some,
        s.users.contains_key(u.session->0),
        spec_user_switched(s.users[u.session->0], u),
        u.user_id is Some ==> u.user_id == s.users[u.session->0].user_id,
        u.name is Some ==> u.name == Option::Some(s.users[u.session->0].name),
        u.self_mute is Some ==> u.self_mute == Option::Some(s.users[u.session->0].muted),
        u.self_deaf is Some ==> u.self_deaf == Option::Some(s.users[u.session->0].deafened),
    ensures
        spec_handle(s, PacketV::UserState(u)).1 == seq![
            MumbleEventV::UserSwitchedChannel(spec_user_apply(s.users[u.session->0], u)),
            MumbleEventV::UserUpdated(spec_user_apply(s.users[u.session->0], u)),
        ],
{
    let us = s.users[u.session->0];
    assert(spec_user_mid(us, u) == spec_user_apply(us, u));
}

/// An update for a previously unknown channel id produces exactly one
/// "created" event — and no "updated" event — for that packet.
pub proof fn lemma_unknown_channel_creates(s: ClientStateV, c: ChannelStatePacketV)
    requires
        c.channel_id is Some,
        !s.channels.contains_key(c.channel_id->0),
    ensures
        spec_handle(s, PacketV::ChannelState(c)).1 == seq![
            MumbleEventV::ChannelCreated(crate::engine::spec_channel_create(c)),
        ],
        spec_handle(s, PacketV::ChannelState(c)).0.channels == s.channels.insert(
            c.channel_id->0,
            crate::engine::spec_channel_create(c),
        ),
{
}

/// An update for a previously unknown session id produces exactly one
/// "joined" event — and no "updated" event — for that packet.
pub proof fn lemma_unknown_user_joins(s: ClientStateV, u: UserStatePacketV)
    requires
        u.session is Some,
        !s.users.contains_key(u.session->0),
    ensures
        spec_handle(s, PacketV::UserState(u)).1 == seq![
            MumbleEventV::UserJoinedServer(crate::engine::spec_user_create(u)),
        ],
        spec_handle(s, PacketV::UserState(u)).0.users == s.users.insert(
            u.session->0,
            crate::engine::spec_user_create(u),
        ),
{
}

/// Removing an unknown channel id is a no-op: the aggregate maps are
/// unchanged and no event is emitted.
pub proof fn lemma_remove_unknown_channel_is_noop(s: ClientStateV, id: u32)
    requires
        !s.channels.contains_key(id),
    ensures
        spec_handle(s, PacketV::ChannelRemove(id)).0 == s,
        spec_handle(s, PacketV::ChannelRemove(id)).1 == Seq::<MumbleEventV>::empty(),
{
}

/// Removing an unknown session id is a no-op: the aggregate maps are
/// unchanged and no event is emitted.
pub proof fn lemma_remove_unknown_user_is_noop(s: ClientStateV, id: u32)
    requires
        !s.users.contains_key(id),
    ensures
        spec_handle(s, PacketV::UserRemove(id)).0 == s,
        spec_handle(s, PacketV::UserRemove(id)).1 == Seq::<MumbleEventV>::empty(),
{
}

/// The client state after a whole run of inbound packets.
pub open spec fn spec_run(s: ClientStateV, ps: Seq<PacketV>) -> ClientStateV
    decreases ps.len(),
{
    if ps.len() == 0 {
        s
    } else {
        spec_run(spec_handle(s, ps[0]).0, ps.drop_first())
    }
}

/// Every event a run of inbound packets produces, in produced order.
pub open spec fn spec_produced(s: ClientStateV, ps: Seq<PacketV>) -> Seq<MumbleEventV>
    decreases ps.len(),
{
    if ps.len() == 0 {
        Seq::<MumbleEventV>::empty()
    } else {
        spec_handle(s, ps[0]).1 + spec_produced(spec_handle(s, ps[0]).0, ps.drop_first())
    }
}

/// The sync-complete flag after a whole run of inbound packets.
pub open spec fn spec_gate_run(gate: bool, ps: Seq<PacketV>) -> bool
    decreases ps.len(),
{
    if ps.len() == 0 {
        gate
    } else {
        spec_gate_run(spec_gate_after(gate, ps[0]), ps.drop_first())
    }
}

/// Every event a run of inbound packets lets through to external
/// subscribers, in produced order.
pub open spec fn spec_forwarded_run(s: ClientStateV, gate: bool, ps: Seq<PacketV>) -> Seq<
    MumbleEventV,
>
    decreases ps.len(),
{
    if ps.len() == 0 {
        Seq::<MumbleEventV>::empty()
    } else {
        spec_forwarded(s, gate, ps[0]) + spec_forwarded_run(
            spec_handle(s, ps[0]).0,
            spec_gate_after(gate, ps[0]),
            ps.drop_first(),
        )
    }
}

/// Before the sync-complete packet has arrived, nothing reaches
/// external subscribers, though the aggregates are still updated
/// (the state still evolves as `spec_run` says).
pub proof fn lemma_gate_closed_blocks_all(s: ClientStateV, ps: Seq<PacketV>)
    requires
        forall|i: int| 0 <= i < ps.len() ==> !((#[trigger] ps[i]) is ServerSync),
    ensures
        spec_forwarded_run(s, false, ps) == Seq::<MumbleEventV>::empty(),
        spec_gate_run(false, ps) == false,
    decreases ps.len(),
{
    if ps.len() == 0 {
    } else {
        assert(!(ps[0] is ServerSync));
        lemma_gate_closed_blocks_all(spec_handle(s, ps[0]).0, ps.drop_first());
        assert(spec_forwarded_run(s, false, ps) =~= Seq::<MumbleEventV>::empty());
    }
}

/// Once the sync-complete flag is up it never falls, and from then on
/// every event reaches external subscribers, in the order it arose.
pub proof fn lemma_gate_open_forwards_all(s: ClientStateV, ps: Seq<PacketV>)
    ensures
        spec_gate_run(true, ps) == true,
        spec_forwarded_run(s, true, ps) == spec_produced(s, ps),
    decreases ps.len(),
{
    if ps.len() == 0 {
    } else {
        lemma_gate_open_forwards_all(spec_handle(s, ps[0]).0, ps.drop_first());
    }
}

/// A run splits: what a whole run forwards is what its first part
/// forwards followed by what its second part forwards, starting from
/// the state and flag the first part left behind.
pub proof fn lemma_forwarded_run_split(
    s: ClientStateV,
    gate: bool,
    ps1: Seq<PacketV>,
    ps2: Seq<PacketV>,
)
    ensures
        spec_forwarded_run(s, gate, ps1 + ps2) == spec_forwarded_run(s, gate, ps1)
            + spec_forwarded_run(spec_run(s, ps1), spec_gate_run(gate, ps1), ps2),
    decreases ps1.len(),
{
    if ps1.len() == 0 {
        assert(ps1 + ps2 =~= ps2);
        assert(spec_forwarded_run(s, gate, ps1) + spec_forwarded_run(s, gate, ps2)
            =~= spec_forwarded_run(s, gate, ps2));
    } else {
        let s1 = spec_handle(s, (ps1 + ps2)[0]).0;
        assert((ps1 + ps2)[0] == ps1[0]);
        assert((ps1 + ps2).drop_first() =~= ps1.drop_first() + ps2);
        lemma_forwarded_run_split(
            spec_handle(s, ps1[0]).0,
            spec_gate_after(gate, ps1[0]),
            ps1.drop_first(),
            ps2,
        );
        assert(spec_forwarded(s, gate, ps1[0]) + (spec_forwarded_run(
            spec_handle(s, ps1[0]).0,
            spec_gate_after(gate, ps1[0]),
            ps1.drop_first(),
        ) + spec_forwarded_run(spec_run(s, ps1), spec_gate_run(gate, ps1), ps2))
            =~= spec_forwarded_run(s, gate, ps1) + spec_forwarded_run(
            spec_run(s, ps1),
            spec_gate_run(gate, ps1),
            ps2,
        ));
    }
}

/// The whole suppression story in one statement: a run with no
/// sync-complete packet followed by a run that opens with one forwards
/// nothing from the first part, and from the sync-complete packet on,
/// exactly what is produced, in produced order.
pub proof fn lemma_events_flow_from_sync_on(s: ClientStateV, ps1: Seq<PacketV>, ps2: Seq<PacketV>)
    requires
        forall|i: int| 0 <= i < ps1.len() ==> !((#[trigger] ps1[i]) is ServerSync),
        ps2.len() > 0,
        ps2[0] is ServerSync,
    ensures
        spec_forwarded_run(s, false, ps1 + ps2) == spec_produced(spec_run(s, ps1), ps2),
{
    lemma_forwarded_run_split(s, false, ps1, ps2);
    lemma_gate_closed_blocks_all(s, ps1);
    let s1 = spec_run(s, ps1);
    lemma_gate_open_forwards_all(spec_handle(s1, ps2[0]).0, ps2.drop_first());
    assert(Seq::<MumbleEventV>::empty() + spec_forwarded_run(s1, false, ps2)
        =~= spec_forwarded_run(s1, false, ps2));
}

} // verus!
