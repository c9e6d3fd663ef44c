//! What the duplex routing loops decide, separated from the I/O that
//! app code performs: the fixed handshake packets, the recurring
//! keepalive, and how each loop reacts to a write error.
use vstd::prelude::*;
use crate::packets::{AuthenticateData, AuthenticateDataV, ControlPacket, PacketV, PingData,
    UserStatePacket, UserStatePacketV};
use crate::util::opt_str_view;

verus! {

/// Seconds between keepalive pings.
pub const PING_INTERVAL_SECS: u64 = 10;

/// Capacity of the outbound submission queue and of each broadcast
/// channel.
pub const CHANNEL_CAPACITY: usize = 32;

/// Relies on std's SystemTime: the seconds elapsed since the Unix
/// epoch, now. The result depends on the clock, so nothing further is
/// promised of it; a clock before the epoch reads as zero.
#[verifier::external_body]
pub fn get_unix_timestamp() -> u64 {
    match std::time::SystemTime::now().duration_since(std::time::SystemTime::UNIX_EPOCH) {
        Ok(elapsed) => elapsed.as_secs(),
        Err(_) => 0,
    }
}

/// The keepalive packet for one tick: a ping carrying the current
/// Unix timestamp.
pub fn build_ping_packet(timestamp: u64) -> (r: ControlPacket)
    ensures
        r@ == PacketV::Ping(timestamp),
        r@.wf(),
{
    ControlPacket::Ping(PingData { timestamp })
}

/// The credentials packet of the second handshake step: the
/// configured username and password, audio capability declared, no
/// token or codec negotiation.
pub fn build_authenticate_packet(username: &String, password: &Option<String>) -> (r:
    ControlPacket)
    ensures
        r@ == PacketV::Authenticate(
            AuthenticateDataV {
                username: username@,
                password: opt_str_view(*password),
                opus: true,
            },
        ),
{
    ControlPacket::Authenticate(
        AuthenticateData {
            username: username.clone(),
            password: crate::util::opt_string_clone(password),
            opus: true,
        },
    )
}

/// The third handshake step: this client never transmits audio, so it
/// reports itself muted and deafened from the start, and nothing
/// else.
pub fn build_initial_mute_packet() -> (r: ControlPacket)
    ensures
        r@ == PacketV::UserState(
            UserStatePacketV {
                session: Option::None,
                user_id: Option::None,
                channel_id: Option::None,
                name: Option::None,
                self_mute: Option::Some(true),
                self_deaf: Option::Some(true),
            },
        ),
        r@.wf(),
{
    ControlPacket::UserState(
        UserStatePacket {
            session: Option::None,
            user_id: Option::None,
            channel_id: Option::None,
            name: Option::None,
            self_mute: Option::Some(true),
            self_deaf: Option::Some(true),
        },
    )
}

/// What one turn of the inbound loop observed, as app code reports
/// it.
pub enum InboundEvent {
    PacketDecoded,
    CorruptFrame,
    StreamClosed,
}

/// Whether the inbound loop goes on after one observation: the end of
/// the stream terminates it, while a decoded packet — or a corrupt
/// frame, which is logged and skipped — lets it continue.
pub fn inbound_loop_continues(event: &InboundEvent) -> (r: bool)
    ensures
        r == !(event is StreamClosed),
{
    match event {
        InboundEvent::StreamClosed => false,
        _ => true,
    }
}

/// How one outbound write ended, as app code reports it.
pub enum WriteOutcome {
    Sent,
    BrokenConnection,
    TransientError,
}

/// Whether the outbound loop goes on after one write: a broken
/// connection terminates it, anything else — success or a transient
/// error — lets it continue with the next queued message.
pub fn outbound_loop_continues(outcome: &WriteOutcome) -> (r: bool)
    ensures
        r == !(outcome is BrokenConnection),
{
    match outcome {
        WriteOutcome::BrokenConnection => false,
        _ => true,
    }
}

} // verus!
