//! Wire framing and message codec. Each message travels as a frame:
//! a little-endian type tag, a little-endian payload length, then the
//! payload. Field encoding is symmetric — encoding then decoding any
//! interpreted message yields the original value — and a frame whose
//! tag the client does not interpret decodes without error into an
//! uninterpreted packet that can be discarded safely.
use vstd::prelude::*;
use vstd::bytes::{lemma_auto_spec_u16_to_from_le_bytes, lemma_auto_spec_u32_to_from_le_bytes,
    lemma_auto_spec_u64_to_from_le_bytes, spec_u16_from_le_bytes, spec_u16_to_le_bytes,
    spec_u32_from_le_bytes, spec_u32_to_le_bytes, spec_u64_from_le_bytes, spec_u64_to_le_bytes,
    u16_from_le_bytes, u16_to_le_bytes, u32_from_le_bytes, u32_to_le_bytes, u64_from_le_bytes,
    u64_to_le_bytes};
use vstd::slice::{slice_subrange, slice_to_vec};
use vstd::utf8::{decode_utf8, encode_utf8, encode_utf8_decode_utf8, encode_utf8_valid_utf8,
    valid_utf8};
use crate::packets::{AuthenticateData, AuthenticateDataV, ChannelRemoveData, ChannelStatePacket,
    ChannelStatePacketV, ControlPacket, PacketV, PingData, ServerConfigData, ServerConfigDataV,
    ServerSyncData, ServerSyncDataV, TextMessageData, TextMessageDataV, UserRemoveData,
    UserStatePacket, UserStatePacketV, VersionData, VersionDataV, spec_known_tag, str_ok,
    PAYLOAD_BYTES_MAX, STRING_BYTES_MAX, TAG_AUTHENTICATE, TAG_CHANNEL_REMOVE, TAG_CHANNEL_STATE,
    TAG_PING, TAG_SERVER_CONFIG, TAG_SERVER_SYNC, TAG_TEXT_MESSAGE, TAG_USER_REMOVE,
    TAG_USER_STATE, TAG_VERSION};

verus! {

// ---------------------------------------------------------------
// Field encodings
// ---------------------------------------------------------------
/// One byte.
pub open spec fn enc_u8(v: u8) -> Seq<u8> {
    seq![v]
}

/// A boolean as one byte, 1 for true.
pub open spec fn enc_bool(v: bool) -> Seq<u8> {
    seq![(if v { 1u8 } else { 0u8 })]
}

/// Four little-endian bytes.
pub open spec fn enc_u32(v: u32) -> Seq<u8> {
    spec_u32_to_le_bytes(v)
}

/// Eight little-endian bytes.
pub open spec fn enc_u64(v: u64) -> Seq<u8> {
    spec_u64_to_le_bytes(v)
}

/// A string: the byte length of its UTF-8 form, then that form.
pub open spec fn enc_str(s: Seq<char>) -> Seq<u8> {
    spec_u32_to_le_bytes(encode_utf8(s).len() as u32) + encode_utf8(s)
}

/// An optional integer: a presence byte, then the value when present.
pub open spec fn enc_opt_u32(o: Option<u32>) -> Seq<u8> {
    match o {
        Option::Some(v) => seq![1u8] + enc_u32(v),
        Option::None => seq![0u8],
    }
}

/// An optional boolean: a presence byte, then the value when present.
pub open spec fn enc_opt_bool(o: Option<bool>) -> Seq<u8> {
    match o {
        Option::Some(v) => seq![1u8] + enc_bool(v),
        Option::None => seq![0u8],
    }
}

/// An optional string: a presence byte, then the string when present.
pub open spec fn enc_opt_str(o: Option<Seq<char>>) -> Seq<u8> {
    match o {
        Option::Some(s) => seq![1u8] + enc_str(s),
        Option::None => seq![0u8],
    }
}

// ---------------------------------------------------------------
// Payloads and frames
// ---------------------------------------------------------------
/// The payload bytes of one packet.
pub open spec fn spec_payload(p: PacketV) -> Seq<u8> {
    match p {
        PacketV::Version(d) => enc_u32(d.version) + (enc_str(d.release) + (enc_str(d.os)
            + enc_str(d.os_version))),
        PacketV::Authenticate(d) => enc_str(d.username) + (enc_opt_str(d.password) + enc_bool(
            d.opus,
        )),
        PacketV::Ping(timestamp) => enc_u64(timestamp),
        PacketV::ServerSync(d) => enc_opt_u32(d.session) + (enc_opt_u32(d.max_bandwidth)
            + enc_opt_str(d.welcome_text)),
        PacketV::ChannelRemove(id) => enc_u32(id),
        PacketV::ChannelState(d) => enc_opt_u32(d.channel_id) + (enc_opt_u32(d.parent)
            + (enc_opt_str(d.name) + (enc_opt_str(d.description) + enc_opt_u32(d.max_users)))),
        PacketV::UserRemove(id) => enc_u32(id),
        PacketV::UserState(d) => enc_opt_u32(d.session) + (enc_opt_u32(d.user_id) + (enc_opt_u32(
            d.channel_id,
        ) + (enc_opt_str(d.name) + (enc_opt_bool(d.self_mute) + enc_opt_bool(d.self_deaf))))),
        PacketV::TextMessage(d) => enc_opt_u32(d.actor) + enc_str(d.message),
        PacketV::Other(_, payload) => payload,
        PacketV::ServerConfig(d) => enc_opt_u32(d.max_bandwidth) + (enc_opt_str(d.welcome_text)
            + (enc_opt_bool(d.allow_html) + (enc_opt_u32(d.message_length) + (enc_opt_u32(
            d.image_message_length,
        ) + enc_opt_u32(d.max_users))))),
    }
}

/// The whole frame of one packet: tag, payload length, payload.
pub open spec fn spec_frame(p: PacketV) -> Seq<u8> {
    spec_u16_to_le_bytes(p.tag()) + spec_u32_to_le_bytes(spec_payload(p).len() as u32)
        + spec_payload(p)
}

// ---------------------------------------------------------------
// Field decodings: each reads a prefix and returns the rest
// ---------------------------------------------------------------
/// Reads one byte.
pub open spec fn dec_u8(b: Seq<u8>) -> Option<(u8, Seq<u8>)> {
    if b.len() >= 1 {
        Option::Some((b[0], b.skip(1)))
    } else {
        Option::None
    }
}

/// Reads a boolean byte; any byte other than 0 or 1 is malformed.
pub open spec fn dec_bool(b: Seq<u8>) -> Option<(bool, Seq<u8>)> {
    match dec_u8(b) {
        Option::Some((f, r)) => if f == 0 {
            Option::Some((false, r))
        } else if f == 1 {
            Option::Some((true, r))
        } else {
            Option::None
        },
        Option::None => Option::None,
    }
}

/// Reads four little-endian bytes.
pub open spec fn dec_u32(b: Seq<u8>) -> Option<(u32, Seq<u8>)> {
    if b.len() >= 4 {
        Option::Some((spec_u32_from_le_bytes(b.take(4)), b.skip(4)))
    } else {
        Option::None
    }
}

/// Reads eight little-endian bytes.
pub open spec fn dec_u64(b: Seq<u8>) -> Option<(u64, Seq<u8>)> {
    if b.len() >= 8 {
        Option::Some((spec_u64_from_le_bytes(b.take(8)), b.skip(8)))
    } else {
        Option::None
    }
}

/// Reads a length-prefixed string; bytes that are not valid UTF-8 are
/// malformed.
pub open spec fn dec_str(b: Seq<u8>) -> Option<(Seq<char>, Seq<u8>)> {
    match dec_u32(b) {
        Option::Some((n, r)) => if r.len() >= n && valid_utf8(r.take(n as int)) {
            Option::Some((decode_utf8(r.take(n as int)), r.skip(n as int)))
        } else {
            Option::None
        },
        Option::None => Option::None,
    }
}

/// Reads an optional integer.
pub open spec fn dec_opt_u32(b: Seq<u8>) -> Option<(Option<u32>, Seq<u8>)> {
    match dec_u8(b) {
        Option::Some((f, r)) => if f == 0 {
            Option::Some((Option::None, r))
        } else if f == 1 {
            match dec_u32(r) {
                Option::Some((v, r2)) => Option::Some((Option::Some(v), r2)),
                Option::None => Option::None,
            }
        } else {
            Option::None
        },
        Option::None => Option::None,
    }
}

/// Reads an optional boolean.
pub open spec fn dec_opt_bool(b: Seq<u8>) -> Option<(Option<bool>, Seq<u8>)> {
    match dec_u8(b) {
        Option::Some((f, r)) => if f == 0 {
            Option::Some((Option::None, r))
        } else if f == 1 {
            match dec_bool(r) {
                Option::Some((v, r2)) => Option::Some((Option::Some(v), r2)),
                Option::None => Option::None,
            }
        } else {
            Option::None
        },
        Option::None => Option::None,
    }
}

/// Reads an optional string.
pub open spec fn dec_opt_str(b: Seq<u8>) -> Option<(Option<Seq<char>>, Seq<u8>)> {
    match dec_u8(b) {
        Option::Some((f, r)) => if f == 0 {
            Option::Some((Option::None, r))
        } else if f == 1 {
            match dec_str(r) {
                Option::Some((v, r2)) => Option::Some((Option::Some(v), r2)),
                Option::None => Option::None,
            }
        } else {
            Option::None
        },
        Option::None => Option::None,
    }
}

// ---------------------------------------------------------------
// Payload decodings, one per interpreted message type
// ---------------------------------------------------------------
/// Decodes a version payload.
pub open spec fn spec_dec_version(b: Seq<u8>) -> Option<VersionDataV> {
    match dec_u32(b) {
        Option::Some((version, b)) => match dec_str(b) {
            Option::Some((release, b)) => match dec_str(b) {
                Option::Some((os, b)) => match dec_str(b) {
                    Option::Some((os_version, b)) => if b.len() == 0 {
                        Option::Some(VersionDataV { version, release, os, os_version })
                    } else {
                        Option::None
                    },
                    Option::None => Option::None,
                },
                Option::None => Option::None,
            },
            Option::None => Option::None,
        },
        Option::None => Option::None,
    }
}

/// Decodes an authentication payload.
pub open spec fn spec_dec_authenticate(b: Seq<u8>) -> Option<AuthenticateDataV> {
    match dec_str(b) {
        Option::Some((username, b)) => match dec_opt_str(b) {
            Option::Some((password, b)) => match dec_bool(b) {
                Option::Some((opus, b)) => if b.len() == 0 {
                    Option::Some(AuthenticateDataV { username, password, opus })
                } else {
                    Option::None
                },
                Option::None => Option::None,
            },
            Option::None => Option::None,
        },
        Option::None => Option::None,
    }
}

/// Decodes a keepalive payload.
pub open spec fn spec_dec_ping(b: Seq<u8>) -> Option<u64> {
    match dec_u64(b) {
        Option::Some((timestamp, b)) => if b.len() == 0 {
            Option::Some(timestamp)
        } else {
            Option::None
        },
        Option::None => Option::None,
    }
}

/// Decodes a sync-complete payload.
pub open spec fn spec_dec_server_sync(b: Seq<u8>) -> Option<ServerSyncDataV> {
    match dec_opt_u32(b) {
        Option::Some((session, b)) => match dec_opt_u32(b) {
            Option::Some((max_bandwidth, b)) => match dec_opt_str(b) {
                Option::Some((welcome_text, b)) => if b.len() == 0 {
                    Option::Some(ServerSyncDataV { session, max_bandwidth, welcome_text })
                } else {
                    Option::None
                },
                Option::None => Option::None,
            },
            Option::None => Option::None,
        },
        Option::None => Option::None,
    }
}

/// Decodes a removal payload (one id).
pub open spec fn spec_dec_id(b: Seq<u8>) -> Option<u32> {
    match dec_u32(b) {
        Option::Some((id, b)) => if b.len() == 0 {
            Option::Some(id)
        } else {
            Option::None
        },
        Option::None => Option::None,
    }
}

/// Decodes a channel-update payload.
pub open spec fn spec_dec_channel_state(b: Seq<u8>) -> Option<ChannelStatePacketV> {
    match dec_opt_u32(b) {
        Option::Some((channel_id, b)) => match dec_opt_u32(b) {
            Option::Some((parent, b)) => match dec_opt_str(b) {
                Option::Some((name, b)) => match dec_opt_str(b) {
                    Option::Some((description, b)) => match dec_opt_u32(b) {
                        Option::Some((max_users, b)) => if b.len() == 0 {
                            Option::Some(
                                ChannelStatePacketV {
                                    channel_id,
                                    parent,
                                    name,
                                    description,
                                    max_users,
                                },
                            )
                        } else {
                            Option::None
                        },
                        Option::None => Option::None,
                    },
                    Option::None => Option::None,
                },
                Option::None => Option::None,
            },
            Option::None => Option::None,
        },
        Option::None => Option::None,
    }
}

/// Decodes a user-update payload.
pub open spec fn spec_dec_user_state(b: Seq<u8>) -> Option<UserStatePacketV> {
    match dec_opt_u32(b) {
        Option::Some((session, b)) => match dec_opt_u32(b) {
            Option::Some((user_id, b)) => match dec_opt_u32(b) {
                Option::Some((channel_id, b)) => match dec_opt_str(b) {
                    Option::Some((name, b)) => match dec_opt_bool(b) {
                        Option::Some((self_mute, b)) => match dec_opt_bool(b) {
                            Option::Some((self_deaf, b)) => if b.len() == 0 {
                                Option::Some(
                                    UserStatePacketV {
                                        session,
                                        user_id,
                                        channel_id,
                                        name,
                                        self_mute,
                                        self_deaf,
                                    },
                                )
                            } else {
                                Option::None
                            },
                            Option::None => Option::None,
                        },
                        Option::None => Option::None,
                    },
                    Option::None => Option::None,
                },
                Option::None => Option::None,
            },
            Option::None => Option::None,
        },
        Option::None => Option::None,
    }
}

/// Decodes a text-message payload.
pub open spec fn spec_dec_text_message(b: Seq<u8>) -> Option<TextMessageDataV> {
    match dec_opt_u32(b) {
        Option::Some((actor, b)) => match dec_str(b) {
            Option::Some((message, b)) => if b.len() == 0 {
                Option::Some(TextMessageDataV { actor, message })
            } else {
                Option::None
            },
            Option::None => Option::None,
        },
        Option::None => Option::None,
    }
}

/// Decodes a server-limits payload.
pub open spec fn spec_dec_server_config(b: Seq<u8>) -> Option<ServerConfigDataV> {
    match dec_opt_u32(b) {
        Option::Some((max_bandwidth, b)) => match dec_opt_str(b) {
            Option::Some((welcome_text, b)) => match dec_opt_bool(b) {
                Option::Some((allow_html, b)) => match dec_opt_u32(b) {
                    Option::Some((message_length, b)) => match dec_opt_u32(b) {
                        Option::Some((image_message_length, b)) => match dec_opt_u32(b) {
                            Option::Some((max_users, b)) => if b.len() == 0 {
                                Option::Some(
                                    ServerConfigDataV {
                                        max_bandwidth,
                                        welcome_text,
                                        allow_html,
                                        message_length,
                                        image_message_length,
                                        max_users,
                                    },
                                )
                            } else {
                                Option::None
                            },
                            Option::None => Option::None,
                        },
                        Option::None => Option::None,
                    },
                    Option::None => Option::None,
                },
                Option::None => Option::None,
            },
            Option::None => Option::None,
        },
        Option::None => Option::None,
    }
}

/// Decodes one message from its tag and payload. A tag outside the
/// interpreted set decodes, without error, into an uninterpreted
/// packet carrying the raw payload.
pub open spec fn spec_decode_message(tag: u16, payload: Seq<u8>) -> Option<PacketV> {
    if tag == TAG_VERSION {
        match spec_dec_version(payload) {
            Option::Some(d) => Option::Some(PacketV::Version(d)),
            Option::None => Option::None,
        }
    } else if tag == TAG_AUTHENTICATE {
        match spec_dec_authenticate(payload) {
            Option::Some(d) => Option::Some(PacketV::Authenticate(d)),
            Option::None => Option::None,
        }
    } else if tag == TAG_PING {
        match spec_dec_ping(payload) {
            Option::Some(t) => Option::Some(PacketV::Ping(t)),
            Option::None => Option::None,
        }
    } else if tag == TAG_SERVER_SYNC {
        match spec_dec_server_sync(payload) {
            Option::Some(d) => Option::Some(PacketV::ServerSync(d)),
            Option::None => Option::None,
        }
    } else if tag == TAG_CHANNEL_REMOVE {
        match spec_dec_id(payload) {
            Option::Some(id) => Option::Some(PacketV::ChannelRemove(id)),
            Option::None => Option::None,
        }
    } else if tag == TAG_CHANNEL_STATE {
        match spec_dec_channel_state(payload) {
            Option::Some(d) => Option::Some(PacketV::ChannelState(d)),
            Option::None => Option::None,
        }
    } else if tag == TAG_USER_REMOVE {
        match spec_dec_id(payload) {
            Option::Some(id) => Option::Some(PacketV::UserRemove(id)),
            Option::None => Option::None,
        }
    } else if tag == TAG_USER_STATE {
        match spec_dec_user_state(payload) {
            Option::Some(d) => Option::Some(PacketV::UserState(d)),
            Option::None => Option::None,
        }
    } else if tag == TAG_TEXT_MESSAGE {
        match spec_dec_text_message(payload) {
            Option::Some(d) => Option::Some(PacketV::TextMessage(d)),
            Option::None => Option::None,
        }
    } else if tag == TAG_SERVER_CONFIG {
        match spec_dec_server_config(payload) {
            Option::Some(d) => Option::Some(PacketV::ServerConfig(d)),
            Option::None => Option::None,
        }
    } else {
        Option::Some(PacketV::Other(tag, payload))
    }
}

/// Splits one frame off the front of a byte stream: its tag, its
/// payload, and how many bytes it occupied. Nothing comes off until
/// the whole frame has arrived.
pub open spec fn spec_take_frame(b: Seq<u8>) -> Option<(u16, Seq<u8>, int)> {
    if b.len() < 6 {
        Option::None
    } else {
        let tag = spec_u16_from_le_bytes(b.take(2));
        let n = spec_u32_from_le_bytes(b.skip(2).take(4));
        if b.len() >= 6 + n {
            Option::Some((tag, b.skip(6).take(n as int), 6 + n as int))
        } else {
            Option::None
        }
    }
}

// ---------------------------------------------------------------
// Round trip: decoding what was encoded yields the original
// ---------------------------------------------------------------
proof fn lemma_dec_u8(v: u8, rest: Seq<u8>)
    ensures
        dec_u8(enc_u8(v) + rest) == Option::Some((v, rest)),
{
    let b = enc_u8(v) + rest;
    assert(b[0] == v);
    assert(b.skip(1) =~= rest);
}

proof fn lemma_dec_bool(v: bool, rest: Seq<u8>)
    ensures
        dec_bool(enc_bool(v) + rest) == Option::Some((v, rest)),
{
    let b = enc_bool(v) + rest;
    assert(b[0] == (if v { 1u8 } else { 0u8 }));
    assert(b.skip(1) =~= rest);
}

proof fn lemma_dec_u32(v: u32, rest: Seq<u8>)
    ensures
        dec_u32(enc_u32(v) + rest) == Option::Some((v, rest)),
{
    lemma_auto_spec_u32_to_from_le_bytes();
    let b = enc_u32(v) + rest;
    assert(b.take(4) =~= enc_u32(v));
    assert(b.skip(4) =~= rest);
}

proof fn lemma_dec_u64(v: u64, rest: Seq<u8>)
    ensures
        dec_u64(enc_u64(v) + rest) == Option::Some((v, rest)),
{
    lemma_auto_spec_u64_to_from_le_bytes();
    let b = enc_u64(v) + rest;
    assert(b.take(8) =~= enc_u64(v));
    assert(b.skip(8) =~= rest);
}

proof fn lemma_dec_str(s: Seq<char>, rest: Seq<u8>)
    requires
        str_ok(s),
    ensures
        dec_str(enc_str(s) + rest) == Option::Some((s, rest)),
{
    let bytes = encode_utf8(s);
    let n = bytes.len() as u32;
    assert(enc_str(s) + rest =~= enc_u32(n) + (bytes + rest));
    lemma_dec_u32(n, bytes + rest);
    let r = bytes + rest;
    assert(r.take(n as int) =~= bytes);
    assert(r.skip(n as int) =~= rest);
    encode_utf8_valid_utf8(s);
    encode_utf8_decode_utf8(s);
}

proof fn lemma_dec_opt_u32(o: Option<u32>, rest: Seq<u8>)
    ensures
        dec_opt_u32(enc_opt_u32(o) + rest) == Option::Some((o, rest)),
{
    match o {
        Option::Some(v) => {
            assert(enc_opt_u32(o) + rest =~= enc_u8(1) + (enc_u32(v) + rest));
            lemma_dec_u8(1, enc_u32(v) + rest);
            lemma_dec_u32(v, rest);
        },
        Option::None => {
            assert(enc_opt_u32(o) + rest =~= enc_u8(0) + rest);
            lemma_dec_u8(0, rest);
        },
    }
}

proof fn lemma_dec_opt_bool(o: Option<bool>, rest: Seq<u8>)
    ensures
        dec_opt_bool(enc_opt_bool(o) + rest) == Option::Some((o, rest)),
{
    match o {
        Option::Some(v) => {
            assert(enc_opt_bool(o) + rest =~= enc_u8(1) + (enc_bool(v) + rest));
            lemma_dec_u8(1, enc_bool(v) + rest);
            lemma_dec_bool(v, rest);
        },
        Option::None => {
            assert(enc_opt_bool(o) + rest =~= enc_u8(0) + rest);
            lemma_dec_u8(0, rest);
        },
    }
}

proof fn lemma_dec_opt_str(o: Option<Seq<char>>, rest: Seq<u8>)
    requires
        o is Some ==> str_ok(o->0),
    ensures
        dec_opt_str(enc_opt_str(o) + rest) == Option::Some((o, rest)),
{
    match o {
        Option::Some(s) => {
            assert(enc_opt_str(o) + rest =~= enc_u8(1) + (enc_str(s) + rest));
            lemma_dec_u8(1, enc_str(s) + rest);
            lemma_dec_str(s, rest);
        },
        Option::None => {
            assert(enc_opt_str(o) + rest =~= enc_u8(0) + rest);
            lemma_dec_u8(0, rest);
        },
    }
}

/// A string's encoding is its length prefix plus its bytes.
proof fn lemma_enc_str_len(s: Seq<char>)
    ensures
        enc_str(s).len() == 4 + encode_utf8(s).len(),
{
    lemma_auto_spec_u32_to_from_le_bytes();
}

/// The payload of a well-formed packet fits one frame.
pub proof fn lemma_payload_len(p: PacketV)
    requires
        p.wf(),
    ensures
        spec_payload(p).len() <= PAYLOAD_BYTES_MAX,
{
    lemma_auto_spec_u16_to_from_le_bytes();
    lemma_auto_spec_u32_to_from_le_bytes();
    lemma_auto_spec_u64_to_from_le_bytes();
    match p {
        PacketV::Version(d) => {
            lemma_enc_str_len(d.release);
            lemma_enc_str_len(d.os);
            lemma_enc_str_len(d.os_version);
        },
        PacketV::Authenticate(d) => {
            lemma_enc_str_len(d.username);
            if d.password is Some {
                lemma_enc_str_len(d.password->0);
            }
        },
        PacketV::ServerSync(d) => {
            if d.welcome_text is Some {
                lemma_enc_str_len(d.welcome_text->0);
            }
        },
        PacketV::ChannelState(d) => {
            if d.name is Some {
                lemma_enc_str_len(d.name->0);
            }
            if d.description is Some {
                lemma_enc_str_len(d.description->0);
            }
        },
        PacketV::UserState(d) => {
            if d.name is Some {
                lemma_enc_str_len(d.name->0);
            }
        },
        PacketV::TextMessage(d) => {
            lemma_enc_str_len(d.message);
        },
        PacketV::ServerConfig(d) => {
            if d.welcome_text is Some {
                lemma_enc_str_len(d.welcome_text->0);
            }
        },
        _ => {},
    }
}

proof fn lemma_rt_version(d: VersionDataV)
    requires
        PacketV::Version(d).wf(),
    ensures
        spec_dec_version(spec_payload(PacketV::Version(d))) == Option::Some(d),
{
    let nil = Seq::<u8>::empty();
    let r3 = enc_str(d.os_version);
    let r2 = enc_str(d.os) + r3;
    let r1 = enc_str(d.release) + r2;
    lemma_dec_u32(d.version, r1);
    lemma_dec_str(d.release, r2);
    lemma_dec_str(d.os, r3);
    assert(r3 =~= enc_str(d.os_version) + nil);
    lemma_dec_str(d.os_version, nil);
}

proof fn lemma_rt_authenticate(d: AuthenticateDataV)
    requires
        PacketV::Authenticate(d).wf(),
    ensures
        spec_dec_authenticate(spec_payload(PacketV::Authenticate(d))) == Option::Some(d),
{
    let nil = Seq::<u8>::empty();
    let r2 = enc_bool(d.opus);
    let r1 = enc_opt_str(d.password) + r2;
    lemma_dec_str(d.username, r1);
    lemma_dec_opt_str(d.password, r2);
    assert(r2 =~= enc_bool(d.opus) + nil);
    lemma_dec_bool(d.opus, nil);
}

proof fn lemma_rt_ping(timestamp: u64)
    ensures
        spec_dec_ping(spec_payload(PacketV::Ping(timestamp))) == Option::Some(timestamp),
{
    let nil = Seq::<u8>::empty();
    assert(enc_u64(timestamp) =~= enc_u64(timestamp) + nil);
    lemma_dec_u64(timestamp, nil);
}

proof fn lemma_rt_server_sync(d: ServerSyncDataV)
    requires
        PacketV::ServerSync(d).wf(),
    ensures
        spec_dec_server_sync(spec_payload(PacketV::ServerSync(d))) == Option::Some(d),
{
    let nil = Seq::<u8>::empty();
    let r2 = enc_opt_str(d.welcome_text);
    let r1 = enc_opt_u32(d.max_bandwidth) + r2;
    lemma_dec_opt_u32(d.session, r1);
    lemma_dec_opt_u32(d.max_bandwidth, r2);
    assert(r2 =~= enc_opt_str(d.welcome_text) + nil);
    lemma_dec_opt_str(d.welcome_text, nil);
}

proof fn lemma_rt_id(id: u32)
    ensures
        spec_dec_id(enc_u32(id)) == Option::Some(id),
{
    let nil = Seq::<u8>::empty();
    assert(enc_u32(id) =~= enc_u32(id) + nil);
    lemma_dec_u32(id, nil);
}

proof fn lemma_rt_channel_state(d: ChannelStatePacketV)
    requires
        PacketV::ChannelState(d).wf(),
    ensures
        spec_dec_channel_state(spec_payload(PacketV::ChannelState(d))) == Option::Some(d),
{
    let nil = Seq::<u8>::empty();
    let r4 = enc_opt_u32(d.max_users);
    let r3 = enc_opt_str(d.description) + r4;
    let r2 = enc_opt_str(d.name) + r3;
    let r1 = enc_opt_u32(d.parent) + r2;
    lemma_dec_opt_u32(d.channel_id, r1);
    lemma_dec_opt_u32(d.parent, r2);
    lemma_dec_opt_str(d.name, r3);
    lemma_dec_opt_str(d.description, r4);
    assert(r4 =~= enc_opt_u32(d.max_users) + nil);
    lemma_dec_opt_u32(d.max_users, nil);
}

proof fn lemma_rt_user_state(d: UserStatePacketV)
    requires
        PacketV::UserState(d).wf(),
    ensures
        spec_dec_user_state(spec_payload(PacketV::UserState(d))) == Option::Some(d),
{
    let nil = Seq::<u8>::empty();
    let r5 = enc_opt_bool(d.self_deaf);
    let r4 = enc_opt_bool(d.self_mute) + r5;
    let r3 = enc_opt_str(d.name) + r4;
    let r2 = enc_opt_u32(d.channel_id) + r3;
    let r1 = enc_opt_u32(d.user_id) + r2;
    lemma_dec_opt_u32(d.session, r1);
    lemma_dec_opt_u32(d.user_id, r2);
    lemma_dec_opt_u32(d.channel_id, r3);
    lemma_dec_opt_str(d.name, r4);
    lemma_dec_opt_bool(d.self_mute, r5);
    assert(r5 =~= enc_opt_bool(d.self_deaf) + nil);
    lemma_dec_opt_bool(d.self_deaf, nil);
}

proof fn lemma_rt_text_message(d: TextMessageDataV)
    requires
        PacketV::TextMessage(d).wf(),
    ensures
        spec_dec_text_message(spec_payload(PacketV::TextMessage(d))) == Option::Some(d),
{
    let nil = Seq::<u8>::empty();
    let r1 = enc_str(d.message);
    lemma_dec_opt_u32(d.actor, r1);
    assert(r1 =~= enc_str(d.message) + nil);
    lemma_dec_str(d.message, nil);
}

proof fn lemma_rt_server_config(d: ServerConfigDataV)
    requires
        PacketV::ServerConfig(d).wf(),
    ensures
        spec_dec_server_config(spec_payload(PacketV::ServerConfig(d))) == Option::Some(d),
{
    let nil = Seq::<u8>::empty();
    let r5 = enc_opt_u32(d.max_users);
    let r4 = enc_opt_u32(d.image_message_length) + r5;
    let r3 = enc_opt_u32(d.message_length) + r4;
    let r2 = enc_opt_bool(d.allow_html) + r3;
    let r1 = enc_opt_str(d.welcome_text) + r2;
    lemma_dec_opt_u32(d.max_bandwidth, r1);
    lemma_dec_opt_str(d.welcome_text, r2);
    lemma_dec_opt_bool(d.allow_html, r3);
    lemma_dec_opt_u32(d.message_length, r4);
    lemma_dec_opt_u32(d.image_message_length, r5);
    assert(r5 =~= enc_opt_u32(d.max_users) + nil);
    lemma_dec_opt_u32(d.max_users, nil);
}

/// Round trip of the message codec: decoding the encoding of any
/// well-formed packet under its own tag yields exactly that packet.
pub proof fn lemma_message_round_trip(p: PacketV)
    requires
        p.wf(),
    ensures
        spec_decode_message(p.tag(), spec_payload(p)) == Option::Some(p),
{
    match p {
        PacketV::Version(d) => lemma_rt_version(d),
        PacketV::Authenticate(d) => lemma_rt_authenticate(d),
        PacketV::Ping(timestamp) => lemma_rt_ping(timestamp),
        PacketV::ServerSync(d) => lemma_rt_server_sync(d),
        PacketV::ChannelRemove(id) => lemma_rt_id(id),
        PacketV::ChannelState(d) => lemma_rt_channel_state(d),
        PacketV::UserRemove(id) => lemma_rt_id(id),
        PacketV::UserState(d) => lemma_rt_user_state(d),
        PacketV::TextMessage(d) => lemma_rt_text_message(d),
        PacketV::Other(_, _) => {},
        PacketV::ServerConfig(d) => lemma_rt_server_config(d),
    }
}

/// Round trip of the framing: a frame followed by anything splits
/// back into its own tag and payload, consuming exactly the frame.
pub proof fn lemma_frame_round_trip(p: PacketV, rest: Seq<u8>)
    requires
        p.wf(),
    ensures
        spec_take_frame(spec_frame(p) + rest) == Option::Some(
            (p.tag(), spec_payload(p), 6 + spec_payload(p).len() as int),
        ),
{
    lemma_auto_spec_u16_to_from_le_bytes();
    lemma_auto_spec_u32_to_from_le_bytes();
    lemma_payload_len(p);
    let pay = spec_payload(p);
    let n = pay.len() as u32;
    let b = spec_frame(p) + rest;
    assert(b.take(2) =~= spec_u16_to_le_bytes(p.tag()));
    assert(b.skip(2).take(4) =~= spec_u32_to_le_bytes(n));
    assert(b.skip(6).take(n as int) =~= pay);
}

/// The wire round trip in one statement: splitting a well-formed
/// packet's frame off any stream and decoding what came off yields
/// exactly the packet that was encoded.
pub proof fn lemma_wire_round_trip(p: PacketV, rest: Seq<u8>)
    requires
        p.wf(),
    ensures
        spec_take_frame(spec_frame(p) + rest) == Option::Some(
            (p.tag(), spec_payload(p), 6 + spec_payload(p).len() as int),
        ),
        spec_decode_message(p.tag(), spec_payload(p)) == Option::Some(p),
{
    lemma_frame_round_trip(p, rest);
    lemma_message_round_trip(p);
}


// ---------------------------------------------------------------
// Executable encoding
// ---------------------------------------------------------------
fn put_u8(out: &mut Vec<u8>, v: u8)
    ensures
        final(out)@ == old(out)@ + enc_u8(v),
{
    out.push(v);
    proof {
        assert(out@ =~= old(out)@ + enc_u8(v));
    }
}

fn put_bool(out: &mut Vec<u8>, v: bool)
    ensures
        final(out)@ == old(out)@ + enc_bool(v),
{
    if v {
        out.push(1);
    } else {
        out.push(0);
    }
    proof {
        assert(out@ =~= old(out)@ + enc_bool(v));
    }
}

fn put_u16(out: &mut Vec<u8>, v: u16)
    ensures
        final(out)@ == old(out)@ + spec_u16_to_le_bytes(v),
{
    let mut b = u16_to_le_bytes(v);
    out.append(&mut b);
}

fn put_u32(out: &mut Vec<u8>, v: u32)
    ensures
        final(out)@ == old(out)@ + enc_u32(v),
{
    let mut b = u32_to_le_bytes(v);
    out.append(&mut b);
}

fn put_u64(out: &mut Vec<u8>, v: u64)
    ensures
        final(out)@ == old(out)@ + enc_u64(v),
{
    let mut b = u64_to_le_bytes(v);
    out.append(&mut b);
}

fn put_bytes(out: &mut Vec<u8>, s: &[u8])
    ensures
        final(out)@ == old(out)@ + s@,
{
    let mut b = slice_to_vec(s);
    out.append(&mut b);
}

fn put_str(out: &mut Vec<u8>, s: &str)
    requires
        str_ok(s@),
    ensures
        final(out)@ == old(out)@ + enc_str(s@),
{
    let bytes = s.as_bytes();
    let n = bytes.len();
    put_u32(out, n as u32);
    put_bytes(out, bytes);
    proof {
        assert(out@ =~= old(out)@ + enc_str(s@));
    }
}

fn put_opt_u32(out: &mut Vec<u8>, o: &Option<u32>)
    ensures
        final(out)@ == old(out)@ + enc_opt_u32(*o),
{
    match o {
        Option::Some(v) => {
            put_u8(out, 1);
            put_u32(out, *v);
            proof {
                assert(out@ =~= old(out)@ + enc_opt_u32(*o));
            }
        },
        Option::None => {
            put_u8(out, 0);
            proof {
                assert(out@ =~= old(out)@ + enc_opt_u32(*o));
            }
        },
    }
}

fn put_opt_bool(out: &mut Vec<u8>, o: &Option<bool>)
    ensures
        final(out)@ == old(out)@ + enc_opt_bool(*o),
{
    match o {
        Option::Some(v) => {
            put_u8(out, 1);
            put_bool(out, *v);
            proof {
                assert(out@ =~= old(out)@ + enc_opt_bool(*o));
            }
        },
        Option::None => {
            put_u8(out, 0);
            proof {
                assert(out@ =~= old(out)@ + enc_opt_bool(*o));
            }
        },
    }
}

fn put_opt_str(out: &mut Vec<u8>, o: &Option<String>)
    requires
        crate::packets::opt_str_ok(crate::util::opt_str_view(*o)),
    ensures
        final(out)@ == old(out)@ + enc_opt_str(crate::util::opt_str_view(*o)),
{
    match o {
        Option::Some(v) => {
            put_u8(out, 1);
            put_str(out, v.as_str());
            proof {
                assert(out@ =~= old(out)@ + enc_opt_str(crate::util::opt_str_view(*o)));
            }
        },
        Option::None => {
            put_u8(out, 0);
            proof {
                assert(out@ =~= old(out)@ + enc_opt_str(crate::util::opt_str_view(*o)));
            }
        },
    }
}

fn encode_version(d: &VersionData) -> (r: Vec<u8>)
    requires
        PacketV::Version(d@).wf(),
    ensures
        r@ == spec_payload(PacketV::Version(d@)),
{
    let mut out: Vec<u8> = Vec::new();
    put_u32(&mut out, d.version);
    put_str(&mut out, d.release.as_str());
    put_str(&mut out, d.os.as_str());
    put_str(&mut out, d.os_version.as_str());
    proof {
        let e1 = enc_u32(d.version);
        let e2 = enc_str(d@.release);
        let e3 = enc_str(d@.os);
        let e4 = enc_str(d@.os_version);
        vstd::seq_lib::lemma_concat_associative(e1, e2, e3 + (e4));
        vstd::seq_lib::lemma_concat_associative((e1 + e2), e3, e4);
        assert(Seq::<u8>::empty() + e1 =~= e1);
        assert(out@ == spec_payload(PacketV::Version(d@)));
    }
    out
}

fn encode_authenticate(d: &AuthenticateData) -> (r: Vec<u8>)
    requires
        PacketV::Authenticate(d@).wf(),
    ensures
        r@ == spec_payload(PacketV::Authenticate(d@)),
{
    let mut out: Vec<u8> = Vec::new();
    put_str(&mut out, d.username.as_str());
    put_opt_str(&mut out, &d.password);
    put_bool(&mut out, d.opus);
    proof {
        let e1 = enc_str(d@.username);
        let e2 = enc_opt_str(d@.password);
        let e3 = enc_bool(d.opus);
        vstd::seq_lib::lemma_concat_associative(e1, e2, e3);
        assert(Seq::<u8>::empty() + e1 =~= e1);
        assert(out@ == spec_payload(PacketV::Authenticate(d@)));
    }
    out
}

fn encode_server_sync(d: &ServerSyncData) -> (r: Vec<u8>)
    requires
        PacketV::ServerSync(d@).wf(),
    ensures
        r@ == spec_payload(PacketV::ServerSync(d@)),
{
    let mut out: Vec<u8> = Vec::new();
    put_opt_u32(&mut out, &d.session);
    put_opt_u32(&mut out, &d.max_bandwidth);
    put_opt_str(&mut out, &d.welcome_text);
    proof {
        let e1 = enc_opt_u32(d@.session);
        let e2 = enc_opt_u32(d@.max_bandwidth);
        let e3 = enc_opt_str(d@.welcome_text);
        vstd::seq_lib::lemma_concat_associative(e1, e2, e3);
        assert(Seq::<u8>::empty() + e1 =~= e1);
        assert(out@ == spec_payload(PacketV::ServerSync(d@)));
    }
    out
}

fn encode_channel_state(d: &ChannelStatePacket) -> (r: Vec<u8>)
    requires
        PacketV::ChannelState(d@).wf(),
    ensures
        r@ == spec_payload(PacketV::ChannelState(d@)),
{
    let mut out: Vec<u8> = Vec::new();
    put_opt_u32(&mut out, &d.channel_id);
    put_opt_u32(&mut out, &d.parent);
    put_opt_str(&mut out, &d.name);
    put_opt_str(&mut out, &d.description);
    put_opt_u32(&mut out, &d.max_users);
    proof {
        let e1 = enc_opt_u32(d@.channel_id);
        let e2 = enc_opt_u32(d@.parent);
        let e3 = enc_opt_str(d@.name);
        let e4 = enc_opt_str(d@.description);
        let e5 = enc_opt_u32(d@.max_users);
        vstd::seq_lib::lemma_concat_associative(e1, e2, e3 + (e4 + (e5)));
        vstd::seq_lib::lemma_concat_associative((e1 + e2), e3, e4 + (e5));
        vstd::seq_lib::lemma_concat_associative(((e1 + e2) + e3), e4, e5);
        assert(Seq::<u8>::empty() + e1 =~= e1);
        assert(out@ == spec_payload(PacketV::ChannelState(d@)));
    }
    out
}

fn encode_user_state(d: &UserStatePacket) -> (r: Vec<u8>)
    requires
        PacketV::UserState(d@).wf(),
    ensures
        r@ == spec_payload(PacketV::UserState(d@)),
{
    let mut out: Vec<u8> = Vec::new();
    put_opt_u32(&mut out, &d.session);
    put_opt_u32(&mut out, &d.user_id);
    put_opt_u32(&mut out, &d.channel_id);
    put_opt_str(&mut out, &d.name);
    put_opt_bool(&mut out, &d.self_mute);
    put_opt_bool(&mut out, &d.self_deaf);
    proof {
        let e1 = enc_opt_u32(d@.session);
        let e2 = enc_opt_u32(d@.user_id);
        let e3 = enc_opt_u32(d@.channel_id);
        let e4 = enc_opt_str(d@.name);
        let e5 = enc_opt_bool(d@.self_mute);
        let e6 = enc_opt_bool(d@.self_deaf);
        vstd::seq_lib::lemma_concat_associative(e1, e2, e3 + (e4 + (e5 + (e6))));
        vstd::seq_lib::lemma_concat_associative((e1 + e2), e3, e4 + (e5 + (e6)));
        vstd::seq_lib::lemma_concat_associative(((e1 + e2) + e3), e4, e5 + (e6));
        vstd::seq_lib::lemma_concat_associative((((e1 + e2) + e3) + e4), e5, e6);
        assert(Seq::<u8>::empty() + e1 =~= e1);
        assert(out@ == spec_payload(PacketV::UserState(d@)));
    }
    out
}

fn encode_text_message(d: &TextMessageData) -> (r: Vec<u8>)
    requires
        PacketV::TextMessage(d@).wf(),
    ensures
        r@ == spec_payload(PacketV::TextMessage(d@)),
{
    let mut out: Vec<u8> = Vec::new();
    put_opt_u32(&mut out, &d.actor);
    put_str(&mut out, d.message.as_str());
    proof {
        let e1 = enc_opt_u32(d@.actor);
        let e2 = enc_str(d@.message);
        assert(Seq::<u8>::empty() + e1 =~= e1);
        assert(out@ == spec_payload(PacketV::TextMessage(d@)));
    }
    out
}

#[verifier::rlimit(60)]
fn encode_server_config(d: &ServerConfigData) -> (r: Vec<u8>)
    requires
        PacketV::ServerConfig(d@).wf(),
    ensures
        r@ == spec_payload(PacketV::ServerConfig(d@)),
{
    let mut out: Vec<u8> = Vec::new();
    put_opt_u32(&mut out, &d.max_bandwidth);
    put_opt_str(&mut out, &d.welcome_text);
    put_opt_bool(&mut out, &d.allow_html);
    put_opt_u32(&mut out, &d.message_length);
    put_opt_u32(&mut out, &d.image_message_length);
    put_opt_u32(&mut out, &d.max_users);
    proof {
        let e1 = enc_opt_u32(d@.max_bandwidth);
        let e2 = enc_opt_str(d@.welcome_text);
        let e3 = enc_opt_bool(d@.allow_html);
        let e4 = enc_opt_u32(d@.message_length);
        let e5 = enc_opt_u32(d@.image_message_length);
        let e6 = enc_opt_u32(d@.max_users);
        vstd::seq_lib::lemma_concat_associative(e1, e2, e3 + (e4 + (e5 + (e6))));
        vstd::seq_lib::lemma_concat_associative((e1 + e2), e3, e4 + (e5 + (e6)));
        vstd::seq_lib::lemma_concat_associative(((e1 + e2) + e3), e4, e5 + (e6));
        vstd::seq_lib::lemma_concat_associative((((e1 + e2) + e3) + e4), e5, e6);
        assert(Seq::<u8>::empty() + e1 =~= e1);
        assert(out@ == spec_payload(PacketV::ServerConfig(d@)));
    }
    out
}

/// The wire tag under which one packet travels.
pub fn packet_tag(p: &ControlPacket) -> (t: u16)
    ensures
        t == p@.tag(),
{
    match p {
        ControlPacket::Version(_) => TAG_VERSION,
        ControlPacket::Authenticate(_) => TAG_AUTHENTICATE,
        ControlPacket::Ping(_) => TAG_PING,
        ControlPacket::ServerSync(_) => TAG_SERVER_SYNC,
        ControlPacket::ChannelRemove(_) => TAG_CHANNEL_REMOVE,
        ControlPacket::ChannelState(_) => TAG_CHANNEL_STATE,
        ControlPacket::UserRemove(_) => TAG_USER_REMOVE,
        ControlPacket::UserState(_) => TAG_USER_STATE,
        ControlPacket::TextMessage(_) => TAG_TEXT_MESSAGE,
        ControlPacket::Other(tag, _) => *tag,
        ControlPacket::ServerConfig(_) => TAG_SERVER_CONFIG,
    }
}

/// Whether this client gives a tag an interpretation.
pub fn known_tag(tag: u16) -> (r: bool)
    ensures
        r == spec_known_tag(tag),
{
    tag == TAG_VERSION || tag == TAG_AUTHENTICATE || tag == TAG_PING || tag == TAG_SERVER_SYNC
        || tag == TAG_CHANNEL_REMOVE || tag == TAG_CHANNEL_STATE || tag == TAG_USER_REMOVE || tag
        == TAG_USER_STATE || tag == TAG_TEXT_MESSAGE || tag == TAG_SERVER_CONFIG
}

fn str_len_ok(s: &String) -> (r: bool)
    ensures
        r == str_ok(s@),
{
    s.as_str().as_bytes().len() <= STRING_BYTES_MAX
}

fn opt_str_len_ok(o: &Option<String>) -> (r: bool)
    ensures
        r == crate::packets::opt_str_ok(crate::util::opt_str_view(*o)),
{
    match o {
        Option::Some(s) => str_len_ok(s),
        Option::None => true,
    }
}

/// Whether the encoder accepts this packet: every string fits its
/// length prefix, and an uninterpreted packet claims no interpreted
/// tag and fits one frame.
pub fn packet_wf_check(p: &ControlPacket) -> (r: bool)
    ensures
        r == p@.wf(),
{
    match p {
        ControlPacket::Version(d) => (str_len_ok(&d.release) && str_len_ok(&d.os) && str_len_ok(
            &d.os_version,
        )),
        ControlPacket::Authenticate(d) => str_len_ok(&d.username) && opt_str_len_ok(&d.password),
        ControlPacket::Ping(_) => true,
        ControlPacket::ServerSync(d) => opt_str_len_ok(&d.welcome_text),
        ControlPacket::ChannelRemove(_) => true,
        ControlPacket::ChannelState(d) => opt_str_len_ok(&d.name) && opt_str_len_ok(
            &d.description,
        ),
        ControlPacket::UserRemove(_) => true,
        ControlPacket::UserState(d) => opt_str_len_ok(&d.name),
        ControlPacket::TextMessage(d) => str_len_ok(&d.message),
        ControlPacket::Other(tag, payload) => !known_tag(*tag) && payload.len()
            <= PAYLOAD_BYTES_MAX,
        ControlPacket::ServerConfig(d) => opt_str_len_ok(&d.welcome_text),
    }
}

/// Encodes one packet's payload bytes.
pub fn encode_message_payload(p: &ControlPacket) -> (r: Vec<u8>)
    requires
        p@.wf(),
    ensures
        r@ == spec_payload(p@),
{
    match p {
        ControlPacket::Version(d) => encode_version(d),
        ControlPacket::Authenticate(d) => encode_authenticate(d),
        ControlPacket::Ping(d) => {
            let mut out: Vec<u8> = Vec::new();
            put_u64(&mut out, d.timestamp);
            proof {
                assert(out@ =~= spec_payload(p@));
            }
            out
        },
        ControlPacket::ServerSync(d) => encode_server_sync(d),
        ControlPacket::ChannelRemove(d) => {
            let mut out: Vec<u8> = Vec::new();
            put_u32(&mut out, d.channel_id);
            proof {
                assert(out@ =~= spec_payload(p@));
            }
            out
        },
        ControlPacket::ChannelState(d) => encode_channel_state(d),
        ControlPacket::UserRemove(d) => {
            let mut out: Vec<u8> = Vec::new();
            put_u32(&mut out, d.session);
            proof {
                assert(out@ =~= spec_payload(p@));
            }
            out
        },
        ControlPacket::UserState(d) => encode_user_state(d),
        ControlPacket::TextMessage(d) => encode_text_message(d),
        ControlPacket::Other(_, payload) => {
            let mut out: Vec<u8> = Vec::new();
            put_bytes(&mut out, payload.as_slice());
            proof {
                assert(out@ =~= spec_payload(p@));
            }
            out
        },
        ControlPacket::ServerConfig(d) => encode_server_config(d),
    }
}

/// Encodes one whole frame: tag, payload length, payload.
pub fn encode_frame(p: &ControlPacket) -> (r: Vec<u8>)
    requires
        p@.wf(),
    ensures
        r@ == spec_frame(p@),
{
    proof {
        lemma_payload_len(p@);
    }
    let tag = packet_tag(p);
    let mut payload = encode_message_payload(p);
    let n = payload.len() as u32;
    let mut out: Vec<u8> = Vec::new();
    put_u16(&mut out, tag);
    put_u32(&mut out, n);
    out.append(&mut payload);
    proof {
        assert(out@ =~= spec_frame(p@));
    }
    out
}

/// Encodes one whole frame after checking that the encoder accepts
/// the packet; a packet it does not accept comes back as `None`.
pub fn encode_frame_checked(p: &ControlPacket) -> (r: Option<Vec<u8>>)
    ensures
        r is Some <==> p@.wf(),
        r is Some ==> r->0@ == spec_frame(p@),
{
    if packet_wf_check(p) {
        Option::Some(encode_frame(p))
    } else {
        Option::None
    }
}

// ---------------------------------------------------------------
// Executable decoding
// ---------------------------------------------------------------
/// Relies on std's `String::from_utf8`: it succeeds exactly on valid
/// UTF-8 input and returns the characters those bytes encode.
#[verifier::external_body]
fn bytes_to_string(v: &[u8]) -> (r: Option<String>)
    ensures
        r is Some <==> valid_utf8(v@),
        r is Some ==> r->0@ == decode_utf8(v@),
{
    String::from_utf8(v.to_vec()).ok()
}

fn take_u8(buf: &[u8], pos: &mut usize) -> (r: Option<u8>)
    requires
        *old(pos) <= buf@.len(),
    ensures
        match r {
            Option::Some(v) => *final(pos) == *old(pos) + 1 && *final(pos) <= buf@.len() && dec_u8(
                buf@.skip(*old(pos) as int),
            ) == Option::Some((v, buf@.skip(*final(pos) as int))),
            Option::None => *final(pos) == *old(pos) && dec_u8(buf@.skip(*old(pos) as int))
                is None,
        },
{
    if *pos < buf.len() {
        let v = *vstd::slice::slice_index_get(buf, *pos);
        proof {
            assert(buf@.skip(*pos as int)[0] == buf@[*pos as int]);
            assert(buf@.skip(*pos as int).skip(1) =~= buf@.skip(*pos as int + 1));
        }
        *pos = *pos + 1;
        Option::Some(v)
    } else {
        Option::None
    }
}

fn take_bool(buf: &[u8], pos: &mut usize) -> (r: Option<bool>)
    requires
        *old(pos) <= buf@.len(),
    ensures
        match r {
            Option::Some(v) => *final(pos) == *old(pos) + 1 && *final(pos) <= buf@.len()
                && dec_bool(buf@.skip(*old(pos) as int)) == Option::Some(
                (v, buf@.skip(*final(pos) as int)),
            ),
            Option::None => *final(pos) == *old(pos) && dec_bool(buf@.skip(*old(pos) as int))
                is None,
        },
{
    if *pos < buf.len() {
        let b = *vstd::slice::slice_index_get(buf, *pos);
        proof {
            assert(buf@.skip(*pos as int)[0] == buf@[*pos as int]);
            assert(buf@.skip(*pos as int).skip(1) =~= buf@.skip(*pos as int + 1));
        }
        if b == 0 {
            *pos = *pos + 1;
            Option::Some(false)
        } else if b == 1 {
            *pos = *pos + 1;
            Option::Some(true)
        } else {
            Option::None
        }
    } else {
        Option::None
    }
}

fn take_u32(buf: &[u8], pos: &mut usize) -> (r: Option<u32>)
    requires
        *old(pos) <= buf@.len(),
    ensures
        match r {
            Option::Some(v) => *final(pos) == *old(pos) + 4 && *final(pos) <= buf@.len() && dec_u32(
                buf@.skip(*old(pos) as int),
            ) == Option::Some((v, buf@.skip(*final(pos) as int))),
            Option::None => *final(pos) == *old(pos) && dec_u32(buf@.skip(*old(pos) as int))
                is None,
        },
{
    if buf.len() - *pos >= 4 {
        let sub = slice_subrange(buf, *pos, *pos + 4);
        let v = u32_from_le_bytes(sub);
        proof {
            assert(buf@.skip(*pos as int).take(4) =~= buf@.subrange(*pos as int, *pos as int + 4));
            assert(buf@.skip(*pos as int).skip(4) =~= buf@.skip(*pos as int + 4));
        }
        *pos = *pos + 4;
        Option::Some(v)
    } else {
        Option::None
    }
}

fn take_u64(buf: &[u8], pos: &mut usize) -> (r: Option<u64>)
    requires
        *old(pos) <= buf@.len(),
    ensures
        match r {
            Option::Some(v) => *final(pos) == *old(pos) + 8 && *final(pos) <= buf@.len() && dec_u64(
                buf@.skip(*old(pos) as int),
            ) == Option::Some((v, buf@.skip(*final(pos) as int))),
            Option::None => *final(pos) == *old(pos) && dec_u64(buf@.skip(*old(pos) as int))
                is None,
        },
{
    if buf.len() - *pos >= 8 {
        let sub = slice_subrange(buf, *pos, *pos + 8);
        let v = u64_from_le_bytes(sub);
        proof {
            assert(buf@.skip(*pos as int).take(8) =~= buf@.subrange(*pos as int, *pos as int + 8));
            assert(buf@.skip(*pos as int).skip(8) =~= buf@.skip(*pos as int + 8));
        }
        *pos = *pos + 8;
        Option::Some(v)
    } else {
        Option::None
    }
}

fn take_str(buf: &[u8], pos: &mut usize) -> (r: Option<String>)
    requires
        *old(pos) <= buf@.len(),
    ensures
        match r {
            Option::Some(s) => *old(pos) <= *final(pos) <= buf@.len() && dec_str(
                buf@.skip(*old(pos) as int),
            ) == Option::Some((s@, buf@.skip(*final(pos) as int))),
            Option::None => *final(pos) == *old(pos) && dec_str(buf@.skip(*old(pos) as int))
                is None,
        },
{
    let start = *pos;
    match take_u32(buf, pos) {
        Option::Some(n) => {
            let n_us = n as usize;
            if buf.len() - *pos >= n_us {
                let sub = slice_subrange(buf, *pos, *pos + n_us);
                proof {
                    assert(buf@.skip(*pos as int).take(n as int) =~= buf@.subrange(
                        *pos as int,
                        *pos as int + n as int,
                    ));
                }
                match bytes_to_string(sub) {
                    Option::Some(s) => {
                        proof {
                            assert(buf@.skip(*pos as int).skip(n as int) =~= buf@.skip(
                                *pos as int + n as int,
                            ));
                        }
                        *pos = *pos + n_us;
                        Option::Some(s)
                    },
                    Option::None => {
                        *pos = start;
                        Option::None
                    },
                }
            } else {
                *pos = start;
                Option::None
            }
        },
        Option::None => Option::None,
    }
}

fn take_opt_u32(buf: &[u8], pos: &mut usize) -> (r: Option<Option<u32>>)
    requires
        *old(pos) <= buf@.len(),
    ensures
        match r {
            Option::Some(o) => *old(pos) <= *final(pos) <= buf@.len() && dec_opt_u32(
                buf@.skip(*old(pos) as int),
            ) == Option::Some((o, buf@.skip(*final(pos) as int))),
            Option::None => *final(pos) == *old(pos) && dec_opt_u32(buf@.skip(*old(pos) as int))
                is None,
        },
{
    let start = *pos;
    match take_u8(buf, pos) {
        Option::Some(f) => {
            if f == 0 {
                Option::Some(Option::None)
            } else if f == 1 {
                match take_u32(buf, pos) {
                    Option::Some(v) => Option::Some(Option::Some(v)),
                    Option::None => {
                        *pos = start;
                        Option::None
                    },
                }
            } else {
                *pos = start;
                Option::None
            }
        },
        Option::None => Option::None,
    }
}

fn take_opt_bool(buf: &[u8], pos: &mut usize) -> (r: Option<Option<bool>>)
    requires
        *old(pos) <= buf@.len(),
    ensures
        match r {
            Option::Some(o) => *old(pos) <= *final(pos) <= buf@.len() && dec_opt_bool(
                buf@.skip(*old(pos) as int),
            ) == Option::Some((o, buf@.skip(*final(pos) as int))),
            Option::None => *final(pos) == *old(pos) && dec_opt_bool(buf@.skip(*old(pos) as int))
                is None,
        },
{
    let start = *pos;
    match take_u8(buf, pos) {
        Option::Some(f) => {
            if f == 0 {
                Option::Some(Option::None)
            } else if f == 1 {
                match take_bool(buf, pos) {
                    Option::Some(v) => Option::Some(Option::Some(v)),
                    Option::None => {
                        *pos = start;
                        Option::None
                    },
                }
            } else {
                *pos = start;
                Option::None
            }
        },
        Option::None => Option::None,
    }
}

fn take_opt_str(buf: &[u8], pos: &mut usize) -> (r: Option<Option<String>>)
    requires
        *old(pos) <= buf@.len(),
    ensures
        match r {
            Option::Some(o) => *old(pos) <= *final(pos) <= buf@.len() && dec_opt_str(
                buf@.skip(*old(pos) as int),
            ) == Option::Some(
                (crate::util::opt_str_view(o), buf@.skip(*final(pos) as int)),
            ),
            Option::None => *final(pos) == *old(pos) && dec_opt_str(buf@.skip(*old(pos) as int))
                is None,
        },
{
    let start = *pos;
    match take_u8(buf, pos) {
        Option::Some(f) => {
            if f == 0 {
                Option::Some(Option::None)
            } else if f == 1 {
                match take_str(buf, pos) {
                    Option::Some(v) => Option::Some(Option::Some(v)),
                    Option::None => {
                        *pos = start;
                        Option::None
                    },
                }
            } else {
                *pos = start;
                Option::None
            }
        },
        Option::None => Option::None,
    }
}

fn decode_version(payload: &[u8]) -> (r: Option<VersionData>)
    ensures
        match r {
            Option::Some(d) => spec_dec_version(payload@) == Option::Some(d@),
            Option::None => spec_dec_version(payload@) is None,
        },
{
    proof {
        assert(payload@.skip(0) =~= payload@);
    }
    let mut pos: usize = 0;
    let version = match take_u32(payload, &mut pos) {
        Option::Some(v) => v,
        Option::None => {
            return Option::None;
        },
    };
    let release = match take_str(payload, &mut pos) {
        Option::Some(v) => v,
        Option::None => {
            return Option::None;
        },
    };
    let os = match take_str(payload, &mut pos) {
        Option::Some(v) => v,
        Option::None => {
            return Option::None;
        },
    };
    let os_version = match take_str(payload, &mut pos) {
        Option::Some(v) => v,
        Option::None => {
            return Option::None;
        },
    };
    if pos != payload.len() {
        return Option::None;
    }
    Option::Some(VersionData { version, release, os, os_version })
}

fn decode_authenticate(payload: &[u8]) -> (r: Option<AuthenticateData>)
    ensures
        match r {
            Option::Some(d) => spec_dec_authenticate(payload@) == Option::Some(d@),
            Option::None => spec_dec_authenticate(payload@) is None,
        },
{
    proof {
        assert(payload@.skip(0) =~= payload@);
    }
    let mut pos: usize = 0;
    let username = match take_str(payload, &mut pos) {
        Option::Some(v) => v,
        Option::None => {
            return Option::None;
        },
    };
    let password = match take_opt_str(payload, &mut pos) {
        Option::Some(v) => v,
        Option::None => {
            return Option::None;
        },
    };
    let opus = match take_bool(payload, &mut pos) {
        Option::Some(v) => v,
        Option::None => {
            return Option::None;
        },
    };
    if pos != payload.len() {
        return Option::None;
    }
    Option::Some(AuthenticateData { username, password, opus })
}

fn decode_ping(payload: &[u8]) -> (r: Option<PingData>)
    ensures
        match r {
            Option::Some(d) => spec_dec_ping(payload@) == Option::Some(d.timestamp),
            Option::None => spec_dec_ping(payload@) is None,
        },
{
    proof {
        assert(payload@.skip(0) =~= payload@);
    }
    let mut pos: usize = 0;
    let timestamp = match take_u64(payload, &mut pos) {
        Option::Some(v) => v,
        Option::None => {
            return Option::None;
        },
    };
    if pos != payload.len() {
        return Option::None;
    }
    Option::Some(PingData { timestamp })
}

fn decode_server_sync(payload: &[u8]) -> (r: Option<ServerSyncData>)
    ensures
        match r {
            Option::Some(d) => spec_dec_server_sync(payload@) == Option::Some(d@),
            Option::None => spec_dec_server_sync(payload@) is None,
        },
{
    proof {
        assert(payload@.skip(0) =~= payload@);
    }
    let mut pos: usize = 0;
    let session = match take_opt_u32(payload, &mut pos) {
        Option::Some(v) => v,
        Option::None => {
            return Option::None;
        },
    };
    let max_bandwidth = match take_opt_u32(payload, &mut pos) {
        Option::Some(v) => v,
        Option::None => {
            return Option::None;
        },
    };
    let welcome_text = match take_opt_str(payload, &mut pos) {
        Option::Some(v) => v,
        Option::None => {
            return Option::None;
        },
    };
    if pos != payload.len() {
        return Option::None;
    }
    Option::Some(ServerSyncData { session, max_bandwidth, welcome_text })
}

fn decode_id(payload: &[u8]) -> (r: Option<u32>)
    ensures
        match r {
            Option::Some(id) => spec_dec_id(payload@) == Option::Some(id),
            Option::None => spec_dec_id(payload@) is None,
        },
{
    proof {
        assert(payload@.skip(0) =~= payload@);
    }
    let mut pos: usize = 0;
    let id = match take_u32(payload, &mut pos) {
        Option::Some(v) => v,
        Option::None => {
            return Option::None;
        },
    };
    if pos != payload.len() {
        return Option::None;
    }
    Option::Some(id)
}

fn decode_channel_state(payload: &[u8]) -> (r: Option<ChannelStatePacket>)
    ensures
        match r {
            Option::Some(d) => spec_dec_channel_state(payload@) == Option::Some(d@),
            Option::None => spec_dec_channel_state(payload@) is None,
        },
{
    proof {
        assert(payload@.skip(0) =~= payload@);
    }
    let mut pos: usize = 0;
    let channel_id = match take_opt_u32(payload, &mut pos) {
        Option::Some(v) => v,
        Option::None => {
            return Option::None;
        },
    };
    let parent = match take_opt_u32(payload, &mut pos) {
        Option::Some(v) => v,
        Option::None => {
            return Option::None;
        },
    };
    let name = match take_opt_str(payload, &mut pos) {
        Option::Some(v) => v,
        Option::None => {
            return Option::None;
        },
    };
    let description = match take_opt_str(payload, &mut pos) {
        Option::Some(v) => v,
        Option::None => {
            return Option::None;
        },
    };
    let max_users = match take_opt_u32(payload, &mut pos) {
        Option::Some(v) => v,
        Option::None => {
            return Option::None;
        },
    };
    if pos != payload.len() {
        return Option::None;
    }
    Option::Some(ChannelStatePacket { channel_id, parent, name, description, max_users })
}

#[verifier::rlimit(30)]
fn decode_user_state(payload: &[u8]) -> (r: Option<UserStatePacket>)
    ensures
        match r {
            Option::Some(d) => spec_dec_user_state(payload@) == Option::Some(d@),
            Option::None => spec_dec_user_state(payload@) is None,
        },
{
    proof {
        assert(payload@.skip(0) =~= payload@);
    }
    let mut pos: usize = 0;
    let session = match take_opt_u32(payload, &mut pos) {
        Option::Some(v) => v,
        Option::None => {
            return Option::None;
        },
    };
    let user_id = match take_opt_u32(payload, &mut pos) {
        Option::Some(v) => v,
        Option::None => {
            return Option::None;
        },
    };
    let channel_id = match take_opt_u32(payload, &mut pos) {
        Option::Some(v) => v,
        Option::None => {
            return Option::None;
        },
    };
    let name = match take_opt_str(payload, &mut pos) {
        Option::Some(v) => v,
        Option::None => {
            return Option::None;
        },
    };
    let self_mute = match take_opt_bool(payload, &mut pos) {
        Option::Some(v) => v,
        Option::None => {
            return Option::None;
        },
    };
    let self_deaf = match take_opt_bool(payload, &mut pos) {
        Option::Some(v) => v,
        Option::None => {
            return Option::None;
        },
    };
    if pos != payload.len() {
        return Option::None;
    }
    Option::Some(UserStatePacket { session, user_id, channel_id, name, self_mute, self_deaf })
}

fn decode_text_message(payload: &[u8]) -> (r: Option<TextMessageData>)
    ensures
        match r {
            Option::Some(d) => spec_dec_text_message(payload@) == Option::Some(d@),
            Option::None => spec_dec_text_message(payload@) is None,
        },
{
    proof {
        assert(payload@.skip(0) =~= payload@);
    }
    let mut pos: usize = 0;
    let actor = match take_opt_u32(payload, &mut pos) {
        Option::Some(v) => v,
        Option::None => {
            return Option::None;
        },
    };
    let message = match take_str(payload, &mut pos) {
        Option::Some(v) => v,
        Option::None => {
            return Option::None;
        },
    };
    if pos != payload.len() {
        return Option::None;
    }
    Option::Some(TextMessageData { actor, message })
}

#[verifier::rlimit(30)]
fn decode_server_config(payload: &[u8]) -> (r: Option<ServerConfigData>)
    ensures
        match r {
            Option::Some(d) => spec_dec_server_config(payload@) == Option::Some(d@),
            Option::None => spec_dec_server_config(payload@) is None,
        },
{
    proof {
        assert(payload@.skip(0) =~= payload@);
    }
    let mut pos: usize = 0;
    let max_bandwidth = match take_opt_u32(payload, &mut pos) {
        Option::Some(v) => v,
        Option::None => {
            return Option::None;
        },
    };
    let welcome_text = match take_opt_str(payload, &mut pos) {
        Option::Some(v) => v,
        Option::None => {
            return Option::None;
        },
    };
    let allow_html = match take_opt_bool(payload, &mut pos) {
        Option::Some(v) => v,
        Option::None => {
            return Option::None;
        },
    };
    let message_length = match take_opt_u32(payload, &mut pos) {
        Option::Some(v) => v,
        Option::None => {
            return Option::None;
        },
    };
    let image_message_length = match take_opt_u32(payload, &mut pos) {
        Option::Some(v) => v,
        Option::None => {
            return Option::None;
        },
    };
    let max_users = match take_opt_u32(payload, &mut pos) {
        Option::Some(v) => v,
        Option::None => {
            return Option::None;
        },
    };
    if pos != payload.len() {
        return Option::None;
    }
    Option::Some(
        ServerConfigData {
            max_bandwidth,
            welcome_text,
            allow_html,
            message_length,
            image_message_length,
            max_users,
        },
    )
}

/// Decodes one message from its tag and payload, exactly as
/// `spec_decode_message` states: an interpreted tag decodes its
/// fields, any other tag yields an uninterpreted packet without
/// error.
pub fn decode_message(tag: u16, payload: &[u8]) -> (r: Option<ControlPacket>)
    ensures
        match r {
            Option::Some(p) => spec_decode_message(tag, payload@) == Option::Some(p@),
            Option::None => spec_decode_message(tag, payload@) is None,
        },
{
    if tag == TAG_VERSION {
        match decode_version(payload) {
            Option::Some(d) => Option::Some(ControlPacket::Version(d)),
            Option::None => Option::None,
        }
    } else if tag == TAG_AUTHENTICATE {
        match decode_authenticate(payload) {
            Option::Some(d) => Option::Some(ControlPacket::Authenticate(d)),
            Option::None => Option::None,
        }
    } else if tag == TAG_PING {
        match decode_ping(payload) {
            Option::Some(d) => Option::Some(ControlPacket::Ping(d)),
            Option::None => Option::None,
        }
    } else if tag == TAG_SERVER_SYNC {
        match decode_server_sync(payload) {
            Option::Some(d) => Option::Some(ControlPacket::ServerSync(d)),
            Option::None => Option::None,
        }
    } else if tag == TAG_CHANNEL_REMOVE {
        match decode_id(payload) {
            Option::Some(id) => Option::Some(
                ControlPacket::ChannelRemove(ChannelRemoveData { channel_id: id }),
            ),
            Option::None => Option::None,
        }
    } else if tag == TAG_CHANNEL_STATE {
        match decode_channel_state(payload) {
            Option::Some(d) => Option::Some(ControlPacket::ChannelState(d)),
            Option::None => Option::None,
        }
    } else if tag == TAG_USER_REMOVE {
        match decode_id(payload) {
            Option::Some(id) => Option::Some(
                ControlPacket::UserRemove(UserRemoveData { session: id }),
            ),
            Option::None => Option::None,
        }
    } else if tag == TAG_USER_STATE {
        match decode_user_state(payload) {
            Option::Some(d) => Option::Some(ControlPacket::UserState(d)),
            Option::None => Option::None,
        }
    } else if tag == TAG_TEXT_MESSAGE {
        match decode_text_message(payload) {
            Option::Some(d) => Option::Some(ControlPacket::TextMessage(d)),
            Option::None => Option::None,
        }
    } else if tag == TAG_SERVER_CONFIG {
        match decode_server_config(payload) {
            Option::Some(d) => Option::Some(ControlPacket::ServerConfig(d)),
            Option::None => Option::None,
        }
    } else {
        Option::Some(ControlPacket::Other(tag, slice_to_vec(payload)))
    }
}

/// What splitting a frame off a byte stream yielded.
pub enum FrameStep {
    NeedMoreData,
    Frame(u16, Vec<u8>, usize),
}

/// Splits one frame off the front of the inbound byte stream, exactly
/// as `spec_take_frame` states: the tag, the payload, and how many
/// bytes to consume — or the word that the frame is still incomplete.
pub fn try_take_frame(buf: &[u8]) -> (r: FrameStep)
    ensures
        match r {
            FrameStep::NeedMoreData => spec_take_frame(buf@) is None,
            FrameStep::Frame(tag, payload, consumed) => spec_take_frame(buf@) == Option::Some(
                (tag, payload@, consumed as int),
            ),
        },
{
    if buf.len() < 6 {
        return FrameStep::NeedMoreData;
    }
    let tag = u16_from_le_bytes(slice_subrange(buf, 0, 2));
    let n = u32_from_le_bytes(slice_subrange(buf, 2, 6));
    proof {
        assert(buf@.take(2) =~= buf@.subrange(0, 2));
        assert(buf@.skip(2).take(4) =~= buf@.subrange(2, 6));
    }
    let n_us = n as usize;
    if buf.len() - 6 < n_us {
        return FrameStep::NeedMoreData;
    }
    let payload = slice_to_vec(slice_subrange(buf, 6, 6 + n_us));
    proof {
        assert(buf@.skip(6).take(n as int) =~= buf@.subrange(6, 6 + n as int));
    }
    FrameStep::Frame(tag, payload, 6 + n_us)
}

} // verus!
