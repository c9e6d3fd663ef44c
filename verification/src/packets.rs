//! The control-message set of the protocol, as a closed tagged-variant
//! type. Every message the client interprets has a variant with plain
//! fields; a message type outside that set is carried as `Other` so it
//! can be decoded without error and safely discarded.
use vstd::prelude::*;
use vstd::utf8::encode_utf8;
use crate::util::opt_str_view;

verus! {

/// Client or server identity: software version and platform strings.
pub struct VersionData {
    pub version: u32,
    pub release: String,
    pub os: String,
    pub os_version: String,
}

/// Authentication credentials sent right after the version exchange.
#[derive(Clone)]
pub struct AuthenticateData {
    pub username: String,
    pub password: Option<String>,
    pub opus: bool,
}

/// Keepalive signal carrying the sender's current Unix timestamp.
#[derive(Clone)]
pub struct PingData {
    pub timestamp: u64,
}

/// Marks completion of the initial full-state replay.
#[derive(Clone)]
pub struct ServerSyncData {
    pub session: Option<u32>,
    pub max_bandwidth: Option<u32>,
    pub welcome_text: Option<String>,
}

/// Server limits and flags, sent whenever they change.
#[derive(Clone)]
pub struct ServerConfigData {
    pub max_bandwidth: Option<u32>,
    pub welcome_text: Option<String>,
    pub allow_html: Option<bool>,
    pub message_length: Option<u32>,
    pub image_message_length: Option<u32>,
    pub max_users: Option<u32>,
}

/// Incremental channel update; an absent field means "unchanged".
#[derive(Clone)]
pub struct ChannelStatePacket {
    pub channel_id: Option<u32>,
    pub parent: Option<u32>,
    pub name: Option<String>,
    pub description: Option<String>,
    pub max_users: Option<u32>,
}

/// Explicit removal of the channel with the given id.
#[derive(Clone)]
pub struct ChannelRemoveData {
    pub channel_id: u32,
}

/// Incremental user update; an absent field means "unchanged".
#[derive(Clone)]
pub struct UserStatePacket {
    pub session: Option<u32>,
    pub user_id: Option<u32>,
    pub channel_id: Option<u32>,
    pub name: Option<String>,
    pub self_mute: Option<bool>,
    pub self_deaf: Option<bool>,
}

/// Explicit removal of the user with the given session id.
#[derive(Clone)]
pub struct UserRemoveData {
    pub session: u32,
}

/// A posted text message and, if reported, the sender's session id.
#[derive(Clone)]
pub struct TextMessageData {
    pub actor: Option<u32>,
    pub message: String,
}

/// One typed control message, or an uninterpreted one (`Other`).
#[derive(Clone)]
pub enum ControlPacket {
    Version(VersionData),
    Authenticate(AuthenticateData),
    Ping(PingData),
    ServerSync(ServerSyncData),
    ChannelRemove(ChannelRemoveData),
    ChannelState(ChannelStatePacket),
    UserRemove(UserRemoveData),
    UserState(UserStatePacket),
    TextMessage(TextMessageData),
    Other(u16, Vec<u8>),
    ServerConfig(ServerConfigData),
}

/// Mathematical mirror of `VersionData`.
pub ghost struct VersionDataV {
    pub version: u32,
    pub release: Seq<char>,
    pub os: Seq<char>,
    pub os_version: Seq<char>,
}

/// Mathematical mirror of `AuthenticateData`.
pub ghost struct AuthenticateDataV {
    pub username: Seq<char>,
    pub password: Option<Seq<char>>,
    pub opus: bool,
}

/// Mathematical mirror of `ServerSyncData`.
pub ghost struct ServerSyncDataV {
    pub session: Option<u32>,
    pub max_bandwidth: Option<u32>,
    pub welcome_text: Option<Seq<char>>,
}

/// Mathematical mirror of `ServerConfigData`.
pub ghost struct ServerConfigDataV {
    pub max_bandwidth: Option<u32>,
    pub welcome_text: Option<Seq<char>>,
    pub allow_html: Option<bool>,
    pub message_length: Option<u32>,
    pub image_message_length: Option<u32>,
    pub max_users: Option<u32>,
}

/// Mathematical mirror of `ChannelStatePacket`.
pub ghost struct ChannelStatePacketV {
    pub channel_id: Option<u32>,
    pub parent: Option<u32>,
    pub name: Option<Seq<char>>,
    pub description: Option<Seq<char>>,
    pub max_users: Option<u32>,
}

/// Mathematical mirror of `UserStatePacket`.
pub ghost struct UserStatePacketV {
    pub session: Option<u32>,
    pub user_id: Option<u32>,
    pub channel_id: Option<u32>,
    pub name: Option<Seq<char>>,
    pub self_mute: Option<bool>,
    pub self_deaf: Option<bool>,
}

/// Mathematical mirror of `TextMessageData`.
pub ghost struct TextMessageDataV {
    pub actor: Option<u32>,
    pub message: Seq<char>,
}

/// Mathematical mirror of `ControlPacket`.
pub ghost enum PacketV {
    Version(VersionDataV),
    Authenticate(AuthenticateDataV),
    Ping(u64),
    ServerSync(ServerSyncDataV),
    ChannelRemove(u32),
    ChannelState(ChannelStatePacketV),
    UserRemove(u32),
    UserState(UserStatePacketV),
    TextMessage(TextMessageDataV),
    Other(u16, Seq<u8>),
    ServerConfig(ServerConfigDataV),
}

impl View for VersionData {
    type V = VersionDataV;

    open spec fn view(&self) -> VersionDataV {
        VersionDataV {
            version: self.version,
            release: self.release@,
            os: self.os@,
            os_version: self.os_version@,
        }
    }
}

impl View for AuthenticateData {
    type V = AuthenticateDataV;

    open spec fn view(&self) -> AuthenticateDataV {
        AuthenticateDataV {
            username: self.username@,
            password: opt_str_view(self.password),
            opus: self.opus,
        }
    }
}

impl View for ServerSyncData {
    type V = ServerSyncDataV;

    open spec fn view(&self) -> ServerSyncDataV {
        ServerSyncDataV {
            session: self.session,
            max_bandwidth: self.max_bandwidth,
            welcome_text: opt_str_view(self.welcome_text),
        }
    }
}

impl View for ServerConfigData {
    type V = ServerConfigDataV;

    open spec fn view(&self) -> ServerConfigDataV {
        ServerConfigDataV {
            max_bandwidth: self.max_bandwidth,
            welcome_text: opt_str_view(self.welcome_text),
            allow_html: self.allow_html,
            message_length: self.message_length,
            image_message_length: self.image_message_length,
            max_users: self.max_users,
        }
    }
}

impl View for ChannelStatePacket {
    type V = ChannelStatePacketV;

    open spec fn view(&self) -> ChannelStatePacketV {
        ChannelStatePacketV {
            channel_id: self.channel_id,
            parent: self.parent,
            name: opt_str_view(self.name),
            description: opt_str_view(self.description),
            max_users: self.max_users,
        }
    }
}

impl View for UserStatePacket {
    type V = UserStatePacketV;

    open spec fn view(&self) -> UserStatePacketV {
        UserStatePacketV {
            session: self.session,
            user_id: self.user_id,
            channel_id: self.channel_id,
            name: opt_str_view(self.name),
            self_mute: self.self_mute,
            self_deaf: self.self_deaf,
        }
    }
}

impl View for TextMessageData {
    type V = TextMessageDataV;

    open spec fn view(&self) -> TextMessageDataV {
        TextMessageDataV { actor: self.actor, message: self.message@ }
    }
}

impl View for ControlPacket {
    type V = PacketV;

    open spec fn view(&self) -> PacketV {
        match self {
            ControlPacket::Version(d) => PacketV::Version(d@),
            ControlPacket::Authenticate(d) => PacketV::Authenticate(d@),
            ControlPacket::Ping(d) => PacketV::Ping(d.timestamp),
            ControlPacket::ServerSync(d) => PacketV::ServerSync(d@),
            ControlPacket::ChannelRemove(d) => PacketV::ChannelRemove(d.channel_id),
            ControlPacket::ChannelState(d) => PacketV::ChannelState(d@),
            ControlPacket::UserRemove(d) => PacketV::UserRemove(d.session),
            ControlPacket::UserState(d) => PacketV::UserState(d@),
            ControlPacket::TextMessage(d) => PacketV::TextMessage(d@),
            ControlPacket::Other(tag, payload) => PacketV::Other(*tag, payload@),
            ControlPacket::ServerConfig(d) => PacketV::ServerConfig(d@),
        }
    }
}

/// Protocol constant of this library's frame format: the longest byte
/// encoding accepted for one string field. The bound is what makes
/// every interpreted message's payload provably fit the frame's
/// 32-bit length prefix, whatever its strings hold.
pub const STRING_BYTES_MAX: usize = 0xFFFF;

/// A string short enough for its byte length to be framed.
pub open spec fn str_ok(s: Seq<char>) -> bool {
    encode_utf8(s).len() <= STRING_BYTES_MAX
}

/// `str_ok` lifted to an optional string.
pub open spec fn opt_str_ok(s: Option<Seq<char>>) -> bool {
    match s {
        Option::Some(x) => str_ok(x),
        Option::None => true,
    }
}

/// Protocol constant of this library's frame format: the longest
/// payload a frame may carry. The frame's 32-bit length prefix could
/// name more, but a single bound on every frame keeps an inbound
/// reader's buffering defensible, so the encoder holds uninterpreted
/// payloads to it too.
pub const PAYLOAD_BYTES_MAX: usize = 0x00FF_FFFF;

impl PacketV {
    /// A packet the encoder accepts: strings fit their length prefix, an
    /// uninterpreted packet does not claim an interpreted tag, and its
    /// payload fits one frame.
    pub open spec fn wf(self) -> bool {
        match self {
            PacketV::Version(d) => str_ok(d.release) && str_ok(d.os) && str_ok(d.os_version),
            PacketV::Authenticate(d) => str_ok(d.username) && opt_str_ok(d.password),
            PacketV::Ping(_) => true,
            PacketV::ServerSync(d) => opt_str_ok(d.welcome_text),
            PacketV::ChannelRemove(_) => true,
            PacketV::ChannelState(d) => opt_str_ok(d.name) && opt_str_ok(d.description),
            PacketV::UserRemove(_) => true,
            PacketV::UserState(d) => opt_str_ok(d.name),
            PacketV::TextMessage(d) => str_ok(d.message),
            PacketV::Other(tag, payload) => !spec_known_tag(tag) && payload.len()
                <= PAYLOAD_BYTES_MAX,
            PacketV::ServerConfig(d) => opt_str_ok(d.welcome_text),
        }
    }
}

/// Wire tag of the version message.
pub const TAG_VERSION: u16 = 0;

/// Wire tag of the authentication message.
pub const TAG_AUTHENTICATE: u16 = 2;

/// Wire tag of the keepalive message.
pub const TAG_PING: u16 = 3;

/// Wire tag of the sync-complete message.
pub const TAG_SERVER_SYNC: u16 = 5;

/// Wire tag of the channel-removal message.
pub const TAG_CHANNEL_REMOVE: u16 = 6;

/// Wire tag of the channel-update message.
pub const TAG_CHANNEL_STATE: u16 = 7;

/// Wire tag of the user-removal message.
pub const TAG_USER_REMOVE: u16 = 8;

/// Wire tag of the user-update message.
pub const TAG_USER_STATE: u16 = 9;

/// Wire tag of the text-message message.
pub const TAG_TEXT_MESSAGE: u16 = 11;

/// Wire tag of the server-limits message.
pub const TAG_SERVER_CONFIG: u16 = 24;

/// True of the tags this client gives an interpretation.
pub open spec fn spec_known_tag(tag: u16) -> bool {
    ||| tag == TAG_VERSION
    ||| tag == TAG_AUTHENTICATE
    ||| tag == TAG_PING
    ||| tag == TAG_SERVER_SYNC
    ||| tag == TAG_CHANNEL_REMOVE
    ||| tag == TAG_CHANNEL_STATE
    ||| tag == TAG_USER_REMOVE
    ||| tag == TAG_USER_STATE
    ||| tag == TAG_TEXT_MESSAGE
    ||| tag == TAG_SERVER_CONFIG
}

impl PacketV {
    /// The wire tag under which each packet travels.
    pub open spec fn tag(self) -> u16 {
        match self {
            PacketV::Version(_) => TAG_VERSION,
            PacketV::Authenticate(_) => TAG_AUTHENTICATE,
            PacketV::Ping(_) => TAG_PING,
            PacketV::ServerSync(_) => TAG_SERVER_SYNC,
            PacketV::ChannelRemove(_) => TAG_CHANNEL_REMOVE,
            PacketV::ChannelState(_) => TAG_CHANNEL_STATE,
            PacketV::UserRemove(_) => TAG_USER_REMOVE,
            PacketV::UserState(_) => TAG_USER_STATE,
            PacketV::TextMessage(_) => TAG_TEXT_MESSAGE,
            PacketV::Other(tag, _) => tag,
            PacketV::ServerConfig(_) => TAG_SERVER_CONFIG,
        }
    }
}

} // verus!
