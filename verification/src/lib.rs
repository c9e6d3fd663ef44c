//! Verified core of a voice-chat protocol client: message framing and
//! codec, handshake values, and the state-reconstruction engine that
//! turns inbound packets into aggregate updates and domain events.
pub mod bridge;
pub mod channel;
pub mod client_info;
pub mod codec;
pub mod config;
pub mod engine;
pub mod event;
pub mod idmap;
pub mod laws;
pub mod packets;
pub mod routing;
pub mod server;
pub mod strfmt;
pub mod user;
pub mod util;


