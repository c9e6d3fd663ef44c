//! The identity this client reports during the handshake: platform
//! strings probed from the host, a fixed release label, and a
//! three-part version packed into one 32-bit value.
use vstd::prelude::*;
use crate::packets::{ControlPacket, PacketV, VersionData, VersionDataV};

verus! {

/// Packs a three-part client version into one 32-bit value:
/// major in the high 16 bits, minor in the next 8, patch in the low 8.
pub fn pack_client_version(major: u32, minor: u32, patch: u32) -> (r: u32)
    requires
        major < 0x10000,
        minor < 0x100,
        patch < 0x100,
    ensures
        r == major * 0x10000 + minor * 0x100 + patch,
{
    major * 0x10000 + minor * 0x100 + patch
}

/// Relies on os_info: it probes the running platform and reports its
/// name and version. The result depends on the machine, so nothing
/// further is promised of it.
#[verifier::external_body]
fn probe_os_strings() -> (r: (String, String)) {
    let info = os_info::get();
    (info.os_type().to_string(), info.version().to_string())
}

/// The identity sent in the first handshake step.
pub struct MumbleClientInfo {
    pub os: String,
    pub os_version: String,
    pub client_release_name: String,
    pub client_version: u32,
}

impl MumbleClientInfo {
    /// This client's identity on the running platform: probed platform
    /// strings, the fixed release label, and the packed version.
    pub fn from_system() -> (r: Self)
        ensures
            r.client_release_name@ == "mumble-client-rs:0.0.1"@,
            r.client_version == 0x10512,
    {
        let (os, os_version) = probe_os_strings();
        MumbleClientInfo {
            os,
            os_version,
            client_release_name: "mumble-client-rs:0.0.1".to_owned(),
            client_version: pack_client_version(1, 5, 18),
        }
    }

    /// The version packet that announces this identity.
    pub fn to_version_packet(self) -> (r: ControlPacket)
        ensures
            r@ == PacketV::Version(
                VersionDataV {
                    version: self.client_version,
                    release: self.client_release_name@,
                    os: self.os@,
                    os_version: self.os_version@,
                },
            ),
    {
        ControlPacket::Version(
            VersionData {
                version: self.client_version,
                release: self.client_release_name,
                os: self.os,
                os_version: self.os_version,
            },
        )
    }
}

} // verus!
