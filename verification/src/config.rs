//! Connection configuration: where to connect, how to verify the
//! server's certificate, and the credentials to present.
use vstd::prelude::*;
use vstd::string::StringExecFns;
use crate::strfmt::{append_decimal, spec_decimal};

verus! {

/// Everything a connection attempt needs. The insecure flag disables
/// certificate verification — a deliberate, explicitly-opt-in bypass
/// for development and self-signed deployments.
pub struct MumbleClientConfig {
    pub server_address: String,
    pub server_port: u16,
    pub override_tls_server_name: Option<String>,
    pub insecure_disable_certificate_verification: bool,
    pub username: String,
    pub password: Option<String>,
}

impl MumbleClientConfig {
    /// The `host:port` form of the configured endpoint.
    pub fn connect_address(&self) -> (r: String)
        ensures
            r@ == self.server_address@ + ":"@ + spec_decimal(self.server_port as nat),
    {
        let mut s = self.server_address.clone();
        s.append(":");
        append_decimal(&mut s, self.server_port as u64);
        proof {
            assert((self.server_address@ + ":"@) + spec_decimal(self.server_port as nat)
                =~= self.server_address@ + ":"@ + spec_decimal(self.server_port as nat));
        }
        s
    }
}

} // verus!
