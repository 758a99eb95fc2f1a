//! Endpoint configuration: a plain value type describing where sessions
//! connect and how the transport is set up.

use vstd::prelude::*;

verus! {

broadcast use vstd::string::to_string_from_display_ensures_for_str;

/// Settings for opening a session: destination, TLS policy and socket
/// timeouts. Every field is optional; `Default::default` gives the
/// documented defaults. Timeouts are in milliseconds. A `Config` is
/// cloned into each session at construction and never mutated after.
pub struct Config {
    /// The server to connect to.
    pub server: Option<String>,
    /// The port to connect to.
    pub port: Option<u16>,
    /// Read timeout in milliseconds.
    pub read_timeout: Option<u64>,
    /// Write timeout in milliseconds.
    pub write_timeout: Option<u64>,
    /// If true, the session negotiates TLS over the transport.
    pub use_ssl: Option<bool>,
    /// Path of a PEM client certificate to present.
    pub certificate_file: Option<String>,
    /// Path of the PEM private key belonging to the certificate.
    pub private_key_file: Option<String>,
    /// Path of a PEM trust-anchor bundle; system defaults when unset.
    pub ca_file: Option<String>,
    /// Whether the peer's certificate must verify.
    pub verify: Option<bool>,
    /// Maximum certificate-chain depth for verification; 0 means unset.
    pub verify_depth: Option<u32>,
}

impl Clone for Config {
    /// Field-for-field copy; spelled out so that callers know the clone
    /// equals the original.
    fn clone(&self) -> (r: Config)
        ensures
            r == *self,
    {
        Config {
            server: match &self.server {
                Some(s) => Some(s.clone()),
                None => None,
            },
            port: self.port,
            read_timeout: self.read_timeout,
            write_timeout: self.write_timeout,
            use_ssl: self.use_ssl,
            certificate_file: match &self.certificate_file {
                Some(s) => Some(s.clone()),
                None => None,
            },
            private_key_file: match &self.private_key_file {
                Some(s) => Some(s.clone()),
                None => None,
            },
            ca_file: match &self.ca_file {
                Some(s) => Some(s.clone()),
                None => None,
            },
            verify: self.verify,
            verify_depth: self.verify_depth,
        }
    }
}

impl Default for Config {
    /// The documented defaults: localhost:21950, plain transport,
    /// 60 s read and write timeouts, no TLS material.
    fn default() -> (r: Config)
        ensures
            r.server matches Some(s) && s@ == "localhost"@,
            r.port == Some(21950u16),
            r.read_timeout == Some(60_000u64),
            r.write_timeout == Some(60_000u64),
            r.use_ssl == Some(false),
            r.certificate_file is None,
            r.private_key_file is None,
            r.ca_file is None,
            r.verify is None,
            r.verify_depth is None,
    {
        Config {
            server: Some("localhost".to_string()),
            port: Some(21950),
            read_timeout: Some(60_000),
            write_timeout: Some(60_000),
            use_ssl: Some(false),
            certificate_file: None,
            private_key_file: None,
            ca_file: None,
            verify: None,
            verify_depth: None,
        }
    }
}

} // verus!
