//! A session: one owned byte-stream conversation with the endpoint.
//!
//! The transport itself (a socket, plain or under TLS) lives with the
//! caller; the library models it by its descriptor number. A negative
//! descriptor means the stream is closed, anything else means open.

use vstd::prelude::*;

use crate::config::Config;

verus! {

/// Relies on `uuid::Uuid::new_v4` and the URN formatter: a freshly drawn
/// random 128-bit identifier rendered as the 45-character
/// `urn:uuid:...` string. Randomness promises nothing about the value
/// itself, so only the length is stated.
#[verifier::external_body]
fn fresh_session_id() -> (r: String)
    ensures
        r@.len() == 45,
{
    uuid::Uuid::new_v4().urn().to_string()
}

/// One session: a unique identity, the descriptor of its transport and
/// a snapshot of the configuration it was opened with.
pub struct Connection {
    id: String,
    handle: i64,
    config: Config,
}

impl Connection {
    /// The identifier, as text.
    pub closed spec fn spec_id(self) -> Seq<char> {
        self.id@
    }

    /// The descriptor of the underlying transport.
    pub closed spec fn spec_handle(self) -> i64 {
        self.handle
    }

    /// The configuration snapshot taken at construction.
    pub closed spec fn spec_config(self) -> Config {
        self.config
    }

    /// A session is valid while its descriptor is non-negative:
    /// abstractly, while the stream is open.
    pub open spec fn spec_valid(self) -> bool {
        self.spec_handle() >= 0
    }

    /// Wraps a freshly opened transport, identified by its descriptor,
    /// in a session with a new identity and a copy of `config`.
    pub fn new(handle: i64, config: &Config) -> (c: Connection)
        ensures
            c.spec_handle() == handle,
            c.spec_config() == *config,
            c.spec_id().len() == 45,
    {
        Connection { id: fresh_session_id(), handle, config: config.clone() }
    }

    /// A fresh session over a newly opened transport, set up the same
    /// way as this one. The old session is untouched; disposing of it
    /// stays the caller's responsibility.
    pub fn reconnect(&self, handle: i64) -> (c: Connection)
        ensures
            c.spec_handle() == handle,
            c.spec_config() == self.spec_config(),
            c.spec_id().len() == 45,
    {
        Connection::new(handle, &self.config)
    }

    /// The session's stable identifier.
    pub fn id(&self) -> (r: &String)
        ensures
            r@ == self.spec_id(),
    {
        &self.id
    }

    /// The descriptor of the underlying transport, as handed in at
    /// construction.
    pub fn handle(&self) -> (r: i64)
        ensures
            r == self.spec_handle(),
    {
        self.handle
    }

    /// The configuration the session was opened with.
    pub fn config(&self) -> (r: &Config)
        ensures
            *r == self.spec_config(),
    {
        &self.config
    }

    /// True while the underlying descriptor is open. A cheap check, not
    /// a liveness probe: the peer may have closed its end regardless.
    pub fn is_valid(&self) -> (r: bool)
        ensures
            r == self.spec_valid(),
    {
        self.handle >= 0
    }
}

} // verus!
