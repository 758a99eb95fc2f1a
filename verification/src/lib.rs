//! A client-side connection pool for outbound byte-stream sessions.
//!
//! The pool keeps a FIFO queue of idle sessions, counts the sessions
//! lent out, bounds the total at `max` (unless transient overflow is
//! allowed) and keeps a warm set of about `min` sessions across bursts.
//! Opening a transport is the caller's affair: the pool decides, hands
//! out and takes back.

pub mod config;
pub mod conn;
pub mod poolmgr;

pub use config::Config;
pub use conn::Connection;
pub use poolmgr::AcquireOutcome;
pub use poolmgr::ConnectionPool;
