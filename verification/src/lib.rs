//! ArangoDB connection management for a generic resource pool, built on the
//! `arangors` wire client.
//!
//! The crate centres on [`ArangoConnectionManager`]: a read-only configuration
//! record (server URL, authentication method, optional target database) that
//! knows how to establish an authenticated connection, optionally narrow it to
//! one logical database, and validate a pooled connection before it is lent
//! out.  The pool itself (sizing, borrowing, eviction) is an external
//! collaborator and is not part of this crate.

mod auth;
mod client;
mod errors;
mod handle;
mod manager;

pub use auth::AuthenticationMethod;
pub use client::{cannot_be_a_base, DatabaseConnection, ServerConnection};
pub use errors::{ConnectionError, RawFault};
pub use errors::{fault_to_handshake_error, fault_to_narrowing_error};
pub use handle::ConnectionHandle;
pub use manager::ArangoConnectionManager;
