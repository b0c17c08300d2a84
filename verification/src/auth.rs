use vstd::prelude::*;

verus! {

/// Kind of the authentication method to use when establishing a connection.
///
/// Exactly one case is active at a time; the credential strings are opaque and
/// are never parsed or validated by this crate.
#[derive(Debug, Clone)]
pub enum AuthenticationMethod {
    /// Use basic authentication: the username and password are attached to
    /// every API call made through the resulting connection.
    BasicAuth(String, String),
    /// Use JWT authentication: the username and password are exchanged once,
    /// at connection establishment, for a bearer token that is attached to
    /// subsequent API calls.
    JWTAuth(String, String),
    /// Use no authentication.  This only works against a server that permits
    /// anonymous API access and is recommended for local development alone.
    NoAuth,
}

} // verus!
