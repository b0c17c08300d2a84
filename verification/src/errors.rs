use vstd::prelude::*;

verus! {

/// ArangoDB error number reported when the requested database does not exist.
pub const ARANGO_DATABASE_NOT_FOUND: u16 = 1228;

/// ArangoDB error number reported when the authenticated principal is
/// forbidden from performing the requested operation.
pub const ARANGO_FORBIDDEN: u16 = 11;

/// HTTP status sent by the server when a request is not authenticated.
pub const HTTP_UNAUTHORIZED: u16 = 401;

/// HTTP status sent by the server when access is denied.
pub const HTTP_FORBIDDEN: u16 = 403;

/// A failure reported by the wire client, mirrored as plain values so that
/// the classification into [`ConnectionError`] kinds can be verified.
///
/// The variants follow the wire client's own error type one for one.
#[derive(Debug, Clone)]
pub enum RawFault {
    /// The client refused an operation for lack of permission; carries the
    /// name of the refused operation.
    InsufficientPermission(String),
    /// The server did not identify itself as an ArangoDB server.
    InvalidServer(String),
    /// The server answered with an error document: HTTP status code, ArangoDB
    /// error number, and the server's message.
    Arango(u16, u16, String),
    /// The server's answer could not be decoded.
    Serde(String),
    /// The HTTP transport itself failed (unreachable host, reset, timeout).
    HttpClient(String),
}

/// The error kinds a connection manager surfaces to the pool.
///
/// Every failure of the wire client is propagated as exactly one of these
/// kinds, so the pool can tell a transient transport problem from a
/// credential problem from a missing target database.
#[derive(Debug, Clone)]
pub enum ConnectionError {
    /// The server could not be reached, the connection was reset, or its
    /// answer was malformed.  Never retried by the manager.
    TransportFailure(String),
    /// The server rejected the credentials or the token exchange.
    AuthenticationRejected(String),
    /// The target database is missing or the authenticated principal lacks
    /// access to it.  Surfaced only while narrowing a fresh connection to the
    /// configured target database.
    DatabaseNotAccessible(String),
}

/// The message carried by a raw fault, independent of its variant.
pub open spec fn fault_message(f: RawFault) -> Seq<char> {
    match f {
        RawFault::InsufficientPermission(m) => m@,
        RawFault::InvalidServer(m) => m@,
        RawFault::Arango(_, _, m) => m@,
        RawFault::Serde(m) => m@,
        RawFault::HttpClient(m) => m@,
    }
}

/// A raw fault that means the server rejected the caller's authentication.
pub open spec fn is_auth_fault(f: RawFault) -> bool {
    f matches RawFault::Arango(code, num, _)
        && (code == HTTP_UNAUTHORIZED || num == HTTP_UNAUTHORIZED)
}

/// A raw fault that means the target database is missing or off limits to
/// the authenticated principal.
pub open spec fn is_database_fault(f: RawFault) -> bool {
    ||| f is InsufficientPermission
    ||| f matches RawFault::Arango(code, num, _)
        && (num == ARANGO_DATABASE_NOT_FOUND || num == ARANGO_FORBIDDEN
            || code == HTTP_FORBIDDEN)
}

impl ConnectionError {
    /// The descriptive message carried by this error.
    pub open spec fn message_spec(&self) -> Seq<char> {
        match self {
            ConnectionError::TransportFailure(m) => m@,
            ConnectionError::AuthenticationRejected(m) => m@,
            ConnectionError::DatabaseNotAccessible(m) => m@,
        }
    }

    /// Borrow the descriptive message carried by this error.
    pub fn message(&self) -> (r: &str)
        ensures
            r@ == self.message_spec(),
    {
        match self {
            ConnectionError::TransportFailure(m) => m.as_str(),
            ConnectionError::AuthenticationRejected(m) => m.as_str(),
            ConnectionError::DatabaseNotAccessible(m) => m.as_str(),
        }
    }
}

/// Classify a fault raised while establishing a connection (the handshake) or
/// while probing an existing one.
///
/// An authentication rejection is surfaced as such; every other fault is a
/// transport failure.  A handshake or probe never reports
/// [`ConnectionError::DatabaseNotAccessible`]: that kind is reserved for the
/// narrowing step of a connect with a configured target database.
pub fn fault_to_handshake_error(f: RawFault) -> (r: ConnectionError)
    ensures
        !(r is DatabaseNotAccessible),
        is_auth_fault(f) <==> r is AuthenticationRejected,
        !is_auth_fault(f) ==> r is TransportFailure,
        r.message_spec() == fault_message(f),
{
    match f {
        RawFault::Arango(code, num, m) => {
            if code == HTTP_UNAUTHORIZED || num == HTTP_UNAUTHORIZED {
                ConnectionError::AuthenticationRejected(m)
            } else {
                ConnectionError::TransportFailure(m)
            }
        },
        RawFault::InsufficientPermission(m) => ConnectionError::TransportFailure(m),
        RawFault::InvalidServer(m) => ConnectionError::TransportFailure(m),
        RawFault::Serde(m) => ConnectionError::TransportFailure(m),
        RawFault::HttpClient(m) => ConnectionError::TransportFailure(m),
    }
}

/// Classify a fault raised while narrowing a freshly established connection
/// to the configured target database.
///
/// A missing or forbidden database is surfaced as
/// [`ConnectionError::DatabaseNotAccessible`]; an authentication rejection as
/// [`ConnectionError::AuthenticationRejected`]; everything else as a
/// transport failure.
pub fn fault_to_narrowing_error(f: RawFault) -> (r: ConnectionError)
    ensures
        is_database_fault(f) <==> r is DatabaseNotAccessible,
        !is_database_fault(f) ==> (is_auth_fault(f) <==> r is AuthenticationRejected),
        !is_database_fault(f) && !is_auth_fault(f) ==> r is TransportFailure,
        r.message_spec() == fault_message(f),
{
    match f {
        RawFault::InsufficientPermission(m) => ConnectionError::DatabaseNotAccessible(m),
        RawFault::Arango(code, num, m) => {
            if num == ARANGO_DATABASE_NOT_FOUND || num == ARANGO_FORBIDDEN
                || code == HTTP_FORBIDDEN {
                ConnectionError::DatabaseNotAccessible(m)
            } else if code == HTTP_UNAUTHORIZED || num == HTTP_UNAUTHORIZED {
                ConnectionError::AuthenticationRejected(m)
            } else {
                ConnectionError::TransportFailure(m)
            }
        },
        RawFault::InvalidServer(m) => ConnectionError::TransportFailure(m),
        RawFault::Serde(m) => ConnectionError::TransportFailure(m),
        RawFault::HttpClient(m) => ConnectionError::TransportFailure(m),
    }
}

} // verus!
