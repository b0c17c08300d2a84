use vstd::prelude::*;

use crate::auth::AuthenticationMethod;
use crate::client::{
    cannot_be_a_base, establish_basic_auth, establish_jwt, establish_without_auth, fault_of,
    is_cannot_be_a_base_url, list_accessible_collections, list_accessible_databases,
    narrow_to_database,
};
use crate::errors::{fault_to_handshake_error, fault_to_narrowing_error, ConnectionError};
use crate::handle::ConnectionHandle;

verus! {

/// A connection manager for ArangoDB.
///
/// An immutable configuration record: the server URL, the authentication
/// method, and an optional target database.  It is constructed once and then
/// only read, so any number of [`connect`] and [`is_valid`] calls may run
/// against the same manager.
///
/// [`connect`]: ArangoConnectionManager::connect
/// [`is_valid`]: ArangoConnectionManager::is_valid
#[derive(Debug)]
pub struct ArangoConnectionManager {
    url: String,
    method: AuthenticationMethod,
    database: Option<String>,
}

impl ArangoConnectionManager {
    /// The configured server URL.
    pub closed spec fn url_spec(&self) -> Seq<char> {
        self.url@
    }

    /// The configured authentication method.
    pub closed spec fn method_spec(&self) -> AuthenticationMethod {
        self.method
    }

    /// The configured target database, if any.
    pub closed spec fn database_spec(&self) -> Option<String> {
        self.database
    }

    /// Create a new ArangoConnectionManager.
    ///
    /// With `database` absent the manager produces server-scoped handles;
    /// with it present, handles narrowed to that database.  The URL and the
    /// credential strings are opaque: they are handed to the wire client
    /// unparsed.
    pub fn new(url: String, method: AuthenticationMethod, database: Option<String>) -> (r: Self)
        ensures
            r.url_spec() == url@,
            r.method_spec() == method,
            r.database_spec() == database,
    {
        Self { url, method, database }
    }

    /// Borrow the configured server URL.
    pub fn url(&self) -> (r: &str)
        ensures
            r@ == self.url_spec(),
    {
        self.url.as_str()
    }

    /// Borrow the configured authentication method.
    pub fn method(&self) -> (r: &AuthenticationMethod)
        ensures
            *r == self.method_spec(),
    {
        &self.method
    }

    /// Borrow the configured target database, if any.
    pub fn database(&self) -> (r: &Option<String>)
        ensures
            *r == self.database_spec(),
    {
        &self.database
    }

    /// Establish one new authenticated connection.
    ///
    /// The handshake matching the configured authentication method runs
    /// against the configured server URL; with a target database configured,
    /// the fresh connection is then narrowed to it.  The handle's variant
    /// matches the configuration exactly: a manager with a target database
    /// only ever produces a scoped handle bound to that database, a manager
    /// without one only ever produces a generic handle.
    ///
    /// Every failure is surfaced at once, never retried, and yields no
    /// handle.  A failure of the handshake itself is never classified as
    /// [`ConnectionError::DatabaseNotAccessible`]: that kind can only arise
    /// from the narrowing step, so a manager without a target database never
    /// reports it.
    ///
    /// A URL that parses as a cannot-be-a-base URL (a `mailto:` or `data:`
    /// URL, say) is refused up front as a transport failure, before any
    /// network contact: the wire client cannot extend such a URL with API
    /// paths.  Any other URL string is handed to the wire client unparsed.
    ///
    /// Under basic authentication the handshake only encodes the credentials
    /// locally and sends no authenticated request, so bad credentials do not
    /// fail it; they surface at the narrowing step, or at the first
    /// authenticated call made through the handle.  The JWT handshake
    /// exchanges the credentials with the server and does fail on them.
    pub fn connect(&self) -> (r: Result<ConnectionHandle, ConnectionError>)
        ensures
            r matches Ok(h) ==> ((h is Scoped) <==> (self.database_spec() is Some)),
            r matches Ok(h) ==> ((h is Generic) <==> (self.database_spec() is None)),
            r matches Ok(h) ==> h.scoped_name() == match self.database_spec() {
                Some(name) => Some::<Seq<char>>(name@),
                None => None::<Seq<char>>,
            },
            self.database_spec() is None ==> (r matches Err(e) ==> !(e is DatabaseNotAccessible)),
            cannot_be_a_base(self.url_spec()) ==> (r matches Err(e) && e is TransportFailure),
    {
        if is_cannot_be_a_base_url(self.url.as_str()) {
            return Err(
                ConnectionError::TransportFailure(
                    String::from_str("server URL cannot serve as a base for API paths"),
                ),
            );
        }
        let established = match &self.method {
            AuthenticationMethod::BasicAuth(username, password) => {
                establish_basic_auth(self.url.as_str(), username.as_str(), password.as_str())
            },
            AuthenticationMethod::JWTAuth(username, password) => {
                establish_jwt(self.url.as_str(), username.as_str(), password.as_str())
            },
            AuthenticationMethod::NoAuth => establish_without_auth(self.url.as_str()),
        };
        let conn = match established {
            Ok(conn) => conn,
            Err(e) => {
                return Err(fault_to_handshake_error(fault_of(e)));
            },
        };
        match &self.database {
            Some(name) => match narrow_to_database(&conn, name.as_str()) {
                Ok(database) => Ok(ConnectionHandle::Scoped { database, name: name.clone() }),
                Err(e) => Err(fault_to_narrowing_error(fault_of(e))),
            },
            None => Ok(ConnectionHandle::Generic(conn)),
        }
    }

    /// Check that a pooled handle is still usable.
    ///
    /// Dispatches on the handle's variant and issues one cheap, read-only
    /// probe: a generic handle enumerates its accessible databases, a scoped
    /// handle the collections of its bound database.  Any successful answer —
    /// even an empty one — means the handle is valid; any transport or
    /// authentication failure means it is not.  Nothing is cached: every call
    /// is a fresh round trip.
    ///
    /// The handle itself is never changed: neither its variant nor its
    /// authentication state.  A probe failure is never classified as
    /// [`ConnectionError::DatabaseNotAccessible`].
    pub fn is_valid(&self, handle: &mut ConnectionHandle) -> (r: Result<(), ConnectionError>)
        ensures
            *final(handle) == *old(handle),
            r matches Err(e) ==> !(e is DatabaseNotAccessible),
    {
        match &*handle {
            ConnectionHandle::Generic(conn) => match list_accessible_databases(conn) {
                Ok(_) => Ok(()),
                Err(e) => Err(fault_to_handshake_error(fault_of(e))),
            },
            ConnectionHandle::Scoped { database, .. } => {
                match list_accessible_collections(database) {
                    Ok(_) => Ok(()),
                    Err(e) => Err(fault_to_handshake_error(fault_of(e))),
                }
            },
        }
    }

    /// Report whether a handle is already known to be unusable, without any
    /// I/O.
    ///
    /// Always `false`: the underlying session objects expose no sticky broken
    /// flag, so detecting brokenness is deferred entirely to the round trip
    /// made by [`is_valid`].
    ///
    /// [`is_valid`]: ArangoConnectionManager::is_valid
    pub fn has_broken(&self, _handle: &ConnectionHandle) -> (r: bool)
        ensures
            r == false,
    {
        false
    }
}

} // verus!
