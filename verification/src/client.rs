//! Trusted boundary around the `arangors` wire client.
//!
//! Everything the manager needs from the wire client goes through the
//! wrappers in this module.  Each wrapper makes exactly one client call; the
//! calls perform network I/O, so nothing is promised of their outcome beyond
//! the shape of the returned value — the verified logic in the rest of the
//! crate states what holds whatever the server answered.
//!
//! The session objects themselves are opaque: arangors'
//! `GenericConnection<C, S>` and `Database<C>` are generic over its
//! `ClientExt` transport trait, which the verifier cannot take as a bound, so
//! each is held inside an opaque struct of this crate instead, fixed to the
//! reqwest transport.

use vstd::prelude::*;

use arangors::client::reqwest::ReqwestClient;
use arangors::{ClientError, Connection, Database};

use crate::errors::RawFault;

verus! {

/// Whether a string parses as a URL that cannot serve as a base for joining
/// API paths onto (a `mailto:` or `data:` URL, for example).  Named rather
/// than spelled out: the parsing rules fill a specification of their own, and
/// the result depends on the string alone.
pub uninterp spec fn cannot_be_a_base(url: Seq<char>) -> bool;

/// Relies on `url::Url::parse` and `url::Url::cannot_be_a_base`: tells
/// whether the string parses as a cannot-be-a-base URL.  The wire client's
/// establish step joins an API path onto the parsed URL and would panic on
/// exactly these URLs, so the manager refuses them before establishing.  A
/// string that does not parse at all is not such a URL: the establish step
/// surfaces it as an ordinary error.
#[verifier::external_body]
pub(crate) fn is_cannot_be_a_base_url(url: &str) -> (r: bool)
    ensures
        r == cannot_be_a_base(url@),
{
    match url::Url::parse(url) {
        Ok(parsed) => parsed.cannot_be_a_base(),
        Err(_) => false,
    }
}

#[verifier::external_type_specification]
#[verifier::external_body]
pub struct ExClientError(ClientError);

/// A server-scoped session: it can see every database accessible to the
/// authenticated principal.  Wraps arangors' `GenericConnection` over the
/// reqwest transport; opaque to the verifier.
#[verifier::external_body]
pub struct ServerConnection {
    inner: Connection,
}

/// A database-scoped session: a server-scoped session narrowed to one
/// logical database, able to see that database's collections.  Wraps
/// arangors' `Database` over the reqwest transport; opaque to the verifier.
#[verifier::external_body]
pub struct DatabaseConnection {
    inner: Database<ReqwestClient>,
}

/// Relies on arangors' `GenericConnection::establish_basic_auth`: opens a
/// server-scoped session that resends the username and password on every
/// call.  The handshake only encodes the credentials locally and sends no
/// authenticated request, so it does not fail on bad credentials.  The
/// outcome depends on the network and the server, so nothing is promised of
/// it.
///
/// The establish step joins an API path onto the parsed URL and panics on a
/// cannot-be-a-base URL, so those are excluded.  Known limitation of the
/// wire client: it also unwraps the textual conversion of the response's
/// `Server` header, so a peer answering with a non-ASCII header value makes
/// the call panic rather than err.
#[verifier::external_body]
pub(crate) fn establish_basic_auth(url: &str, username: &str, password: &str) -> (r: Result<
    ServerConnection,
    ClientError,
>)
    requires
        !cannot_be_a_base(url@),
{
    match Connection::establish_basic_auth(url, username, password) {
        Ok(inner) => Ok(ServerConnection { inner }),
        Err(e) => Err(e),
    }
}

/// Relies on arangors' `GenericConnection::establish_jwt`: exchanges the
/// username and password once for a bearer token and opens a server-scoped
/// session that attaches that token to every call.  The outcome depends on
/// the network and the server, so nothing is promised of it.
///
/// The establish step joins an API path onto the parsed URL and panics on a
/// cannot-be-a-base URL, so those are excluded.  Known limitations of the
/// wire client: it unwraps the textual conversion of the response's `Server`
/// header, and it unwraps the header value built from the server-supplied
/// token, so a peer answering with a non-ASCII header value, or a token
/// holding control or non-ASCII characters, makes the call panic rather
/// than err.
#[verifier::external_body]
pub(crate) fn establish_jwt(url: &str, username: &str, password: &str) -> (r: Result<
    ServerConnection,
    ClientError,
>)
    requires
        !cannot_be_a_base(url@),
{
    match Connection::establish_jwt(url, username, password) {
        Ok(inner) => Ok(ServerConnection { inner }),
        Err(e) => Err(e),
    }
}

/// Relies on arangors' `GenericConnection::establish_without_auth`: opens a
/// server-scoped session with no credential exchange.  The outcome depends on
/// the network and the server, so nothing is promised of it.
///
/// The establish step joins an API path onto the parsed URL and panics on a
/// cannot-be-a-base URL, so those are excluded.  Known limitation of the
/// wire client: it also unwraps the textual conversion of the response's
/// `Server` header, so a peer answering with a non-ASCII header value makes
/// the call panic rather than err.
#[verifier::external_body]
pub(crate) fn establish_without_auth(url: &str) -> (r: Result<ServerConnection, ClientError>)
    requires
        !cannot_be_a_base(url@),
{
    match Connection::establish_without_auth(url) {
        Ok(inner) => Ok(ServerConnection { inner }),
        Err(e) => Err(e),
    }
}

/// Relies on arangors' `GenericConnection::db`: asks the server to narrow the
/// session to one logical database, failing if that database is missing or
/// inaccessible.  The outcome depends on the network and the server, so
/// nothing is promised of it.
#[verifier::external_body]
pub(crate) fn narrow_to_database(conn: &ServerConnection, name: &str) -> (r: Result<
    DatabaseConnection,
    ClientError,
>) {
    match conn.inner.db(name) {
        Ok(inner) => Ok(DatabaseConnection { inner }),
        Err(e) => Err(e),
    }
}

/// Relies on arangors' `GenericConnection::accessible_databases`: a read-only
/// round trip listing the databases the authenticated principal can see.
/// Only the database names are kept.  The outcome depends on the network and
/// the server, so nothing is promised of it.
#[verifier::external_body]
pub(crate) fn list_accessible_databases(conn: &ServerConnection) -> (r: Result<
    Vec<String>,
    ClientError,
>) {
    match conn.inner.accessible_databases() {
        Ok(dbs) => Ok(dbs.into_iter().map(|entry| entry.0).collect()),
        Err(e) => Err(e),
    }
}

/// Relies on arangors' `Database::accessible_collections`: a read-only round
/// trip listing the collections of the bound database.  Only the collection
/// names are kept.  The outcome depends on the network and the server, so
/// nothing is promised of it.
#[verifier::external_body]
pub(crate) fn list_accessible_collections(db: &DatabaseConnection) -> (r: Result<
    Vec<String>,
    ClientError,
>) {
    match db.inner.accessible_collections() {
        Ok(infos) => Ok(infos.into_iter().map(|info| info.name).collect()),
        Err(e) => Err(e),
    }
}

/// Relies on arangors' `ClientError` (and `ArangoError`'s accessors): mirrors
/// the error, variant for variant, into plain values so that verified code
/// can classify it.
#[verifier::external_body]
pub(crate) fn fault_of(e: ClientError) -> (r: RawFault) {
    match e {
        ClientError::InsufficientPermission { operation, .. } => {
            RawFault::InsufficientPermission(operation)
        }
        ClientError::InvalidServer(m) => RawFault::InvalidServer(m),
        ClientError::Arango(a) => {
            RawFault::Arango(a.code(), a.error_num(), a.message().to_string())
        }
        ClientError::Serde(e) => RawFault::Serde(format!("{}", e)),
        ClientError::HttpClient(m) => RawFault::HttpClient(m),
    }
}

} // verus!
