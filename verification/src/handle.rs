use vstd::prelude::*;

use crate::client::{
    fault_of, list_accessible_collections, list_accessible_databases, DatabaseConnection,
    ServerConnection,
};
use crate::errors::{fault_to_handshake_error, ConnectionError};

verus! {

/// A connection produced by a successful connect: either server-scoped (it
/// sees all accessible databases) or database-scoped (narrowed to one logical
/// database, whose name it records).
///
/// A manager with no target database only ever produces [`Generic`] handles;
/// a manager with a target database only ever produces [`Scoped`] handles
/// bound to that database.
///
/// [`Generic`]: ConnectionHandle::Generic
/// [`Scoped`]: ConnectionHandle::Scoped
pub enum ConnectionHandle {
    /// A server-scoped session.
    Generic(ServerConnection),
    /// A session narrowed to the logical database called `name`.
    Scoped { database: DatabaseConnection, name: String },
}

impl ConnectionHandle {
    /// The name of the database this handle is narrowed to, if it is scoped.
    pub open spec fn scoped_name(&self) -> Option<Seq<char>> {
        match self {
            ConnectionHandle::Generic(_) => None,
            ConnectionHandle::Scoped { name, .. } => Some(name@),
        }
    }

    /// Whether this handle is narrowed to one logical database.
    pub fn is_scoped(&self) -> (r: bool)
        ensures
            r == (self is Scoped),
    {
        match self {
            ConnectionHandle::Generic(_) => false,
            ConnectionHandle::Scoped { .. } => true,
        }
    }

    /// The name of the database this handle is narrowed to, if it is scoped.
    pub fn database_name(&self) -> (r: Option<&String>)
        ensures
            match r {
                Some(name) => self.scoped_name() == Some(name@),
                None => self.scoped_name() is None,
            },
    {
        match self {
            ConnectionHandle::Generic(_) => None,
            ConnectionHandle::Scoped { name, .. } => Some(name),
        }
    }

    /// List the names of the databases this handle's principal can access.
    ///
    /// Only a server-scoped handle can enumerate databases; on a scoped
    /// handle the call fails without any I/O.  A transport or authentication
    /// failure is classified like any probe failure, so the error is never
    /// [`ConnectionError::DatabaseNotAccessible`].
    pub fn accessible_databases(&self) -> (r: Result<Vec<String>, ConnectionError>)
        ensures
            self is Scoped ==> (r matches Err(e) && e is TransportFailure),
            r matches Err(e) ==> !(e is DatabaseNotAccessible),
    {
        match self {
            ConnectionHandle::Generic(conn) => match list_accessible_databases(conn) {
                Ok(names) => Ok(names),
                Err(e) => Err(fault_to_handshake_error(fault_of(e))),
            },
            ConnectionHandle::Scoped { .. } => Err(
                ConnectionError::TransportFailure(
                    String::from_str("a database-scoped handle cannot enumerate databases"),
                ),
            ),
        }
    }

    /// List the names of the collections of the bound database.
    ///
    /// Only a database-scoped handle can enumerate collections; on a generic
    /// handle the call fails without any I/O.  A transport or authentication
    /// failure is classified like any probe failure, so the error is never
    /// [`ConnectionError::DatabaseNotAccessible`].
    pub fn accessible_collections(&self) -> (r: Result<Vec<String>, ConnectionError>)
        ensures
            self is Generic ==> (r matches Err(e) && e is TransportFailure),
            r matches Err(e) ==> !(e is DatabaseNotAccessible),
    {
        match self {
            ConnectionHandle::Scoped { database, .. } => {
                match list_accessible_collections(database) {
                    Ok(names) => Ok(names),
                    Err(e) => Err(fault_to_handshake_error(fault_of(e))),
                }
            },
            ConnectionHandle::Generic(_) => Err(
                ConnectionError::TransportFailure(
                    String::from_str("a server-scoped handle cannot enumerate collections"),
                ),
            ),
        }
    }
}

} // verus!
