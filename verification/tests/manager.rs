use bb8_arangodb::{
    fault_to_handshake_error, fault_to_narrowing_error, ArangoConnectionManager,
    AuthenticationMethod, ConnectionError, RawFault,
};

#[test]
fn new_stores_configuration() {
    let manager = ArangoConnectionManager::new(
        "http://localhost:8529".to_string(),
        AuthenticationMethod::JWTAuth("root".to_string(), "openSesame".to_string()),
        None,
    );
    assert_eq!(manager.url(), "http://localhost:8529");
    assert!(matches!(
        manager.method(),
        AuthenticationMethod::JWTAuth(user, pass) if user == "root" && pass == "openSesame"
    ));
    assert!(manager.database().is_none());
}

#[test]
fn new_stores_target_database() {
    let manager = ArangoConnectionManager::new(
        "http://localhost:8529".to_string(),
        AuthenticationMethod::BasicAuth("root".to_string(), "openSesame".to_string()),
        Some("mydb".to_string()),
    );
    assert_eq!(manager.url(), "http://localhost:8529");
    assert!(matches!(
        manager.method(),
        AuthenticationMethod::BasicAuth(user, pass) if user == "root" && pass == "openSesame"
    ));
    assert_eq!(manager.database().as_deref(), Some("mydb"));
}

#[test]
fn new_stores_no_auth() {
    let manager = ArangoConnectionManager::new(
        "http://localhost:8529".to_string(),
        AuthenticationMethod::NoAuth,
        None,
    );
    assert!(matches!(manager.method(), AuthenticationMethod::NoAuth));
}

#[test]
fn connect_unreachable_server_is_transport_failure_basic() {
    let manager = ArangoConnectionManager::new(
        "http://127.0.0.1:9".to_string(),
        AuthenticationMethod::BasicAuth("root".to_string(), "openSesame".to_string()),
        None,
    );
    let result = manager.connect();
    assert!(matches!(result, Err(ConnectionError::TransportFailure(_))));
}

#[test]
fn connect_unreachable_server_is_transport_failure_jwt() {
    let manager = ArangoConnectionManager::new(
        "http://127.0.0.1:9".to_string(),
        AuthenticationMethod::JWTAuth("root".to_string(), "openSesame".to_string()),
        None,
    );
    let result = manager.connect();
    assert!(matches!(result, Err(ConnectionError::TransportFailure(_))));
}

#[test]
fn connect_unreachable_server_is_transport_failure_no_auth() {
    let manager = ArangoConnectionManager::new(
        "http://127.0.0.1:9".to_string(),
        AuthenticationMethod::NoAuth,
        None,
    );
    let result = manager.connect();
    assert!(matches!(result, Err(ConnectionError::TransportFailure(_))));
}

#[test]
fn connect_unreachable_server_with_target_database_fails_before_narrowing() {
    // The handshake fails before the narrowing step is ever reached, so even
    // with a target database configured the error is a transport failure,
    // not DatabaseNotAccessible.
    let manager = ArangoConnectionManager::new(
        "http://127.0.0.1:9".to_string(),
        AuthenticationMethod::BasicAuth("root".to_string(), "openSesame".to_string()),
        Some("nonexistent".to_string()),
    );
    let result = manager.connect();
    assert!(matches!(result, Err(ConnectionError::TransportFailure(_))));
}

#[test]
fn connect_cannot_be_a_base_url_is_transport_failure() {
    // A URL that parses but cannot serve as a base for API paths is refused
    // up front, before any network contact, instead of panicking inside the
    // wire client.
    let manager = ArangoConnectionManager::new(
        "mailto:root@example.com".to_string(),
        AuthenticationMethod::NoAuth,
        None,
    );
    let result = manager.connect();
    assert!(matches!(result, Err(ConnectionError::TransportFailure(_))));
}

#[test]
fn connect_cannot_be_a_base_url_with_target_database_is_transport_failure() {
    // The refusal comes before the handshake and before narrowing, so the
    // error is a transport failure even with a target database configured.
    let manager = ArangoConnectionManager::new(
        "data:,payload".to_string(),
        AuthenticationMethod::BasicAuth("root".to_string(), "openSesame".to_string()),
        Some("mydb".to_string()),
    );
    let result = manager.connect();
    assert!(matches!(result, Err(ConnectionError::TransportFailure(_))));
}

#[test]
fn connect_malformed_url_is_transport_failure() {
    let manager = ArangoConnectionManager::new(
        "not a url".to_string(),
        AuthenticationMethod::NoAuth,
        None,
    );
    let result = manager.connect();
    assert!(matches!(result, Err(ConnectionError::TransportFailure(_))));
}

#[test]
fn narrowing_database_not_found_is_database_not_accessible() {
    let fault = RawFault::Arango(404, 1228, "database not found".to_string());
    let error = fault_to_narrowing_error(fault);
    assert!(matches!(
        &error,
        ConnectionError::DatabaseNotAccessible(m) if m == "database not found"
    ));
    assert_eq!(error.message(), "database not found");
}

#[test]
fn narrowing_forbidden_is_database_not_accessible() {
    let by_error_num = fault_to_narrowing_error(RawFault::Arango(403, 11, "forbidden".to_string()));
    assert!(matches!(by_error_num, ConnectionError::DatabaseNotAccessible(_)));

    let by_status = fault_to_narrowing_error(RawFault::Arango(403, 0, "forbidden".to_string()));
    assert!(matches!(by_status, ConnectionError::DatabaseNotAccessible(_)));
}

#[test]
fn narrowing_insufficient_permission_is_database_not_accessible() {
    let fault = RawFault::InsufficientPermission("list collections".to_string());
    let error = fault_to_narrowing_error(fault);
    assert!(matches!(
        &error,
        ConnectionError::DatabaseNotAccessible(m) if m == "list collections"
    ));
}

#[test]
fn narrowing_unauthorized_is_authentication_rejected() {
    let fault = RawFault::Arango(401, 401, "not authorized".to_string());
    let error = fault_to_narrowing_error(fault);
    assert!(matches!(
        &error,
        ConnectionError::AuthenticationRejected(m) if m == "not authorized"
    ));
}

#[test]
fn narrowing_transport_faults_stay_transport_failures() {
    let http = fault_to_narrowing_error(RawFault::HttpClient("connection reset".to_string()));
    assert!(matches!(http, ConnectionError::TransportFailure(_)));

    let serde = fault_to_narrowing_error(RawFault::Serde("bad json".to_string()));
    assert!(matches!(serde, ConnectionError::TransportFailure(_)));

    let server = fault_to_narrowing_error(RawFault::InvalidServer("nginx".to_string()));
    assert!(matches!(server, ConnectionError::TransportFailure(_)));
}

#[test]
fn handshake_unauthorized_is_authentication_rejected() {
    let by_error_num = fault_to_handshake_error(RawFault::Arango(401, 401, "bad credentials".to_string()));
    assert!(matches!(
        &by_error_num,
        ConnectionError::AuthenticationRejected(m) if m == "bad credentials"
    ));

    let by_status = fault_to_handshake_error(RawFault::Arango(401, 0, "bad token".to_string()));
    assert!(matches!(by_status, ConnectionError::AuthenticationRejected(_)));
}

#[test]
fn handshake_never_reports_database_not_accessible() {
    // Even a fault that would mean "database missing" while narrowing is a
    // transport failure when raised by the handshake itself.
    let faults = vec![
        RawFault::Arango(404, 1228, "database not found".to_string()),
        RawFault::Arango(403, 11, "forbidden".to_string()),
        RawFault::InsufficientPermission("list databases".to_string()),
        RawFault::InvalidServer("nginx".to_string()),
        RawFault::Serde("bad json".to_string()),
        RawFault::HttpClient("connection reset".to_string()),
    ];
    for fault in faults {
        let error = fault_to_handshake_error(fault);
        assert!(!matches!(error, ConnectionError::DatabaseNotAccessible(_)));
    }
}

#[test]
fn handshake_transport_faults_stay_transport_failures() {
    let http = fault_to_handshake_error(RawFault::HttpClient("unreachable".to_string()));
    assert!(matches!(
        &http,
        ConnectionError::TransportFailure(m) if m == "unreachable"
    ));

    let other_arango = fault_to_handshake_error(RawFault::Arango(500, 4, "out of memory".to_string()));
    assert!(matches!(other_arango, ConnectionError::TransportFailure(_)));
}

#[test]
fn error_message_is_preserved_for_every_kind() {
    let transport = fault_to_handshake_error(RawFault::HttpClient("reset".to_string()));
    assert_eq!(transport.message(), "reset");

    let auth = fault_to_handshake_error(RawFault::Arango(401, 401, "denied".to_string()));
    assert_eq!(auth.message(), "denied");

    let database = fault_to_narrowing_error(RawFault::Arango(404, 1228, "missing".to_string()));
    assert_eq!(database.message(), "missing");
}
