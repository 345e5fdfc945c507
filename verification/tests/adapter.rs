use r2d2_couchdb::CouchdbConnectionManager;
use r2d2_couchdb::Error;
use r2d2_couchdb::ErrorDetail;

#[test]
fn valid_address_constructs_manager() {
    let m = CouchdbConnectionManager::new("http://localhost:5984/").unwrap();
    assert_eq!(m.server_url(), "http://localhost:5984/");
}

#[test]
fn address_round_trips_through_connection() {
    let m = CouchdbConnectionManager::new("http://localhost:5984/").unwrap();
    let conn = m.connect().unwrap();
    assert_eq!(conn.server_url(), "http://localhost:5984/");
}

#[test]
fn invalid_addresses_construct_no_manager() {
    assert!(CouchdbConnectionManager::new("").is_err());
    assert!(CouchdbConnectionManager::new("not a url").is_err());
    assert!(CouchdbConnectionManager::new("http://").is_err());
    assert!(CouchdbConnectionManager::new("//missing.scheme/").is_err());
}

#[test]
fn construction_error_is_native_parse_error() {
    let err: url::ParseError = CouchdbConnectionManager::new("not a url").unwrap_err();
    assert_eq!(err, url::ParseError::RelativeUrlWithoutBase);
    let err = CouchdbConnectionManager::new("http://").unwrap_err();
    assert_eq!(err, url::ParseError::EmptyHost);
}

#[test]
fn validate_always_succeeds() {
    let m = CouchdbConnectionManager::new("http://localhost:5984/").unwrap();
    let mut conn = m.connect().unwrap();
    assert!(m.is_valid(&mut conn).is_ok());
    assert!(m.is_valid(&mut conn).is_ok());
    assert_eq!(conn.server_url(), "http://localhost:5984/");
}

#[test]
fn has_broken_always_false() {
    let m = CouchdbConnectionManager::new("http://localhost:5984/").unwrap();
    let mut conn = m.connect().unwrap();
    assert!(!m.has_broken(&mut conn));
    assert!(m.is_valid(&mut conn).is_ok());
    assert!(!m.has_broken(&mut conn));
    assert!(!m.has_broken(&mut conn));
}

#[test]
fn unreachable_address_yields_handle_without_panic() {
    // Session creation performs no network traffic, so a handle comes
    // back even for an address nothing listens on; it targets that
    // address unchanged.
    let m = CouchdbConnectionManager::new("http://127.0.0.1:1/").unwrap();
    let mut conn = m.connect().unwrap();
    assert_eq!(conn.server_url(), "http://127.0.0.1:1/");
    assert!(!m.has_broken(&mut conn));
}

#[test]
fn display_concatenates_description_and_cause() {
    let e = Error::Other(ErrorDetail {
        description: String::from("An HTTP transport error occurred"),
        cause: Some(String::from("connection refused")),
    });
    assert_eq!(e.description(), "An HTTP transport error occurred");
    assert_eq!(e.cause(), Some(&String::from("connection refused")));
    assert_eq!(
        e.display_string(),
        "An HTTP transport error occurred: connection refused"
    );
}

#[test]
fn display_without_cause_is_description_alone() {
    let e = Error::Other(ErrorDetail {
        description: String::from("The database already exists"),
        cause: None,
    });
    assert!(e.cause().is_none());
    assert_eq!(e.display_string(), "The database already exists");
}

#[test]
fn parse_failure_wraps_into_unified_error() {
    let native = url::Url::parse("not a url").unwrap_err();
    let e = Error::from_parse_error(&native);
    assert!(matches!(e, Error::Other(_)));
    assert!(e.cause().is_none());
    assert_eq!(e.description(), "relative URL without a base");
    assert_eq!(e.display_string(), e.description());

    let native = url::Url::parse("http://").unwrap_err();
    let e = Error::from_parse_error(&native);
    assert!(e.cause().is_none());
    assert_eq!(e.description(), "empty host");
    assert_eq!(e.display_string(), "empty host");
}

#[test]
fn empty_description_still_formats() {
    let e = Error::Other(ErrorDetail {
        description: String::new(),
        cause: Some(String::from("cause")),
    });
    assert_eq!(e.display_string(), ": cause");
    let bare = Error::Other(ErrorDetail {
        description: String::new(),
        cause: None,
    });
    assert_eq!(bare.display_string(), "");
}
