use oracledb_rs::auth::{AuthMethod, AuthProtocol, Authenticator};
use oracledb_rs::protocol::{Protocol, SessionState};
use oracledb_rs::{ConnectionConfig, Error};

#[test]
fn test_detect_auth_method() {
    let config = ConnectionConfig::new("localhost/XE", "user", "pass");
    let auth = Authenticator::new(&config);
    assert_eq!(auth.detect_auth_method(), AuthMethod::Password);

    let config = ConnectionConfig::new("localhost/XE", "", "");
    let auth = Authenticator::new(&config);
    assert_eq!(auth.detect_auth_method(), AuthMethod::External);

    let config = ConnectionConfig::new("localhost/XE", "user", "TOKEN:abc123");
    let auth = Authenticator::new(&config);
    assert_eq!(auth.detect_auth_method(), AuthMethod::Token);
}

#[test]
fn test_password_hashing() {
    let config = ConnectionConfig::new("localhost/XE", "user", "password");
    let auth = Authenticator::new(&config);

    let hash1 = auth.hash_password("password", b"salt1");
    let hash2 = auth.hash_password("password", b"salt2");
    let hash3 = auth.hash_password("password", b"salt1");

    assert_ne!(hash1, hash2);
    assert_eq!(hash1, hash3);
}

#[test]
fn password_hash_is_sha256_of_password_then_salt() {
    let config = ConnectionConfig::new("localhost/XE", "user", "password");
    let auth = Authenticator::new(&config);
    let digest = auth.hash_password("password", b"salt1");
    let expected: Vec<u8> = vec![
        181, 75, 178, 148, 19, 5, 82, 232, 2, 16, 9, 126, 215, 42, 194, 100, 3, 251, 131, 110,
        157, 67, 97, 222, 65, 103, 202, 133, 65, 235, 225, 232,
    ];
    assert_eq!(digest, expected);
    assert_ne!(digest, b"passwordsalt1".to_vec());
}

#[test]
fn auth_method_examples() {
    let method = |user: &str, password: &str| {
        Authenticator::new(&ConnectionConfig::new("localhost/XE", user, password))
            .detect_auth_method()
    };
    assert_eq!(method("hr", "hr_password"), AuthMethod::Password);
    assert_eq!(method("", ""), AuthMethod::External);
    assert_eq!(method("hr", "TOKEN:abc123"), AuthMethod::Token);
    assert_eq!(method("hr", "TOKEN:"), AuthMethod::Token);
    // Only both empty is external; the marker is case-sensitive and must lead.
    assert_eq!(method("hr", ""), AuthMethod::Password);
    assert_eq!(method("", "secret"), AuthMethod::Password);
    assert_eq!(method("", "TOKEN:x"), AuthMethod::Token);
    assert_eq!(method("hr", "token:abc"), AuthMethod::Password);
    assert_eq!(method("hr", " TOKEN:abc"), AuthMethod::Password);
    assert_eq!(method("hr", "TOKEN"), AuthMethod::Password);
}

#[test]
fn empty_token_is_an_authentication_error() {
    let config = ConnectionConfig::new("localhost/XE", "hr", "TOKEN:");
    let mut protocol = Protocol::new(&config).unwrap();
    let auth = Authenticator::new(&config);
    match auth.authenticate(&mut protocol) {
        Err(Error::AuthenticationFailed(message)) => assert_eq!(message, "Empty token"),
        other => panic!("unexpected outcome: {:?}", other),
    }
    assert_eq!(protocol.state(), SessionState::Disconnected);
    assert_eq!(protocol.session_id(), None);
}

#[test]
fn each_method_logs_on() {
    for (user, password) in [("hr", "hr_password"), ("", ""), ("hr", "TOKEN:abc123")] {
        let config = ConnectionConfig::new("localhost/XE", user, password);
        let mut protocol = Protocol::new(&config).unwrap();
        assert_eq!(protocol.state(), SessionState::Authenticating);
        let auth = Authenticator::new(&config);
        assert!(auth.authenticate(&mut protocol).is_ok());
        assert_eq!(protocol.state(), SessionState::Ready);
        assert_eq!(protocol.session_id(), Some(12345));
    }
}

#[test]
fn authenticate_on_a_closed_session_is_refused() {
    let config = ConnectionConfig::new("localhost/XE", "hr", "hr_password");
    let mut protocol = Protocol::new(&config).unwrap();
    protocol.close().unwrap();
    let auth = Authenticator::new(&config);
    assert!(matches!(auth.authenticate(&mut protocol), Err(Error::ConnectionClosed)));
    assert_eq!(protocol.state(), SessionState::Closed);
}

#[test]
fn auth_protocols_are_distinct() {
    assert_ne!(AuthProtocol::O5Logon, AuthProtocol::O3Logon);
    assert_ne!(AuthProtocol::External, AuthProtocol::Token);
}
