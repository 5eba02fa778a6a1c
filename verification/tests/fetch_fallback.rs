use launcher_core::errors::NetworkError;
use launcher_core::fetch::{
    manifest_url, transport_for_download, FetchSession, FetchState, Transport,
};

const GOOD_BODY: &str = "{\"currentGameVersion\": \"1.4.0\"}";

#[test]
fn manifest_urls() {
    assert_eq!(manifest_url(true), "https://bymrefitted.com/launcher/manifest");
    assert_eq!(manifest_url(false), "http://bymrefitted.com/launcher/manifest");
}

#[test]
fn secure_success_never_consults_fallback() {
    let mut session = FetchSession::new();

    // Exactly one request is pending, over the secure transport.
    let (transport, url) = session.current_request().unwrap();
    assert_eq!(transport, Transport::Secure);
    assert_eq!(url, "https://bymrefitted.com/launcher/manifest");

    session.on_response(Ok(String::from(GOOD_BODY)));

    // The session is finished: no second request is ever issued.
    assert!(session.current_request().is_none());
    let manifest = session.take_result().unwrap();
    assert_eq!(manifest.current_game_version, "1.4.0");
    assert!(manifest.transport_secure);
}

#[test]
fn secure_transport_failure_falls_back_insecure_succeeds() {
    for failure in [
        NetworkError::Timeout,
        NetworkError::ConnectionRefused,
        NetworkError::TlsFailure,
        NetworkError::HttpStatus(503),
    ] {
        let mut session = FetchSession::new();
        session.on_response(Err(failure));

        // Exactly one retry, over the insecure transport.
        let (transport, url) = session.current_request().unwrap();
        assert_eq!(transport, Transport::Insecure);
        assert_eq!(url, "http://bymrefitted.com/launcher/manifest");

        session.on_response(Ok(String::from(GOOD_BODY)));
        assert!(session.current_request().is_none());
        let manifest = session.take_result().unwrap();
        assert_eq!(manifest.current_game_version, "1.4.0");
        assert!(!manifest.transport_secure);
    }
}

#[test]
fn secure_malformed_body_counts_as_failure() {
    let mut session = FetchSession::new();
    session.on_response(Ok(String::from("<html>maintenance</html>")));
    assert!(matches!(session.state, FetchState::TryInsecure));

    session.on_response(Ok(String::from(GOOD_BODY)));
    let manifest = session.take_result().unwrap();
    assert!(!manifest.transport_secure);
}

#[test]
fn both_fail_reports_last_failure_and_degrades() {
    let mut session = FetchSession::new();
    session.on_response(Err(NetworkError::TlsFailure));
    session.on_response(Err(NetworkError::ConnectionRefused));
    assert!(session.current_request().is_none());

    let result = session.take_result();
    assert_eq!(result.unwrap_err(), NetworkError::ConnectionRefused);

    // The session proceeds without a manifest; the later download
    // must use the insecure transport.
    let result = Err(NetworkError::ConnectionRefused);
    assert!(!transport_for_download(&result));
}

#[test]
fn both_malformed_reports_malformed_body() {
    let mut session = FetchSession::new();
    session.on_response(Ok(String::from("not json")));
    session.on_response(Ok(String::from("also not json")));
    assert_eq!(session.take_result().unwrap_err(), NetworkError::MalformedBody);
}

#[test]
fn transport_for_download_follows_negotiation() {
    let mut session = FetchSession::new();
    session.on_response(Ok(String::from(GOOD_BODY)));
    let secure = session.take_result();
    assert!(transport_for_download(&secure));

    let mut session = FetchSession::new();
    session.on_response(Err(NetworkError::Timeout));
    session.on_response(Ok(String::from(GOOD_BODY)));
    let degraded = session.take_result();
    assert!(!transport_for_download(&degraded));
}

#[test]
fn error_descriptions_are_nonempty() {
    for e in [
        NetworkError::Timeout,
        NetworkError::ConnectionRefused,
        NetworkError::TlsFailure,
        NetworkError::HttpStatus(500),
        NetworkError::MalformedBody,
    ] {
        assert!(!e.describe().is_empty());
    }
}
