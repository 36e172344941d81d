use my_web_socket_client::endpoint::{
    is_tls_url, plan_connection, scheme_uses_tls, AttemptError, RemoteEndpointParts, Scheme,
};

fn parts(scheme: Option<Scheme>, host_port: &str, path: Option<&str>) -> RemoteEndpointParts {
    RemoteEndpointParts {
        scheme,
        host_port: host_port.to_string(),
        http_path_and_query: path.map(|p| p.to_string()),
    }
}

fn pair(a: &str, b: &str) -> (String, String) {
    (a.to_string(), b.to_string())
}

#[test]
fn plan_for_wss_uses_tls_and_upgrade_headers() {
    let plan = plan_connection(
        Some(parts(Some(Scheme::Wss), "example.org:443", Some("/feed?x=1"))),
        "dGhlIHNhbXBsZSBub25jZQ==",
    )
    .unwrap();
    assert!(plan.tls);
    assert_eq!(plan.path_and_query, "/feed?x=1");
    assert_eq!(
        plan.headers,
        vec![
            pair("Host", "example.org:443"),
            pair("Upgrade", "websocket"),
            pair("Connection", "Upgrade"),
            pair("Sec-WebSocket-Key", "dGhlIHNhbXBsZSBub25jZQ=="),
            pair("Sec-WebSocket-Version", "13"),
        ]
    );
}

#[test]
fn plan_without_path_targets_root() {
    let plan = plan_connection(Some(parts(Some(Scheme::Ws), "localhost:8080", None)), "k").unwrap();
    assert!(!plan.tls);
    assert_eq!(plan.path_and_query, "/");
    assert_eq!(plan.headers[0], pair("Host", "localhost:8080"));
    assert_eq!(plan.headers[3], pair("Sec-WebSocket-Key", "k"));
}

#[test]
fn plan_tls_follows_scheme() {
    for (scheme, tls) in [
        (Scheme::Http, false),
        (Scheme::Https, true),
        (Scheme::Ws, false),
        (Scheme::Wss, true),
    ] {
        let plan = plan_connection(Some(parts(Some(scheme), "h", None)), "k").unwrap();
        assert_eq!(plan.tls, tls);
        assert_eq!(scheme_uses_tls(scheme), tls);
    }
}

#[test]
fn plan_rejects_unparsed_url() {
    assert_eq!(plan_connection(None, "k").err(), Some(AttemptError::InvalidUrl));
}

#[test]
fn plan_rejects_missing_scheme() {
    assert_eq!(
        plan_connection(Some(parts(None, "h", None)), "k").err(),
        Some(AttemptError::MissingScheme)
    );
}

#[test]
fn plan_rejects_unix_socket() {
    assert_eq!(
        plan_connection(Some(parts(Some(Scheme::UnixSocket), "h", None)), "k").err(),
        Some(AttemptError::UnixSocketUnsupported)
    );
}

#[test]
fn tls_url_starts_with_wss() {
    assert!(is_tls_url("wss://a"));
    assert!(is_tls_url("wss"));
    assert!(!is_tls_url("ws://a"));
    assert!(!is_tls_url("https://a"));
    assert!(!is_tls_url("ws"));
    assert!(!is_tls_url(""));
}
