use my_web_socket_client::tls_name::{checked_server_name, server_name_if_valid, tls_server_name};

#[test]
fn tls_server_name_of_dns_url() {
    assert_eq!(tls_server_name("wss://www.google.com:443/x"), Some("www.google.com"));
    assert_eq!(tls_server_name("wss://example.org"), Some("example.org"));
}

#[test]
fn tls_server_name_of_ip_url() {
    assert_eq!(tls_server_name("wss://127.0.0.1:8443"), Some("127.0.0.1"));
}

#[test]
fn tls_server_name_refused() {
    assert_eq!(tls_server_name("wss://:443"), None);
    assert_eq!(tls_server_name("wss://bad_name!:443"), None);
    assert_eq!(server_name_if_valid(""), None);
}

#[test]
fn checked_server_name_returns_the_name() {
    assert_eq!(checked_server_name("api.example.com"), Some("api.example.com"));
    assert_eq!(checked_server_name("exa mple.com"), None);
}
