use my_web_socket_client::host_port::{extract_host_port, extract_server_name};

#[test]
fn test_no_path() {
    let src = "wss://www.google.com";

    let result = extract_host_port(src);

    assert_eq!(result, "www.google.com");
}

#[test]
fn test_with_path() {
    let src = "wss://www.google.com/my";

    let result = extract_host_port(src);

    assert_eq!(result, "www.google.com");
}

#[test]
fn test_with_port() {
    let src = "wss://www.google.com:443";

    let result = extract_host_port(src);

    assert_eq!(result, "www.google.com:443");
}

#[test]
fn host_port_stops_at_first_slash_after_scheme() {
    assert_eq!(extract_host_port("ws://host:8080/a/b?c=d"), "host:8080");
    assert_eq!(extract_host_port("http://a/b://c/d"), "a");
}

#[test]
fn host_port_takes_first_scheme_separator() {
    assert_eq!(extract_host_port("x://y://z"), "y:");
}

#[test]
fn host_port_may_be_empty() {
    assert_eq!(extract_host_port("wss://"), "");
    assert_eq!(extract_host_port("wss:///path"), "");
}

#[test]
fn host_port_with_non_ascii_host() {
    assert_eq!(extract_host_port("wss://bücher.de:443/x"), "bücher.de:443");
}

#[test]
fn server_name_drops_port() {
    assert_eq!(extract_server_name("www.google.com:443"), "www.google.com");
    assert_eq!(extract_server_name("a:b:c"), "a");
}

#[test]
fn server_name_without_port_is_whole() {
    assert_eq!(extract_server_name("www.google.com"), "www.google.com");
    assert_eq!(extract_server_name(""), "");
}

#[test]
fn server_name_of_host_port_chain() {
    let host_port = extract_host_port("wss://example.org:9443/stream");
    assert_eq!(extract_server_name(host_port), "example.org");
    assert!(!extract_server_name(host_port).contains(':'));
    assert!(!host_port.contains('/'));
}
