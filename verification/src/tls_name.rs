//! The TLS server name that a `wss` URL is connected under.
use vstd::prelude::*;
use crate::host_port::{
    contains_pattern, extract_host_port, extract_server_name, host_port_of, scheme_separator,
    server_name_of,
};

verus! {

/// Whether rustls accepts `name` as a TLS server name: a valid DNS name or an
/// IP address.
pub uninterp spec fn spec_valid_server_name(name: Seq<char>) -> bool;

/// Calls rustls' `ServerName::try_from` on `name` (through `tokio_rustls`'s
/// re-export of `rustls_pki_types`) and says whether it was accepted. The
/// contract only names the answer: it depends on `name` alone; the rules it
/// follows (DNS-name syntax, IPv4/IPv6 address syntax) are not restated.
#[verifier::external_body]
fn valid_server_name(name: &str) -> (res: bool)
    ensures
        res == spec_valid_server_name(name@),
{
    tokio_rustls::rustls::pki_types::ServerName::try_from(name).is_ok()
}

/// The server name of a URL (what precedes the first `:` of its `host[:port]`)
/// when rustls accepts it as a TLS server name, `None` when it does not.
pub fn tls_server_name(url: &str) -> (res: Option<&str>)
    requires
        contains_pattern(url@, scheme_separator()),
    ensures
        res is Some <==> spec_valid_server_name(server_name_of(host_port_of(url@))),
        res matches Some(n) ==> n@ == server_name_of(host_port_of(url@)),
{
    let host_port = extract_host_port(url);
    server_name_if_valid(host_port)
}

/// The server name of a `host[:port]` when rustls accepts it as a TLS server
/// name, `None` when it does not.
pub fn server_name_if_valid(host_port: &str) -> (res: Option<&str>)
    ensures
        res is Some <==> spec_valid_server_name(server_name_of(host_port@)),
        res matches Some(n) ==> n@ == server_name_of(host_port@),
{
    checked_server_name(extract_server_name(host_port))
}

/// `name` itself when rustls accepts it as a TLS server name, `None` when it
/// does not.
pub fn checked_server_name(name: &str) -> (res: Option<&str>)
    ensures
        res is Some <==> spec_valid_server_name(name@),
        res matches Some(n) ==> n@ == name@,
{
    if valid_server_name(name) {
        Some(name)
    } else {
        None
    }
}

} // verus!
