//! What a connection attempt asks for: plain or TLS transport, the request
//! target, and the headers of the WebSocket upgrade request.
use vstd::prelude::*;

verus! {

/// The scheme of a remote endpoint's URL.
#[derive(PartialEq, Eq, Structural, Clone, Copy, Debug)]
pub enum Scheme {
    Http,
    Https,
    Ws,
    Wss,
    UnixSocket,
}

/// The parts of a parsed URL that a connection attempt reads.
pub struct RemoteEndpointParts {
    /// The scheme, where the URL names one.
    pub scheme: Option<Scheme>,
    /// `host[:port]` as the URL gives it.
    pub host_port: String,
    /// The path and query, where the URL has them.
    pub http_path_and_query: Option<String>,
}

/// Why a connection attempt did not lead to a connection.
#[derive(PartialEq, Eq, Structural, Clone, Copy, Debug)]
pub enum AttemptError {
    /// The URL could not be parsed.
    InvalidUrl,
    /// The URL names no scheme.
    MissingScheme,
    /// The URL names a Unix socket, which is not supported.
    UnixSocketUnsupported,
    /// Connecting, or the WebSocket handshake, failed.
    ConnectFailed,
}

/// What to connect to, and the upgrade request to send there.
pub struct ConnectPlan {
    /// Whether the transport is TLS.
    pub tls: bool,
    /// The request target of the upgrade request.
    pub path_and_query: String,
    /// The headers of the upgrade request, in order.
    pub headers: Vec<(String, String)>,
}

/// A header as a pair of character sequences.
pub open spec fn header_view(h: (String, String)) -> (Seq<char>, Seq<char>) {
    (h.0@, h.1@)
}

/// Whether a scheme is carried over TLS: `https` and `wss` are.
pub open spec fn spec_scheme_uses_tls(scheme: Scheme) -> bool {
    scheme == Scheme::Https || scheme == Scheme::Wss
}

/// Whether a scheme is carried over TLS: `https` and `wss` are.
pub fn scheme_uses_tls(scheme: Scheme) -> (res: bool)
    ensures
        res == spec_scheme_uses_tls(scheme),
{
    match scheme {
        Scheme::Http => false,
        Scheme::Https => true,
        Scheme::Ws => false,
        Scheme::Wss => true,
        Scheme::UnixSocket => false,
    }
}

/// The request target: the URL's path and query, or `/` where it has none.
pub open spec fn spec_request_target(path_and_query: Option<String>) -> Seq<char> {
    match path_and_query {
        Some(p) => p@,
        None => "/"@,
    }
}

/// The headers of the upgrade request, in the order they are sent.
pub open spec fn spec_upgrade_headers(host_port: Seq<char>, key: Seq<char>) -> Seq<(Seq<char>, Seq<char>)> {
    seq![
        ("Host"@, host_port),
        ("Upgrade"@, "websocket"@),
        ("Connection"@, "Upgrade"@),
        ("Sec-WebSocket-Key"@, key),
        ("Sec-WebSocket-Version"@, "13"@),
    ]
}

/// `plan` asks for the connection that `endpoint` and `key` call for.
pub open spec fn plan_matches(plan: ConnectPlan, endpoint: RemoteEndpointParts, scheme: Scheme, key: Seq<char>) -> bool {
    &&& plan.tls == spec_scheme_uses_tls(scheme)
    &&& plan.path_and_query@ == spec_request_target(endpoint.http_path_and_query)
    &&& plan.headers@.map_values(|h: (String, String)| header_view(h)) == spec_upgrade_headers(endpoint.host_port@, key)
}

/// The outcome of planning an attempt, as the contract of `plan_connection` states it.
pub open spec fn spec_plan_outcome(endpoint: Option<RemoteEndpointParts>, key: Seq<char>, res: Result<ConnectPlan, AttemptError>) -> bool {
    match endpoint {
        None => res == Err::<ConnectPlan, AttemptError>(AttemptError::InvalidUrl),
        Some(ep) => match ep.scheme {
            None => res == Err::<ConnectPlan, AttemptError>(AttemptError::MissingScheme),
            Some(Scheme::UnixSocket) => res == Err::<ConnectPlan, AttemptError>(AttemptError::UnixSocketUnsupported),
            Some(s) => res matches Ok(plan) && plan_matches(plan, ep, s, key),
        },
    }
}

/// Plans a connection attempt from the parsed URL (`None` where it did not
/// parse) and the `Sec-WebSocket-Key` to send: rejects a URL without a scheme
/// or with the Unix-socket scheme; otherwise picks TLS for `https`/`wss`, the
/// request target, and the upgrade request's headers.
pub fn plan_connection(endpoint: Option<RemoteEndpointParts>, key: &str) -> (res: Result<ConnectPlan, AttemptError>)
    ensures
        spec_plan_outcome(endpoint, key@, res),
{
    let ep = match endpoint {
        None => return Err(AttemptError::InvalidUrl),
        Some(ep) => ep,
    };
    let scheme = match ep.scheme {
        None => return Err(AttemptError::MissingScheme),
        Some(Scheme::UnixSocket) => return Err(AttemptError::UnixSocketUnsupported),
        Some(s) => s,
    };
    let tls = scheme_uses_tls(scheme);
    let path_and_query = match &ep.http_path_and_query {
        Some(p) => p.clone(),
        None => String::from_str("/"),
    };
    let mut headers: Vec<(String, String)> = Vec::new();
    headers.push((String::from_str("Host"), ep.host_port.clone()));
    headers.push((String::from_str("Upgrade"), String::from_str("websocket")));
    headers.push((String::from_str("Connection"), String::from_str("Upgrade")));
    headers.push((String::from_str("Sec-WebSocket-Key"), String::from_str(key)));
    headers.push((String::from_str("Sec-WebSocket-Version"), String::from_str("13")));
    let plan = ConnectPlan { tls, path_and_query, headers };
    assert(plan.headers@.map_values(|h: (String, String)| header_view(h)) =~= spec_upgrade_headers(ep.host_port@, key@));
    Ok(plan)
}

/// The URL starts with `wss`.
pub open spec fn spec_is_tls_url(url: Seq<char>) -> bool {
    url.len() >= 3 && url.take(3) == seq!['w', 's', 's']
}

/// Whether a URL is reached over TLS: it is when it starts with `wss`.
pub fn is_tls_url(url: &str) -> (res: bool)
    ensures
        res == spec_is_tls_url(url@),
{
    let n = url.unicode_len();
    if n < 3 {
        return false;
    }
    let res = url.get_char(0) == 'w' && url.get_char(1) == 's' && url.get_char(2) == 's';
    proof {
        if res {
            assert(url@.take(3) =~= seq!['w', 's', 's']);
        } else if url@.take(3) == seq!['w', 's', 's'] {
            assert(url@.take(3)[0] == 'w' && url@.take(3)[1] == 's' && url@.take(3)[2] == 's');
        }
    }
    res
}

/// The transport follows the scheme alone: `ws` and `http` are planned over
/// plain TCP, `wss` and `https` over TLS.
pub proof fn law_tls_follows_scheme(ep: RemoteEndpointParts, key: Seq<char>, res: Result<ConnectPlan, AttemptError>)
    requires
        spec_plan_outcome(Some(ep), key, res),
    ensures
        (ep.scheme == Some(Scheme::Ws) || ep.scheme == Some(Scheme::Http)) ==> (res matches Ok(p) && !p.tls),
        (ep.scheme == Some(Scheme::Wss) || ep.scheme == Some(Scheme::Https)) ==> (res matches Ok(p) && p.tls),
{
}

/// Whatever the accepted scheme, the request target is the URL's path and
/// query when it has one and `/` otherwise; the `Host` header carries the
/// URL's `host[:port]` and the `Sec-WebSocket-Key` header the given key,
/// among the fixed `Upgrade`, `Connection` and `Sec-WebSocket-Version: 13`.
pub proof fn law_request_target_and_headers(ep: RemoteEndpointParts, key: Seq<char>, res: Result<ConnectPlan, AttemptError>)
    requires
        spec_plan_outcome(Some(ep), key, res),
        ep.scheme is Some,
        ep.scheme != Some(Scheme::UnixSocket),
    ensures
        res matches Ok(p) && p.path_and_query@ == (match ep.http_path_and_query {
            Some(path) => path@,
            None => "/"@,
        }),
        res matches Ok(p) && p.headers@.len() == 5 && p.headers@[0].0@ == "Host"@ && p.headers@[0].1@
            == ep.host_port@ && p.headers@[1].0@ == "Upgrade"@ && p.headers@[1].1@ == "websocket"@
            && p.headers@[2].0@ == "Connection"@ && p.headers@[2].1@ == "Upgrade"@
            && p.headers@[3].0@ == "Sec-WebSocket-Key"@ && p.headers@[3].1@ == key
            && p.headers@[4].0@ == "Sec-WebSocket-Version"@ && p.headers@[4].1@ == "13"@,
{
    if let Ok(p) = res {
        let m = p.headers@.map_values(|h: (String, String)| header_view(h));
        assert(m == spec_upgrade_headers(ep.host_port@, key));
        assert(m.len() == 5);
        assert(p.headers@.len() == 5);
        assert(m[0] == header_view(p.headers@[0]));
        assert(m[1] == header_view(p.headers@[1]));
        assert(m[2] == header_view(p.headers@[2]));
        assert(m[3] == header_view(p.headers@[3]));
        assert(m[4] == header_view(p.headers@[4]));
    }
}

/// A URL that did not parse, names no scheme, or names a Unix socket is refused
/// with that reason.
pub proof fn law_refusals(ep: RemoteEndpointParts, key: Seq<char>, res: Result<ConnectPlan, AttemptError>, res0: Result<ConnectPlan, AttemptError>)
    requires
        spec_plan_outcome(Some(ep), key, res),
        spec_plan_outcome(None, key, res0),
    ensures
        res0 == Err::<ConnectPlan, AttemptError>(AttemptError::InvalidUrl),
        ep.scheme is None ==> res == Err::<ConnectPlan, AttemptError>(AttemptError::MissingScheme),
        ep.scheme == Some(Scheme::UnixSocket) ==> res == Err::<ConnectPlan, AttemptError>(AttemptError::UnixSocketUnsupported),
{
}

} // verus!
