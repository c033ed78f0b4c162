//! The transport resolver: from a network identifier and the flat
//! parameters of a share link to the matching stream-settings payload, and
//! the mirror flattening used when a link is generated. The QUIC branch
//! reuses the flat `host` and `path` slots for its `security` and `key`
//! values; that reuse is part of the link format and is kept.

use vstd::prelude::*;
use vstd::string::StringExecFns;
use crate::schema::{
    HeaderPair, HttpObject, KcpHeaderObject, KcpObject, QUICObject, SockoptObject,
    StreamSettingsObject, TcpHeaderObject, TcpObject, WebSocketObject, opt_text,
    stream_discriminant_ok,
};
use crate::strutil::str_eq;

verus! {

/// Why a transport could not be resolved or flattened.
#[derive(Debug, Clone, Copy, PartialEq, Eq, Structural)]
pub enum TransportError {
    /// The network value names no transport the resolver knows.
    UnsupportedNetwork,
    /// An HTTP/2 transport needs a host and none was given.
    MissingHost,
    /// A QUIC transport needs a key in the path slot and none was given.
    MissingPath,
    /// The payload that the declared network activates is absent.
    MissingPayload,
    /// A TCP transport's subtype names no header framing the resolver
    /// knows.
    UnsupportedSubtype,
}

/// The socket-option block every resolved transport carries: mark zero,
/// the given fast-open flag, transparent proxying off.
pub open spec fn sockopt_resolved(ss: StreamSettingsObject, tfo: bool) -> bool {
    &&& ss.sockopt matches Some(so) && so.mark == 0 && so.tcp_fast_open == tfo && so.tproxy@
        == "off"@
}

/// What the resolver builds for the given flat parameters: the payload of
/// the declared network, exactly, and nothing else.
pub open spec fn resolved_stream(
    ss: StreamSettingsObject,
    network: Seq<char>,
    subtype: Seq<char>,
    host: Option<Seq<char>>,
    path: Option<Seq<char>>,
    tfo: bool,
) -> bool {
    &&& ss.network@ == network
    &&& ss.security is None
    &&& sockopt_resolved(ss, tfo)
    &&& ss.ds_settings is None
    &&& if network == "tcp"@ {
        &&& ss.kcp_settings is None
        &&& ss.ws_settings is None
        &&& ss.http_settings is None
        &&& ss.quic_settings is None
        &&& if subtype == "none"@ {
            ss.tcp_settings matches Some(t) && t.header matches TcpHeaderObject::NoneHeaderObject {
                tcp_type,
            } && tcp_type@ == "none"@
        } else if subtype == "http"@ {
            ss.tcp_settings matches Some(t) && t.header matches TcpHeaderObject::HttpHeaderObject {
                tcp_type,
                request,
                response,
            } && tcp_type@ == "http"@ && request is None && response is None
        } else {
            false
        }
    } else if network == "kcp"@ {
        &&& ss.tcp_settings is None
        &&& ss.ws_settings is None
        &&& ss.http_settings is None
        &&& ss.quic_settings is None
        &&& ss.kcp_settings matches Some(k) && k.header.kcp_type@ == subtype && k.mtu is None
            && k.tti is None && k.uplink_capacity is None && k.downlink_capacity is None
            && k.congestion is None && k.read_buffer_size is None && k.write_buffer_size is None
    } else if network == "ws"@ {
        &&& ss.tcp_settings is None
        &&& ss.kcp_settings is None
        &&& ss.http_settings is None
        &&& ss.quic_settings is None
        &&& ss.ws_settings matches Some(w) && opt_text(w.path) == path && w.headers is None
    } else if network == "http"@ {
        &&& ss.tcp_settings is None
        &&& ss.kcp_settings is None
        &&& ss.ws_settings is None
        &&& ss.quic_settings is None
        &&& host matches Some(h) && ss.http_settings matches Some(hs) && hs.host@.len() == 1
            && hs.host@[0]@ == h && opt_text(hs.path) == path
    } else if network == "quic"@ {
        &&& ss.tcp_settings is None
        &&& ss.kcp_settings is None
        &&& ss.ws_settings is None
        &&& ss.http_settings is None
        &&& host matches Some(h) && path matches Some(p) && ss.quic_settings matches Some(q)
            && q.security@ == h && q.key@ == p && q.header is None
    } else {
        false
    }
}

/// The flat parameter sets the resolver accepts.
pub open spec fn resolve_accepts(
    network: Seq<char>,
    subtype: Seq<char>,
    host: Option<Seq<char>>,
    path: Option<Seq<char>>,
) -> bool {
    ||| (network == "tcp"@ && (subtype == "none"@ || subtype == "http"@))
    ||| network == "kcp"@
    ||| network == "ws"@
    ||| (network == "http"@ && host is Some)
    ||| (network == "quic"@ && host is Some && path is Some)
}

/// The error the resolver reports for a rejected parameter set.
pub open spec fn resolve_err(
    network: Seq<char>,
    subtype: Seq<char>,
    host: Option<Seq<char>>,
    path: Option<Seq<char>>,
) -> TransportError {
    if network == "tcp"@ {
        TransportError::UnsupportedSubtype
    } else if network == "kcp"@ || network == "ws"@ || network == "http"@ || network == "quic"@ {
        if host is None {
            TransportError::MissingHost
        } else {
            TransportError::MissingPath
        }
    } else {
        TransportError::UnsupportedNetwork
    }
}

fn sockopt_block(tcp_fast_open: bool) -> (r: SockoptObject)
    ensures
        r.mark == 0,
        r.tcp_fast_open == tcp_fast_open,
        r.tproxy@ == "off"@,
{
    SockoptObject { mark: 0, tcp_fast_open, tproxy: String::from_str("off") }
}

/// Builds the transport payload matching `network` from the flat
/// parameters of a share link, together with the socket-option block.
/// Fails with `UnsupportedNetwork` on a network value outside
/// tcp/kcp/ws/http/quic, with `UnsupportedSubtype` on a TCP subtype
/// outside none/http, and with `MissingHost`/`MissingPath` when the http
/// or quic transports lack the slots they repurpose.
pub fn resolve_outbound_transport(
    network: &str,
    subtype: &str,
    host: &Option<String>,
    path: &Option<String>,
    tcp_fast_open: bool,
) -> (r: Result<StreamSettingsObject, TransportError>)
    ensures
        r matches Ok(ss) ==> resolved_stream(
            ss,
            network@,
            subtype@,
            opt_text(*host),
            opt_text(*path),
            tcp_fast_open,
        ),
        r is Ok <==> resolve_accepts(network@, subtype@, opt_text(*host), opt_text(*path)),
        r matches Err(e) ==> e == resolve_err(network@, subtype@, opt_text(*host), opt_text(*path)),
{
    let sockopt = Some(sockopt_block(tcp_fast_open));
    if str_eq(network, "tcp") {
        let header = if str_eq(subtype, "none") {
            TcpObject {
                header: TcpHeaderObject::NoneHeaderObject { tcp_type: String::from_str("none") },
            }
        } else if str_eq(subtype, "http") {
            TcpObject {
                header: TcpHeaderObject::HttpHeaderObject {
                    tcp_type: String::from_str("http"),
                    request: None,
                    response: None,
                },
            }
        } else {
            proof {
                reveal_strlit("tcp");
                reveal_strlit("kcp");
                reveal_strlit("ws");
                reveal_strlit("http");
                reveal_strlit("quic");
                assert("tcp"@.len() == 3 && "kcp"@.len() == 3 && "ws"@.len() == 2
                    && "http"@.len() == 4 && "quic"@.len() == 4);
                assert("tcp"@[0] == 't' && "kcp"@[0] == 'k');
            }
            return Err(TransportError::UnsupportedSubtype);
        };
        Ok(
            StreamSettingsObject {
                network: String::from_str("tcp"),
                security: None,
                tcp_settings: Some(header),
                kcp_settings: None,
                ws_settings: None,
                http_settings: None,
                ds_settings: None,
                quic_settings: None,
                sockopt,
            },
        )
    } else if str_eq(network, "kcp") {
        Ok(
            StreamSettingsObject {
                network: String::from_str("kcp"),
                security: None,
                tcp_settings: None,
                kcp_settings: Some(
                    KcpObject {
                        mtu: None,
                        tti: None,
                        uplink_capacity: None,
                        downlink_capacity: None,
                        congestion: None,
                        read_buffer_size: None,
                        write_buffer_size: None,
                        header: KcpHeaderObject { kcp_type: String::from_str(subtype) },
                    },
                ),
                ws_settings: None,
                http_settings: None,
                ds_settings: None,
                quic_settings: None,
                sockopt,
            },
        )
    } else if str_eq(network, "ws") {
        Ok(
            StreamSettingsObject {
                network: String::from_str("ws"),
                security: None,
                tcp_settings: None,
                kcp_settings: None,
                ws_settings: Some(WebSocketObject { path: path.clone(), headers: None }),
                http_settings: None,
                ds_settings: None,
                quic_settings: None,
                sockopt,
            },
        )
    } else if str_eq(network, "http") {
        match host {
            Some(h) => {
                let mut hosts: Vec<String> = Vec::new();
                hosts.push(h.clone());
                Ok(
                    StreamSettingsObject {
                        network: String::from_str("http"),
                        security: None,
                        tcp_settings: None,
                        kcp_settings: None,
                        ws_settings: None,
                        http_settings: Some(HttpObject { host: hosts, path: path.clone() }),
                        ds_settings: None,
                        quic_settings: None,
                        sockopt,
                    },
                )
            },
            None => Err(TransportError::MissingHost),
        }
    } else if str_eq(network, "quic") {
        match (host, path) {
            (Some(h), Some(p)) => Ok(
                StreamSettingsObject {
                    network: String::from_str("quic"),
                    security: None,
                    tcp_settings: None,
                    kcp_settings: None,
                    ws_settings: None,
                    http_settings: None,
                    ds_settings: None,
                    quic_settings: Some(
                        QUICObject { security: h.clone(), key: p.clone(), header: None },
                    ),
                    sockopt,
                },
            ),
            (None, _) => Err(TransportError::MissingHost),
            (Some(_), None) => Err(TransportError::MissingPath),
        }
    } else {
        Err(TransportError::UnsupportedNetwork)
    }
}

/// The discriminant invariant holds of everything the resolver builds:
/// exactly one transport payload is populated and it matches the
/// declared network.
pub proof fn lemma_resolver_discriminant(
    ss: StreamSettingsObject,
    network: Seq<char>,
    subtype: Seq<char>,
    host: Option<Seq<char>>,
    path: Option<Seq<char>>,
    tfo: bool,
)
    requires
        resolved_stream(ss, network, subtype, host, path, tfo),
    ensures
        stream_discriminant_ok(ss),
{
    reveal_strlit("tcp");
    reveal_strlit("kcp");
    reveal_strlit("ws");
    reveal_strlit("http");
    reveal_strlit("quic");
    reveal_strlit("domainsocket");
    assert("tcp"@.len() == 3 && "kcp"@.len() == 3 && "ws"@.len() == 2 && "http"@.len() == 4
        && "quic"@.len() == 4 && "domainsocket"@.len() == 12);
    assert("tcp"@[0] == 't' && "kcp"@[0] == 'k' && "http"@[0] == 'h' && "quic"@[0] == 'q');
}

/// The first value held under `name`, if the header list holds one.
pub open spec fn header_lookup(hs: Seq<HeaderPair>, name: Seq<char>) -> Option<Seq<char>>
    decreases hs.len(),
{
    if hs.len() == 0 {
        None
    } else if hs[0].name@ == name {
        Some(hs[0].value@)
    } else {
        header_lookup(hs.drop_first(), name)
    }
}

/// The host a WebSocket transport flattens to: its `Host` header when one
/// is set, the empty text otherwise.
pub open spec fn ws_host_of(headers: Option<Vec<HeaderPair>>) -> Seq<char> {
    match headers {
        Option::None => Seq::empty(),
        Some(hs) => match header_lookup(hs@, "Host"@) {
            Some(v) => v,
            Option::None => Seq::empty(),
        },
    }
}

/// The flat form of one transport: network and subtype identifiers and
/// the host and path slots of a share link.
#[derive(Debug, Clone)]
pub struct FlatTransport {
    pub net: String,
    pub subtype: String,
    pub host: Option<String>,
    pub path: Option<String>,
}

/// The link-side network identifier stream settings flatten to: `h2`
/// for the HTTP/2 transport, the network value itself otherwise.
pub open spec fn flat_net(ss: StreamSettingsObject) -> Seq<char> {
    if ss.network@ == "http"@ {
        "h2"@
    } else {
        ss.network@
    }
}

/// The link-side subtype stream settings flatten to. HTTP camouflage
/// headers degrade to subtype-only fidelity.
pub open spec fn flat_subtype(ss: StreamSettingsObject) -> Seq<char>
    recommends
        flatten_accepts(ss),
{
    let nw = ss.network@;
    if nw == "tcp"@ {
        match ss.tcp_settings {
            Some(t) => match t.header {
                TcpHeaderObject::NoneHeaderObject { .. } => "none"@,
                TcpHeaderObject::HttpHeaderObject { .. } => "http"@,
            },
            Option::None => "none"@,
        }
    } else if nw == "kcp"@ {
        match ss.kcp_settings {
            Some(k) => k.header.kcp_type@,
            Option::None => "none"@,
        }
    } else if nw == "quic"@ {
        match ss.quic_settings {
            Some(q) => q.security@,
            Option::None => "none"@,
        }
    } else {
        "none"@
    }
}

/// The link-side host slot stream settings flatten to: a request path
/// entry for TCP camouflage, the `Host` header for WebSocket, the first
/// host for HTTP/2, the security value for QUIC, the empty text elsewhere.
pub open spec fn flat_host(ss: StreamSettingsObject) -> Option<Seq<char>>
    recommends
        flatten_accepts(ss),
{
    let nw = ss.network@;
    if nw == "tcp"@ {
        match ss.tcp_settings {
            Some(t) => match t.header {
                TcpHeaderObject::NoneHeaderObject { .. } => Option::None,
                TcpHeaderObject::HttpHeaderObject { request, .. } => match request {
                    Some(rq) => if rq.path@.len() > 0 {
                        Some(rq.path@[0]@)
                    } else {
                        Option::None
                    },
                    Option::None => Option::None,
                },
            },
            Option::None => Option::None,
        }
    } else if nw == "ws"@ {
        match ss.ws_settings {
            Some(w) => Some(ws_host_of(w.headers)),
            Option::None => Option::None,
        }
    } else if nw == "http"@ {
        match ss.http_settings {
            Some(h) => if h.host@.len() > 0 {
                Some(h.host@[0]@)
            } else {
                Option::None
            },
            Option::None => Option::None,
        }
    } else if nw == "quic"@ {
        match ss.quic_settings {
            Some(q) => Some(q.security@),
            Option::None => Option::None,
        }
    } else {
        Some(Seq::<char>::empty())
    }
}

/// The link-side path slot stream settings flatten to: the WebSocket or
/// HTTP/2 path, the key for QUIC, nothing elsewhere.
pub open spec fn flat_path(ss: StreamSettingsObject) -> Option<Seq<char>>
    recommends
        flatten_accepts(ss),
{
    let nw = ss.network@;
    if nw == "ws"@ {
        match ss.ws_settings {
            Some(w) => opt_text(w.path),
            Option::None => Option::None,
        }
    } else if nw == "http"@ {
        match ss.http_settings {
            Some(h) => opt_text(h.path),
            Option::None => Option::None,
        }
    } else if nw == "quic"@ {
        match ss.quic_settings {
            Some(q) => Some(q.key@),
            Option::None => Option::None,
        }
    } else {
        Option::None
    }
}

/// The stream settings the flattening accepts: the declared network's
/// payload is present, and an HTTP/2 payload carries at least one host.
pub open spec fn flatten_accepts(ss: StreamSettingsObject) -> bool {
    let nw = ss.network@;
    if nw == "tcp"@ {
        ss.tcp_settings is Some
    } else if nw == "kcp"@ {
        ss.kcp_settings is Some
    } else if nw == "ws"@ {
        ss.ws_settings is Some
    } else if nw == "http"@ {
        ss.http_settings matches Some(h) && h.host@.len() > 0
    } else if nw == "quic"@ {
        ss.quic_settings is Some
    } else {
        true
    }
}

/// The error flattening reports for rejected stream settings.
pub open spec fn flatten_err(ss: StreamSettingsObject) -> TransportError {
    if ss.network@ == "http"@ && (ss.http_settings matches Some(h) && h.host@.len() == 0) {
        TransportError::MissingHost
    } else {
        TransportError::MissingPayload
    }
}

fn lookup_host(hs: &Vec<HeaderPair>) -> (r: Option<String>)
    ensures
        opt_text(r) == header_lookup(hs@, "Host"@),
{
    proof {
        assert(hs@.skip(0) =~= hs@);
    }
    let mut i: usize = 0;
    while i < hs.len()
        invariant
            i <= hs@.len(),
            header_lookup(hs@, "Host"@) == header_lookup(hs@.skip(i as int), "Host"@),
        decreases hs@.len() - i,
    {
        proof {
            assert(hs@.skip(i as int)[0] == hs@[i as int]);
            assert(hs@.skip(i as int).drop_first() =~= hs@.skip(i + 1));
        }
        if str_eq(hs[i].name.as_str(), "Host") {
            return Some(hs[i].value.clone());
        }
        i += 1;
    }
    None
}

/// Performs the mirror mapping of the resolver for encoding a link: from
/// stream settings back to the flat network, subtype, host and path slots.
/// Fails with `MissingPayload` when the declared network's payload is
/// absent, and with `MissingHost` on an HTTP/2 payload with no host.
pub fn flatten_outbound_transport(ss: &StreamSettingsObject) -> (r: Result<
    FlatTransport,
    TransportError,
>)
    ensures
        r matches Ok(ft) ==> ft.net@ == flat_net(*ss) && ft.subtype@ == flat_subtype(*ss)
            && opt_text(ft.host) == flat_host(*ss) && opt_text(ft.path) == flat_path(*ss),
        r is Ok <==> flatten_accepts(*ss),
        r matches Err(e) ==> e == flatten_err(*ss),
{
    proof {
        reveal_strlit("tcp");
        reveal_strlit("kcp");
        reveal_strlit("ws");
        reveal_strlit("http");
        reveal_strlit("quic");
        assert("tcp"@.len() == 3 && "kcp"@.len() == 3 && "ws"@.len() == 2 && "http"@.len() == 4
            && "quic"@.len() == 4);
        assert("tcp"@[0] == 't' && "kcp"@[0] == 'k' && "http"@[0] == 'h' && "quic"@[0] == 'q');
    }
    if str_eq(ss.network.as_str(), "tcp") {
        match &ss.tcp_settings {
            Some(t) => match &t.header {
                TcpHeaderObject::NoneHeaderObject { .. } => Ok(
                    FlatTransport {
                        net: String::from_str("tcp"),
                        subtype: String::from_str("none"),
                        host: None,
                        path: None,
                    },
                ),
                TcpHeaderObject::HttpHeaderObject { request, .. } => {
                    let host = match request {
                        Some(rq) => if rq.path.len() > 0 {
                            Some(rq.path[0].clone())
                        } else {
                            None
                        },
                        None => None,
                    };
                    Ok(
                        FlatTransport {
                            net: String::from_str("tcp"),
                            subtype: String::from_str("http"),
                            host,
                            path: None,
                        },
                    )
                },
            },
            None => Err(TransportError::MissingPayload),
        }
    } else if str_eq(ss.network.as_str(), "kcp") {
        match &ss.kcp_settings {
            Some(k) => Ok(
                FlatTransport {
                    net: String::from_str("kcp"),
                    subtype: k.header.kcp_type.clone(),
                    host: Some(String::new()),
                    path: None,
                },
            ),
            None => Err(TransportError::MissingPayload),
        }
    } else if str_eq(ss.network.as_str(), "ws") {
        match &ss.ws_settings {
            Some(w) => {
                let host = match &w.headers {
                    Some(hs) => match lookup_host(hs) {
                        Some(h) => h,
                        None => String::new(),
                    },
                    None => String::new(),
                };
                Ok(
                    FlatTransport {
                        net: String::from_str("ws"),
                        subtype: String::from_str("none"),
                        host: Some(host),
                        path: w.path.clone(),
                    },
                )
            },
            None => Err(TransportError::MissingPayload),
        }
    } else if str_eq(ss.network.as_str(), "http") {
        match &ss.http_settings {
            Some(h) => {
                if h.host.len() == 0 {
                    return Err(TransportError::MissingHost);
                }
                Ok(
                    FlatTransport {
                        net: String::from_str("h2"),
                        subtype: String::from_str("none"),
                        host: Some(h.host[0].clone()),
                        path: h.path.clone(),
                    },
                )
            },
            None => Err(TransportError::MissingPayload),
        }
    } else if str_eq(ss.network.as_str(), "quic") {
        match &ss.quic_settings {
            Some(q) => Ok(
                FlatTransport {
                    net: String::from_str("quic"),
                    subtype: q.security.clone(),
                    host: Some(q.security.clone()),
                    path: Some(q.key.clone()),
                },
            ),
            None => Err(TransportError::MissingPayload),
        }
    } else {
        Ok(
            FlatTransport {
                net: ss.network.clone(),
                subtype: String::from_str("none"),
                host: Some(String::new()),
                path: None,
            },
        )
    }
}

} // verus!
