use v2neko::schema::{
    default_network, validate_stream_settings, validate_ws_headers, HeaderPair, TcpHeaderObject,
    WebSocketObject,
};
use v2neko::transport::{
    flatten_outbound_transport, resolve_outbound_transport, TransportError,
};

#[test]
fn resolver_builds_exactly_one_matching_payload() {
    for (net, typ, host, path) in [
        ("tcp", "none", None, None),
        ("tcp", "http", None, None),
        ("kcp", "srtp", None, None),
        ("ws", "none", None, Some(String::from("/x"))),
        (
            "http",
            "none",
            Some(String::from("h.example")),
            Some(String::from("/p")),
        ),
        (
            "quic",
            "aes-128-gcm",
            Some(String::from("aes-128-gcm")),
            Some(String::from("key")),
        ),
    ] {
        let ss = resolve_outbound_transport(net, typ, &host, &path, true).unwrap();
        assert_eq!(ss.network, net);
        assert!(validate_stream_settings(&ss));
        let so = ss.sockopt.as_ref().unwrap();
        assert_eq!(so.mark, 0);
        assert!(so.tcp_fast_open);
        assert_eq!(so.tproxy, "off");
    }
}

#[test]
fn resolver_rejects_unknown_network() {
    let r = resolve_outbound_transport("grpc", "none", &None, &None, false);
    assert_eq!(r.unwrap_err(), TransportError::UnsupportedNetwork);
}

#[test]
fn resolver_rejects_unknown_tcp_subtype() {
    let r = resolve_outbound_transport("tcp", "xyz", &None, &None, false);
    assert_eq!(r.unwrap_err(), TransportError::UnsupportedSubtype);
}

#[test]
fn resolver_demands_http_host_and_quic_slots() {
    let r = resolve_outbound_transport("http", "none", &None, &None, false);
    assert_eq!(r.unwrap_err(), TransportError::MissingHost);
    let r = resolve_outbound_transport(
        "quic",
        "none",
        &Some(String::from("security")),
        &None,
        false,
    );
    assert_eq!(r.unwrap_err(), TransportError::MissingPath);
}

#[test]
fn flatten_mirrors_the_resolver() {
    let ss = resolve_outbound_transport(
        "http",
        "none",
        &Some(String::from("h.example")),
        &Some(String::from("/p")),
        false,
    )
    .unwrap();
    let ft = flatten_outbound_transport(&ss).unwrap();
    assert_eq!(ft.net, "h2");
    assert_eq!(ft.subtype, "none");
    assert_eq!(ft.host.as_deref(), Some("h.example"));
    assert_eq!(ft.path.as_deref(), Some("/p"));
    let tcp = resolve_outbound_transport("tcp", "http", &None, &None, false).unwrap();
    assert!(matches!(
        tcp.tcp_settings.as_ref().unwrap().header,
        TcpHeaderObject::HttpHeaderObject { .. }
    ));
    let ft = flatten_outbound_transport(&tcp).unwrap();
    assert_eq!(ft.net, "tcp");
    assert_eq!(ft.subtype, "http");
    assert!(ft.host.is_none());
}

#[test]
fn flatten_rejects_missing_payload() {
    let mut ss = resolve_outbound_transport("ws", "none", &None, &None, false).unwrap();
    ss.ws_settings = None;
    let r = flatten_outbound_transport(&ss);
    assert_eq!(r.unwrap_err(), TransportError::MissingPayload);
}

#[test]
fn default_network_is_tcp() {
    assert_eq!(default_network(), "tcp");
}

#[test]
fn ws_header_names_must_be_unique() {
    let pair = |name: &str, value: &str| HeaderPair {
        name: String::from(name),
        value: String::from(value),
    };
    let ok = WebSocketObject {
        path: Some(String::from("/")),
        headers: Some(vec![pair("Host", "h.example"), pair("Origin", "o.example")]),
    };
    assert!(validate_ws_headers(&ok));
    let dup = WebSocketObject {
        path: None,
        headers: Some(vec![pair("Host", "a"), pair("Origin", "o"), pair("Host", "b")]),
    };
    assert!(!validate_ws_headers(&dup));
    let none = WebSocketObject {
        path: None,
        headers: None,
    };
    assert!(validate_ws_headers(&none));
}
