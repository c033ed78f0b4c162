//! The engine configuration document model: inbound listeners, outbound
//! entries with their transport stream settings, policy, routing, and the
//! flattened share-link descriptor. Field names and nesting are a wire
//! contract with the engine and mirror its document exactly.

use vstd::prelude::*;
use vstd::string::StringExecFns;
use crate::strutil::str_eq;

verus! {

/// Logging section of the document.
#[derive(Debug, Clone)]
pub struct LogObject {
    pub log_level: String,
}

/// The engine's API service block.
#[derive(Debug, Clone)]
pub struct ApiObject {
    pub tag: String,
    pub services: Vec<String>,
}

/// DNS resolver list.
#[derive(Debug, Clone)]
pub struct DnsObject {
    pub server: Vec<String>,
}

/// Traffic-sniffing flags of an inbound listener.
#[derive(Debug, Clone)]
pub struct SniffingObject {
    pub dest_override: Vec<String>,
    pub enabled: bool,
}

/// Credentials of an HTTP inbound account.
#[derive(Debug, Clone)]
pub struct HttpUserObject {
    pub user: String,
    pub pass: String,
}

/// Protocol-specific settings of an inbound listener.
#[derive(Debug, Clone)]
pub enum InboundConfigurationObject {
    Socks {
        auth: String,
        udp: bool,
        ip: String,
        user_level: i32,
    },
    Http {
        timeout: Option<i32>,
        accounts: Option<HttpUserObject>,
        allow_transparent: bool,
        level: Option<i32>,
    },
}

/// One local listener the engine exposes.
#[derive(Debug, Clone)]
pub struct InboundObject {
    pub port: i32,
    pub listen: String,
    pub protocol: String,
    pub settings: InboundConfigurationObject,
    pub tag: String,
    pub sniffing: SniffingObject,
}

/// Multiplexing settings of an outbound.
#[derive(Debug, Clone)]
pub struct MuxObject {
    pub enabled: Option<bool>,
    pub concurrency: Option<i32>,
}

/// Dispatch of an outbound through another outbound.
#[derive(Debug, Clone)]
pub struct ProxySettingsObject {
    pub tag: String,
}

/// One user credential of a vmess server: identity, legacy alter-id and
/// cipher name.
#[derive(Debug, Clone)]
pub struct UserObject {
    pub id: String,
    pub alter_id: Option<i32>,
    pub level: Option<i32>,
    pub security: String,
}

/// One vmess upstream server with its user credentials.
#[derive(Debug, Clone)]
pub struct VmessServerObject {
    pub address: String,
    pub port: i32,
    pub users: Vec<UserObject>,
}

/// Protocol-specific settings of an outbound.
#[derive(Debug, Clone)]
pub enum OutboundConfigurationObject {
    Vmess { vnext: Vec<VmessServerObject> },
}

/// QUIC transport settings; `security` and `key` mirror the share-link
/// descriptor's `host` and `path` slots.
#[derive(Debug, Clone)]
pub struct QUICObject {
    pub security: String,
    pub key: String,
    pub header: Option<QUICHeaderObject>,
}

/// Framing header of the QUIC transport.
#[derive(Debug, Clone)]
pub struct QUICHeaderObject {
    pub quic_type: String,
}

/// Domain-socket transport settings.
#[derive(Debug, Clone)]
pub struct DomainSocketObject {
    pub path: String,
}

/// HTTP/2 transport settings.
#[derive(Debug, Clone)]
pub struct HttpObject {
    pub host: Vec<String>,
    pub path: Option<String>,
}

/// One name-value header of the WebSocket transport.
#[derive(Debug, Clone)]
pub struct HeaderPair {
    pub name: String,
    pub value: String,
}

/// WebSocket transport settings. The header list stands for a JSON
/// object and is meant to hold each name once (`header_names_unique`).
#[derive(Debug, Clone)]
pub struct WebSocketObject {
    pub path: Option<String>,
    pub headers: Option<Vec<HeaderPair>>,
}

/// Framing header of the KCP transport.
#[derive(Debug, Clone)]
pub struct KcpHeaderObject {
    pub kcp_type: String,
}

/// KCP transport settings; absent sizing fields fall back to the engine's
/// own defaults.
#[derive(Debug, Clone)]
pub struct KcpObject {
    pub mtu: Option<i32>,
    pub tti: Option<i32>,
    pub uplink_capacity: Option<i32>,
    pub downlink_capacity: Option<i32>,
    pub congestion: Option<bool>,
    pub read_buffer_size: Option<i32>,
    pub write_buffer_size: Option<i32>,
    pub header: KcpHeaderObject,
}

/// One name with its list of values, for HTTP camouflage headers.
#[derive(Debug, Clone)]
pub struct HeaderValues {
    pub name: String,
    pub values: Vec<String>,
}

/// A full HTTP request used for TCP camouflage. The header list stands
/// for a JSON object and is meant to hold each name once
/// (`header_value_names_unique`).
#[derive(Debug, Clone)]
pub struct HTTPRequestObject {
    pub version: String,
    pub method: String,
    pub path: Vec<String>,
    pub headers: Vec<HeaderValues>,
}

/// A full HTTP response used for TCP camouflage. The header list stands
/// for a JSON object and is meant to hold each name once
/// (`header_value_names_unique`).
#[derive(Debug, Clone)]
pub struct HTTPResponseObject {
    pub version: String,
    pub status: String,
    pub reason: String,
    pub headers: Vec<HeaderValues>,
}

/// Framing header of the TCP transport: plain, or HTTP camouflage.
#[derive(Debug, Clone)]
pub enum TcpHeaderObject {
    NoneHeaderObject {
        tcp_type: String,
    },
    HttpHeaderObject {
        tcp_type: String,
        request: Option<HTTPRequestObject>,
        response: Option<HTTPResponseObject>,
    },
}

/// TCP transport settings.
#[derive(Debug, Clone)]
pub struct TcpObject {
    pub header: TcpHeaderObject,
}

/// Socket options attached to every resolved transport.
#[derive(Debug, Clone)]
pub struct SockoptObject {
    pub mark: i32,
    pub tcp_fast_open: bool,
    pub tproxy: String,
}

/// Transport-layer stream settings, discriminated by `network`: at most one
/// of the transport payloads is populated and it matches the declared
/// network value.
#[derive(Debug, Clone)]
pub struct StreamSettingsObject {
    pub network: String,
    pub security: Option<String>,
    pub tcp_settings: Option<TcpObject>,
    pub kcp_settings: Option<KcpObject>,
    pub ws_settings: Option<WebSocketObject>,
    pub http_settings: Option<HttpObject>,
    pub ds_settings: Option<DomainSocketObject>,
    pub quic_settings: Option<QUICObject>,
    pub sockopt: Option<SockoptObject>,
}

/// One upstream endpoint the engine may route traffic through.
#[derive(Debug, Clone)]
pub struct OutboundObject {
    pub send_through: Option<String>,
    pub protocol: String,
    pub settings: OutboundConfigurationObject,
    pub tag: String,
    pub stream_settings: StreamSettingsObject,
    pub proxy_settings: Option<ProxySettingsObject>,
    pub mux: MuxObject,
}

/// The ordered outbound list of a document.
#[derive(Debug, Clone)]
pub struct Outbounds {
    pub outbounds: Vec<OutboundObject>,
}

/// Statistics toggles of the policy block.
#[derive(Debug, Clone)]
pub struct SystemPolicyObject {
    pub stats_inbound_uplink: bool,
    pub stats_inbound_downlink: bool,
    pub stats_outbound_uplink: bool,
    pub stats_outbound_downlink: bool,
}

/// Policy block of the document.
#[derive(Debug, Clone)]
pub struct PolicyObject {
    pub system: SystemPolicyObject,
}

/// One routing rule: first-match dispatch from inbound tags to an outbound
/// tag.
#[derive(Debug, Clone)]
pub struct RuleObject {
    pub rule_type: String,
    pub inbound_tag: Vec<String>,
    pub outbound_tag: String,
}

/// Routing block of the document.
#[derive(Debug, Clone)]
pub struct RoutingObject {
    pub domain_strategy: String,
    pub domain_matcher: String,
    pub rules: Vec<RuleObject>,
}

/// Empty statistics placeholder the engine's schema requires.
#[derive(Debug, Clone)]
pub struct StatsObject {}

/// The complete engine configuration document.
#[derive(Debug, Clone)]
pub struct ConfigJson {
    pub log: LogObject,
    pub api: ApiObject,
    pub dns: DnsObject,
    pub inbounds: Vec<InboundObject>,
    pub outbound: Vec<OutboundObject>,
    pub policy: PolicyObject,
    pub routing: RoutingObject,
    pub stats: StatsObject,
}

/// The flattened, Base64-JSON-encoded form of one outbound plus a profile
/// name, as exchanged in `vmess://` share links.
#[derive(Debug, Clone)]
pub struct Base64LinkObject {
    pub v: String,
    pub ps: String,
    pub add: String,
    pub port: i32,
    pub id: String,
    pub aid: i32,
    pub scy: Option<String>,
    pub net: String,
    pub base64_type: String,
    pub host: Option<String>,
    pub path: Option<String>,
    pub tls: String,
    pub sni: Option<String>,
}

/// The network value assumed when a document leaves it out.
pub fn default_network() -> (r: String)
    ensures
        r@ == "tcp"@,
{
    String::from_str("tcp")
}

/// The names of a header list are pairwise distinct. The list stands for
/// a JSON object of the engine's document, and an object holds each name
/// once.
pub open spec fn header_names_unique(hs: Seq<HeaderPair>) -> bool {
    forall|i: int, j: int| 0 <= i < j < hs.len() ==> hs[i].name@ != hs[j].name@
}

/// The names of a header-values list are pairwise distinct, for the same
/// reason.
pub open spec fn header_value_names_unique(hs: Seq<HeaderValues>) -> bool {
    forall|i: int, j: int| 0 <= i < j < hs.len() ==> hs[i].name@ != hs[j].name@
}

/// Decides whether a WebSocket transport's header list, if any, holds
/// each name once.
#[verifier::loop_isolation(false)]
pub fn validate_ws_headers(w: &WebSocketObject) -> (r: bool)
    ensures
        r == (match w.headers {
            Some(hs) => header_names_unique(hs@),
            Option::None => true,
        }),
{
    match &w.headers {
        None => true,
        Some(hs) => {
            let mut i: usize = 0;
            while i < hs.len()
                invariant
                    i <= hs@.len(),
                    forall|a: int, b: int| 0 <= a < b < hs@.len() && a < i ==> hs@[a].name@
                        != hs@[b].name@,
                decreases hs@.len() - i,
            {
                let mut j: usize = i + 1;
                while j < hs.len()
                    invariant
                        i < j,
                        j <= hs@.len() || j == i + 1,
                        forall|b: int| i < b < j ==> hs@[i as int].name@ != hs@[b].name@,
                    decreases hs@.len() - j,
                {
                    if str_eq(hs[i].name.as_str(), hs[j].name.as_str()) {
                        return false;
                    }
                    j += 1;
                }
                i += 1;
            }
            true
        },
    }
}

/// The text an optional string holds, if any.
pub open spec fn opt_text(x: Option<String>) -> Option<Seq<char>> {
    match x {
        Some(s) => Some(s@),
        Option::None => Option::None,
    }
}

/// How many transport payloads of `s` are populated.
pub open spec fn payload_count(s: StreamSettingsObject) -> int {
    (if s.tcp_settings is Some { 1int } else { 0int })
        + (if s.kcp_settings is Some { 1int } else { 0int })
        + (if s.ws_settings is Some { 1int } else { 0int })
        + (if s.http_settings is Some { 1int } else { 0int })
        + (if s.ds_settings is Some { 1int } else { 0int })
        + (if s.quic_settings is Some { 1int } else { 0int })
}

/// The discriminant invariant of stream settings: exactly one transport
/// payload is populated, and it is the one that the declared `network`
/// value activates.
pub open spec fn stream_discriminant_ok(s: StreamSettingsObject) -> bool {
    &&& payload_count(s) == 1
    &&& (s.network@ == "tcp"@ <==> s.tcp_settings is Some)
    &&& (s.network@ == "kcp"@ <==> s.kcp_settings is Some)
    &&& (s.network@ == "ws"@ <==> s.ws_settings is Some)
    &&& (s.network@ == "http"@ <==> s.http_settings is Some)
    &&& (s.network@ == "domainsocket"@ <==> s.ds_settings is Some)
    &&& (s.network@ == "quic"@ <==> s.quic_settings is Some)
}

/// Decides the discriminant invariant for a stream-settings value.
pub fn validate_stream_settings(s: &StreamSettingsObject) -> (r: bool)
    ensures
        r == stream_discriminant_ok(*s),
{
    let mut count: i32 = 0;
    if s.tcp_settings.is_some() {
        count += 1;
    }
    if s.kcp_settings.is_some() {
        count += 1;
    }
    if s.ws_settings.is_some() {
        count += 1;
    }
    if s.http_settings.is_some() {
        count += 1;
    }
    if s.ds_settings.is_some() {
        count += 1;
    }
    if s.quic_settings.is_some() {
        count += 1;
    }
    count == 1
        && (str_eq(s.network.as_str(), "tcp") == s.tcp_settings.is_some())
        && (str_eq(s.network.as_str(), "kcp") == s.kcp_settings.is_some())
        && (str_eq(s.network.as_str(), "ws") == s.ws_settings.is_some())
        && (str_eq(s.network.as_str(), "http") == s.http_settings.is_some())
        && (str_eq(s.network.as_str(), "domainsocket") == s.ds_settings.is_some())
        && (str_eq(s.network.as_str(), "quic") == s.quic_settings.is_some())
}

} // verus!
