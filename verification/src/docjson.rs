//! The engine configuration document as JSON text. Field names, casing
//! and the handling of absent fields mirror the engine's wire contract
//! exactly; each writer is proved to produce the text its spec function
//! names.

use vstd::prelude::*;
use crate::jsontext::{
    append_bool, append_int, append_jstr, append_jstr_array, append_str, dec_int, jarr, jbool,
    join_comma, jstr,
};
use crate::schema::{
    ApiObject, ConfigJson, DnsObject, HTTPRequestObject, HTTPResponseObject, HeaderPair,
    HeaderValues, HttpObject, HttpUserObject, InboundConfigurationObject, InboundObject,
    KcpHeaderObject, KcpObject, LogObject, MuxObject, OutboundObject, PolicyObject,
    ProxySettingsObject, QUICHeaderObject, QUICObject, RoutingObject, RuleObject, SniffingObject,
    SockoptObject, StreamSettingsObject, SystemPolicyObject, TcpHeaderObject, TcpObject,
    UserObject, VmessServerObject, WebSocketObject, DomainSocketObject,
};
use crate::strutil::push_char;

verus! {

/// The views of a list of strings.
pub open spec fn str_views(v: Seq<String>) -> Seq<Seq<char>> {
    v.map_values(|s: String| s@)
}

/// A JSON array of string literals.
#[verifier::opaque]
pub open spec fn jstr_arr(v: Seq<String>) -> Seq<char> {
    jarr(v.map_values(|s: String| jstr(s@)))
}

/// An integer or `null`.
#[verifier::opaque]
pub open spec fn opt_int_json(v: Option<i32>) -> Seq<char> {
    match v {
        Some(x) => dec_int(x as int),
        None => "null"@,
    }
}

/// A string literal or `null`.
#[verifier::opaque]
pub open spec fn opt_jstr_json(v: Option<String>) -> Seq<char> {
    match v {
        Some(x) => jstr(x@),
        None => "null"@,
    }
}


/// An optional integer member with its leading separator, or nothing.
#[verifier::opaque]
pub open spec fn opt_int_field_lead(key: Seq<char>, v: Option<i32>) -> Seq<char> {
    match v {
        Some(x) => key + dec_int(x as int),
        Option::None => Seq::<char>::empty(),
    }
}

/// An optional integer member with a trailing comma, or nothing.
#[verifier::opaque]
pub open spec fn opt_int_field_trail(key: Seq<char>, v: Option<i32>) -> Seq<char> {
    match v {
        Some(x) => key + dec_int(x as int) + seq![','],
        Option::None => Seq::<char>::empty(),
    }
}

/// An optional boolean member with its leading separator, or nothing.
#[verifier::opaque]
pub open spec fn opt_bool_field_lead(key: Seq<char>, v: Option<bool>) -> Seq<char> {
    match v {
        Some(x) => key + jbool(x),
        Option::None => Seq::<char>::empty(),
    }
}

/// An optional string member with its leading separator, or nothing.
#[verifier::opaque]
pub open spec fn opt_jstr_field_lead(key: Seq<char>, v: Option<String>) -> Seq<char> {
    match v {
        Some(x) => key + jstr(x@),
        Option::None => Seq::<char>::empty(),
    }
}

/// An optional string member with a trailing comma, or nothing.
#[verifier::opaque]
pub open spec fn opt_jstr_field_trail(key: Seq<char>, v: Option<String>) -> Seq<char> {
    match v {
        Some(x) => key + jstr(x@) + seq![','],
        Option::None => Seq::<char>::empty(),
    }
}

/// The TCP payload member, when present.
#[verifier::opaque]
pub open spec fn tcp_field(v: Option<TcpObject>) -> Seq<char> {
    match v {
        Some(t) => ",\"tcpSettings\":"@ + tcp_json(t),
        Option::None => Seq::<char>::empty(),
    }
}

/// The KCP payload member, when present.
#[verifier::opaque]
pub open spec fn kcp_field(v: Option<KcpObject>) -> Seq<char> {
    match v {
        Some(k) => ",\"kcpSettings\":"@ + kcp_json(k),
        Option::None => Seq::<char>::empty(),
    }
}

/// The WebSocket payload member, when present.
#[verifier::opaque]
pub open spec fn ws_field(v: Option<WebSocketObject>) -> Seq<char> {
    match v {
        Some(w) => ",\"wsSettings\":"@ + ws_json(w),
        Option::None => Seq::<char>::empty(),
    }
}

/// The HTTP/2 payload member, when present.
#[verifier::opaque]
pub open spec fn http_field(v: Option<HttpObject>) -> Seq<char> {
    match v {
        Some(h) => ",\"httpSettings\":"@ + http_settings_json(h),
        Option::None => Seq::<char>::empty(),
    }
}

/// The domain-socket payload member, when present.
#[verifier::opaque]
pub open spec fn ds_field(v: Option<DomainSocketObject>) -> Seq<char> {
    match v {
        Some(d) => ",\"dsSettings\":"@ + ds_json(d),
        Option::None => Seq::<char>::empty(),
    }
}

/// The QUIC payload member, when present.
#[verifier::opaque]
pub open spec fn quic_field(v: Option<QUICObject>) -> Seq<char> {
    match v {
        Some(q) => ",\"quicSettings\":"@ + quic_json(q),
        Option::None => Seq::<char>::empty(),
    }
}

/// The socket-option member, when present.
#[verifier::opaque]
pub open spec fn sockopt_field(v: Option<SockoptObject>) -> Seq<char> {
    match v {
        Some(so) => ",\"sockopt\":"@ + sockopt_json(so),
        Option::None => Seq::<char>::empty(),
    }
}

/// The dispatch member, when present.
#[verifier::opaque]
pub open spec fn proxy_field(v: Option<ProxySettingsObject>) -> Seq<char> {
    match v {
        Some(p) => ",\"proxySettings\":"@ + proxy_settings_json(p),
        Option::None => Seq::<char>::empty(),
    }
}

#[verifier::opaque]
pub open spec fn log_json(x: LogObject) -> Seq<char> {
    "{\"log_level\":"@ + jstr(x.log_level@) + seq!['}']
}

#[verifier::opaque]
pub open spec fn api_json(x: ApiObject) -> Seq<char> {
    "{\"tag\":"@ + jstr(x.tag@) + ",\"services\":"@ + jstr_arr(x.services@) + seq!['}']
}

#[verifier::opaque]
pub open spec fn dns_json(x: DnsObject) -> Seq<char> {
    "{\"server\":"@ + jstr_arr(x.server@) + seq!['}']
}

#[verifier::opaque]
pub open spec fn sniffing_json(x: SniffingObject) -> Seq<char> {
    "{\"destOverride\":"@ + jstr_arr(x.dest_override@) + ",\"enabled\":"@ + jbool(x.enabled)
        + seq!['}']
}

#[verifier::opaque]
pub open spec fn http_user_json(x: HttpUserObject) -> Seq<char> {
    "{\"user\":"@ + jstr(x.user@) + ",\"pass\":"@ + jstr(x.pass@) + seq!['}']
}

#[verifier::opaque]
pub open spec fn inbound_settings_json(x: InboundConfigurationObject) -> Seq<char> {
    match x {
        InboundConfigurationObject::Socks { auth, udp, ip, user_level } => {
            "{\"socks\":{\"auth\":"@ + jstr(auth@) + ",\"udp\":"@ + jbool(udp) + ",\"ip\":"@
                + jstr(ip@) + ",\"user_level\":"@ + dec_int(user_level as int) + "}}"@
        },
        InboundConfigurationObject::Http { timeout, accounts, allow_transparent, level } => {
            "{\"http\":{\"timeout\":"@ + opt_int_json(timeout) + ",\"accounts\":"@ + (
            match accounts {
                Some(a) => http_user_json(a),
                None => "null"@,
            }) + ",\"allow_transparent\":"@ + jbool(allow_transparent) + ",\"level\":"@
                + opt_int_json(level) + "}}"@
        },
    }
}

#[verifier::opaque]
pub open spec fn inbound_json(x: InboundObject) -> Seq<char> {
    "{\"port\":"@ + dec_int(x.port as int) + ",\"listen\":"@ + jstr(x.listen@)
        + ",\"protocol\":"@ + jstr(x.protocol@) + ",\"settings\":"@ + inbound_settings_json(
        x.settings,
    ) + ",\"tag\":"@ + jstr(x.tag@) + ",\"sniffing\":"@ + sniffing_json(x.sniffing) + seq!['}']
}

#[verifier::opaque]
pub open spec fn mux_json(x: MuxObject) -> Seq<char> {
    seq!['{'] + (match (x.enabled, x.concurrency) {
        (Option::None, Option::None) => Seq::<char>::empty(),
        (Some(e), Option::None) => "\"enabled\":"@ + jbool(e),
        (Option::None, Some(c)) => "\"concurrency\":"@ + dec_int(c as int),
        (Some(e), Some(c)) => "\"enabled\":"@ + jbool(e) + ",\"concurrency\":"@ + dec_int(
            c as int,
        ),
    }) + seq!['}']
}

#[verifier::opaque]
pub open spec fn proxy_settings_json(x: ProxySettingsObject) -> Seq<char> {
    "{\"tag\":"@ + jstr(x.tag@) + seq!['}']
}

#[verifier::opaque]
pub open spec fn user_json(x: UserObject) -> Seq<char> {
    "{\"id\":"@ + jstr(x.id@) + (match x.alter_id {
        Some(a) => ",\"alterId\":"@ + dec_int(a as int),
        Option::None => Seq::<char>::empty(),
    }) + (match x.level {
        Some(l) => ",\"level\":"@ + dec_int(l as int),
        Option::None => Seq::<char>::empty(),
    }) + ",\"security\":"@ + jstr(x.security@) + seq!['}']
}

#[verifier::opaque]
pub open spec fn users_json(v: Seq<UserObject>) -> Seq<char> {
    jarr(v.map_values(|u: UserObject| user_json(u)))
}

#[verifier::opaque]
pub open spec fn server_json(x: VmessServerObject) -> Seq<char> {
    "{\"address\":"@ + jstr(x.address@) + ",\"port\":"@ + dec_int(x.port as int)
        + ",\"users\":"@ + users_json(x.users@) + seq!['}']
}

#[verifier::opaque]
pub open spec fn servers_json(v: Seq<VmessServerObject>) -> Seq<char> {
    jarr(v.map_values(|s: VmessServerObject| server_json(s)))
}

#[verifier::opaque]
pub open spec fn quic_header_json(x: QUICHeaderObject) -> Seq<char> {
    "{\"type\":"@ + jstr(x.quic_type@) + seq!['}']
}

#[verifier::opaque]
pub open spec fn quic_json(x: QUICObject) -> Seq<char> {
    "{\"security\":"@ + jstr(x.security@) + ",\"key\":"@ + jstr(x.key@) + ",\"header\":"@ + (
    match x.header {
        Some(h) => quic_header_json(h),
        Option::None => "null"@,
    }) + seq!['}']
}

#[verifier::opaque]
pub open spec fn ds_json(x: DomainSocketObject) -> Seq<char> {
    "{\"path\":"@ + jstr(x.path@) + seq!['}']
}

#[verifier::opaque]
pub open spec fn http_settings_json(x: HttpObject) -> Seq<char> {
    "{\"host\":"@ + jstr_arr(x.host@) + ",\"path\":"@ + opt_jstr_json(x.path) + seq!['}']
}

#[verifier::opaque]
pub open spec fn header_pairs_json(v: Seq<HeaderPair>) -> Seq<char> {
    seq!['{'] + join_comma(v.map_values(|p: HeaderPair| jstr(p.name@) + seq![':'] + jstr(p.value@)))
        + seq!['}']
}

#[verifier::opaque]
pub open spec fn ws_json(x: WebSocketObject) -> Seq<char> {
    seq!['{'] + (match (x.path, x.headers) {
        (Option::None, Option::None) => Seq::<char>::empty(),
        (Some(p), Option::None) => "\"path\":"@ + jstr(p@),
        (Option::None, Some(hs)) => "\"headers\":"@ + header_pairs_json(hs@),
        (Some(p), Some(hs)) => "\"path\":"@ + jstr(p@) + ",\"headers\":"@ + header_pairs_json(
            hs@,
        ),
    }) + seq!['}']
}

#[verifier::opaque]
pub open spec fn kcp_header_json(x: KcpHeaderObject) -> Seq<char> {
    "{\"type\":"@ + jstr(x.kcp_type@) + seq!['}']
}

#[verifier::opaque]
pub open spec fn kcp_json(x: KcpObject) -> Seq<char> {
    seq!['{'] + opt_int_field_trail("\"mtu\":"@, x.mtu) + opt_int_field_trail(
        "\"tti\":"@,
        x.tti,
    ) + "\"uplinkCapacity\":"@ + opt_int_json(x.uplink_capacity) + opt_int_field_lead(
        ",\"downlinkCapacity\":"@,
        x.downlink_capacity,
    ) + opt_bool_field_lead(",\"congestion\":"@, x.congestion) + opt_int_field_lead(
        ",\"readBufferSize\":"@,
        x.read_buffer_size,
    ) + opt_int_field_lead(",\"writeBufferSize\":"@, x.write_buffer_size) + ",\"header\":"@
        + kcp_header_json(x.header) + seq!['}']
}

#[verifier::opaque]
pub open spec fn header_values_json(v: Seq<HeaderValues>) -> Seq<char> {
    seq!['{'] + join_comma(
        v.map_values(|p: HeaderValues| jstr(p.name@) + seq![':'] + jstr_arr(p.values@)),
    ) + seq!['}']
}

#[verifier::opaque]
pub open spec fn request_json(x: HTTPRequestObject) -> Seq<char> {
    "{\"version\":"@ + jstr(x.version@) + ",\"method\":"@ + jstr(x.method@) + ",\"path\":"@
        + jstr_arr(x.path@) + ",\"headers\":"@ + header_values_json(x.headers@) + seq!['}']
}

#[verifier::opaque]
pub open spec fn response_json(x: HTTPResponseObject) -> Seq<char> {
    "{\"version\":"@ + jstr(x.version@) + ",\"status\":"@ + jstr(x.status@) + ",\"reason\":"@
        + jstr(x.reason@) + ",\"headers\":"@ + header_values_json(x.headers@) + seq!['}']
}

#[verifier::opaque]
pub open spec fn tcp_header_json(x: TcpHeaderObject) -> Seq<char> {
    match x {
        TcpHeaderObject::NoneHeaderObject { tcp_type } => "{\"type\":"@ + jstr(tcp_type@)
            + seq!['}'],
        TcpHeaderObject::HttpHeaderObject { tcp_type, request, response } => {
            "{\"type\":"@ + jstr(tcp_type@) + ",\"request\":"@ + (match request {
                Some(r) => request_json(r),
                Option::None => "null"@,
            }) + ",\"response\":"@ + (match response {
                Some(r) => response_json(r),
                Option::None => "null"@,
            }) + seq!['}']
        },
    }
}

#[verifier::opaque]
pub open spec fn tcp_json(x: TcpObject) -> Seq<char> {
    "{\"header\":"@ + tcp_header_json(x.header) + seq!['}']
}

#[verifier::opaque]
pub open spec fn sockopt_json(x: SockoptObject) -> Seq<char> {
    "{\"mark\":"@ + dec_int(x.mark as int) + ",\"tcpFastOpen\":"@ + jbool(x.tcp_fast_open)
        + ",\"tproxy\":"@ + jstr(x.tproxy@) + seq!['}']
}

#[verifier::opaque]
pub open spec fn stream_settings_json(x: StreamSettingsObject) -> Seq<char> {
    "{\"network\":"@ + jstr(x.network@) + opt_jstr_field_lead(",\"security\":"@, x.security)
        + tcp_field(x.tcp_settings) + kcp_field(x.kcp_settings) + ws_field(x.ws_settings)
        + http_field(x.http_settings) + ds_field(x.ds_settings) + quic_field(x.quic_settings)
        + sockopt_field(x.sockopt) + seq!['}']
}

#[verifier::opaque]
pub open spec fn outbound_json(x: OutboundObject) -> Seq<char> {
    seq!['{'] + opt_jstr_field_trail("\"sendThrough\":"@, x.send_through) + "\"protocol\":"@
        + jstr(x.protocol@) + ",\"settings\":{\"vnext\":"@ + (match x.settings {
        crate::schema::OutboundConfigurationObject::Vmess { vnext } => servers_json(vnext@),
    }) + "},\"tag\":"@ + jstr(x.tag@) + ",\"streamSettings\":"@ + stream_settings_json(
        x.stream_settings,
    ) + proxy_field(x.proxy_settings) + ",\"mux\":"@ + mux_json(x.mux) + seq!['}']
}

#[verifier::opaque]
pub open spec fn outbounds_json(v: Seq<OutboundObject>) -> Seq<char> {
    jarr(v.map_values(|o: OutboundObject| outbound_json(o)))
}

#[verifier::opaque]
pub open spec fn inbounds_json(v: Seq<InboundObject>) -> Seq<char> {
    jarr(v.map_values(|i: InboundObject| inbound_json(i)))
}

#[verifier::opaque]
pub open spec fn system_policy_json(x: SystemPolicyObject) -> Seq<char> {
    "{\"statsInboundUplink\":"@ + jbool(x.stats_inbound_uplink) + ",\"statsInboundDownlink\":"@
        + jbool(x.stats_inbound_downlink) + ",\"statsOutboundUplink\":"@ + jbool(
        x.stats_outbound_uplink,
    ) + ",\"statsOutboundDownlink\":"@ + jbool(x.stats_outbound_downlink) + seq!['}']
}

#[verifier::opaque]
pub open spec fn policy_json(x: PolicyObject) -> Seq<char> {
    "{\"system\":"@ + system_policy_json(x.system) + seq!['}']
}

#[verifier::opaque]
pub open spec fn rule_json(x: RuleObject) -> Seq<char> {
    "{\"type\":"@ + jstr(x.rule_type@) + ",\"inboundTag\":"@ + jstr_arr(x.inbound_tag@)
        + ",\"outboundTag\":"@ + jstr(x.outbound_tag@) + seq!['}']
}

#[verifier::opaque]
pub open spec fn routing_json(x: RoutingObject) -> Seq<char> {
    "{\"domainStrategy\":"@ + jstr(x.domain_strategy@) + ",\"domainMatcher\":"@ + jstr(
        x.domain_matcher@,
    ) + ",\"rules\":"@ + jarr(x.rules@.map_values(|r: RuleObject| rule_json(r))) + seq!['}']
}

/// The whole document text.
#[verifier::opaque]
pub open spec fn config_json_text(x: ConfigJson) -> Seq<char> {
    "{\"log\":"@ + log_json(x.log) + ",\"api\":"@ + api_json(x.api) + ",\"dns\":"@ + dns_json(
        x.dns,
    ) + ",\"inbounds\":"@ + inbounds_json(x.inbounds@) + ",\"outbound\":"@ + outbounds_json(
        x.outbound@,
    ) + ",\"policy\":"@ + policy_json(x.policy) + ",\"routing\":"@ + routing_json(x.routing)
        + ",\"stats\":{}}"@
}

fn append_opt_int(out: &mut String, v: &Option<i32>)
    ensures
        final(out)@ == old(out)@ + opt_int_json(*v),
{
    proof {
        reveal(opt_int_json);
    }
    match v {
        Some(x) => append_int(out, *x as i64),
        None => append_str(out, "null"),
    }
}

fn append_log(out: &mut String, x: &LogObject)
    ensures
        final(out)@ == old(out)@ + log_json(*x),
{
    proof {
        reveal(log_json);
    }
    append_str(out, "{\"log_level\":");
    append_jstr(out, x.log_level.as_str());
    push_char(out, '}');
    proof {
        assert(final(out)@ =~= old(out)@ + log_json(*x));
    }
}

fn append_api(out: &mut String, x: &ApiObject)
    ensures
        final(out)@ == old(out)@ + api_json(*x),
{
    proof {
        reveal(api_json);
        reveal(jstr_arr);
    }
    append_str(out, "{\"tag\":");
    append_jstr(out, x.tag.as_str());
    append_str(out, ",\"services\":");
    append_jstr_array(out, &x.services);
    push_char(out, '}');
    proof {
        assert(final(out)@ =~= old(out)@ + api_json(*x));
    }
}

fn append_dns(out: &mut String, x: &DnsObject)
    ensures
        final(out)@ == old(out)@ + dns_json(*x),
{
    proof {
        reveal(dns_json);
        reveal(jstr_arr);
    }
    append_str(out, "{\"server\":");
    append_jstr_array(out, &x.server);
    push_char(out, '}');
    proof {
        assert(final(out)@ =~= old(out)@ + dns_json(*x));
    }
}

fn append_sniffing(out: &mut String, x: &SniffingObject)
    ensures
        final(out)@ == old(out)@ + sniffing_json(*x),
{
    proof {
        reveal(sniffing_json);
        reveal(jstr_arr);
    }
    append_str(out, "{\"destOverride\":");
    append_jstr_array(out, &x.dest_override);
    append_str(out, ",\"enabled\":");
    append_bool(out, x.enabled);
    push_char(out, '}');
    proof {
        assert(final(out)@ =~= old(out)@ + sniffing_json(*x));
    }
}

fn append_http_user(out: &mut String, x: &HttpUserObject)
    ensures
        final(out)@ == old(out)@ + http_user_json(*x),
{
    proof {
        reveal(http_user_json);
    }
    append_str(out, "{\"user\":");
    append_jstr(out, x.user.as_str());
    append_str(out, ",\"pass\":");
    append_jstr(out, x.pass.as_str());
    push_char(out, '}');
    proof {
        assert(final(out)@ =~= old(out)@ + http_user_json(*x));
    }
}

fn append_inbound_settings(out: &mut String, x: &InboundConfigurationObject)
    ensures
        final(out)@ == old(out)@ + inbound_settings_json(*x),
{
    proof {
        reveal(inbound_settings_json);
    }
    match x {
        InboundConfigurationObject::Socks { auth, udp, ip, user_level } => {
            append_str(out, "{\"socks\":{\"auth\":");
            append_jstr(out, auth.as_str());
            append_str(out, ",\"udp\":");
            append_bool(out, *udp);
            append_str(out, ",\"ip\":");
            append_jstr(out, ip.as_str());
            append_str(out, ",\"user_level\":");
            append_int(out, *user_level as i64);
            append_str(out, "}}");
            proof {
                assert(final(out)@ =~= old(out)@ + inbound_settings_json(*x));
            }
        },
        InboundConfigurationObject::Http { timeout, accounts, allow_transparent, level } => {
            append_str(out, "{\"http\":{\"timeout\":");
            append_opt_int(out, timeout);
            append_str(out, ",\"accounts\":");
            match accounts {
                Some(a) => append_http_user(out, a),
                None => append_str(out, "null"),
            }
            append_str(out, ",\"allow_transparent\":");
            append_bool(out, *allow_transparent);
            append_str(out, ",\"level\":");
            append_opt_int(out, level);
            append_str(out, "}}");
            proof {
                assert(final(out)@ =~= old(out)@ + inbound_settings_json(*x));
            }
        },
    }
}

fn append_inbound(out: &mut String, x: &InboundObject)
    ensures
        final(out)@ == old(out)@ + inbound_json(*x),
{
    proof {
        reveal(inbound_json);
    }
    append_str(out, "{\"port\":");
    append_int(out, x.port as i64);
    append_str(out, ",\"listen\":");
    append_jstr(out, x.listen.as_str());
    append_str(out, ",\"protocol\":");
    append_jstr(out, x.protocol.as_str());
    append_str(out, ",\"settings\":");
    append_inbound_settings(out, &x.settings);
    append_str(out, ",\"tag\":");
    append_jstr(out, x.tag.as_str());
    append_str(out, ",\"sniffing\":");
    append_sniffing(out, &x.sniffing);
    push_char(out, '}');
    proof {
        assert(final(out)@ =~= old(out)@ + inbound_json(*x));
    }
}

fn append_mux(out: &mut String, x: &MuxObject)
    ensures
        final(out)@ == old(out)@ + mux_json(*x),
{
    proof {
        reveal(mux_json);
    }
    push_char(out, '{');
    match (&x.enabled, &x.concurrency) {
        (None, None) => (),
        (Some(e), None) => {
            append_str(out, "\"enabled\":");
            append_bool(out, *e);
        },
        (None, Some(c)) => {
            append_str(out, "\"concurrency\":");
            append_int(out, *c as i64);
        },
        (Some(e), Some(c)) => {
            append_str(out, "\"enabled\":");
            append_bool(out, *e);
            append_str(out, ",\"concurrency\":");
            append_int(out, *c as i64);
        },
    }
    push_char(out, '}');
    proof {
        assert(final(out)@ =~= old(out)@ + mux_json(*x));
    }
}

fn append_user(out: &mut String, x: &UserObject)
    ensures
        final(out)@ == old(out)@ + user_json(*x),
{
    proof {
        reveal(user_json);
    }
    append_str(out, "{\"id\":");
    append_jstr(out, x.id.as_str());
    match &x.alter_id {
        Some(a) => {
            append_str(out, ",\"alterId\":");
            append_int(out, *a as i64);
        },
        None => (),
    }
    match &x.level {
        Some(l) => {
            append_str(out, ",\"level\":");
            append_int(out, *l as i64);
        },
        None => (),
    }
    append_str(out, ",\"security\":");
    append_jstr(out, x.security.as_str());
    push_char(out, '}');
    proof {
        assert(final(out)@ =~= old(out)@ + user_json(*x));
    }
}

fn append_users(out: &mut String, v: &Vec<UserObject>)
    ensures
        final(out)@ == old(out)@ + users_json(v@),
{
    proof {
        reveal(users_json);
    }
    let ghost elems = v@.map_values(|u: UserObject| user_json(u));
    push_char(out, '[');
    let mut i: usize = 0;
    while i < v.len()
        invariant
            i <= v@.len(),
            elems == v@.map_values(|u: UserObject| user_json(u)),
            out@ == old(out)@ + seq!['['] + join_comma(elems.take(i as int)),
        decreases v@.len() - i,
    {
        if i > 0 {
            push_char(out, ',');
        }
        append_user(out, &v[i]);
        proof {
            assert(elems.take(i + 1).drop_last() =~= elems.take(i as int));
            assert(elems.take(i + 1).last() == user_json(v@[i as int]));
            assert(out@ =~= old(out)@ + seq!['['] + join_comma(elems.take(i + 1)));
        }
        i += 1;
    }
    push_char(out, ']');
    proof {
        assert(elems.take(v@.len() as int) =~= elems);
        assert(final(out)@ =~= old(out)@ + users_json(v@));
    }
}

fn append_server(out: &mut String, x: &VmessServerObject)
    ensures
        final(out)@ == old(out)@ + server_json(*x),
{
    proof {
        reveal(server_json);
    }
    append_str(out, "{\"address\":");
    append_jstr(out, x.address.as_str());
    append_str(out, ",\"port\":");
    append_int(out, x.port as i64);
    append_str(out, ",\"users\":");
    append_users(out, &x.users);
    push_char(out, '}');
    proof {
        assert(final(out)@ =~= old(out)@ + server_json(*x));
    }
}

fn append_servers(out: &mut String, v: &Vec<VmessServerObject>)
    ensures
        final(out)@ == old(out)@ + servers_json(v@),
{
    proof {
        reveal(servers_json);
    }
    let ghost elems = v@.map_values(|s: VmessServerObject| server_json(s));
    push_char(out, '[');
    let mut i: usize = 0;
    while i < v.len()
        invariant
            i <= v@.len(),
            elems == v@.map_values(|s: VmessServerObject| server_json(s)),
            out@ == old(out)@ + seq!['['] + join_comma(elems.take(i as int)),
        decreases v@.len() - i,
    {
        if i > 0 {
            push_char(out, ',');
        }
        append_server(out, &v[i]);
        proof {
            assert(elems.take(i + 1).drop_last() =~= elems.take(i as int));
            assert(elems.take(i + 1).last() == server_json(v@[i as int]));
            assert(out@ =~= old(out)@ + seq!['['] + join_comma(elems.take(i + 1)));
        }
        i += 1;
    }
    push_char(out, ']');
    proof {
        assert(elems.take(v@.len() as int) =~= elems);
        assert(final(out)@ =~= old(out)@ + servers_json(v@));
    }
}

fn append_quic(out: &mut String, x: &QUICObject)
    ensures
        final(out)@ == old(out)@ + quic_json(*x),
{
    proof {
        reveal(quic_json);
        reveal(quic_header_json);
    }
    append_str(out, "{\"security\":");
    append_jstr(out, x.security.as_str());
    append_str(out, ",\"key\":");
    append_jstr(out, x.key.as_str());
    append_str(out, ",\"header\":");
    match &x.header {
        Some(h) => {
            append_str(out, "{\"type\":");
            append_jstr(out, h.quic_type.as_str());
            push_char(out, '}');
        },
        None => append_str(out, "null"),
    }
    push_char(out, '}');
    proof {
        assert(final(out)@ =~= old(out)@ + quic_json(*x));
    }
}

fn append_ds(out: &mut String, x: &DomainSocketObject)
    ensures
        final(out)@ == old(out)@ + ds_json(*x),
{
    proof {
        reveal(ds_json);
    }
    append_str(out, "{\"path\":");
    append_jstr(out, x.path.as_str());
    push_char(out, '}');
    proof {
        assert(final(out)@ =~= old(out)@ + ds_json(*x));
    }
}

fn append_http_settings(out: &mut String, x: &HttpObject)
    ensures
        final(out)@ == old(out)@ + http_settings_json(*x),
{
    proof {
        reveal(http_settings_json);
        reveal(jstr_arr);
        reveal(opt_jstr_json);
    }
    append_str(out, "{\"host\":");
    append_jstr_array(out, &x.host);
    append_str(out, ",\"path\":");
    match &x.path {
        Some(p) => append_jstr(out, p.as_str()),
        None => append_str(out, "null"),
    }
    push_char(out, '}');
    proof {
        assert(final(out)@ =~= old(out)@ + http_settings_json(*x));
    }
}

fn append_header_pairs(out: &mut String, v: &Vec<HeaderPair>)
    ensures
        final(out)@ == old(out)@ + header_pairs_json(v@),
{
    proof {
        reveal(header_pairs_json);
    }
    let ghost elems = v@.map_values(|p: HeaderPair| jstr(p.name@) + seq![':'] + jstr(p.value@));
    push_char(out, '{');
    let mut i: usize = 0;
    while i < v.len()
        invariant
            i <= v@.len(),
            elems == v@.map_values(|p: HeaderPair| jstr(p.name@) + seq![':'] + jstr(p.value@)),
            out@ == old(out)@ + seq!['{'] + join_comma(elems.take(i as int)),
        decreases v@.len() - i,
    {
        if i > 0 {
            push_char(out, ',');
        }
        append_jstr(out, v[i].name.as_str());
        push_char(out, ':');
        append_jstr(out, v[i].value.as_str());
        proof {
            assert(elems.take(i + 1).drop_last() =~= elems.take(i as int));
            assert(elems.take(i + 1).last() == jstr(v@[i as int].name@) + seq![':'] + jstr(
                v@[i as int].value@,
            ));
            assert(out@ =~= old(out)@ + seq!['{'] + join_comma(elems.take(i + 1)));
        }
        i += 1;
    }
    push_char(out, '}');
    proof {
        assert(elems.take(v@.len() as int) =~= elems);
        assert(final(out)@ =~= old(out)@ + header_pairs_json(v@));
    }
}

fn append_ws(out: &mut String, x: &WebSocketObject)
    ensures
        final(out)@ == old(out)@ + ws_json(*x),
{
    proof {
        reveal(ws_json);
    }
    push_char(out, '{');
    match (&x.path, &x.headers) {
        (None, None) => (),
        (Some(p), None) => {
            append_str(out, "\"path\":");
            append_jstr(out, p.as_str());
        },
        (None, Some(hs)) => {
            append_str(out, "\"headers\":");
            append_header_pairs(out, hs);
        },
        (Some(p), Some(hs)) => {
            append_str(out, "\"path\":");
            append_jstr(out, p.as_str());
            append_str(out, ",\"headers\":");
            append_header_pairs(out, hs);
        },
    }
    push_char(out, '}');
    proof {
        assert(final(out)@ =~= old(out)@ + ws_json(*x));
    }
}

/// The optional KCP sizing members that follow the capacity field.
#[verifier::rlimit(100)]
fn append_kcp_opts(out: &mut String, x: &KcpObject)
    ensures
        final(out)@ == old(out)@ + (opt_int_field_lead(
            ",\"downlinkCapacity\":"@,
            x.downlink_capacity,
        ) + opt_bool_field_lead(",\"congestion\":"@, x.congestion) + opt_int_field_lead(
            ",\"readBufferSize\":"@,
            x.read_buffer_size,
        ) + opt_int_field_lead(",\"writeBufferSize\":"@, x.write_buffer_size)),
{
    let ghost g3 = out@;
    match &x.downlink_capacity {
        Some(v) => {
            append_str(out, ",\"downlinkCapacity\":");
            append_int(out, *v as i64);
        },
        None => (),
    }
    proof {
        reveal(opt_int_field_lead);
        assert(out@ =~= g3 + opt_int_field_lead(",\"downlinkCapacity\":"@, x.downlink_capacity));
    }
    let ghost g4 = out@;
    match &x.congestion {
        Some(v) => {
            append_str(out, ",\"congestion\":");
            append_bool(out, *v);
        },
        None => (),
    }
    proof {
        reveal(opt_bool_field_lead);
        assert(out@ =~= g4 + opt_bool_field_lead(",\"congestion\":"@, x.congestion));
    }
    let ghost g5 = out@;
    match &x.read_buffer_size {
        Some(v) => {
            append_str(out, ",\"readBufferSize\":");
            append_int(out, *v as i64);
        },
        None => (),
    }
    proof {
        reveal(opt_int_field_lead);
        assert(out@ =~= g5 + opt_int_field_lead(",\"readBufferSize\":"@, x.read_buffer_size));
    }
    let ghost g6 = out@;
    match &x.write_buffer_size {
        Some(v) => {
            append_str(out, ",\"writeBufferSize\":");
            append_int(out, *v as i64);
        },
        None => (),
    }
    proof {
        reveal(opt_int_field_lead);
        assert(out@ =~= g6 + opt_int_field_lead(",\"writeBufferSize\":"@, x.write_buffer_size));
        assert(final(out)@ =~= old(out)@ + (opt_int_field_lead(
            ",\"downlinkCapacity\":"@,
            x.downlink_capacity,
        ) + opt_bool_field_lead(",\"congestion\":"@, x.congestion) + opt_int_field_lead(
            ",\"readBufferSize\":"@,
            x.read_buffer_size,
        ) + opt_int_field_lead(",\"writeBufferSize\":"@, x.write_buffer_size)));
    }
}

#[verifier::rlimit(100)]
fn append_kcp(out: &mut String, x: &KcpObject)
    ensures
        final(out)@ == old(out)@ + kcp_json(*x),
{
    push_char(out, '{');
    let ghost g1 = out@;
    match &x.mtu {
        Some(v) => {
            append_str(out, "\"mtu\":");
            append_int(out, *v as i64);
            push_char(out, ',');
        },
        None => (),
    }
    proof {
        reveal(opt_int_field_trail);
        assert(out@ =~= g1 + opt_int_field_trail("\"mtu\":"@, x.mtu));
    }
    let ghost g2 = out@;
    match &x.tti {
        Some(v) => {
            append_str(out, "\"tti\":");
            append_int(out, *v as i64);
            push_char(out, ',');
        },
        None => (),
    }
    proof {
        reveal(opt_int_field_trail);
        assert(out@ =~= g2 + opt_int_field_trail("\"tti\":"@, x.tti));
    }
    append_str(out, "\"uplinkCapacity\":");
    append_opt_int(out, &x.uplink_capacity);
    append_kcp_opts(out, x);
    append_str(out, ",\"header\":");
    append_str(out, "{\"type\":");
    append_jstr(out, x.header.kcp_type.as_str());
    push_char(out, '}');
    push_char(out, '}');
    proof {
        reveal(kcp_json);
        reveal(kcp_header_json);
        assert(final(out)@ =~= old(out)@ + kcp_json(*x));
    }
}

fn append_header_values(out: &mut String, v: &Vec<HeaderValues>)
    ensures
        final(out)@ == old(out)@ + header_values_json(v@),
{
    proof {
        reveal(header_values_json);
        reveal(jstr_arr);
    }
    let ghost elems = v@.map_values(|p: HeaderValues| jstr(p.name@) + seq![':'] + jstr_arr(
        p.values@,
    ));
    push_char(out, '{');
    let mut i: usize = 0;
    while i < v.len()
        invariant
            i <= v@.len(),
            elems == v@.map_values(|p: HeaderValues| jstr(p.name@) + seq![':'] + jstr_arr(
                p.values@,
            )),
            out@ == old(out)@ + seq!['{'] + join_comma(elems.take(i as int)),
        decreases v@.len() - i,
    {
        if i > 0 {
            push_char(out, ',');
        }
        append_jstr(out, v[i].name.as_str());
        push_char(out, ':');
        append_jstr_array(out, &v[i].values);
        proof {
            reveal(jstr_arr);
            assert(elems.take(i + 1).drop_last() =~= elems.take(i as int));
            assert(elems.take(i + 1).last() == jstr(v@[i as int].name@) + seq![':'] + jstr_arr(
                v@[i as int].values@,
            ));
            assert(out@ =~= old(out)@ + seq!['{'] + join_comma(elems.take(i + 1)));
        }
        i += 1;
    }
    push_char(out, '}');
    proof {
        assert(elems.take(v@.len() as int) =~= elems);
        assert(final(out)@ =~= old(out)@ + header_values_json(v@));
    }
}

fn append_request(out: &mut String, x: &HTTPRequestObject)
    ensures
        final(out)@ == old(out)@ + request_json(*x),
{
    proof {
        reveal(request_json);
        reveal(jstr_arr);
    }
    append_str(out, "{\"version\":");
    append_jstr(out, x.version.as_str());
    append_str(out, ",\"method\":");
    append_jstr(out, x.method.as_str());
    append_str(out, ",\"path\":");
    append_jstr_array(out, &x.path);
    append_str(out, ",\"headers\":");
    append_header_values(out, &x.headers);
    push_char(out, '}');
    proof {
        assert(final(out)@ =~= old(out)@ + request_json(*x));
    }
}

fn append_response(out: &mut String, x: &HTTPResponseObject)
    ensures
        final(out)@ == old(out)@ + response_json(*x),
{
    proof {
        reveal(response_json);
        reveal(jstr_arr);
    }
    append_str(out, "{\"version\":");
    append_jstr(out, x.version.as_str());
    append_str(out, ",\"status\":");
    append_jstr(out, x.status.as_str());
    append_str(out, ",\"reason\":");
    append_jstr(out, x.reason.as_str());
    append_str(out, ",\"headers\":");
    append_header_values(out, &x.headers);
    push_char(out, '}');
    proof {
        assert(final(out)@ =~= old(out)@ + response_json(*x));
    }
}

fn append_tcp(out: &mut String, x: &TcpObject)
    ensures
        final(out)@ == old(out)@ + tcp_json(*x),
{
    proof {
        reveal(tcp_json);
        reveal(tcp_header_json);
    }
    append_str(out, "{\"header\":");
    match &x.header {
        TcpHeaderObject::NoneHeaderObject { tcp_type } => {
            append_str(out, "{\"type\":");
            append_jstr(out, tcp_type.as_str());
            push_char(out, '}');
        },
        TcpHeaderObject::HttpHeaderObject { tcp_type, request, response } => {
            append_str(out, "{\"type\":");
            append_jstr(out, tcp_type.as_str());
            append_str(out, ",\"request\":");
            let ghost g1 = out@;
            match request {
                Some(r) => append_request(out, r),
                None => append_str(out, "null"),
            }
            proof {
                assert(out@ =~= g1 + (match *request {
                    Some(r) => request_json(r),
                    Option::None => "null"@,
                }));
            }
            append_str(out, ",\"response\":");
            let ghost g2 = out@;
            match response {
                Some(r) => append_response(out, r),
                None => append_str(out, "null"),
            }
            proof {
                assert(out@ =~= g2 + (match *response {
                    Some(r) => response_json(r),
                    Option::None => "null"@,
                }));
            }
            push_char(out, '}');
        },
    }
    push_char(out, '}');
    proof {
        assert(final(out)@ =~= old(out)@ + tcp_json(*x));
    }
}

fn append_sockopt(out: &mut String, x: &SockoptObject)
    ensures
        final(out)@ == old(out)@ + sockopt_json(*x),
{
    proof {
        reveal(sockopt_json);
    }
    append_str(out, "{\"mark\":");
    append_int(out, x.mark as i64);
    append_str(out, ",\"tcpFastOpen\":");
    append_bool(out, x.tcp_fast_open);
    append_str(out, ",\"tproxy\":");
    append_jstr(out, x.tproxy.as_str());
    push_char(out, '}');
    proof {
        assert(final(out)@ =~= old(out)@ + sockopt_json(*x));
    }
}

/// The later transport payload members of stream settings.
#[verifier::rlimit(100)]
fn append_stream_payloads_b(out: &mut String, x: &StreamSettingsObject)
    ensures
        final(out)@ == old(out)@ + (http_field(x.http_settings) + ds_field(x.ds_settings)
            + quic_field(x.quic_settings) + sockopt_field(x.sockopt)),
{
    let ghost g5 = out@;
    match &x.http_settings {
        Some(v) => {
            append_str(out, ",\"httpSettings\":");
            append_http_settings(out, v);
        },
        None => (),
    }
    proof {
        reveal(http_field);
        assert(out@ =~= g5 + http_field(x.http_settings));
    }
    let ghost g6 = out@;
    match &x.ds_settings {
        Some(v) => {
            append_str(out, ",\"dsSettings\":");
            append_ds(out, v);
        },
        None => (),
    }
    proof {
        reveal(ds_field);
        assert(out@ =~= g6 + ds_field(x.ds_settings));
    }
    let ghost g7 = out@;
    match &x.quic_settings {
        Some(v) => {
            append_str(out, ",\"quicSettings\":");
            append_quic(out, v);
        },
        None => (),
    }
    proof {
        reveal(quic_field);
        assert(out@ =~= g7 + quic_field(x.quic_settings));
    }
    let ghost g8 = out@;
    match &x.sockopt {
        Some(v) => {
            append_str(out, ",\"sockopt\":");
            append_sockopt(out, v);
        },
        None => (),
    }
    proof {
        reveal(sockopt_field);
        assert(out@ =~= g8 + sockopt_field(x.sockopt));
        assert(final(out)@ =~= old(out)@ + (http_field(x.http_settings) + ds_field(x.ds_settings)
            + quic_field(x.quic_settings) + sockopt_field(x.sockopt)));
    }
}

/// The transport payload members of stream settings, in order.
#[verifier::rlimit(100)]
fn append_stream_payloads(out: &mut String, x: &StreamSettingsObject)
    ensures
        final(out)@ == old(out)@ + (tcp_field(x.tcp_settings) + kcp_field(x.kcp_settings)
            + ws_field(x.ws_settings) + http_field(x.http_settings) + ds_field(x.ds_settings)
            + quic_field(x.quic_settings) + sockopt_field(x.sockopt)),
{
    let ghost g2 = out@;
    match &x.tcp_settings {
        Some(v) => {
            append_str(out, ",\"tcpSettings\":");
            append_tcp(out, v);
        },
        None => (),
    }
    proof {
        reveal(tcp_field);
        assert(out@ =~= g2 + tcp_field(x.tcp_settings));
    }
    let ghost g3 = out@;
    match &x.kcp_settings {
        Some(v) => {
            append_str(out, ",\"kcpSettings\":");
            append_kcp(out, v);
        },
        None => (),
    }
    proof {
        reveal(kcp_field);
        assert(out@ =~= g3 + kcp_field(x.kcp_settings));
    }
    let ghost g4 = out@;
    match &x.ws_settings {
        Some(v) => {
            append_str(out, ",\"wsSettings\":");
            append_ws(out, v);
        },
        None => (),
    }
    proof {
        reveal(ws_field);
        assert(out@ =~= g4 + ws_field(x.ws_settings));
    }
    let ghost mid = out@;
    append_stream_payloads_b(out, x);
    proof {
        assert(final(out)@ =~= old(out)@ + (tcp_field(x.tcp_settings) + kcp_field(x.kcp_settings)
            + ws_field(x.ws_settings) + http_field(x.http_settings) + ds_field(x.ds_settings)
            + quic_field(x.quic_settings) + sockopt_field(x.sockopt)));
    }
}

#[verifier::rlimit(100)]
fn append_stream_settings(out: &mut String, x: &StreamSettingsObject)
    ensures
        final(out)@ == old(out)@ + stream_settings_json(*x),
{
    append_str(out, "{\"network\":");
    append_jstr(out, x.network.as_str());
    let ghost g1 = out@;
    match &x.security {
        Some(v) => {
            append_str(out, ",\"security\":");
            append_jstr(out, v.as_str());
        },
        None => (),
    }
    proof {
        reveal(opt_jstr_field_lead);
        assert(out@ =~= g1 + opt_jstr_field_lead(",\"security\":"@, x.security));
    }
    append_stream_payloads(out, x);
    push_char(out, '}');
    proof {
        reveal(stream_settings_json);
        assert(final(out)@ =~= old(out)@ + stream_settings_json(*x));
    }
}

fn append_outbound(out: &mut String, x: &OutboundObject)
    ensures
        final(out)@ == old(out)@ + outbound_json(*x),
{
    push_char(out, '{');
    let ghost g1 = out@;
    match &x.send_through {
        Some(v) => {
            append_str(out, "\"sendThrough\":");
            append_jstr(out, v.as_str());
            push_char(out, ',');
        },
        None => (),
    }
    proof {
        reveal(opt_jstr_field_trail);
        assert(out@ =~= g1 + opt_jstr_field_trail("\"sendThrough\":"@, x.send_through));
    }
    append_str(out, "\"protocol\":");
    append_jstr(out, x.protocol.as_str());
    append_str(out, ",\"settings\":{\"vnext\":");
    match &x.settings {
        crate::schema::OutboundConfigurationObject::Vmess { vnext } => {
            append_servers(out, vnext);
        },
    }
    append_str(out, "},\"tag\":");
    append_jstr(out, x.tag.as_str());
    append_str(out, ",\"streamSettings\":");
    append_stream_settings(out, &x.stream_settings);
    let ghost g2 = out@;
    match &x.proxy_settings {
        Some(p) => {
            append_str(out, ",\"proxySettings\":");
            append_str(out, "{\"tag\":");
            append_jstr(out, p.tag.as_str());
            push_char(out, '}');
        },
        None => (),
    }
    proof {
        reveal(proxy_field);
        reveal(proxy_settings_json);
        assert(out@ =~= g2 + proxy_field(x.proxy_settings));
    }
    append_str(out, ",\"mux\":");
    append_mux(out, &x.mux);
    push_char(out, '}');
    proof {
        reveal(outbound_json);
        assert(final(out)@ =~= old(out)@ + outbound_json(*x));
    }
}

/// Writes the JSON array of inbound listeners.
pub fn append_inbounds(out: &mut String, v: &Vec<InboundObject>)
    ensures
        final(out)@ == old(out)@ + inbounds_json(v@),
{
    proof {
        reveal(inbounds_json);
    }
    let ghost elems = v@.map_values(|i: InboundObject| inbound_json(i));
    push_char(out, '[');
    let mut i: usize = 0;
    while i < v.len()
        invariant
            i <= v@.len(),
            elems == v@.map_values(|i: InboundObject| inbound_json(i)),
            out@ == old(out)@ + seq!['['] + join_comma(elems.take(i as int)),
        decreases v@.len() - i,
    {
        if i > 0 {
            push_char(out, ',');
        }
        append_inbound(out, &v[i]);
        proof {
            assert(elems.take(i + 1).drop_last() =~= elems.take(i as int));
            assert(elems.take(i + 1).last() == inbound_json(v@[i as int]));
            assert(out@ =~= old(out)@ + seq!['['] + join_comma(elems.take(i + 1)));
        }
        i += 1;
    }
    push_char(out, ']');
    proof {
        assert(elems.take(v@.len() as int) =~= elems);
        assert(final(out)@ =~= old(out)@ + inbounds_json(v@));
    }
}

/// Writes the JSON array of outbound entries.
pub fn append_outbounds(out: &mut String, v: &Vec<OutboundObject>)
    ensures
        final(out)@ == old(out)@ + outbounds_json(v@),
{
    proof {
        reveal(outbounds_json);
    }
    let ghost elems = v@.map_values(|o: OutboundObject| outbound_json(o));
    push_char(out, '[');
    let mut i: usize = 0;
    while i < v.len()
        invariant
            i <= v@.len(),
            elems == v@.map_values(|o: OutboundObject| outbound_json(o)),
            out@ == old(out)@ + seq!['['] + join_comma(elems.take(i as int)),
        decreases v@.len() - i,
    {
        if i > 0 {
            push_char(out, ',');
        }
        append_outbound(out, &v[i]);
        proof {
            assert(elems.take(i + 1).drop_last() =~= elems.take(i as int));
            assert(elems.take(i + 1).last() == outbound_json(v@[i as int]));
            assert(out@ =~= old(out)@ + seq!['['] + join_comma(elems.take(i + 1)));
        }
        i += 1;
    }
    push_char(out, ']');
    proof {
        assert(elems.take(v@.len() as int) =~= elems);
        assert(final(out)@ =~= old(out)@ + outbounds_json(v@));
    }
}

fn append_rule(out: &mut String, x: &RuleObject)
    ensures
        final(out)@ == old(out)@ + rule_json(*x),
{
    proof {
        reveal(rule_json);
        reveal(jstr_arr);
    }
    append_str(out, "{\"type\":");
    append_jstr(out, x.rule_type.as_str());
    append_str(out, ",\"inboundTag\":");
    append_jstr_array(out, &x.inbound_tag);
    append_str(out, ",\"outboundTag\":");
    append_jstr(out, x.outbound_tag.as_str());
    push_char(out, '}');
    proof {
        assert(final(out)@ =~= old(out)@ + rule_json(*x));
    }
}

fn append_routing(out: &mut String, x: &RoutingObject)
    ensures
        final(out)@ == old(out)@ + routing_json(*x),
{
    proof {
        reveal(routing_json);
    }
    append_str(out, "{\"domainStrategy\":");
    append_jstr(out, x.domain_strategy.as_str());
    append_str(out, ",\"domainMatcher\":");
    append_jstr(out, x.domain_matcher.as_str());
    append_str(out, ",\"rules\":");
    let ghost elems = x.rules@.map_values(|r: RuleObject| rule_json(r));
    let ghost base = out@;
    push_char(out, '[');
    let mut i: usize = 0;
    while i < x.rules.len()
        invariant
            i <= x.rules@.len(),
            elems == x.rules@.map_values(|r: RuleObject| rule_json(r)),
            out@ == base + seq!['['] + join_comma(elems.take(i as int)),
        decreases x.rules@.len() - i,
    {
        if i > 0 {
            push_char(out, ',');
        }
        append_rule(out, &x.rules[i]);
        proof {
            assert(elems.take(i + 1).drop_last() =~= elems.take(i as int));
            assert(elems.take(i + 1).last() == rule_json(x.rules@[i as int]));
            assert(out@ =~= base + seq!['['] + join_comma(elems.take(i + 1)));
        }
        i += 1;
    }
    push_char(out, ']');
    push_char(out, '}');
    proof {
        assert(elems.take(x.rules@.len() as int) =~= elems);
        assert(final(out)@ =~= old(out)@ + routing_json(*x));
    }
}

#[verifier::rlimit(100)]
fn append_policy(out: &mut String, x: &PolicyObject)
    ensures
        final(out)@ == old(out)@ + policy_json(*x),
{
    proof {
        reveal(policy_json);
        reveal(system_policy_json);
    }
    append_str(out, "{\"system\":");
    append_str(out, "{\"statsInboundUplink\":");
    append_bool(out, x.system.stats_inbound_uplink);
    append_str(out, ",\"statsInboundDownlink\":");
    append_bool(out, x.system.stats_inbound_downlink);
    append_str(out, ",\"statsOutboundUplink\":");
    append_bool(out, x.system.stats_outbound_uplink);
    append_str(out, ",\"statsOutboundDownlink\":");
    append_bool(out, x.system.stats_outbound_downlink);
    push_char(out, '}');
    push_char(out, '}');
    proof {
        assert(final(out)@ =~= old(out)@ + policy_json(*x));
    }
}

/// Serializes a whole configuration document to its JSON text.
pub fn config_to_json(x: &ConfigJson) -> (r: String)
    ensures
        r@ == config_json_text(*x),
{
    proof {
        reveal(config_json_text);
    }
    let mut out = String::new();
    append_str(&mut out, "{\"log\":");
    append_log(&mut out, &x.log);
    append_str(&mut out, ",\"api\":");
    append_api(&mut out, &x.api);
    append_str(&mut out, ",\"dns\":");
    append_dns(&mut out, &x.dns);
    append_str(&mut out, ",\"inbounds\":");
    append_inbounds(&mut out, &x.inbounds);
    append_str(&mut out, ",\"outbound\":");
    append_outbounds(&mut out, &x.outbound);
    append_str(&mut out, ",\"policy\":");
    append_policy(&mut out, &x.policy);
    append_str(&mut out, ",\"routing\":");
    append_routing(&mut out, &x.routing);
    append_str(&mut out, ",\"stats\":{}}");
    proof {
        assert(out@ =~= config_json_text(*x));
    }
    out
}

} // verus!
