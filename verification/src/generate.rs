//! The config assembler: merges user settings with outbound entries into
//! one complete engine configuration document, and serializes it.

use vstd::prelude::*;
use vstd::string::StringExecFns;
use crate::config::AppConfig;
use crate::docjson::{config_json_text, config_to_json, str_views};
use crate::errors::EmptyOutboundError;
use crate::schema::{
    ApiObject, ConfigJson, DnsObject, InboundConfigurationObject, InboundObject, LogObject,
    OutboundObject, Outbounds, PolicyObject, RoutingObject, RuleObject, SniffingObject,
    StatsObject, SystemPolicyObject,
};

verus! {

/// The sniffing block every assembled inbound carries: enabled, with the
/// http, tls and fakedns overrides.
pub open spec fn sniffing_ok(s: SniffingObject) -> bool {
    &&& s.enabled
    &&& s.dest_override@.len() == 3
    &&& s.dest_override@[0]@ == "http"@
    &&& s.dest_override@[1]@ == "tls"@
    &&& s.dest_override@[2]@ == "fakedns"@
}

/// The SOCKS listener the assembler builds: bound to the configured
/// address and port, no authentication, UDP relay on, sniffing enabled.
pub open spec fn socks_inbound_ok(ib: InboundObject, config: AppConfig) -> bool {
    &&& ib.port == config.socks_port
    &&& ib.listen@ == config.socks_bind@
    &&& ib.protocol@ == "socks"@
    &&& ib.tag@ == "SOCK5_IN"@
    &&& ib.settings matches InboundConfigurationObject::Socks { auth, udp, ip, user_level }
        && auth@ == "noauth"@ && udp && ip@ == "127.0.0.1"@ && user_level == 0
    &&& sniffing_ok(ib.sniffing)
}

/// The HTTP listener the assembler builds: bound to the configured
/// address and port, transparent proxying allowed, sniffing enabled.
pub open spec fn http_inbound_ok(ib: InboundObject, config: AppConfig) -> bool {
    &&& ib.port == config.http_port
    &&& ib.listen@ == config.http_bind@
    &&& ib.protocol@ == "http"@
    &&& ib.tag@ == "HTTP_IN"@
    &&& ib.settings matches InboundConfigurationObject::Http {
        timeout,
        accounts,
        allow_transparent,
        level,
    } && timeout == Some(0i32) && accounts is None && allow_transparent && level is None
    &&& sniffing_ok(ib.sniffing)
}

/// The inbound list the settings call for: a SOCKS listener exactly when
/// SOCKS is enabled, then an HTTP listener exactly when HTTP is enabled.
pub open spec fn inbounds_ok(v: Seq<InboundObject>, config: AppConfig) -> bool {
    if config.sock5_status && config.http_status {
        v.len() == 2 && socks_inbound_ok(v[0], config) && http_inbound_ok(v[1], config)
    } else if config.sock5_status {
        v.len() == 1 && socks_inbound_ok(v[0], config)
    } else if config.http_status {
        v.len() == 1 && http_inbound_ok(v[0], config)
    } else {
        v.len() == 0
    }
}

fn sniffing_block() -> (r: SniffingObject)
    ensures
        sniffing_ok(r),
{
    let mut dest: Vec<String> = Vec::new();
    dest.push(String::from_str("http"));
    dest.push(String::from_str("tls"));
    dest.push(String::from_str("fakedns"));
    SniffingObject { dest_override: dest, enabled: true }
}

/// Builds the inbound listeners the user settings enable: a SOCKS
/// listener only when the SOCKS toggle is set, an HTTP listener only when
/// the HTTP toggle is set.
pub fn get_inbound_object(config: &AppConfig) -> (r: Vec<InboundObject>)
    ensures
        inbounds_ok(r@, *config),
{
    let mut result: Vec<InboundObject> = Vec::new();
    if config.sock5_status {
        result.push(
            InboundObject {
                port: config.socks_port,
                listen: config.socks_bind.clone(),
                protocol: String::from_str("socks"),
                settings: InboundConfigurationObject::Socks {
                    auth: String::from_str("noauth"),
                    udp: true,
                    ip: String::from_str("127.0.0.1"),
                    user_level: 0,
                },
                tag: String::from_str("SOCK5_IN"),
                sniffing: sniffing_block(),
            },
        );
    }
    if config.http_status {
        result.push(
            InboundObject {
                port: config.http_port,
                listen: config.http_bind.clone(),
                protocol: String::from_str("http"),
                settings: InboundConfigurationObject::Http {
                    timeout: Some(0),
                    accounts: None,
                    allow_transparent: true,
                    level: None,
                },
                tag: String::from_str("HTTP_IN"),
                sniffing: sniffing_block(),
            },
        );
    }
    result
}

/// What assembly promises of the document it builds from the settings and
/// the given outbound list: error-level logging, the engine's fixed API
/// block, the settings' resolvers, the enabled inbounds, the outbounds
/// verbatim, all four statistics counters, and the fixed routing rule
/// from the API inbound tag to the API outbound tag.
pub open spec fn assembled_ok(c: ConfigJson, config: AppConfig, obs: Seq<OutboundObject>) -> bool {
    &&& c.log.log_level@ == "error"@
    &&& c.api.tag@ == "V2Neko_API"@
    &&& c.api.services@.len() == 4
    &&& c.api.services@[0]@ == "ReflectionService"@
    &&& c.api.services@[1]@ == "HandlerService"@
    &&& c.api.services@[2]@ == "LoggerService"@
    &&& c.api.services@[3]@ == "StatsService"@
    &&& str_views(c.dns.server@) == str_views(config.dns@)
    &&& inbounds_ok(c.inbounds@, config)
    &&& c.outbound@ == obs
    &&& c.policy.system.stats_inbound_uplink
    &&& c.policy.system.stats_inbound_downlink
    &&& c.policy.system.stats_outbound_uplink
    &&& c.policy.system.stats_outbound_downlink
    &&& c.routing.domain_strategy@ == "mph"@
    &&& c.routing.domain_matcher@ == "AsIs"@
    &&& c.routing.rules@.len() == 1
    &&& c.routing.rules@[0].rule_type@ == "field"@
    &&& c.routing.rules@[0].inbound_tag@.len() == 1
    &&& c.routing.rules@[0].inbound_tag@[0]@ == "V2Neko_API_INBOUND"@
    &&& c.routing.rules@[0].outbound_tag@ == "V2Neko_API"@
}

fn clone_string_vec(v: &Vec<String>) -> (r: Vec<String>)
    ensures
        r@ == v@,
{
    let mut r: Vec<String> = Vec::new();
    let mut i: usize = 0;
    while i < v.len()
        invariant
            i <= v@.len(),
            r@ == v@.take(i as int),
        decreases v@.len() - i,
    {
        r.push(v[i].clone());
        proof {
            assert(r@ =~= v@.take(i + 1));
        }
        i += 1;
    }
    proof {
        assert(v@.take(v@.len() as int) =~= v@);
    }
    r
}

/// Merges the user settings with the outbound entries into one complete
/// engine document. Fails with `EmptyOutboundError` when the outbound
/// list is empty: a document with no way to route traffic is rejected
/// before it is ever written.
pub fn assemble(config: &AppConfig, outbound: Outbounds) -> (r: Result<
    ConfigJson,
    EmptyOutboundError,
>)
    ensures
        r is Ok <==> outbound.outbounds@.len() > 0,
        r matches Ok(c) ==> assembled_ok(c, *config, outbound.outbounds@),
        r matches Err(e) ==> e == (EmptyOutboundError {  }),
{
    if outbound.outbounds.len() == 0 {
        return Err(EmptyOutboundError {  });
    }
    let mut services: Vec<String> = Vec::new();
    services.push(String::from_str("ReflectionService"));
    services.push(String::from_str("HandlerService"));
    services.push(String::from_str("LoggerService"));
    services.push(String::from_str("StatsService"));
    let mut inbound_tag: Vec<String> = Vec::new();
    inbound_tag.push(String::from_str("V2Neko_API_INBOUND"));
    let mut rules: Vec<RuleObject> = Vec::new();
    rules.push(
        RuleObject {
            rule_type: String::from_str("field"),
            inbound_tag,
            outbound_tag: String::from_str("V2Neko_API"),
        },
    );
    Ok(
        ConfigJson {
            log: LogObject { log_level: String::from_str("error") },
            api: ApiObject { tag: String::from_str("V2Neko_API"), services },
            dns: DnsObject { server: clone_string_vec(&config.dns) },
            inbounds: get_inbound_object(config),
            outbound: outbound.outbounds,
            policy: PolicyObject {
                system: SystemPolicyObject {
                    stats_inbound_uplink: true,
                    stats_inbound_downlink: true,
                    stats_outbound_uplink: true,
                    stats_outbound_downlink: true,
                },
            },
            routing: RoutingObject {
                domain_strategy: String::from_str("mph"),
                domain_matcher: String::from_str("AsIs"),
                rules,
            },
            stats: StatsObject {  },
        },
    )
}

/// Assembles the document for the given outbound list and serializes it
/// to the engine's JSON text.
pub fn generate(config: &AppConfig, outbound: Outbounds) -> (r: Result<
    String,
    EmptyOutboundError,
>)
    ensures
        r is Ok <==> outbound.outbounds@.len() > 0,
        r matches Ok(s) ==> exists|c: ConfigJson|
            assembled_ok(c, *config, outbound.outbounds@) && s@ == config_json_text(c),
        r matches Err(e) ==> e == (EmptyOutboundError {  }),
{
    match assemble(config, outbound) {
        Ok(c) => {
            let text = config_to_json(&c);
            Ok(text)
        },
        Err(e) => Err(e),
    }
}

} // verus!
