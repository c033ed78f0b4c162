use v2neko::config::{get_default_config, AppConfig};
use v2neko::generate::{assemble, generate, get_inbound_object};
use v2neko::schema::{
    InboundConfigurationObject, MuxObject, OutboundConfigurationObject, OutboundObject, Outbounds,
    StreamSettingsObject, UserObject, VmessServerObject,
};

fn sample_settings(socks: bool, http: bool) -> AppConfig {
    let mut config = get_default_config();
    config.sock5_status = socks;
    config.http_status = http;
    config
}

fn sample_outbound() -> OutboundObject {
    OutboundObject {
        send_through: Some(String::from("0.0.0.0")),
        protocol: String::from("vmess"),
        settings: OutboundConfigurationObject::Vmess {
            vnext: vec![VmessServerObject {
                address: String::from("0kxedm1x8q8lksmj11.xingbayun.buzz"),
                port: 12003,
                users: vec![UserObject {
                    id: String::from("65a42bd8-cfe6-4cc5-ab47-04fdd4c1e799"),
                    alter_id: None,
                    level: None,
                    security: String::from("aes-128-gcm"),
                }],
            }],
        },
        tag: String::from("PROXY"),
        stream_settings: StreamSettingsObject {
            network: String::from("tcp"),
            security: None,
            tcp_settings: None,
            kcp_settings: None,
            ws_settings: None,
            http_settings: None,
            ds_settings: None,
            quic_settings: None,
            sockopt: None,
        },
        proxy_settings: None,
        mux: MuxObject {
            enabled: None,
            concurrency: None,
        },
    }
}

#[test]
fn test_generate_v2config() {
    let config = get_default_config();
    let outbounds = Outbounds {
        outbounds: vec![sample_outbound()],
    };
    let a = generate(&config, outbounds).unwrap();
    println!("{}", a);
}

#[test]
fn assemble_rejects_empty_outbound_list() {
    let config = get_default_config();
    let r = assemble(&config, Outbounds { outbounds: vec![] });
    assert!(r.is_err());
}

#[test]
fn assemble_builds_inbounds_from_toggles() {
    let both = assemble(
        &sample_settings(true, true),
        Outbounds {
            outbounds: vec![sample_outbound()],
        },
    )
    .unwrap();
    assert_eq!(both.inbounds.len(), 2);
    assert_eq!(both.inbounds[0].protocol, "socks");
    assert_eq!(both.inbounds[1].protocol, "http");
    let neither = assemble(
        &sample_settings(false, false),
        Outbounds {
            outbounds: vec![sample_outbound()],
        },
    )
    .unwrap();
    assert_eq!(neither.inbounds.len(), 0);
    let http_only = assemble(
        &sample_settings(false, true),
        Outbounds {
            outbounds: vec![sample_outbound()],
        },
    )
    .unwrap();
    assert_eq!(http_only.inbounds.len(), 1);
    assert_eq!(http_only.inbounds[0].protocol, "http");
}

#[test]
fn socks_only_settings_give_one_socks_listener() {
    let doc = assemble(
        &sample_settings(true, false),
        Outbounds {
            outbounds: vec![sample_outbound()],
        },
    )
    .unwrap();
    assert_eq!(doc.inbounds.len(), 1);
    assert_eq!(doc.inbounds[0].protocol, "socks");
    assert!(matches!(
        doc.inbounds[0].settings,
        InboundConfigurationObject::Socks { .. }
    ));
}

#[test]
fn generated_document_matches_wire_contract() {
    let config = get_default_config();
    let text = generate(
        &config,
        Outbounds {
            outbounds: vec![sample_outbound()],
        },
    )
    .unwrap();
    let doc: serde_json::Value = serde_json::from_str(&text).unwrap();
    assert_eq!(doc["log"]["log_level"], "error");
    assert_eq!(doc["api"]["tag"], "V2Neko_API");
    let services = doc["api"]["services"].as_array().unwrap();
    assert_eq!(
        services
            .iter()
            .map(|s| s.as_str().unwrap())
            .collect::<Vec<_>>(),
        vec![
            "ReflectionService",
            "HandlerService",
            "LoggerService",
            "StatsService"
        ]
    );
    assert_eq!(
        doc["dns"]["server"].as_array().unwrap().len(),
        config.dns.len()
    );
    assert_eq!(doc["inbounds"].as_array().unwrap().len(), 2);
    assert_eq!(doc["inbounds"][0]["port"], 11451);
    assert_eq!(doc["inbounds"][0]["tag"], "SOCK5_IN");
    assert_eq!(doc["inbounds"][0]["settings"]["socks"]["auth"], "noauth");
    assert_eq!(doc["inbounds"][1]["tag"], "HTTP_IN");
    let outbound = &doc["outbound"][0];
    assert_eq!(outbound["sendThrough"], "0.0.0.0");
    assert_eq!(outbound["protocol"], "vmess");
    assert_eq!(
        outbound["settings"]["vnext"][0]["address"],
        "0kxedm1x8q8lksmj11.xingbayun.buzz"
    );
    assert_eq!(outbound["settings"]["vnext"][0]["port"], 12003);
    assert_eq!(outbound["mux"], serde_json::Value::Object(Default::default()));
    assert_eq!(doc["policy"]["system"]["statsInboundUplink"], true);
    assert_eq!(doc["policy"]["system"]["statsOutboundDownlink"], true);
    assert_eq!(doc["routing"]["domainStrategy"], "mph");
    assert_eq!(doc["routing"]["rules"][0]["type"], "field");
    assert_eq!(
        doc["routing"]["rules"][0]["inboundTag"][0],
        "V2Neko_API_INBOUND"
    );
    assert_eq!(doc["routing"]["rules"][0]["outboundTag"], "V2Neko_API");
    assert_eq!(doc["stats"], serde_json::Value::Object(Default::default()));
}

#[test]
fn decoded_link_document_carries_stream_settings() {
    let config = get_default_config();
    let link = "vmess://ewogICJ2IjogIjIiLCAicHMiOiAiMiIsICJhZGQiOiAiMjAuMjQuNzMuMTY0IiwgInBvcnQiOiA4MCwgImlkIjogImM3YzFjOTg1LTk0MjEtNGQwZi1mYTE5LTBlZmRhODAzNDNhZiIsICJhaWQiOiAwLCAibmV0IjogIndzIiwgInR5cGUiOiAibm9uZSIsICJob3N0IjogIiIsICJwYXRoIjogIi8iLCAidGxzIjogIm5vbmUiCn0=";
    let text = v2neko::vmess::parse_by_share_link_base64(link, &config).unwrap();
    let doc: serde_json::Value = serde_json::from_str(&text).unwrap();
    let outbound = &doc["outbound"][0];
    assert_eq!(outbound["protocol"], "none");
    assert_eq!(outbound["tag"], "PROXY");
    assert_eq!(outbound["settings"]["vnext"][0]["address"], "20.24.73.164");
    assert_eq!(
        outbound["settings"]["vnext"][0]["users"][0]["id"],
        "c7c1c985-9421-4d0f-fa19-0efda80343af"
    );
    assert_eq!(
        outbound["settings"]["vnext"][0]["users"][0]["alterId"],
        0
    );
    assert_eq!(outbound["streamSettings"]["network"], "ws");
    assert_eq!(outbound["streamSettings"]["security"], "none");
    assert_eq!(outbound["streamSettings"]["wsSettings"]["path"], "/");
    assert_eq!(outbound["streamSettings"]["sockopt"]["tcpFastOpen"], false);
    assert_eq!(outbound["streamSettings"]["sockopt"]["tproxy"], "off");
}

#[test]
fn default_settings_hold_documented_values() {
    let config = get_default_config();
    assert_eq!(config.dns, vec!["1.1.1.1", "8.8.8.8", "8.8.4.4"]);
    assert_eq!(config.socks_port, 11451);
    assert_eq!(config.socks_bind, "127.0.0.1");
    assert_eq!(config.http_port, 11452);
    assert_eq!(config.http_bind, "127.0.0.1");
    assert!(!config.tcp_fast_open);
    assert!(config.http_status);
    assert!(config.sock5_status);
}

#[test]
fn inbound_builder_follows_toggles() {
    let v = get_inbound_object(&sample_settings(true, false));
    assert_eq!(v.len(), 1);
    assert_eq!(v[0].protocol, "socks");
    assert_eq!(v[0].sniffing.dest_override, vec!["http", "tls", "fakedns"]);
    assert!(v[0].sniffing.enabled);
}
