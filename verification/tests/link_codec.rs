use base64::Engine;
use v2neko::errors::ParseLinkErrorCode;
use v2neko::schema::{OutboundConfigurationObject, OutboundObject};
use v2neko::vmess::{decode_share_link, generate_share_link_base64, reparse_generated_link};

fn entry_fields(ob: &OutboundObject) -> (String, i32, String, Option<i32>, String) {
    let OutboundConfigurationObject::Vmess { vnext } = &ob.settings;
    let sv = &vnext[0];
    let u = &sv.users[0];
    (
        sv.address.clone(),
        sv.port,
        u.id.clone(),
        u.alter_id,
        u.security.clone(),
    )
}

fn link_of_json(json: &str) -> String {
    format!(
        "vmess://{}",
        base64::engine::general_purpose::STANDARD.encode(json)
    )
}

#[test]
fn test_parse_link_base64() {
    let link = "vmess://ewogICJ2IjogIjIiLAogICJwcyI6ICIyIiwKICAiYWRkIjogIjIwLjI0LjczLjE2NCIsCiAgInBvcnQiOiA4MCwKICAiaWQiOiAiYzdjMWM5ODUtOTQyMS00ZDBmLWZhMTktMGVmZGE4MDM0M2FmIiwKICAiYWlkIjogMCwKICAibmV0IjogIndzIiwKICAidHlwZSI6ICJub25lIiwKICAiaG9zdCI6ICIiLAogICJwYXRoIjogIi8iLAogICJ0bHMiOiAibm9uZSIKfQ==";
    let entry = decode_share_link(link, false).unwrap();
    let (address, port, id, alter_id, security) = entry_fields(&entry);
    assert_eq!(address, "20.24.73.164");
    assert_eq!(port, 80);
    assert_eq!(id, "c7c1c985-9421-4d0f-fa19-0efda80343af");
    assert_eq!(alter_id, Some(0));
    assert_eq!(security, "auto");
    assert_eq!(entry.stream_settings.network, "ws");
    let ws = entry.stream_settings.ws_settings.as_ref().unwrap();
    assert_eq!(ws.path.as_deref(), Some("/"));
    assert_eq!(entry.stream_settings.security.as_deref(), Some("none"));
    assert_eq!(entry.tag, "PROXY");
    let again = generate_share_link_base64(&entry, "2").unwrap();
    let back = decode_share_link(&again, false).unwrap();
    let (a2, p2, i2, al2, s2) = entry_fields(&back);
    assert_eq!(a2, address);
    assert_eq!(p2, port);
    assert_eq!(i2, id);
    assert_eq!(al2, alter_id);
    assert_eq!(s2, security);
    assert_eq!(back.stream_settings.network, "ws");
    assert_eq!(
        back.stream_settings.ws_settings.unwrap().path.as_deref(),
        Some("/")
    );
}

#[test]
fn decode_scenario_ws_link() {
    let link = "vmess://ewogICJ2IjogIjIiLCAicHMiOiAiMiIsICJhZGQiOiAiMjAuMjQuNzMuMTY0IiwgInBvcnQiOiA4MCwgImlkIjogImM3YzFjOTg1LTk0MjEtNGQwZi1mYTE5LTBlZmRhODAzNDNhZiIsICJhaWQiOiAwLCAibmV0IjogIndzIiwgInR5cGUiOiAibm9uZSIsICJob3N0IjogIiIsICJwYXRoIjogIi8iLCAidGxzIjogIm5vbmUiCn0=";
    let entry = decode_share_link(link, false).unwrap();
    let (address, port, id, _, _) = entry_fields(&entry);
    assert_eq!(address, "20.24.73.164");
    assert_eq!(port, 80);
    assert_eq!(id, "c7c1c985-9421-4d0f-fa19-0efda80343af");
    assert_eq!(entry.stream_settings.network, "ws");
    assert_eq!(
        entry
            .stream_settings
            .ws_settings
            .unwrap()
            .path
            .as_deref(),
        Some("/")
    );
}

#[test]
fn decode_rejects_text_without_marker() {
    let err = decode_share_link("not-a-vmess-link", false).unwrap_err();
    assert!(matches!(err.code, ParseLinkErrorCode::LinkError));
}

#[test]
fn decode_rejects_bad_base64() {
    let err = decode_share_link("vmess://!!!not-base64!!!", false).unwrap_err();
    assert!(matches!(err.code, ParseLinkErrorCode::Base64Error));
}

#[test]
fn decode_rejects_malformed_descriptor() {
    let err = decode_share_link(&link_of_json("{\"v\": \"2\""), false).unwrap_err();
    assert!(matches!(err.code, ParseLinkErrorCode::JsonEror));
}

#[test]
fn decode_rejects_missing_required_member() {
    let json = "{\"v\":\"2\",\"ps\":\"x\",\"add\":\"a\",\"port\":1,\"id\":\"u\",\"aid\":0,\"net\":\"ws\",\"tls\":\"none\"}";
    let err = decode_share_link(&link_of_json(json), false).unwrap_err();
    assert!(matches!(err.code, ParseLinkErrorCode::JsonEror));
}

#[test]
fn decode_rejects_unknown_tcp_subtype() {
    let json = "{\"v\":\"2\",\"ps\":\"x\",\"add\":\"a\",\"port\":1,\"id\":\"u\",\"aid\":0,\"net\":\"tcp\",\"type\":\"xyz\",\"host\":\"\",\"path\":\"\",\"tls\":\"none\"}";
    let err = decode_share_link(&link_of_json(json), false).unwrap_err();
    assert!(matches!(err.code, ParseLinkErrorCode::JsonEror));
}

#[test]
fn decode_defaults_absent_alter_id_to_zero() {
    let json = "{\"v\":\"2\",\"ps\":\"x\",\"add\":\"a\",\"port\":1,\"id\":\"u\",\"net\":\"ws\",\"type\":\"none\",\"host\":\"\",\"path\":\"/\",\"tls\":\"none\"}";
    let entry = decode_share_link(&link_of_json(json), false).unwrap();
    let (_, _, _, alter_id, _) = entry_fields(&entry);
    assert_eq!(alter_id, Some(0));
}

#[test]
fn decode_skips_unknown_members_with_composite_values() {
    let json = "{\"v\":\"2\",\"extra\":{\"a\":[1,2.5e3,{\"b\":null}],\"c\":\"s\"},\"ps\":\"x\",\"add\":\"a\",\"list\":[[],{},true],\"port\":1,\"id\":\"u\",\"aid\":0,\"big\":99999999999999999999999,\"net\":\"ws\",\"type\":\"none\",\"host\":\"\",\"path\":\"/\",\"tls\":\"none\"}";
    let entry = decode_share_link(&link_of_json(json), false).unwrap();
    let (address, port, ..) = entry_fields(&entry);
    assert_eq!(address, "a");
    assert_eq!(port, 1);
}

#[test]
fn decode_rejects_composite_value_for_known_member() {
    let json = "{\"v\":\"2\",\"ps\":\"x\",\"add\":[\"a\"],\"port\":1,\"id\":\"u\",\"aid\":0,\"net\":\"ws\",\"type\":\"none\",\"host\":\"\",\"path\":\"/\",\"tls\":\"none\"}";
    let err = decode_share_link(&link_of_json(json), false).unwrap_err();
    assert!(matches!(err.code, ParseLinkErrorCode::JsonEror));
}

#[test]
fn decode_rejects_unterminated_composite() {
    let json = "{\"v\":\"2\",\"extra\":[1,2,\"ps\":\"x\"}";
    let err = decode_share_link(&link_of_json(json), false).unwrap_err();
    assert!(matches!(err.code, ParseLinkErrorCode::JsonEror));
}

#[test]
fn decode_rejects_unsupported_network() {
    let json = "{\"v\":\"2\",\"ps\":\"x\",\"add\":\"a\",\"port\":1,\"id\":\"u\",\"aid\":0,\"net\":\"grpc\",\"type\":\"none\",\"host\":\"\",\"path\":\"\",\"tls\":\"none\"}";
    let err = decode_share_link(&link_of_json(json), false).unwrap_err();
    assert!(matches!(err.code, ParseLinkErrorCode::JsonEror));
}

#[test]
fn decode_accepts_marker_in_upper_case() {
    let json = "{\"v\":\"2\",\"ps\":\"x\",\"add\":\"a\",\"port\":1,\"id\":\"u\",\"aid\":0,\"net\":\"tcp\",\"type\":\"none\",\"host\":\"\",\"path\":\"\",\"tls\":\"none\"}";
    let payload = base64::engine::general_purpose::STANDARD.encode(json);
    let entry = decode_share_link(&format!("VMESS://{}", payload), false).unwrap();
    assert_eq!(entry.stream_settings.network, "tcp");
}

#[test]
fn decode_defaults_cipher_and_keeps_explicit_one() {
    let json = "{\"v\":\"2\",\"ps\":\"x\",\"add\":\"a\",\"port\":1,\"id\":\"u\",\"aid\":3,\"scy\":\"aes-128-gcm\",\"net\":\"kcp\",\"type\":\"srtp\",\"host\":\"\",\"path\":\"\",\"tls\":\"tls\"}";
    let entry = decode_share_link(&link_of_json(json), false).unwrap();
    let (_, _, _, alter_id, security) = entry_fields(&entry);
    assert_eq!(alter_id, Some(3));
    assert_eq!(security, "aes-128-gcm");
    let kcp = entry.stream_settings.kcp_settings.as_ref().unwrap();
    assert_eq!(kcp.header.kcp_type, "srtp");
}

#[test]
fn round_trip_each_transport() {
    let cases = [
        ("tcp", "none", "", ""),
        ("kcp", "wechat-video", "", ""),
        ("ws", "none", "", "/chat"),
        ("h2", "none", "example.net", "/h2path"),
        ("quic", "aes-128-gcm", "aes-128-gcm", "secret-key"),
    ];
    for (net, typ, host, path) in cases {
        let json = format!(
            "{{\"v\":\"2\",\"ps\":\"p\",\"add\":\"srv.example\",\"port\":443,\"id\":\"user-id\",\"aid\":0,\"net\":\"{}\",\"type\":\"{}\",\"host\":\"{}\",\"path\":\"{}\",\"tls\":\"tls\"}}",
            net, typ, host, path
        );
        let entry = decode_share_link(&link_of_json(&json), true).unwrap();
        let back = reparse_generated_link(&entry, "p", true);
        let (a1, p1, i1, al1, s1) = entry_fields(&entry);
        let (a2, p2, i2, al2, s2) = entry_fields(&back);
        assert_eq!(a1, a2);
        assert_eq!(p1, p2);
        assert_eq!(i1, i2);
        assert_eq!(al1, al2);
        assert_eq!(s1, s2);
        assert_eq!(entry.stream_settings.network, back.stream_settings.network);
        assert_eq!(
            entry.stream_settings.security,
            back.stream_settings.security
        );
    }
}

#[test]
fn decode_reads_json_escapes() {
    let json = "{\"v\":\"2\",\"ps\":\"a\\u0041\\\"\\n\\ud83d\\ude00\",\"add\":\"srv\",\"port\":1,\"id\":\"u\",\"aid\":0,\"net\":\"ws\",\"type\":\"none\",\"host\":null,\"path\":\"/\",\"tls\":\"none\"}";
    let entry = decode_share_link(&link_of_json(json), false).unwrap();
    let link = generate_share_link_base64(&entry, "aA\"\n\u{1F600}").unwrap();
    let back = decode_share_link(&link, false).unwrap();
    let (a1, ..) = entry_fields(&entry);
    let (a2, ..) = entry_fields(&back);
    assert_eq!(a1, a2);
}

#[test]
fn decode_rejects_duplicate_member() {
    let json = "{\"v\":\"2\",\"v\":\"2\",\"ps\":\"x\",\"add\":\"a\",\"port\":1,\"id\":\"u\",\"aid\":0,\"net\":\"ws\",\"type\":\"none\",\"host\":\"\",\"path\":\"/\",\"tls\":\"none\"}";
    let err = decode_share_link(&link_of_json(json), false).unwrap_err();
    assert!(matches!(err.code, ParseLinkErrorCode::JsonEror));
}

#[test]
fn decode_rejects_port_out_of_range() {
    let json = "{\"v\":\"2\",\"ps\":\"x\",\"add\":\"a\",\"port\":4294967296,\"id\":\"u\",\"aid\":0,\"net\":\"ws\",\"type\":\"none\",\"host\":\"\",\"path\":\"/\",\"tls\":\"none\"}";
    let err = decode_share_link(&link_of_json(json), false).unwrap_err();
    assert!(matches!(err.code, ParseLinkErrorCode::JsonEror));
}

#[test]
fn decode_rejects_unpadded_payload() {
    let json = "{\"v\":\"2\",\"ps\":\"x\",\"add\":\"a\",\"port\":1,\"id\":\"u\",\"aid\":0,\"net\":\"ws\",\"type\":\"none\",\"host\":\"\",\"path\":\"/\",\"tls\":\"none\"}";
    let padded = base64::engine::general_purpose::STANDARD.encode(json);
    let stripped = padded.trim_end_matches('=');
    if stripped.len() != padded.len() {
        let err = decode_share_link(&format!("vmess://{}", stripped), false).unwrap_err();
        assert!(matches!(err.code, ParseLinkErrorCode::Base64Error));
    }
}

#[test]
fn encode_rejects_entry_without_server() {
    let entry = OutboundObject {
        send_through: None,
        protocol: String::from("vmess"),
        settings: OutboundConfigurationObject::Vmess { vnext: Vec::new() },
        tag: String::from("PROXY"),
        stream_settings: v2neko::schema::StreamSettingsObject {
            network: String::from("tcp"),
            security: Some(String::from("none")),
            tcp_settings: None,
            kcp_settings: None,
            ws_settings: None,
            http_settings: None,
            ds_settings: None,
            quic_settings: None,
            sockopt: None,
        },
        proxy_settings: None,
        mux: v2neko::schema::MuxObject {
            enabled: None,
            concurrency: None,
        },
    };
    let err = generate_share_link_base64(&entry, "x").unwrap_err();
    assert_eq!(err.code, 4);
}

#[test]
fn encoded_link_payload_is_canonical_json() {
    let json = "{\"v\":\"2\",\"ps\":\"名前\",\"add\":\"srv.example\",\"port\":443,\"id\":\"user-id\",\"aid\":0,\"net\":\"ws\",\"type\":\"none\",\"host\":\"\",\"path\":\"/a b\",\"tls\":\"tls\"}";
    let entry = decode_share_link(&link_of_json(json), false).unwrap();
    let link = generate_share_link_base64(&entry, "名前").unwrap();
    assert!(link.starts_with("vmess://"));
    let payload = base64::engine::general_purpose::STANDARD
        .decode(&link["vmess://".len()..])
        .unwrap();
    let value: serde_json::Value = serde_json::from_slice(&payload).unwrap();
    assert_eq!(value["v"], "2");
    assert_eq!(value["ps"], "名前");
    assert_eq!(value["add"], "srv.example");
    assert_eq!(value["port"], 443);
    assert_eq!(value["aid"], 0);
    assert_eq!(value["net"], "ws");
    assert_eq!(value["type"], "none");
    assert_eq!(value["path"], "/a b");
    assert_eq!(value["tls"], "tls");
    assert!(value.get("scy").is_none());
    assert!(value.get("sni").is_none());
}
