//! The share-link codec: decoding a `vmess://` link into one outbound
//! entry, and generating a link back from an entry.

use vstd::prelude::*;
use vstd::string::StrSliceExecFns;
use vstd::string::StringExecFns;
use vstd::utf8::{decode_utf8, valid_utf8};
use crate::b64::{b64_decode, b64_encode, base64_encoding};
use crate::errors::{GenerateLinkError, ParseLinkError, ParseLinkErrorCode};
use crate::jsonparse::{LinkFields, link_view, parse_descriptor, spec_parse_descriptor};
use crate::schema::{
    Base64LinkObject, MuxObject, OutboundConfigurationObject, OutboundObject,
    StreamSettingsObject, UserObject, VmessServerObject, opt_text,
};
use crate::strutil::{bytes_to_string, char_from_u32, str_eq, str_to_chars};
use crate::transport::{
    resolve_accepts, resolve_outbound_transport, resolved_stream,
};

verus! {

/// ASCII lowercase of one character.
pub open spec fn lower_char(c: char) -> char {
    let u = c as u32;
    if 65 <= u <= 90 {
        ((u + 32) as u32) as char
    } else {
        c
    }
}

/// Whether the marker `vmess://` stands at position `i`, letters compared
/// without regard to ASCII case.
pub open spec fn vmess_prefix_at(s: Seq<char>, i: int) -> bool {
    &&& 0 <= i
    &&& i + 8 <= s.len()
    &&& lower_char(s[i]) == 'v'
    &&& lower_char(s[i + 1]) == 'm'
    &&& lower_char(s[i + 2]) == 'e'
    &&& lower_char(s[i + 3]) == 's'
    &&& lower_char(s[i + 4]) == 's'
    &&& s[i + 5] == ':'
    &&& s[i + 6] == '/'
    &&& s[i + 7] == '/'
}

/// The first position from `i` on where the marker stands.
pub open spec fn find_vmess_from(s: Seq<char>, i: int) -> Option<int>
    decreases s.len() - i,
{
    if i + 8 > s.len() {
        None
    } else if vmess_prefix_at(s, i) {
        Some(i)
    } else {
        find_vmess_from(s, i + 1)
    }
}

/// The first position of the marker in the whole text.
pub open spec fn find_vmess(s: Seq<char>) -> Option<int> {
    find_vmess_from(s, 0)
}

/// The engine-side network a descriptor's `net` value names: `h2` stands
/// for the HTTP/2 transport, every other value for itself.
pub open spec fn canonical_net(net: Seq<char>) -> Seq<char> {
    if net == "h2"@ {
        "http"@
    } else {
        net
    }
}

/// Whether a decoded payload carries a descriptor the codec can turn into
/// an outbound entry.
pub open spec fn decodable_payload(w: Seq<u8>) -> bool {
    &&& valid_utf8(w)
    &&& spec_parse_descriptor(decode_utf8(w)) matches Some(f) && resolve_accepts(
        canonical_net(f.net),
        f.typ,
        f.host,
        f.path,
    )
}

/// The outbound entry built from descriptor fields: one server with one
/// user credential, the transport resolved from the flat slots, the
/// TLS value carried into the stream security field, the fixed routing
/// tag, and the descriptor's subtype doubling as the protocol name.
pub open spec fn outbound_matches(ob: OutboundObject, f: LinkFields, tfo: bool) -> bool {
    &&& ob.send_through is None
    &&& ob.protocol@ == f.typ
    &&& ob.tag@ == "PROXY"@
    &&& ob.proxy_settings is None
    &&& ob.mux.enabled is None && ob.mux.concurrency is None
    &&& ob.settings matches OutboundConfigurationObject::Vmess { vnext } && vnext@.len() == 1
        && vnext@[0].address@ == f.add && vnext@[0].port as int == f.port
        && vnext@[0].users@.len() == 1 && {
        let u = vnext@[0].users@[0];
        &&& u.id@ == f.id
        &&& u.alter_id matches Some(a) && a as int == f.aid
        &&& u.level is None
        &&& u.security@ == (match f.scy {
            Some(x) => x,
            None => "auto"@,
        })
    }
    &&& ob.stream_settings.security matches Some(sec) && sec@ == f.tls
    &&& resolved_stream(
        StreamSettingsObject { security: None, ..ob.stream_settings },
        canonical_net(f.net),
        f.typ,
        f.host,
        f.path,
        tfo,
    )
}

/// Whether an entry decoded from the payload `w` looks as the descriptor
/// inside `w` demands.
pub open spec fn decoded_outbound(ob: OutboundObject, w: Seq<u8>, tfo: bool) -> bool {
    spec_parse_descriptor(decode_utf8(w)) matches Some(f) && outbound_matches(ob, f, tfo)
}

fn lower_c(c: char) -> (r: char)
    ensures
        r == lower_char(c),
{
    let u = c as u32;
    if 65 <= u && u <= 90 {
        match char_from_u32(u + 32) {
            Some(c2) => {
                proof {
                    vstd::utf8::char_u32_cast(c2, (u + 32) as u32);
                }
                c2
            },
            None => {
                proof {
                    assert(false);
                }
                c
            },
        }
    } else {
        c
    }
}

fn find_vmess_exec(v: &Vec<char>) -> (r: Option<usize>)
    ensures
        r matches Some(i) ==> i + 8 <= v@.len() && find_vmess(v@) == Some(i as int),
        r is None ==> find_vmess(v@) is None,
{
    if v.len() < 8 {
        return None;
    }
    let mut i: usize = 0;
    while i <= v.len() - 8
        invariant
            v@.len() >= 8,
            i <= v@.len(),
            find_vmess_from(v@, 0) == find_vmess_from(v@, i as int),
        decreases v@.len() - i,
    {
        let hit = lower_c(v[i]) == 'v' && lower_c(v[i + 1]) == 'm' && lower_c(v[i + 2]) == 'e'
            && lower_c(v[i + 3]) == 's' && lower_c(v[i + 4]) == 's' && v[i + 5] == ':' && v[i + 6]
            == '/' && v[i + 7] == '/';
        if hit {
            proof {
                assert(vmess_prefix_at(v@, i as int));
            }
            return Some(i);
        }
        proof {
            assert(!vmess_prefix_at(v@, i as int));
        }
        i += 1;
    }
    None
}

/// Decodes a share link into one outbound entry: a case-insensitive
/// `vmess://` marker is located, the remainder is Base64-decoded, the
/// decoded bytes are read as a link descriptor, and the entry is built
/// from its fields with the given TCP fast-open flag in its socket
/// options. Each failure names its cause: no marker, an undecodable
/// payload, or a malformed or unresolvable descriptor.
pub fn decode_share_link(link: &str, tcp_fast_open: bool) -> (r: Result<
    OutboundObject,
    ParseLinkError,
>)
    ensures
        (find_vmess(link@) is None) <==> (r matches Err(e) && e.code
            == ParseLinkErrorCode::LinkError),
        forall|i: int|
            #![trigger link@.skip(i + 8)]
            find_vmess(link@) == Some(i) ==> ((exists|w: Seq<u8>|
                link@.skip(i + 8) == base64_encoding(w)) <==> !(r matches Err(e) && e.code
                == ParseLinkErrorCode::Base64Error)),
        forall|i: int, w: Seq<u8>|
            #![trigger link@.skip(i + 8), base64_encoding(w)]
            (find_vmess(link@) == Some(i) && link@.skip(i + 8) == base64_encoding(w)) ==> {
                &&& (decodable_payload(w) <==> r is Ok)
                &&& (r matches Ok(ob) ==> decoded_outbound(ob, w, tcp_fast_open))
            },
{
    let chars = str_to_chars(link);
    let n = link.unicode_len();
    let found = find_vmess_exec(&chars);
    match found {
        None => Err(
            ParseLinkError { msg: String::new(), code: ParseLinkErrorCode::LinkError },
        ),
        Some(i) => {
            let suffix = link.substring_char(i + 8, n);
            proof {
                assert(suffix@ =~= link@.skip(i + 8));
            }
            match b64_decode(suffix) {
                Err(msg) => Err(ParseLinkError { msg, code: ParseLinkErrorCode::Base64Error }),
                Ok(bytes) => {
                    match bytes_to_string(bytes) {
                        None => Err(
                            ParseLinkError {
                                msg: String::from_str("the decoded payload is not text"),
                                code: ParseLinkErrorCode::JsonEror,
                            },
                        ),
                        Some(text) => {
                            match parse_descriptor(text.as_str()) {
                                None => Err(
                                    ParseLinkError {
                                        msg: String::from_str("malformed link descriptor"),
                                        code: ParseLinkErrorCode::JsonEror,
                                    },
                                ),
                                Some(obj) => {
                                    let net_s: String = if str_eq(obj.net.as_str(), "h2") {
                                        String::from_str("http")
                                    } else {
                                        obj.net.clone()
                                    };
                                    let rss = resolve_outbound_transport(
                                        net_s.as_str(),
                                        obj.base64_type.as_str(),
                                        &obj.host,
                                        &obj.path,
                                        tcp_fast_open,
                                    );
                                    match rss {
                                        Err(_) => Err(
                                            ParseLinkError {
                                                msg: String::from_str(
                                                    "the descriptor names no resolvable transport",
                                                ),
                                                code: ParseLinkErrorCode::JsonEror,
                                            },
                                        ),
                                        Ok(ss0) => {
                                            let ghost resolved = ss0;
                                            let mut ss = ss0;
                                            ss.security = Some(obj.tls);
                                            let mut users: Vec<UserObject> = Vec::new();
                                            users.push(
                                                UserObject {
                                                    id: obj.id,
                                                    alter_id: Some(obj.aid),
                                                    level: None,
                                                    security: match obj.scy {
                                                        Some(s) => s,
                                                        None => String::from_str("auto"),
                                                    },
                                                },
                                            );
                                            let mut vnext: Vec<VmessServerObject> = Vec::new();
                                            vnext.push(
                                                VmessServerObject {
                                                    address: obj.add,
                                                    port: obj.port,
                                                    users,
                                                },
                                            );
                                            let ob = OutboundObject {
                                                send_through: None,
                                                protocol: obj.base64_type,
                                                settings: OutboundConfigurationObject::Vmess {
                                                    vnext,
                                                },
                                                tag: String::from_str("PROXY"),
                                                stream_settings: ss,
                                                proxy_settings: None,
                                                mux: MuxObject { enabled: None, concurrency: None },
                                            };
                                            proof {
                                                assert(StreamSettingsObject {
                                                    security: None,
                                                    ..ob.stream_settings
                                                } == resolved);
                                            }
                                            Ok(ob)
                                        },
                                    }
                                },
                            }
                        },
                    }
                },
            }
        },
    }
}

/// Decodes a share link and assembles the complete engine document around
/// the one entry it describes, under the given user settings. The decode
/// failures are those of `decode_share_link`; assembly itself cannot fail
/// here, since a decoded link always yields exactly one outbound.
pub fn parse_by_share_link_base64(link: &str, config: &crate::config::AppConfig) -> (r: Result<
    String,
    ParseLinkError,
>)
    ensures
        (find_vmess(link@) is None) <==> (r matches Err(e) && e.code
            == ParseLinkErrorCode::LinkError),
        forall|i: int|
            #![trigger link@.skip(i + 8)]
            find_vmess(link@) == Some(i) ==> ((exists|w: Seq<u8>|
                link@.skip(i + 8) == base64_encoding(w)) <==> !(r matches Err(e) && e.code
                == ParseLinkErrorCode::Base64Error)),
        forall|i: int, w: Seq<u8>|
            #![trigger link@.skip(i + 8), base64_encoding(w)]
            (find_vmess(link@) == Some(i) && link@.skip(i + 8) == base64_encoding(w)) ==> {
                &&& (decodable_payload(w) <==> r is Ok)
                &&& (r matches Ok(s) ==> exists|ob: OutboundObject, c: crate::schema::ConfigJson|
                    decoded_outbound(ob, w, config.tcp_fast_open) && crate::generate::assembled_ok(
                        c,
                        *config,
                        seq![ob],
                    ) && s@ == crate::docjson::config_json_text(c))
            },
{
    match decode_share_link(link, config.tcp_fast_open) {
        Err(e) => {
            proof {
                if find_vmess(link@) is Some {
                    let i = find_vmess(link@).unwrap();
                    assert(link@.skip(i + 8) =~= link@.skip(i + 8));
                }
            }
            Err(e)
        },
        Ok(ob) => {
            let ghost gob = ob;
            proof {
                if find_vmess(link@) is Some {
                    let i = find_vmess(link@).unwrap();
                    assert(link@.skip(i + 8) =~= link@.skip(i + 8));
                }
            }
            let mut outbounds: Vec<OutboundObject> = Vec::new();
            outbounds.push(ob);
            proof {
                assert(outbounds@ =~= seq![gob]);
            }
            match crate::generate::generate(config, crate::schema::Outbounds { outbounds }) {
                Ok(s) => Ok(s),
                Err(_) => {
                    proof {
                        assert(false);
                    }
                    Err(
                        ParseLinkError {
                            msg: String::new(),
                            code: ParseLinkErrorCode::JsonEror,
                        },
                    )
                },
            }
        },
    }
}

/// The descriptor fields a link generated from `ob` under the display
/// name `name` carries: the first server and first user, the flattened
/// transport, the `auto` cipher left implicit, and no server-name
/// override.
pub open spec fn encoded_fields(ob: OutboundObject, name: Seq<char>) -> LinkFields {
    match ob.settings {
        OutboundConfigurationObject::Vmess { vnext } => {
            let sv = vnext@[0];
            let u = sv.users@[0];
            LinkFields {
                v: "2"@,
                ps: name,
                add: sv.address@,
                port: sv.port as int,
                id: u.id@,
                aid: match u.alter_id {
                    Some(a) => a as int,
                    None => 0,
                },
                scy: if u.security@ == "auto"@ {
                    None
                } else {
                    Some(u.security@)
                },
                net: crate::transport::flat_net(ob.stream_settings),
                typ: crate::transport::flat_subtype(ob.stream_settings),
                host: crate::transport::flat_host(ob.stream_settings),
                path: crate::transport::flat_path(ob.stream_settings),
                tls: match ob.stream_settings.security {
                    Some(s) => s@,
                    None => Seq::empty(),
                },
                sni: None,
            }
        },
    }
}

/// The entries a link can be generated from: at least one server with at
/// least one user, a transport the flattening accepts, and a TLS mode.
pub open spec fn encode_accepts(ob: OutboundObject) -> bool {
    &&& ob.settings matches OutboundConfigurationObject::Vmess { vnext } && vnext@.len() > 0
        && vnext@[0].users@.len() > 0
    &&& crate::transport::flatten_accepts(ob.stream_settings)
    &&& ob.stream_settings.security is Some
}

/// Generates the share link for one outbound entry under a display name:
/// the descriptor of the entry's first server and user, serialized and
/// Base64-encoded behind the `vmess://` marker. Fails, with code 4, on a
/// structurally incomplete entry: no server, no user, a transport whose
/// declared payload is absent, or no TLS mode.
pub fn generate_share_link_base64(outbound: &OutboundObject, name: &str) -> (r: Result<
    String,
    GenerateLinkError,
>)
    ensures
        r is Ok <==> encode_accepts(*outbound),
        r matches Ok(link) ==> link@ == "vmess://"@ + base64_encoding(
            vstd::utf8::encode_utf8(
                crate::descriptor::spec_descriptor_json(encoded_fields(*outbound, name@)),
            ),
        ),
        r matches Err(e) ==> e.code == 4,
{
    let vnext = match &outbound.settings {
        OutboundConfigurationObject::Vmess { vnext } => vnext,
    };
    if vnext.len() == 0 {
        return Err(
            GenerateLinkError { msg: String::from_str("the entry has no server"), code: 4 },
        );
    }
    if vnext[0].users.len() == 0 {
        return Err(
            GenerateLinkError {
                msg: String::from_str("the entry's server has no user"),
                code: 4,
            },
        );
    }
    let ft = match crate::transport::flatten_outbound_transport(&outbound.stream_settings) {
        Ok(ft) => ft,
        Err(_) => {
            return Err(
                GenerateLinkError {
                    msg: String::from_str("the stream settings carry no flattenable transport"),
                    code: 4,
                },
            );
        },
    };
    let tls = match &outbound.stream_settings.security {
        Some(s) => s.clone(),
        None => {
            return Err(
                GenerateLinkError {
                    msg: String::from_str("the stream settings carry no TLS mode"),
                    code: 4,
                },
            );
        },
    };
    let aid = match vnext[0].users[0].alter_id {
        Some(a) => a,
        None => 0,
    };
    let scy = if str_eq(vnext[0].users[0].security.as_str(), "auto") {
        None
    } else {
        Some(vnext[0].users[0].security.clone())
    };
    let obj = Base64LinkObject {
        v: String::from_str("2"),
        ps: String::from_str(name),
        add: vnext[0].address.clone(),
        port: vnext[0].port,
        id: vnext[0].users[0].id.clone(),
        aid,
        scy,
        net: ft.net,
        base64_type: ft.subtype,
        host: ft.host,
        path: ft.path,
        tls,
        sni: None,
    };
    proof {
        assert(link_view(obj) == encoded_fields(*outbound, name@));
    }
    let json = crate::descriptor::descriptor_to_json(&obj);
    let bytes = json.as_str().as_bytes_vec();
    let b64 = b64_encode(&bytes);
    let mut out = String::from_str("vmess://");
    out.append(b64.as_str());
    Ok(out)
}

/// The entries whose generated link decodes again: encodable ones whose
/// network is one of the transports a link can carry.
pub open spec fn round_trippable(ob: OutboundObject) -> bool {
    &&& encode_accepts(ob)
    &&& {
        let nw = ob.stream_settings.network@;
        nw == "tcp"@ || nw == "kcp"@ || nw == "ws"@ || nw == "http"@ || nw == "quic"@
    }
}

/// What the round trip keeps of an entry: the first server's address and
/// port, the first user's identity and cipher, the alter-id with absence
/// read as zero, the TLS mode, the network, and the flattened transport.
pub open spec fn codec_keeps(e: OutboundObject, r: OutboundObject, tfo: bool) -> bool {
    &&& match (e.settings, r.settings) {
        (
            OutboundConfigurationObject::Vmess { vnext: ev },
            OutboundConfigurationObject::Vmess { vnext: rv },
        ) => {
            &&& rv@.len() == 1 && rv@[0].users@.len() == 1
            &&& rv@[0].address@ == ev@[0].address@
            &&& rv@[0].port == ev@[0].port
            &&& rv@[0].users@[0].id@ == ev@[0].users@[0].id@
            &&& rv@[0].users@[0].alter_id matches Some(a) && a as int == (
            match ev@[0].users@[0].alter_id {
                Some(b) => b as int,
                None => 0,
            })
            &&& rv@[0].users@[0].security@ == ev@[0].users@[0].security@
        },
    }
    &&& r.stream_settings.network@ == e.stream_settings.network@
    &&& r.protocol@ == crate::transport::flat_subtype(e.stream_settings)
    &&& resolved_stream(
        StreamSettingsObject { security: None, ..r.stream_settings },
        e.stream_settings.network@,
        crate::transport::flat_subtype(e.stream_settings),
        crate::transport::flat_host(e.stream_settings),
        crate::transport::flat_path(e.stream_settings),
        tfo,
    )
    &&& opt_text(r.stream_settings.security) == opt_text(e.stream_settings.security)
}

/// Round trip of the codec: generating a link from an entry and decoding
/// that link again gives back an entry with the same address, port, user
/// identity, cipher, canonical alter-id, TLS mode, network and flattened
/// transport, whatever the display name.
#[verifier::rlimit(100)]
pub fn reparse_generated_link(outbound: &OutboundObject, name: &str, tcp_fast_open: bool) -> (r:
    OutboundObject)
    requires
        round_trippable(*outbound),
    ensures
        codec_keeps(*outbound, r, tcp_fast_open),
{
    let ghost f = encoded_fields(*outbound, name@);
    let link = match generate_share_link_base64(outbound, name) {
        Ok(l) => l,
        Err(_) => {
            proof {
                assert(false);
            }
            String::new()
        },
    };
    proof {
        let json = crate::descriptor::spec_descriptor_json(f);
        let bytes = vstd::utf8::encode_utf8(json);
        vstd::utf8::encode_utf8_valid_utf8(json);
        vstd::utf8::encode_utf8_decode_utf8(json);
        crate::descriptor::lemma_descriptor_round_trip(f);
        reveal_strlit("vmess://");
        assert("vmess://"@.len() == 8);
        assert(link@ == "vmess://"@ + base64_encoding(bytes));
        assert(link@[0] == 'v' && link@[1] == 'm' && link@[2] == 'e' && link@[3] == 's'
            && link@[4] == 's' && link@[5] == ':' && link@[6] == '/' && link@[7] == '/');
        assert(vmess_prefix_at(link@, 0));
        assert(find_vmess(link@) == Some(0int));
        assert(link@.skip(0int + 8) =~= base64_encoding(bytes));
        reveal_strlit("tcp");
        reveal_strlit("kcp");
        reveal_strlit("ws");
        reveal_strlit("http");
        reveal_strlit("quic");
        reveal_strlit("h2");
        assert("tcp"@.len() == 3 && "kcp"@.len() == 3 && "ws"@.len() == 2 && "http"@.len() == 4
            && "quic"@.len() == 4 && "h2"@.len() == 2);
        assert("tcp"@[0] == 't' && "kcp"@[0] == 'k' && "http"@[0] == 'h' && "quic"@[0] == 'q'
            && "ws"@[0] == 'w' && "h2"@[0] == 'h');
        assert(canonical_net(f.net) == outbound.stream_settings.network@);
        assert(resolve_accepts(canonical_net(f.net), f.typ, f.host, f.path));
        assert(decodable_payload(bytes));
    }
    let back = decode_share_link(link.as_str(), tcp_fast_open);
    match back {
        Ok(ob) => {
            proof {
                let json = crate::descriptor::spec_descriptor_json(f);
                let bytes = vstd::utf8::encode_utf8(json);
                assert(link@.skip(0int + 8) == base64_encoding(bytes));
                assert(decoded_outbound(ob, bytes, tcp_fast_open));
                assert(outbound_matches(ob, f, tcp_fast_open));
            }
            ob
        },
        Err(_) => {
            proof {
                let json = crate::descriptor::spec_descriptor_json(f);
                let bytes = vstd::utf8::encode_utf8(json);
                assert(link@.skip(0int + 8) == base64_encoding(bytes));
                assert(false);
            }
            outbound.clone()
        },
    }
}

} // verus!
