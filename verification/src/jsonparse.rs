//! Reading the share-link descriptor out of JSON text. The grammar reads
//! one object whose known members hold string, integer, boolean and null
//! values; a member under any other key is checked for well-formed JSON
//! of any kind and skipped. The spec functions here define the accepted
//! texts and their meaning; the executable reader below is proved to
//! agree with them exactly.

use vstd::prelude::*;
use crate::schema::Base64LinkObject;

verus! {

/// JSON whitespace.
pub open spec fn is_ws(c: char) -> bool {
    c == ' ' || c == '\t' || c == '\n' || c == '\r'
}

/// The remainder after leading whitespace.
pub open spec fn skip_ws(s: Seq<char>) -> Seq<char>
    decreases s.len(),
{
    if s.len() > 0 && is_ws(s[0]) {
        skip_ws(s.drop_first())
    } else {
        s
    }
}

/// The value of a hexadecimal digit character, if it is one.
pub open spec fn hex_val(c: char) -> Option<u32> {
    let u = c as u32;
    if 48 <= u <= 57 {
        Some((u - 48) as u32)
    } else if 97 <= u <= 102 {
        Some((u - 87) as u32)
    } else if 65 <= u <= 70 {
        Some((u - 55) as u32)
    } else {
        None
    }
}

/// The value of four hexadecimal digits at the front of `s`.
pub open spec fn spec_hex4(s: Seq<char>) -> Option<u32> {
    if s.len() < 4 {
        None
    } else {
        match (hex_val(s[0]), hex_val(s[1]), hex_val(s[2]), hex_val(s[3])) {
            (Some(a), Some(b), Some(c), Some(d)) => Some((a * 4096 + b * 256 + c * 16 + d) as u32),
            _ => None,
        }
    }
}

/// The character named by a short escape, if the letter names one.
pub open spec fn esc_short(c: char) -> Option<char> {
    if c == '"' {
        Some('"')
    } else if c == '\\' {
        Some('\\')
    } else if c == '/' {
        Some('/')
    } else if c == 'b' {
        Some('\u{8}')
    } else if c == 'f' {
        Some('\u{c}')
    } else if c == 'n' {
        Some('\n')
    } else if c == 'r' {
        Some('\r')
    } else if c == 't' {
        Some('\t')
    } else {
        None
    }
}

/// The body of a JSON string literal, read up to and over its closing
/// quote: the decoded text and the remainder. Escapes are the standard
/// ones, with surrogate pairs combined and lone surrogates rejected.
pub open spec fn spec_parse_string_body(s: Seq<char>) -> Option<(Seq<char>, Seq<char>)>
    decreases s.len(),
{
    if s.len() == 0 {
        None
    } else if s[0] == '"' {
        Some((Seq::empty(), s.drop_first()))
    } else if s[0] == '\\' {
        if s.len() < 2 {
            None
        } else if s[1] == 'u' {
            if s.len() < 6 {
                None
            } else {
                match spec_hex4(s.subrange(2, 6)) {
                    None => None,
                    Some(h) => if 0xD800 <= h < 0xDC00 {
                        if s.len() < 12 {
                            None
                        } else if s[6] != '\\' || s[7] != 'u' {
                            None
                        } else {
                            match spec_hex4(s.subrange(8, 12)) {
                                None => None,
                                Some(l) => if 0xDC00 <= l < 0xE000 {
                                    let cp = (0x10000 + (h - 0xD800) * 0x400 + (l
                                        - 0xDC00)) as u32;
                                    match spec_parse_string_body(s.skip(12)) {
                                        None => None,
                                        Some(p) => Some((seq![cp as char] + p.0, p.1)),
                                    }
                                } else {
                                    None
                                },
                            }
                        }
                    } else if 0xDC00 <= h < 0xE000 {
                        None
                    } else {
                        match spec_parse_string_body(s.skip(6)) {
                            None => None,
                            Some(p) => Some((seq![h as char] + p.0, p.1)),
                        }
                    },
                }
            }
        } else {
            match esc_short(s[1]) {
                None => None,
                Some(c) => match spec_parse_string_body(s.skip(2)) {
                    None => None,
                    Some(p) => Some((seq![c] + p.0, p.1)),
                },
            }
        }
    } else if (s[0] as u32) < 0x20 {
        None
    } else {
        match spec_parse_string_body(s.drop_first()) {
            None => None,
            Some(p) => Some((seq![s[0]] + p.0, p.1)),
        }
    }
}

/// A complete JSON string literal at the front of `s`.
pub open spec fn spec_parse_string(s: Seq<char>) -> Option<(Seq<char>, Seq<char>)> {
    if s.len() == 0 || s[0] != '"' {
        None
    } else {
        spec_parse_string_body(s.drop_first())
    }
}

/// A decimal digit.
pub open spec fn is_digit(c: char) -> bool {
    48 <= c as u32 <= 57
}

/// How many decimal digits stand at the front of `s`.
pub open spec fn digit_count(s: Seq<char>) -> int
    decreases s.len(),
{
    if s.len() > 0 && is_digit(s[0]) {
        1 + digit_count(s.drop_first())
    } else {
        0
    }
}

/// The value of a run of decimal digits.
pub open spec fn digits_val(ds: Seq<char>) -> int
    decreases ds.len(),
{
    if ds.len() == 0 {
        0
    } else {
        digits_val(ds.drop_last()) * 10 + (ds.last() as u32 - 48)
    }
}

/// A JSON integer at the front of `s`: an optional minus sign and digits
/// without a redundant leading zero, not continued by a fraction or an
/// exponent, with a magnitude no greater than `i64::MAX`.
pub open spec fn spec_parse_number(s: Seq<char>) -> Option<(int, Seq<char>)> {
    let neg = s.len() > 0 && s[0] == '-';
    let t = if neg {
        s.drop_first()
    } else {
        s
    };
    let n = digit_count(t);
    if n == 0 {
        None
    } else {
        let ds = t.take(n);
        let rest = t.skip(n);
        if n > 1 && ds[0] == '0' {
            None
        } else if rest.len() > 0 && (rest[0] == '.' || rest[0] == 'e' || rest[0] == 'E') {
            None
        } else {
            let m = digits_val(ds);
            if m > 0x7fff_ffff_ffff_ffff {
                None
            } else {
                Some((if neg { -m } else { m }, rest))
            }
        }
    }
}

/// A scalar JSON value, as the descriptor grammar knows them.
pub enum JsonScalar {
    Text(Seq<char>),
    Num(int),
    Flag(bool),
    Null,
}

/// A scalar JSON value at the front of `s`.
pub open spec fn spec_parse_value(s: Seq<char>) -> Option<(JsonScalar, Seq<char>)> {
    if s.len() == 0 {
        None
    } else if s[0] == '"' {
        match spec_parse_string(s) {
            None => None,
            Some(p) => Some((JsonScalar::Text(p.0), p.1)),
        }
    } else if s[0] == '-' || is_digit(s[0]) {
        match spec_parse_number(s) {
            None => None,
            Some(p) => Some((JsonScalar::Num(p.0), p.1)),
        }
    } else if s.len() >= 4 && s[0] == 't' && s[1] == 'r' && s[2] == 'u' && s[3] == 'e' {
        Some((JsonScalar::Flag(true), s.skip(4)))
    } else if s.len() >= 5 && s[0] == 'f' && s[1] == 'a' && s[2] == 'l' && s[3] == 's' && s[4]
        == 'e' {
        Some((JsonScalar::Flag(false), s.skip(5)))
    } else if s.len() >= 4 && s[0] == 'n' && s[1] == 'u' && s[2] == 'l' && s[3] == 'l' {
        Some((JsonScalar::Null, s.skip(4)))
    } else {
        None
    }
}

/// The member keys the descriptor grammar reads. Every other key is
/// ignored: its value is checked for well-formed JSON and skipped.
pub open spec fn known_key(k: Seq<char>) -> bool {
    ||| k == "v"@
    ||| k == "ps"@
    ||| k == "add"@
    ||| k == "port"@
    ||| k == "id"@
    ||| k == "aid"@
    ||| k == "scy"@
    ||| k == "net"@
    ||| k == "type"@
    ||| k == "host"@
    ||| k == "path"@
    ||| k == "tls"@
    ||| k == "sni"@
}

/// A full JSON number at the front of `s`, skipped without reading its
/// value: sign, integer part without a redundant leading zero, optional
/// fraction and exponent.
pub open spec fn spec_skip_number(s: Seq<char>) -> Option<Seq<char>> {
    let t = if s.len() > 0 && s[0] == '-' {
        s.drop_first()
    } else {
        s
    };
    let n = digit_count(t);
    if n == 0 {
        None
    } else if n > 1 && t[0] == '0' {
        None
    } else {
        let after_int = t.skip(n);
        let after_frac: Option<Seq<char>> = if after_int.len() > 0 && after_int[0] == '.' {
            let fd = digit_count(after_int.drop_first());
            if fd == 0 {
                None
            } else {
                Some(after_int.drop_first().skip(fd))
            }
        } else {
            Some(after_int)
        };
        match after_frac {
            None => None,
            Some(r2) => if r2.len() > 0 && (r2[0] == 'e' || r2[0] == 'E') {
                let e1 = r2.drop_first();
                let e2 = if e1.len() > 0 && (e1[0] == '+' || e1[0] == '-') {
                    e1.drop_first()
                } else {
                    e1
                };
                let ed = digit_count(e2);
                if ed == 0 {
                    None
                } else {
                    Some(e2.skip(ed))
                }
            } else {
                Some(r2)
            },
        }
    }
}

/// One complete JSON value of any kind at the front of `s`, skipped:
/// the remainder after it. `depth` bounds how deeply objects and arrays
/// may nest; `fuel` bounds the recursion and is harmless whenever it is
/// at least twice the remaining length plus two.
#[verifier::opaque]
pub open spec fn spec_skip_value(s: Seq<char>, depth: nat, fuel: nat) -> Option<Seq<char>>
    decreases fuel,
{
    if fuel == 0 || s.len() == 0 {
        None
    } else if s[0] == '"' {
        match spec_parse_string(s) {
            None => None,
            Some(p) => Some(p.1),
        }
    } else if s[0] == '-' || is_digit(s[0]) {
        spec_skip_number(s)
    } else if s.len() >= 4 && s[0] == 't' && s[1] == 'r' && s[2] == 'u' && s[3] == 'e' {
        Some(s.skip(4))
    } else if s.len() >= 5 && s[0] == 'f' && s[1] == 'a' && s[2] == 'l' && s[3] == 's' && s[4]
        == 'e' {
        Some(s.skip(5))
    } else if s.len() >= 4 && s[0] == 'n' && s[1] == 'u' && s[2] == 'l' && s[3] == 'l' {
        Some(s.skip(4))
    } else if s[0] == '{' {
        if depth == 0 {
            None
        } else {
            let t = skip_ws(s.drop_first());
            if t.len() > 0 && t[0] == '}' {
                Some(t.drop_first())
            } else {
                spec_skip_object_rest(t, (depth - 1) as nat, (fuel - 1) as nat)
            }
        }
    } else if s[0] == '[' {
        if depth == 0 {
            None
        } else {
            let t = skip_ws(s.drop_first());
            if t.len() > 0 && t[0] == ']' {
                Some(t.drop_first())
            } else {
                spec_skip_array_rest(t, (depth - 1) as nat, (fuel - 1) as nat)
            }
        }
    } else {
        None
    }
}

/// A non-empty run of skipped object members, up to and over the closing
/// brace.
#[verifier::opaque]
pub open spec fn spec_skip_object_rest(s: Seq<char>, depth: nat, fuel: nat) -> Option<Seq<char>>
    decreases fuel,
{
    if fuel == 0 {
        None
    } else {
        match spec_parse_string(s) {
            None => None,
            Some((_k, r1)) => {
                let r2 = skip_ws(r1);
                if r2.len() == 0 || r2[0] != ':' {
                    None
                } else {
                    let r3 = skip_ws(r2.drop_first());
                    match spec_skip_value(r3, depth, (fuel - 1) as nat) {
                        None => None,
                        Some(r4) => {
                            let r5 = skip_ws(r4);
                            if r5.len() == 0 {
                                None
                            } else if r5[0] == ',' {
                                spec_skip_object_rest(
                                    skip_ws(r5.drop_first()),
                                    depth,
                                    (fuel - 1) as nat,
                                )
                            } else if r5[0] == '}' {
                                Some(r5.drop_first())
                            } else {
                                None
                            }
                        },
                    }
                }
            },
        }
    }
}

/// A non-empty run of skipped array items, up to and over the closing
/// bracket.
#[verifier::opaque]
pub open spec fn spec_skip_array_rest(s: Seq<char>, depth: nat, fuel: nat) -> Option<Seq<char>>
    decreases fuel,
{
    if fuel == 0 {
        None
    } else {
        match spec_skip_value(s, depth, (fuel - 1) as nat) {
            None => None,
            Some(r1) => {
                let r2 = skip_ws(r1);
                if r2.len() == 0 {
                    None
                } else if r2[0] == ',' {
                    spec_skip_array_rest(skip_ws(r2.drop_first()), depth, (fuel - 1) as nat)
                } else if r2[0] == ']' {
                    Some(r2.drop_first())
                } else {
                    None
                }
            },
        }
    }
}

/// Which descriptor members have been seen so far, and with what values.
/// The outer `Option` of the optional members records that the key was
/// seen, so that a duplicate is caught even when its value was `null`.
pub struct FieldState {
    pub v: Option<Seq<char>>,
    pub ps: Option<Seq<char>>,
    pub add: Option<Seq<char>>,
    pub port: Option<int>,
    pub id: Option<Seq<char>>,
    pub aid: Option<int>,
    pub scy: Option<Option<Seq<char>>>,
    pub net: Option<Seq<char>>,
    pub typ: Option<Seq<char>>,
    pub host: Option<Option<Seq<char>>>,
    pub path: Option<Option<Seq<char>>>,
    pub tls: Option<Seq<char>>,
    pub sni: Option<Option<Seq<char>>>,
}

/// The state before any member has been read.
pub open spec fn empty_fields() -> FieldState {
    FieldState {
        v: None,
        ps: None,
        add: None,
        port: None,
        id: None,
        aid: None,
        scy: None,
        net: None,
        typ: None,
        host: None,
        path: None,
        tls: None,
        sni: None,
    }
}

/// One member folded into the state: known keys demand the right value
/// kind and reject duplicates. A key outside the known set leaves the
/// state unchanged; the member reader skips such members without
/// consulting this function.
pub open spec fn apply_member(st: FieldState, key: Seq<char>, val: JsonScalar) -> Option<
    FieldState,
> {
    if key == "v"@ {
        match (st.v, val) {
            (Option::None, JsonScalar::Text(x)) => Some(FieldState { v: Some(x), ..st }),
            _ => None,
        }
    } else if key == "ps"@ {
        match (st.ps, val) {
            (Option::None, JsonScalar::Text(x)) => Some(FieldState { ps: Some(x), ..st }),
            _ => None,
        }
    } else if key == "add"@ {
        match (st.add, val) {
            (Option::None, JsonScalar::Text(x)) => Some(FieldState { add: Some(x), ..st }),
            _ => None,
        }
    } else if key == "port"@ {
        match (st.port, val) {
            (Option::None, JsonScalar::Num(n)) => if -0x8000_0000 <= n <= 0x7fff_ffff {
                Some(FieldState { port: Some(n), ..st })
            } else {
                None
            },
            _ => None,
        }
    } else if key == "id"@ {
        match (st.id, val) {
            (Option::None, JsonScalar::Text(x)) => Some(FieldState { id: Some(x), ..st }),
            _ => None,
        }
    } else if key == "aid"@ {
        match (st.aid, val) {
            (Option::None, JsonScalar::Num(n)) => if -0x8000_0000 <= n <= 0x7fff_ffff {
                Some(FieldState { aid: Some(n), ..st })
            } else {
                None
            },
            _ => None,
        }
    } else if key == "scy"@ {
        match (st.scy, val) {
            (Option::None, JsonScalar::Text(x)) => Some(FieldState { scy: Some(Some(x)), ..st }),
            (Option::None, JsonScalar::Null) => Some(FieldState { scy: Some(Option::None), ..st }),
            _ => None,
        }
    } else if key == "net"@ {
        match (st.net, val) {
            (Option::None, JsonScalar::Text(x)) => Some(FieldState { net: Some(x), ..st }),
            _ => None,
        }
    } else if key == "type"@ {
        match (st.typ, val) {
            (Option::None, JsonScalar::Text(x)) => Some(FieldState { typ: Some(x), ..st }),
            _ => None,
        }
    } else if key == "host"@ {
        match (st.host, val) {
            (Option::None, JsonScalar::Text(x)) => Some(FieldState { host: Some(Some(x)), ..st }),
            (Option::None, JsonScalar::Null) => Some(FieldState { host: Some(Option::None), ..st }),
            _ => None,
        }
    } else if key == "path"@ {
        match (st.path, val) {
            (Option::None, JsonScalar::Text(x)) => Some(FieldState { path: Some(Some(x)), ..st }),
            (Option::None, JsonScalar::Null) => Some(FieldState { path: Some(Option::None), ..st }),
            _ => None,
        }
    } else if key == "tls"@ {
        match (st.tls, val) {
            (Option::None, JsonScalar::Text(x)) => Some(FieldState { tls: Some(x), ..st }),
            _ => None,
        }
    } else if key == "sni"@ {
        match (st.sni, val) {
            (Option::None, JsonScalar::Text(x)) => Some(FieldState { sni: Some(Some(x)), ..st }),
            (Option::None, JsonScalar::Null) => Some(FieldState { sni: Some(Option::None), ..st }),
            _ => None,
        }
    } else {
        Some(st)
    }
}

/// A non-empty run of members, read up to and over the closing brace:
/// `s` stands just before a member key; the result is the final state and
/// the remainder after the brace. `fuel` bounds the recursion and is
/// harmless whenever it is at least the number of members.
pub open spec fn spec_parse_members(s: Seq<char>, st: FieldState, fuel: nat) -> Option<
    (FieldState, Seq<char>),
>
    decreases fuel,
{
    if fuel == 0 {
        None
    } else {
        match spec_parse_string(s) {
            None => None,
            Some((key, r1)) => {
                let r2 = skip_ws(r1);
                if r2.len() == 0 || r2[0] != ':' {
                    None
                } else {
                    let r3 = skip_ws(r2.drop_first());
                    let stepped: Option<(FieldState, Seq<char>)> = if known_key(key) {
                        match spec_parse_value(r3) {
                            None => None,
                            Some((val, r4)) => match apply_member(st, key, val) {
                                None => None,
                                Some(st2) => Some((st2, r4)),
                            },
                        }
                    } else {
                        match spec_skip_value(r3, 127, (2 * (r3.len() + 1)) as nat) {
                            None => None,
                            Some(r4) => Some((st, r4)),
                        }
                    };
                    match stepped {
                        None => None,
                        Some((st2, r4)) => {
                            let r5 = skip_ws(r4);
                            if r5.len() == 0 {
                                None
                            } else if r5[0] == ',' {
                                spec_parse_members(
                                    skip_ws(r5.drop_first()),
                                    st2,
                                    (fuel - 1) as nat,
                                )
                            } else if r5[0] == '}' {
                                Some((st2, r5.drop_first()))
                            } else {
                                None
                            }
                        },
                    }
                }
            },
        }
    }
}

/// The descriptor's fields, as plain mathematical values.
pub struct LinkFields {
    pub v: Seq<char>,
    pub ps: Seq<char>,
    pub add: Seq<char>,
    pub port: int,
    pub id: Seq<char>,
    pub aid: int,
    pub scy: Option<Seq<char>>,
    pub net: Seq<char>,
    pub typ: Seq<char>,
    pub host: Option<Seq<char>>,
    pub path: Option<Seq<char>>,
    pub tls: Seq<char>,
    pub sni: Option<Seq<char>>,
}

/// The finished descriptor, provided every required member was present.
/// An optional member that was absent or `null` reads as `None`; an
/// absent `aid` reads as zero, the canonical alter-id default.
pub open spec fn finish_fields(st: FieldState) -> Option<LinkFields> {
    if st.v is Some && st.ps is Some && st.add is Some && st.port is Some && st.id is Some
        && st.net is Some && st.typ is Some && st.tls is Some {
        Some(
            LinkFields {
                v: st.v.unwrap(),
                ps: st.ps.unwrap(),
                add: st.add.unwrap(),
                port: st.port.unwrap(),
                id: st.id.unwrap(),
                aid: if st.aid is Some {
                    st.aid.unwrap()
                } else {
                    0
                },
                scy: if st.scy is Some {
                    st.scy.unwrap()
                } else {
                    Option::None
                },
                net: st.net.unwrap(),
                typ: st.typ.unwrap(),
                host: if st.host is Some {
                    st.host.unwrap()
                } else {
                    Option::None
                },
                path: if st.path is Some {
                    st.path.unwrap()
                } else {
                    Option::None
                },
                tls: st.tls.unwrap(),
                sni: if st.sni is Some {
                    st.sni.unwrap()
                } else {
                    Option::None
                },
            },
        )
    } else {
        None
    }
}

/// The meaning of a whole descriptor text: one JSON object holding every
/// required member, with nothing but whitespace around it.
pub open spec fn spec_parse_descriptor(s: Seq<char>) -> Option<LinkFields> {
    let t = skip_ws(s);
    if t.len() == 0 || t[0] != '{' {
        None
    } else {
        let u = skip_ws(t.drop_first());
        if u.len() > 0 && u[0] == '}' {
            if skip_ws(u.drop_first()).len() == 0 {
                finish_fields(empty_fields())
            } else {
                None
            }
        } else {
            match spec_parse_members(u, empty_fields(), (u.len() + 1) as nat) {
                None => None,
                Some((st, rest)) => if skip_ws(rest).len() == 0 {
                    finish_fields(st)
                } else {
                    None
                },
            }
        }
    }
}

/// A run of digits has a non-negative value.
pub proof fn lemma_digits_val_nonneg(ds: Seq<char>)
    requires
        forall|k: int| 0 <= k < ds.len() ==> is_digit(ds[k]),
    ensures
        digits_val(ds) >= 0,
    decreases ds.len(),
{
    if ds.len() > 0 {
        lemma_digits_val_nonneg(ds.drop_last());
    }
}

/// The value of a digit run is no less than the value of any of its
/// prefixes.
pub proof fn lemma_digits_val_take(ds: Seq<char>, k: int)
    requires
        forall|j: int| 0 <= j < ds.len() ==> is_digit(ds[j]),
        0 <= k <= ds.len(),
    ensures
        digits_val(ds.take(k)) <= digits_val(ds),
    decreases ds.len() - k,
{
    if k == ds.len() {
        assert(ds.take(k) =~= ds);
    } else {
        lemma_digits_val_take(ds, k + 1);
        let p = ds.take(k + 1);
        assert(p.drop_last() =~= ds.take(k));
        lemma_digits_val_nonneg(ds.take(k));
        assert(digits_val(p) == digits_val(ds.take(k)) * 10 + (p.last() as u32 - 48));
        assert(digits_val(ds.take(k)) <= digits_val(ds.take(k)) * 10);
    }
}

/// The fields a descriptor value carries, for relating executable values
/// to the grammar.
pub open spec fn link_view(o: Base64LinkObject) -> LinkFields {
    LinkFields {
        v: o.v@,
        ps: o.ps@,
        add: o.add@,
        port: o.port as int,
        id: o.id@,
        aid: o.aid as int,
        scy: match o.scy {
            Some(x) => Some(x@),
            Option::None => Option::None,
        },
        net: o.net@,
        typ: o.base64_type@,
        host: match o.host {
            Some(x) => Some(x@),
            Option::None => Option::None,
        },
        path: match o.path {
            Some(x) => Some(x@),
            Option::None => Option::None,
        },
        tls: o.tls@,
        sni: match o.sni {
            Some(x) => Some(x@),
            Option::None => Option::None,
        },
    }
}

/// A scalar JSON value, as the executable reader returns it.
pub enum JsonScalarValue {
    Text(String),
    Num(i64),
    Flag(bool),
    Null,
}

/// The mathematical value of an executable scalar.
pub open spec fn scalar_view(x: JsonScalarValue) -> JsonScalar {
    match x {
        JsonScalarValue::Text(s) => JsonScalar::Text(s@),
        JsonScalarValue::Num(n) => JsonScalar::Num(n as int),
        JsonScalarValue::Flag(b) => JsonScalar::Flag(b),
        JsonScalarValue::Null => JsonScalar::Null,
    }
}

fn ws_char(c: char) -> (r: bool)
    ensures
        r == is_ws(c),
{
    c == ' ' || c == '\t' || c == '\n' || c == '\r'
}

/// The position after the whitespace that starts at `i`.
fn ws_to(v: &Vec<char>, i: usize) -> (j: usize)
    requires
        i <= v@.len(),
    ensures
        i <= j <= v@.len(),
        v@.skip(j as int) == skip_ws(v@.skip(i as int)),
{
    let mut j = i;
    while j < v.len() && ws_char(v[j])
        invariant
            i <= j <= v@.len(),
            skip_ws(v@.skip(i as int)) == skip_ws(v@.skip(j as int)),
        decreases v@.len() - j,
    {
        proof {
            assert(v@.skip(j as int).drop_first() =~= v@.skip(j + 1));
        }
        j += 1;
    }
    proof {
        assert(skip_ws(v@.skip(j as int)) == v@.skip(j as int));
    }
    j
}

fn hex_val_c(c: char) -> (r: Option<u32>)
    ensures
        r == hex_val(c),
        r matches Some(x) ==> x <= 15,
{
    let u = c as u32;
    if 48 <= u && u <= 57 {
        Some(u - 48)
    } else if 97 <= u && u <= 102 {
        Some(u - 87)
    } else if 65 <= u && u <= 70 {
        Some(u - 55)
    } else {
        None
    }
}

fn parse_hex4(v: &Vec<char>, i: usize) -> (r: Option<u32>)
    requires
        i <= v@.len(),
    ensures
        r == spec_hex4(v@.skip(i as int)),
        r matches Some(h) ==> h <= 0xFFFF,
{
    if v.len() - i < 4 {
        return None;
    }
    let a = hex_val_c(v[i]);
    let b = hex_val_c(v[i + 1]);
    let c = hex_val_c(v[i + 2]);
    let d = hex_val_c(v[i + 3]);
    proof {
        let s = v@.skip(i as int);
        assert(s[0] == v@[i as int]);
        assert(s[1] == v@[i + 1]);
        assert(s[2] == v@[i + 2]);
        assert(s[3] == v@[i + 3]);
    }
    match (a, b, c, d) {
        (Some(a), Some(b), Some(c), Some(d)) => Some(a * 4096 + b * 256 + c * 16 + d),
        _ => None,
    }
}

/// Reads one escape sequence: `cur` stands on the backslash; returns the
/// decoded character and the position after the escape.
#[verifier::rlimit(60)]
fn parse_escape_at(v: &Vec<char>, cur: usize) -> (r: Option<(char, usize)>)
    requires
        cur < v@.len(),
        v@[cur as int] == '\\',
    ensures
        r matches Some(p) ==> cur < p.1 <= v@.len() && (match spec_parse_string_body(
            v@.skip(p.1 as int),
        ) {
            Some(q) => spec_parse_string_body(v@.skip(cur as int)) == Some(
                (seq![p.0] + q.0, q.1),
            ),
            None => spec_parse_string_body(v@.skip(cur as int)) is None,
        }),
        r is None ==> spec_parse_string_body(v@.skip(cur as int)) is None,
{
    let ghost s = v@.skip(cur as int);
    proof {
        assert(s[0] == v@[cur as int]);
    }
    if v.len() - cur < 2 {
        return None;
    }
    let e = v[cur + 1];
    proof {
        assert(s[1] == e);
    }
    if e == 'u' {
        if v.len() - cur < 6 {
            return None;
        }
        let h = parse_hex4(v, cur + 2);
        proof {
            let a = s.subrange(2, 6);
            let b = v@.skip(cur + 2);
            assert(a[0] == b[0] && a[1] == b[1] && a[2] == b[2] && a[3] == b[3]);
            assert(spec_hex4(a) == spec_hex4(b));
        }
        match h {
            None => None,
            Some(h) => {
                if 0xD800 <= h && h < 0xDC00 {
                    if v.len() - cur < 12 {
                        return None;
                    }
                    proof {
                        assert(s[6] == v@[cur + 6] && s[7] == v@[cur + 7]);
                    }
                    if v[cur + 6] != '\\' || v[cur + 7] != 'u' {
                        return None;
                    }
                    let l = parse_hex4(v, cur + 8);
                    proof {
                        let a = s.subrange(8, 12);
                        let b = v@.skip(cur + 8);
                        assert(a[0] == b[0] && a[1] == b[1] && a[2] == b[2] && a[3] == b[3]);
                        assert(spec_hex4(a) == spec_hex4(b));
                    }
                    match l {
                        None => None,
                        Some(l) => {
                            if !(0xDC00 <= l && l < 0xE000) {
                                return None;
                            }
                            let cp: u32 = 0x10000 + (h - 0xD800) * 0x400 + (l - 0xDC00);
                            match crate::strutil::char_from_u32(cp) {
                                Some(ch) => {
                                    proof {
                                        vstd::utf8::char_u32_cast(ch, cp);
                                        assert(s.skip(12) =~= v@.skip(cur + 12));
                                    }
                                    Some((ch, cur + 12))
                                },
                                None => {
                                    proof {
                                        assert(0xE000 <= cp <= 0x10FFFF);
                                        assert(false);
                                    }
                                    None
                                },
                            }
                        },
                    }
                } else if 0xDC00 <= h && h < 0xE000 {
                    None
                } else {
                    match crate::strutil::char_from_u32(h) {
                        Some(ch) => {
                            proof {
                                vstd::utf8::char_u32_cast(ch, h);
                                assert(s.skip(6) =~= v@.skip(cur + 6));
                            }
                            Some((ch, cur + 6))
                        },
                        None => {
                            proof {
                                assert(h < 0xD800 || 0xE000 <= h);
                                assert(false);
                            }
                            None
                        },
                    }
                }
            },
        }
    } else {
        let sc: Option<char> = if e == '"' {
            Some('"')
        } else if e == '\\' {
            Some('\\')
        } else if e == '/' {
            Some('/')
        } else if e == 'b' {
            Some('\u{8}')
        } else if e == 'f' {
            Some('\u{c}')
        } else if e == 'n' {
            Some('\n')
        } else if e == 'r' {
            Some('\r')
        } else if e == 't' {
            Some('\t')
        } else {
            None
        };
        proof {
            assert(sc == esc_short(e));
        }
        match sc {
            None => None,
            Some(ch) => {
                proof {
                    assert(s.skip(2) =~= v@.skip(cur + 2));
                }
                Some((ch, cur + 2))
            },
        }
    }
}

/// Reads a JSON string literal that starts at `i`.
#[verifier::rlimit(60)]
fn parse_string_at(v: &Vec<char>, i: usize) -> (r: Option<(String, usize)>)
    requires
        i <= v@.len(),
    ensures
        r matches Some(p) ==> i < p.1 <= v@.len() && spec_parse_string(v@.skip(i as int))
            == Some((p.0@, v@.skip(p.1 as int))),
        r is None ==> spec_parse_string(v@.skip(i as int)) is None,
{
    if i >= v.len() || v[i] != '"' {
        return None;
    }
    let mut out = String::new();
    let mut cur: usize = i + 1;
    proof {
        assert(v@.skip(i as int).drop_first() =~= v@.skip(i + 1));
    }
    loop
        invariant
            i < cur <= v@.len(),
            i < v@.len(),
            v@[i as int] == '"',
            v@.skip(i as int).drop_first() =~= v@.skip(i + 1),
            spec_parse_string_body(v@.skip(i + 1)) == (match spec_parse_string_body(
                v@.skip(cur as int),
            ) {
                Some(p) => Some((out@ + p.0, p.1)),
                None => None::<(Seq<char>, Seq<char>)>,
            }),
        decreases v@.len() - cur,
    {
        let ghost s = v@.skip(cur as int);
        if cur >= v.len() {
            return None;
        }
        let c = v[cur];
        proof {
            assert(s[0] == c);
        }
        if c == '"' {
            proof {
                assert(s.drop_first() =~= v@.skip(cur + 1));
                assert(out@ + Seq::<char>::empty() =~= out@);
            }
            return Some((out, cur + 1));
        } else if c == '\\' {
            match parse_escape_at(v, cur) {
                None => {
                    return None;
                },
                Some((ch, nc)) => {
                    let ghost o0 = out@;
                    crate::strutil::push_char(&mut out, ch);
                    proof {
                        if spec_parse_string_body(v@.skip(nc as int)) is Some {
                            let p = spec_parse_string_body(v@.skip(nc as int)).unwrap();
                            assert(o0 + (seq![ch] + p.0) =~= out@ + p.0);
                        }
                    }
                    cur = nc;
                },
            }
        } else if (c as u32) < 0x20 {
            return None;
        } else {
            let ghost o0 = out@;
            proof {
                assert(s.drop_first() =~= v@.skip(cur + 1));
            }
            crate::strutil::push_char(&mut out, c);
            proof {
                if spec_parse_string_body(v@.skip(cur + 1)) is Some {
                    let p = spec_parse_string_body(v@.skip(cur + 1)).unwrap();
                    assert(o0 + (seq![c] + p.0) =~= out@ + p.0);
                }
            }
            cur = cur + 1;
        }
    }
}

fn digit_char(c: char) -> (r: bool)
    ensures
        r == is_digit(c),
{
    let u = c as u32;
    48 <= u && u <= 57
}

/// Reads a JSON integer that starts at `i`.
#[verifier::loop_isolation(false)]
fn parse_number_at(v: &Vec<char>, i: usize) -> (r: Option<(i64, usize)>)
    requires
        i <= v@.len(),
    ensures
        r matches Some(p) ==> i < p.1 <= v@.len() && spec_parse_number(v@.skip(i as int))
            == Some((p.0 as int, v@.skip(p.1 as int))),
        r is None ==> spec_parse_number(v@.skip(i as int)) is None,
{
    let ghost s = v@.skip(i as int);
    proof {
        if i < v@.len() {
            assert(s[0] == v@[i as int]);
        }
    }
    let neg = i < v.len() && v[i] == '-';
    let start = if neg {
        i + 1
    } else {
        i
    };
    let ghost t = if neg {
        s.drop_first()
    } else {
        s
    };
    proof {
        assert(t =~= v@.skip(start as int));
    }
    let mut j = start;
    while j < v.len() && digit_char(v[j])
        invariant
            start <= j <= v@.len(),
            t =~= v@.skip(start as int),
            forall|k: int| start <= k < j ==> is_digit(v@[k]),
            digit_count(v@.skip(start as int)) == (j - start) + digit_count(v@.skip(j as int)),
        decreases v@.len() - j,
    {
        proof {
            assert(v@.skip(j as int)[0] == v@[j as int]);
            assert(v@.skip(j as int).drop_first() =~= v@.skip(j + 1));
        }
        j += 1;
    }
    proof {
        assert(digit_count(v@.skip(j as int)) == 0);
        assert(digit_count(t) == j - start);
    }
    if j == start {
        return None;
    }
    let ghost n = digit_count(t);
    let ghost ds = t.take(n);
    proof {
        assert(ds =~= v@.subrange(start as int, j as int));
        assert(t.skip(n) =~= v@.skip(j as int));
    }
    if j - start > 1 && v[start] == '0' {
        proof {
            assert(ds[0] == v@[start as int]);
        }
        return None;
    }
    proof {
        assert(ds[0] == v@[start as int]);
    }
    if j < v.len() && (v[j] == '.' || v[j] == 'e' || v[j] == 'E') {
        proof {
            assert(t.skip(n)[0] == v@[j as int]);
        }
        return None;
    }
    let mut m: i64 = 0;
    let mut k = start;
    while k < j
        invariant
            start <= k <= j <= v@.len(),
            ds =~= v@.subrange(start as int, j as int),
            forall|q: int| start <= q < j ==> is_digit(v@[q]),
            0 <= m,
            m as int == digits_val(v@.subrange(start as int, k as int)),
        decreases j - k,
    {
        proof {
            assert(is_digit(v@[k as int]));
        }
        let d: u32 = (v[k] as u32) - 48;
        proof {
            assert(d <= 9);
        }
        if m > (0x7fff_ffff_ffff_ffff - d as i64) / 10 {
            proof {
                let pre = v@.subrange(start as int, k + 1);
                assert(pre.drop_last() =~= v@.subrange(start as int, k as int));
                assert(pre.last() == v@[k as int]);
                assert(digits_val(pre) == m as int * 10 + d);
                assert(m as int * 10 + d > 0x7fff_ffff_ffff_ffff);
                assert(pre =~= ds.take(k + 1 - start));
                lemma_digits_val_take(ds, k + 1 - start);
                assert(digits_val(ds) > 0x7fff_ffff_ffff_ffff);
            }
            return None;
        }
        proof {
            let pre = v@.subrange(start as int, k + 1);
            assert(pre.drop_last() =~= v@.subrange(start as int, k as int));
            assert(pre.last() == v@[k as int]);
        }
        m = m * 10 + d as i64;
        k += 1;
    }
    proof {
        assert(v@.subrange(start as int, j as int) =~= ds);
        assert(m as int == digits_val(ds));
    }
    if neg {
        Some((-m, j))
    } else {
        Some((m, j))
    }
}

/// Reads one scalar JSON value that starts at `i`.
fn parse_value_at(v: &Vec<char>, i: usize) -> (r: Option<(JsonScalarValue, usize)>)
    requires
        i <= v@.len(),
    ensures
        r matches Some(p) ==> i < p.1 <= v@.len() && spec_parse_value(v@.skip(i as int))
            == Some((scalar_view(p.0), v@.skip(p.1 as int))),
        r is None ==> spec_parse_value(v@.skip(i as int)) is None,
{
    let ghost s = v@.skip(i as int);
    if i >= v.len() {
        return None;
    }
    let c = v[i];
    proof {
        assert(s[0] == c);
    }
    if c == '"' {
        match parse_string_at(v, i) {
            Some((txt, j)) => Some((JsonScalarValue::Text(txt), j)),
            None => None,
        }
    } else if c == '-' || digit_char(c) {
        match parse_number_at(v, i) {
            Some((n, j)) => Some((JsonScalarValue::Num(n), j)),
            None => None,
        }
    } else if c == 't' {
        if v.len() - i >= 4 && v[i + 1] == 'r' && v[i + 2] == 'u' && v[i + 3] == 'e' {
            proof {
                assert(s[1] == v@[i + 1] && s[2] == v@[i + 2] && s[3] == v@[i + 3]);
                assert(s.skip(4) =~= v@.skip(i + 4));
            }
            Some((JsonScalarValue::Flag(true), i + 4))
        } else {
            proof {
                if s.len() >= 4 {
                    assert(s[1] == v@[i + 1] && s[2] == v@[i + 2] && s[3] == v@[i + 3]);
                }
            }
            None
        }
    } else if c == 'f' {
        if v.len() - i >= 5 && v[i + 1] == 'a' && v[i + 2] == 'l' && v[i + 3] == 's' && v[i + 4]
            == 'e' {
            proof {
                assert(s[1] == v@[i + 1] && s[2] == v@[i + 2] && s[3] == v@[i + 3] && s[4] == v@[
                    i + 4]);
                assert(s.skip(5) =~= v@.skip(i + 5));
            }
            Some((JsonScalarValue::Flag(false), i + 5))
        } else {
            proof {
                if s.len() >= 5 {
                    assert(s[1] == v@[i + 1] && s[2] == v@[i + 2] && s[3] == v@[i + 3] && s[4]
                        == v@[i + 4]);
                }
            }
            None
        }
    } else if c == 'n' {
        if v.len() - i >= 4 && v[i + 1] == 'u' && v[i + 2] == 'l' && v[i + 3] == 'l' {
            proof {
                assert(s[1] == v@[i + 1] && s[2] == v@[i + 2] && s[3] == v@[i + 3]);
                assert(s.skip(4) =~= v@.skip(i + 4));
            }
            Some((JsonScalarValue::Null, i + 4))
        } else {
            proof {
                if s.len() >= 4 {
                    assert(s[1] == v@[i + 1] && s[2] == v@[i + 2] && s[3] == v@[i + 3]);
                }
            }
            None
        }
    } else {
        None
    }
}

fn digit_run_end(v: &Vec<char>, i: usize) -> (j: usize)
    requires
        i <= v@.len(),
    ensures
        i <= j <= v@.len(),
        digit_count(v@.skip(i as int)) == j - i,
{
    let mut j = i;
    while j < v.len() && digit_char(v[j])
        invariant
            i <= j <= v@.len(),
            digit_count(v@.skip(i as int)) == (j - i) + digit_count(v@.skip(j as int)),
        decreases v@.len() - j,
    {
        proof {
            assert(v@.skip(j as int)[0] == v@[j as int]);
            assert(v@.skip(j as int).drop_first() =~= v@.skip(j + 1));
        }
        j += 1;
    }
    proof {
        assert(digit_count(v@.skip(j as int)) == 0);
    }
    j
}

/// Skips a full JSON number that starts at `i`.
#[verifier::rlimit(100)]
#[verifier::loop_isolation(false)]
fn skip_number_at(v: &Vec<char>, i: usize) -> (r: Option<usize>)
    requires
        i <= v@.len(),
    ensures
        r matches Some(j) ==> i < j <= v@.len() && spec_skip_number(v@.skip(i as int)) == Some(
            v@.skip(j as int),
        ),
        r is None ==> spec_skip_number(v@.skip(i as int)) is None,
{
    let ghost s = v@.skip(i as int);
    proof {
        if i < v@.len() {
            assert(s[0] == v@[i as int]);
        }
    }
    let neg = i < v.len() && v[i] == '-';
    let start = if neg {
        i + 1
    } else {
        i
    };
    proof {
        assert((if neg {
            s.drop_first()
        } else {
            s
        }) =~= v@.skip(start as int));
    }
    let j = digit_run_end(v, start);
    if j == start {
        return None;
    }
    proof {
        assert(v@.skip(start as int)[0] == v@[start as int]);
    }
    if j - start > 1 && v[start] == '0' {
        return None;
    }
    let ghost t = v@.skip(start as int);
    let ghost n = digit_count(t);
    proof {
        assert(t.skip(n) =~= v@.skip(j as int));
    }
    let k: usize = if j < v.len() && v[j] == '.' {
        proof {
            assert(v@.skip(j as int)[0] == v@[j as int]);
            assert(v@.skip(j as int).drop_first() =~= v@.skip(j + 1));
        }
        let fe = digit_run_end(v, j + 1);
        if fe == j + 1 {
            return None;
        }
        proof {
            assert(v@.skip(j + 1).skip(digit_count(v@.skip(j + 1))) =~= v@.skip(fe as int));
        }
        fe
    } else {
        proof {
            if j < v@.len() {
                assert(v@.skip(j as int)[0] == v@[j as int]);
            }
        }
        j
    };
    if k < v.len() && (v[k] == 'e' || v[k] == 'E') {
        proof {
            assert(v@.skip(k as int)[0] == v@[k as int]);
            assert(v@.skip(k as int).drop_first() =~= v@.skip(k + 1));
        }
        let p: usize = if k + 1 < v.len() && (v[k + 1] == '+' || v[k + 1] == '-') {
            proof {
                assert(v@.skip(k + 1)[0] == v@[k + 1]);
                assert(v@.skip(k + 1).drop_first() =~= v@.skip(k + 2));
            }
            k + 2
        } else {
            proof {
                if k + 1 < v@.len() {
                    assert(v@.skip(k + 1)[0] == v@[k + 1]);
                }
            }
            k + 1
        };
        let q = digit_run_end(v, p);
        if q == p {
            return None;
        }
        proof {
            assert(v@.skip(p as int).skip(digit_count(v@.skip(p as int))) =~= v@.skip(q as int));
        }
        Some(q)
    } else {
        proof {
            if k < v@.len() {
                assert(v@.skip(k as int)[0] == v@[k as int]);
            }
        }
        Some(k)
    }
}

/// Skips one complete JSON value of any kind that starts at `i`.
#[verifier::rlimit(100)]
fn skip_value_at(v: &Vec<char>, i: usize, depth: u32, Ghost(fuel): Ghost<nat>) -> (r: Option<
    usize,
>)
    requires
        i <= v@.len(),
        fuel >= 2 * (v@.len() - i) + 2,
    ensures
        r matches Some(j) ==> i < j <= v@.len() && spec_skip_value(
            v@.skip(i as int),
            depth as nat,
            fuel,
        ) == Some(v@.skip(j as int)),
        r is None ==> spec_skip_value(v@.skip(i as int), depth as nat, fuel) is None,
    decreases fuel,
{
    proof {
        reveal(spec_skip_value);
        reveal(spec_skip_object_rest);
        reveal(spec_skip_array_rest);
    }
    let ghost s = v@.skip(i as int);
    if i >= v.len() {
        return None;
    }
    let c = v[i];
    proof {
        assert(s[0] == c);
    }
    if c == '"' {
        match parse_string_at(v, i) {
            Some((_t, j)) => Some(j),
            None => None,
        }
    } else if c == '-' || digit_char(c) {
        skip_number_at(v, i)
    } else if c == 't' {
        if v.len() - i >= 4 && v[i + 1] == 'r' && v[i + 2] == 'u' && v[i + 3] == 'e' {
            proof {
                assert(s[1] == v@[i + 1] && s[2] == v@[i + 2] && s[3] == v@[i + 3]);
                assert(s.skip(4) =~= v@.skip(i + 4));
            }
            Some(i + 4)
        } else {
            proof {
                if s.len() >= 4 {
                    assert(s[1] == v@[i + 1] && s[2] == v@[i + 2] && s[3] == v@[i + 3]);
                }
            }
            None
        }
    } else if c == 'f' {
        if v.len() - i >= 5 && v[i + 1] == 'a' && v[i + 2] == 'l' && v[i + 3] == 's' && v[i + 4]
            == 'e' {
            proof {
                assert(s[1] == v@[i + 1] && s[2] == v@[i + 2] && s[3] == v@[i + 3] && s[4] == v@[
                    i + 4]);
                assert(s.skip(5) =~= v@.skip(i + 5));
            }
            Some(i + 5)
        } else {
            proof {
                if s.len() >= 5 {
                    assert(s[1] == v@[i + 1] && s[2] == v@[i + 2] && s[3] == v@[i + 3] && s[4]
                        == v@[i + 4]);
                }
            }
            None
        }
    } else if c == 'n' {
        if v.len() - i >= 4 && v[i + 1] == 'u' && v[i + 2] == 'l' && v[i + 3] == 'l' {
            proof {
                assert(s[1] == v@[i + 1] && s[2] == v@[i + 2] && s[3] == v@[i + 3]);
                assert(s.skip(4) =~= v@.skip(i + 4));
            }
            Some(i + 4)
        } else {
            proof {
                if s.len() >= 4 {
                    assert(s[1] == v@[i + 1] && s[2] == v@[i + 2] && s[3] == v@[i + 3]);
                }
            }
            None
        }
    } else if c == '{' {
        if depth == 0 {
            return None;
        }
        proof {
            assert(s.drop_first() =~= v@.skip(i + 1));
        }
        let t0 = ws_to(v, i + 1);
        proof {
            if t0 < v@.len() {
                assert(v@.skip(t0 as int)[0] == v@[t0 as int]);
            }
        }
        if t0 < v.len() && v[t0] == '}' {
            proof {
                assert(v@.skip(t0 as int).drop_first() =~= v@.skip(t0 + 1));
            }
            Some(t0 + 1)
        } else {
            skip_object_rest_at(v, t0, depth - 1, Ghost((fuel - 1) as nat))
        }
    } else if c == '[' {
        if depth == 0 {
            return None;
        }
        proof {
            assert(s.drop_first() =~= v@.skip(i + 1));
        }
        let t0 = ws_to(v, i + 1);
        proof {
            if t0 < v@.len() {
                assert(v@.skip(t0 as int)[0] == v@[t0 as int]);
            }
        }
        if t0 < v.len() && v[t0] == ']' {
            proof {
                assert(v@.skip(t0 as int).drop_first() =~= v@.skip(t0 + 1));
            }
            Some(t0 + 1)
        } else {
            skip_array_rest_at(v, t0, depth - 1, Ghost((fuel - 1) as nat))
        }
    } else {
        None
    }
}

/// Skips the members of an object from the first key on, over the
/// closing brace.
#[verifier::rlimit(100)]
fn skip_object_rest_at(v: &Vec<char>, i: usize, depth: u32, Ghost(fuel): Ghost<nat>) -> (r:
    Option<usize>)
    requires
        i <= v@.len(),
        fuel >= 2 * (v@.len() - i) + 3,
    ensures
        r matches Some(j) ==> i < j <= v@.len() && spec_skip_object_rest(
            v@.skip(i as int),
            depth as nat,
            fuel,
        ) == Some(v@.skip(j as int)),
        r is None ==> spec_skip_object_rest(v@.skip(i as int), depth as nat, fuel) is None,
    decreases fuel,
{
    proof {
        reveal(spec_skip_value);
        reveal(spec_skip_object_rest);
        reveal(spec_skip_array_rest);
    }
    let kopt = parse_string_at(v, i);
    if kopt.is_none() {
        return None;
    }
    let (_key, p1) = kopt.unwrap();
    let c1 = ws_to(v, p1);
    if c1 >= v.len() {
        return None;
    }
    proof {
        assert(v@.skip(c1 as int)[0] == v@[c1 as int]);
    }
    if v[c1] != ':' {
        return None;
    }
    proof {
        assert(v@.skip(c1 as int).drop_first() =~= v@.skip(c1 + 1));
    }
    let c2 = ws_to(v, c1 + 1);
    let vr = skip_value_at(v, c2, depth, Ghost((fuel - 1) as nat));
    if vr.is_none() {
        return None;
    }
    let p4 = vr.unwrap();
    let c5 = ws_to(v, p4);
    if c5 >= v.len() {
        return None;
    }
    proof {
        assert(v@.skip(c5 as int)[0] == v@[c5 as int]);
        assert(v@.skip(c5 as int).drop_first() =~= v@.skip(c5 + 1));
    }
    if v[c5] == ',' {
        let c6 = ws_to(v, c5 + 1);
        skip_object_rest_at(v, c6, depth, Ghost((fuel - 1) as nat))
    } else if v[c5] == '}' {
        Some(c5 + 1)
    } else {
        None
    }
}

/// Skips the items of an array from the first item on, over the closing
/// bracket.
#[verifier::rlimit(100)]
fn skip_array_rest_at(v: &Vec<char>, i: usize, depth: u32, Ghost(fuel): Ghost<nat>) -> (r: Option<
    usize,
>)
    requires
        i <= v@.len(),
        fuel >= 2 * (v@.len() - i) + 3,
    ensures
        r matches Some(j) ==> i < j <= v@.len() && spec_skip_array_rest(
            v@.skip(i as int),
            depth as nat,
            fuel,
        ) == Some(v@.skip(j as int)),
        r is None ==> spec_skip_array_rest(v@.skip(i as int), depth as nat, fuel) is None,
    decreases fuel,
{
    proof {
        reveal(spec_skip_value);
        reveal(spec_skip_object_rest);
        reveal(spec_skip_array_rest);
    }
    let vr = skip_value_at(v, i, depth, Ghost((fuel - 1) as nat));
    if vr.is_none() {
        return None;
    }
    let p1 = vr.unwrap();
    let c2 = ws_to(v, p1);
    if c2 >= v.len() {
        return None;
    }
    proof {
        assert(v@.skip(c2 as int)[0] == v@[c2 as int]);
        assert(v@.skip(c2 as int).drop_first() =~= v@.skip(c2 + 1));
    }
    if v[c2] == ',' {
        let c3 = ws_to(v, c2 + 1);
        skip_array_rest_at(v, c3, depth, Ghost((fuel - 1) as nat))
    } else if v[c2] == ']' {
        Some(c2 + 1)
    } else {
        None
    }
}

fn known_key_c(k: &str) -> (r: bool)
    ensures
        r == known_key(k@),
{
    crate::strutil::str_eq(k, "v") || crate::strutil::str_eq(k, "ps") || crate::strutil::str_eq(
        k,
        "add",
    ) || crate::strutil::str_eq(k, "port") || crate::strutil::str_eq(k, "id")
        || crate::strutil::str_eq(k, "aid") || crate::strutil::str_eq(k, "scy")
        || crate::strutil::str_eq(k, "net") || crate::strutil::str_eq(k, "type")
        || crate::strutil::str_eq(k, "host") || crate::strutil::str_eq(k, "path")
        || crate::strutil::str_eq(k, "tls") || crate::strutil::str_eq(k, "sni")
}

/// The members gathered so far by the executable reader.
struct FieldsBuilder {
    v: Option<String>,
    ps: Option<String>,
    add: Option<String>,
    port: Option<i32>,
    id: Option<String>,
    aid: Option<i32>,
    scy: Option<Option<String>>,
    net: Option<String>,
    typ: Option<String>,
    host: Option<Option<String>>,
    path: Option<Option<String>>,
    tls: Option<String>,
    sni: Option<Option<String>>,
}

spec fn opt_view(x: Option<String>) -> Option<Seq<char>> {
    match x {
        Some(s) => Some(s@),
        Option::None => Option::None,
    }
}

spec fn opt2_view(x: Option<Option<String>>) -> Option<Option<Seq<char>>> {
    match x {
        Some(y) => Some(opt_view(y)),
        Option::None => Option::None,
    }
}

spec fn opt_int_view(x: Option<i32>) -> Option<int> {
    match x {
        Some(n) => Some(n as int),
        Option::None => Option::None,
    }
}

spec fn builder_view(b: &FieldsBuilder) -> FieldState {
    FieldState {
        v: opt_view(b.v),
        ps: opt_view(b.ps),
        add: opt_view(b.add),
        port: opt_int_view(b.port),
        id: opt_view(b.id),
        aid: opt_int_view(b.aid),
        scy: opt2_view(b.scy),
        net: opt_view(b.net),
        typ: opt_view(b.typ),
        host: opt2_view(b.host),
        path: opt2_view(b.path),
        tls: opt_view(b.tls),
        sni: opt2_view(b.sni),
    }
}

fn apply_member_exec(b: FieldsBuilder, key: &str, val: JsonScalarValue) -> (r: Option<
    FieldsBuilder,
>)
    ensures
        r matches Some(b2) ==> apply_member(builder_view(&b), key@, scalar_view(val)) == Some(
            builder_view(&b2),
        ),
        r is None ==> apply_member(builder_view(&b), key@, scalar_view(val)) is None,
{
    if crate::strutil::str_eq(key, "v") {
        if b.v.is_some() {
            return None;
        }
        match val {
            JsonScalarValue::Text(x) => Some(FieldsBuilder { v: Some(x), ..b }),
            _ => None,
        }
    } else if crate::strutil::str_eq(key, "ps") {
        if b.ps.is_some() {
            return None;
        }
        match val {
            JsonScalarValue::Text(x) => Some(FieldsBuilder { ps: Some(x), ..b }),
            _ => None,
        }
    } else if crate::strutil::str_eq(key, "add") {
        if b.add.is_some() {
            return None;
        }
        match val {
            JsonScalarValue::Text(x) => Some(FieldsBuilder { add: Some(x), ..b }),
            _ => None,
        }
    } else if crate::strutil::str_eq(key, "port") {
        if b.port.is_some() {
            return None;
        }
        match val {
            JsonScalarValue::Num(n) => if -0x8000_0000i64 <= n && n <= 0x7fff_ffffi64 {
                Some(FieldsBuilder { port: Some(n as i32), ..b })
            } else {
                None
            },
            _ => None,
        }
    } else if crate::strutil::str_eq(key, "id") {
        if b.id.is_some() {
            return None;
        }
        match val {
            JsonScalarValue::Text(x) => Some(FieldsBuilder { id: Some(x), ..b }),
            _ => None,
        }
    } else if crate::strutil::str_eq(key, "aid") {
        if b.aid.is_some() {
            return None;
        }
        match val {
            JsonScalarValue::Num(n) => if -0x8000_0000i64 <= n && n <= 0x7fff_ffffi64 {
                Some(FieldsBuilder { aid: Some(n as i32), ..b })
            } else {
                None
            },
            _ => None,
        }
    } else if crate::strutil::str_eq(key, "scy") {
        if b.scy.is_some() {
            return None;
        }
        match val {
            JsonScalarValue::Text(x) => Some(FieldsBuilder { scy: Some(Some(x)), ..b }),
            JsonScalarValue::Null => Some(FieldsBuilder { scy: Some(None), ..b }),
            _ => None,
        }
    } else if crate::strutil::str_eq(key, "net") {
        if b.net.is_some() {
            return None;
        }
        match val {
            JsonScalarValue::Text(x) => Some(FieldsBuilder { net: Some(x), ..b }),
            _ => None,
        }
    } else if crate::strutil::str_eq(key, "type") {
        if b.typ.is_some() {
            return None;
        }
        match val {
            JsonScalarValue::Text(x) => Some(FieldsBuilder { typ: Some(x), ..b }),
            _ => None,
        }
    } else if crate::strutil::str_eq(key, "host") {
        if b.host.is_some() {
            return None;
        }
        match val {
            JsonScalarValue::Text(x) => Some(FieldsBuilder { host: Some(Some(x)), ..b }),
            JsonScalarValue::Null => Some(FieldsBuilder { host: Some(None), ..b }),
            _ => None,
        }
    } else if crate::strutil::str_eq(key, "path") {
        if b.path.is_some() {
            return None;
        }
        match val {
            JsonScalarValue::Text(x) => Some(FieldsBuilder { path: Some(Some(x)), ..b }),
            JsonScalarValue::Null => Some(FieldsBuilder { path: Some(None), ..b }),
            _ => None,
        }
    } else if crate::strutil::str_eq(key, "tls") {
        if b.tls.is_some() {
            return None;
        }
        match val {
            JsonScalarValue::Text(x) => Some(FieldsBuilder { tls: Some(x), ..b }),
            _ => None,
        }
    } else if crate::strutil::str_eq(key, "sni") {
        if b.sni.is_some() {
            return None;
        }
        match val {
            JsonScalarValue::Text(x) => Some(FieldsBuilder { sni: Some(Some(x)), ..b }),
            JsonScalarValue::Null => Some(FieldsBuilder { sni: Some(None), ..b }),
            _ => None,
        }
    } else {
        Some(b)
    }
}

fn finish_build(b: FieldsBuilder) -> (r: Option<Base64LinkObject>)
    ensures
        r matches Some(o) ==> finish_fields(builder_view(&b)) == Some(link_view(o)),
        r is None ==> finish_fields(builder_view(&b)) is None,
{
    match (b.v, b.ps, b.add, b.port, b.id, b.net, b.typ, b.tls) {
        (
            Some(v),
            Some(ps),
            Some(add),
            Some(port),
            Some(id),
            Some(net),
            Some(typ),
            Some(tls),
        ) => Some(
            Base64LinkObject {
                v,
                ps,
                add,
                port,
                id,
                aid: match b.aid {
                    Some(a) => a,
                    None => 0,
                },
                scy: match b.scy {
                    Some(x) => x,
                    None => None,
                },
                net,
                base64_type: typ,
                host: match b.host {
                    Some(x) => x,
                    None => None,
                },
                path: match b.path {
                    Some(x) => x,
                    None => None,
                },
                tls,
                sni: match b.sni {
                    Some(x) => x,
                    None => None,
                },
            },
        ),
        _ => None,
    }
}

/// Reads a whole descriptor out of a character vector.
#[verifier::rlimit(100)]
#[verifier::loop_isolation(false)]
fn parse_descriptor_chars(v: &Vec<char>) -> (r: Option<Base64LinkObject>)
    ensures
        r matches Some(o) ==> spec_parse_descriptor(v@) == Some(link_view(o)),
        r is None ==> spec_parse_descriptor(v@) is None,
{
    proof {
        assert(v@.skip(0) =~= v@);
    }
    let t0 = ws_to(v, 0);
    if t0 >= v.len() {
        return None;
    }
    proof {
        assert(v@.skip(t0 as int)[0] == v@[t0 as int]);
    }
    if v[t0] != '{' {
        return None;
    }
    proof {
        assert(v@.skip(t0 as int).drop_first() =~= v@.skip(t0 + 1));
    }
    let u0 = ws_to(v, t0 + 1);
    proof {
        if u0 < v@.len() {
            assert(v@.skip(u0 as int)[0] == v@[u0 as int]);
        }
    }
    if u0 < v.len() && v[u0] == '}' {
        proof {
            assert(v@.skip(u0 as int).drop_first() =~= v@.skip(u0 + 1));
        }
        let e0 = ws_to(v, u0 + 1);
        return None;
    }
    let mut b = FieldsBuilder {
        v: None,
        ps: None,
        add: None,
        port: None,
        id: None,
        aid: None,
        scy: None,
        net: None,
        typ: None,
        host: None,
        path: None,
        tls: None,
        sni: None,
    };
    let mut cur = u0;
    let ghost fuel0: nat = (v@.skip(u0 as int).len() + 1) as nat;
    let ghost mut fuel: nat = fuel0;
    loop
        invariant
            u0 <= cur <= v@.len(),
            fuel >= v@.len() - cur + 1,
            spec_parse_members(v@.skip(u0 as int), empty_fields(), fuel0) == spec_parse_members(
                v@.skip(cur as int),
                builder_view(&b),
                fuel,
            ),
        decreases v@.len() - cur,
    {
        let kopt = parse_string_at(v, cur);
        if kopt.is_none() {
            return None;
        }
        let (key, p1) = kopt.unwrap();
        let c1 = ws_to(v, p1);
        if c1 >= v.len() {
            return None;
        }
        proof {
            assert(v@.skip(c1 as int)[0] == v@[c1 as int]);
        }
        if v[c1] != ':' {
            return None;
        }
        proof {
            assert(v@.skip(c1 as int).drop_first() =~= v@.skip(c1 + 1));
        }
        let c2 = ws_to(v, c1 + 1);
        let p4: usize = if known_key_c(key.as_str()) {
            let vopt = parse_value_at(v, c2);
            if vopt.is_none() {
                return None;
            }
            let (val, p) = vopt.unwrap();
            let bopt = apply_member_exec(b, key.as_str(), val);
            match bopt {
                None => {
                    return None;
                },
                Some(nb) => {
                    b = nb;
                },
            }
            p
        } else {
            let sopt = skip_value_at(v, c2, 127, Ghost((2 * (v@.len() - c2 + 1)) as nat));
            if sopt.is_none() {
                return None;
            }
            sopt.unwrap()
        };
        let c5 = ws_to(v, p4);
        if c5 >= v.len() {
            return None;
        }
        proof {
            assert(v@.skip(c5 as int)[0] == v@[c5 as int]);
            assert(v@.skip(c5 as int).drop_first() =~= v@.skip(c5 + 1));
        }
        if v[c5] == ',' {
            let c6 = ws_to(v, c5 + 1);
            proof {
                fuel = (fuel - 1) as nat;
            }
            cur = c6;
        } else if v[c5] == '}' {
            let e0 = ws_to(v, c5 + 1);
            if e0 < v.len() {
                return None;
            }
            proof {
                assert(v@.skip(e0 as int).len() == 0);
            }
            return finish_build(b);
        } else {
            return None;
        }
    }
}

/// Reads a whole descriptor text: the descriptor on success, and nothing
/// when the text is not a well-formed descriptor.
pub fn parse_descriptor(s: &str) -> (r: Option<Base64LinkObject>)
    ensures
        r matches Some(o) ==> spec_parse_descriptor(s@) == Some(link_view(o)),
        r is None ==> spec_parse_descriptor(s@) is None,
{
    let chars = crate::strutil::str_to_chars(s);
    parse_descriptor_chars(&chars)
}

} // verus!
