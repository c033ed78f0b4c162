//! Writing a share-link descriptor as JSON text: the member list a
//! descriptor serializes to, the text this produces, and the writer that
//! is proved to produce exactly that text.

use vstd::prelude::*;
use vstd::string::StringExecFns;
use crate::jsonparse::{
    FieldState, JsonScalar, JsonScalarValue, LinkFields, apply_member, digit_count, digits_val,
    empty_fields, esc_short, finish_fields, hex_val, is_digit, is_ws, known_key, link_view,
    scalar_view, skip_ws, spec_hex4, spec_parse_descriptor, spec_parse_members,
    spec_parse_number, spec_parse_string, spec_parse_string_body, spec_parse_value,
};
use crate::jsontext::{
    append_bool, append_int, append_jstr, append_str, dec_digit, dec_int, dec_nat, esc_char,
    hex_digit, jbool, json_escape, json_escape_first, jstr,
};
use crate::schema::Base64LinkObject;
use crate::strutil::push_char;

verus! {

/// The text of one scalar value.
pub open spec fn jscalar_text(v: JsonScalar) -> Seq<char> {
    match v {
        JsonScalar::Text(x) => jstr(x),
        JsonScalar::Num(n) => dec_int(n),
        JsonScalar::Flag(b) => jbool(b),
        JsonScalar::Null => "null"@,
    }
}

/// The text of one object member.
pub open spec fn member_text(m: (Seq<char>, JsonScalar)) -> Seq<char> {
    jstr(m.0) + seq![':'] + jscalar_text(m.1)
}

/// The comma-joined text of the members from position `i` on.
pub open spec fn members_text_from(ms: Seq<(Seq<char>, JsonScalar)>, i: int) -> Seq<char>
    decreases ms.len() - i,
{
    if i < 0 || i >= ms.len() {
        Seq::empty()
    } else if i == ms.len() - 1 {
        member_text(ms[i])
    } else {
        member_text(ms[i]) + seq![','] + members_text_from(ms, i + 1)
    }
}

/// The members a descriptor serializes to, in order: the required fields,
/// `scy` only when set, `host` and `path` always (as `null` when absent),
/// and `sni` only when set.
pub open spec fn desc_members(f: LinkFields) -> Seq<(Seq<char>, JsonScalar)> {
    seq![
        ("v"@, JsonScalar::Text(f.v)),
        ("ps"@, JsonScalar::Text(f.ps)),
        ("add"@, JsonScalar::Text(f.add)),
        ("port"@, JsonScalar::Num(f.port)),
        ("id"@, JsonScalar::Text(f.id)),
        ("aid"@, JsonScalar::Num(f.aid)),
    ] + (match f.scy {
        Some(x) => seq![("scy"@, JsonScalar::Text(x))],
        None => Seq::empty(),
    }) + seq![
        ("net"@, JsonScalar::Text(f.net)),
        ("type"@, JsonScalar::Text(f.typ)),
        (
            "host"@,
            match f.host {
                Some(x) => JsonScalar::Text(x),
                None => JsonScalar::Null,
            },
        ),
        (
            "path"@,
            match f.path {
                Some(x) => JsonScalar::Text(x),
                None => JsonScalar::Null,
            },
        ),
        ("tls"@, JsonScalar::Text(f.tls)),
    ] + (match f.sni {
        Some(x) => seq![("sni"@, JsonScalar::Text(x))],
        None => Seq::empty(),
    })
}

/// The whole descriptor text: one object of the members above.
pub open spec fn spec_descriptor_json(f: LinkFields) -> Seq<char> {
    seq!['{'] + members_text_from(desc_members(f), 0) + seq!['}']
}

/// The view of an executable member list.
pub open spec fn members_view(ms: Seq<(String, JsonScalarValue)>) -> Seq<
    (Seq<char>, JsonScalar),
> {
    ms.map_values(|m: (String, JsonScalarValue)| (m.0@, scalar_view(m.1)))
}

fn push_member(ms: &mut Vec<(String, JsonScalarValue)>, key: &str, val: JsonScalarValue)
    ensures
        final(ms)@.len() == old(ms)@.len() + 1,
        members_view(final(ms)@) =~= members_view(old(ms)@) + seq![(key@, scalar_view(val))],
{
    let ghost before = ms@;
    ms.push((String::from_str(key), val));
    proof {
        assert(ms@.drop_last() =~= before);
    }
}

/// Serializes a descriptor to its JSON text.
#[verifier::rlimit(100)]
pub fn descriptor_to_json(o: &Base64LinkObject) -> (r: String)
    ensures
        r@ == spec_descriptor_json(link_view(*o)),
{
    let ghost f = link_view(*o);
    let mut ms: Vec<(String, JsonScalarValue)> = Vec::new();
    push_member(&mut ms, "v", JsonScalarValue::Text(o.v.clone()));
    push_member(&mut ms, "ps", JsonScalarValue::Text(o.ps.clone()));
    push_member(&mut ms, "add", JsonScalarValue::Text(o.add.clone()));
    push_member(&mut ms, "port", JsonScalarValue::Num(o.port as i64));
    push_member(&mut ms, "id", JsonScalarValue::Text(o.id.clone()));
    push_member(&mut ms, "aid", JsonScalarValue::Num(o.aid as i64));
    match &o.scy {
        Some(x) => push_member(&mut ms, "scy", JsonScalarValue::Text(x.clone())),
        None => (),
    }
    push_member(&mut ms, "net", JsonScalarValue::Text(o.net.clone()));
    push_member(&mut ms, "type", JsonScalarValue::Text(o.base64_type.clone()));
    match &o.host {
        Some(x) => push_member(&mut ms, "host", JsonScalarValue::Text(x.clone())),
        None => push_member(&mut ms, "host", JsonScalarValue::Null),
    }
    match &o.path {
        Some(x) => push_member(&mut ms, "path", JsonScalarValue::Text(x.clone())),
        None => push_member(&mut ms, "path", JsonScalarValue::Null),
    }
    push_member(&mut ms, "tls", JsonScalarValue::Text(o.tls.clone()));
    match &o.sni {
        Some(x) => push_member(&mut ms, "sni", JsonScalarValue::Text(x.clone())),
        None => (),
    }
    proof {
        assert(members_view(ms@) =~= desc_members(f));
    }
    emit_members(&ms, Ghost(desc_members(f)))
}

/// Writes the object text for a member list.
fn emit_members(ms: &Vec<(String, JsonScalarValue)>, Ghost(spec_ms): Ghost<
    Seq<(Seq<char>, JsonScalar)>,
>) -> (r: String)
    requires
        members_view(ms@) == spec_ms,
        ms@.len() >= 1,
    ensures
        r@ == seq!['{'] + members_text_from(spec_ms, 0) + seq!['}'],
{
    let mut out = String::new();
    push_char(&mut out, '{');
    let mut i: usize = 0;
    while i < ms.len()
        invariant
            members_view(ms@) == spec_ms,
            ms@.len() >= 1,
            0 <= i <= ms@.len(),
            i == 0 ==> out@ == seq!['{'],
            1 <= i < ms@.len() ==> members_text_from(spec_ms, 0) == out@.skip(1) + seq![',']
                + members_text_from(spec_ms, i as int),
            i == ms@.len() ==> members_text_from(spec_ms, 0) == out@.skip(1),
            out@.len() >= 1 && out@[0] == '{',
        decreases ms@.len() - i,
    {
        let ghost before = out@;
        if i > 0 {
            push_char(&mut out, ',');
        }
        append_jstr(&mut out, ms[i].0.as_str());
        push_char(&mut out, ':');
        match &ms[i].1 {
            JsonScalarValue::Text(x) => append_jstr(&mut out, x.as_str()),
            JsonScalarValue::Num(n) => append_int(&mut out, *n),
            JsonScalarValue::Flag(b) => append_bool(&mut out, *b),
            JsonScalarValue::Null => append_str(&mut out, "null"),
        }
        proof {
            assert(spec_ms[i as int] == (ms@[i as int].0@, scalar_view(ms@[i as int].1)));
            assert(out@.skip(1) =~= before.skip(1) + out@.skip(before.len() as int));
            if i == 0 {
                assert(out@.skip(1) =~= member_text(spec_ms[0]));
            } else {
                assert(out@.skip(before.len() as int) =~= seq![','] + member_text(
                    spec_ms[i as int],
                ));
            }
            if i + 1 < ms@.len() {
                assert(members_text_from(spec_ms, i as int) == member_text(spec_ms[i as int])
                    + seq![','] + members_text_from(spec_ms, i + 1));
                if i > 0 {
                    assert(members_text_from(spec_ms, 0) =~= out@.skip(1) + seq![',']
                        + members_text_from(spec_ms, i + 1));
                }
            } else {
                assert(members_text_from(spec_ms, i as int) == member_text(spec_ms[i as int]));
                if i > 0 {
                    assert(members_text_from(spec_ms, 0) =~= out@.skip(1));
                }
            }
        }
        i += 1;
    }
    push_char(&mut out, '}');
    proof {
        assert(out@ =~= seq!['{'] + members_text_from(spec_ms, 0) + seq!['}']);
    }
    out
}

/// The member states folded left to right from position `i` on.
pub open spec fn fold_members(
    st: FieldState,
    ms: Seq<(Seq<char>, JsonScalar)>,
    i: int,
) -> Option<FieldState>
    decreases ms.len() - i,
{
    if i < 0 || i >= ms.len() {
        Some(st)
    } else {
        match apply_member(st, ms[i].0, ms[i].1) {
            Option::None => Option::None,
            Some(st2) => fold_members(st2, ms, i + 1),
        }
    }
}

/// A member the descriptor writer emits: its key is one the grammar
/// reads, and a numeric value fits what the number grammar reads back.
pub open spec fn member_ok(m: (Seq<char>, JsonScalar)) -> bool {
    &&& known_key(m.0)
    &&& (m.1 matches JsonScalar::Num(n) ==> -0x7fff_ffff_ffff_ffff <= n
        <= 0x7fff_ffff_ffff_ffff)
}

proof fn lemma_hex_digit_val(d: int)
    requires
        0 <= d < 16,
    ensures
        hex_val(hex_digit(d)) == Some(d as u32),
{
}

proof fn lemma_dec_nat_digits(m: int)
    requires
        m >= 0,
    ensures
        dec_nat(m).len() >= 1,
        (m < 10) <==> (dec_nat(m).len() == 1),
        forall|k: int| 0 <= k < dec_nat(m).len() ==> is_digit(#[trigger] dec_nat(m)[k]),
        dec_nat(m).len() > 1 ==> dec_nat(m)[0] != '0',
        digits_val(dec_nat(m)) == m,
    decreases m,
{
    if m < 10 {
        assert(dec_nat(m) == seq![dec_digit(m)]);
        assert(dec_nat(m).drop_last() =~= Seq::<char>::empty());
        assert(dec_nat(m).last() == dec_digit(m));
        assert(dec_digit(m) as u32 == 48 + m);
        assert(digits_val(dec_nat(m)) == digits_val(Seq::<char>::empty()) * 10 + (dec_digit(m)
            as u32 - 48));
    } else {
        lemma_dec_nat_digits(m / 10);
        let a = dec_nat(m / 10);
        let w = dec_nat(m);
        assert(w == a + seq![dec_digit(m % 10)]);
        assert(forall|k: int| 0 <= k < w.len() ==> is_digit(#[trigger] w[k])) by {
            assert(forall|k: int| 0 <= k < a.len() ==> w[k] == a[k]);
            assert(w[w.len() - 1] == dec_digit(m % 10));
        }
        assert(w[0] == a[0]);
        if a.len() == 1 {
            assert(m / 10 < 10);
            assert(a == seq![dec_digit(m / 10)]);
            assert(a[0] == dec_digit(m / 10));
            assert(m / 10 >= 1);
            assert(dec_digit(m / 10) as u32 == 48 + m / 10);
            assert(a[0] != '0');
        }
        assert(w.drop_last() =~= a);
        assert(w.last() == dec_digit(m % 10));
        assert(dec_digit(m % 10) as u32 == 48 + m % 10);
        assert(digits_val(w) == digits_val(a) * 10 + (dec_digit(m % 10) as u32 - 48));
    }
}

proof fn lemma_digit_count_concat(a: Seq<char>, b: Seq<char>)
    requires
        forall|k: int| 0 <= k < a.len() ==> is_digit(#[trigger] a[k]),
        b.len() == 0 || !is_digit(b[0]),
    ensures
        digit_count(a + b) == a.len(),
    decreases a.len(),
{
    if a.len() == 0 {
        assert(a + b =~= b);
    } else {
        assert((a + b)[0] == a[0]);
        assert((a + b).drop_first() =~= a.drop_first() + b);
        lemma_digit_count_concat(a.drop_first(), b);
    }
}

proof fn lemma_parse_number_inv(n: int, rest: Seq<char>)
    requires
        -0x7fff_ffff_ffff_ffff <= n <= 0x7fff_ffff_ffff_ffff,
        rest.len() > 0 ==> !is_digit(rest[0]) && rest[0] != '.' && rest[0] != 'e' && rest[0]
            != 'E',
    ensures
        spec_parse_number(dec_int(n) + rest) == Some((n, rest)),
{
    if n >= 0 {
        let ds = dec_nat(n);
        let s = dec_int(n) + rest;
        lemma_dec_nat_digits(n);
        assert(s[0] == ds[0]);
        assert(is_digit(s[0]));
        assert(s[0] != '-');
        assert(s =~= ds + rest);
        lemma_digit_count_concat(ds, rest);
        assert(digit_count(s) == ds.len());
        assert(s.take(ds.len() as int) =~= ds);
        assert(s.skip(ds.len() as int) =~= rest);
    } else {
        let m = -n;
        let ds = dec_nat(m);
        let s = dec_int(n) + rest;
        lemma_dec_nat_digits(m);
        assert(s =~= seq!['-'] + (ds + rest));
        assert(s[0] == '-');
        let t = s.drop_first();
        assert(t =~= ds + rest);
        lemma_digit_count_concat(ds, rest);
        assert(digit_count(t) == ds.len());
        assert(t.take(ds.len() as int) =~= ds);
        assert(t.skip(ds.len() as int) =~= rest);
    }
}

#[verifier::rlimit(100)]
proof fn lemma_parse_string_body_inv(x: Seq<char>, rest: Seq<char>)
    ensures
        spec_parse_string_body(json_escape(x) + seq!['"'] + rest) == Some((x, rest)),
    decreases x.len(),
{
    let s = json_escape(x) + seq!['"'] + rest;
    if x.len() == 0 {
        assert(s =~= seq!['"'] + rest);
        assert(s[0] == '"');
        assert(s.drop_first() =~= rest);
    } else {
        let c = x[0];
        json_escape_first(x);
        lemma_parse_string_body_inv(x.drop_first(), rest);
        let tail = json_escape(x.drop_first()) + seq!['"'] + rest;
        assert(s =~= esc_char(c) + tail);
        assert(seq![c] + x.drop_first() =~= x);
        if c == '"' {
            assert(s =~= seq!['\\', '"'] + tail);
            assert(s[0] == '\\' && s[1] == '"');
            assert(s.skip(2) =~= tail);
            assert(esc_short('"') == Some('"'));
        } else if c == '\\' {
            assert(s =~= seq!['\\', '\\'] + tail);
            assert(s[0] == '\\' && s[1] == '\\');
            assert(s.skip(2) =~= tail);
        } else if c == '\u{8}' {
            assert(s =~= seq!['\\', 'b'] + tail);
            assert(s[0] == '\\' && s[1] == 'b');
            assert(s.skip(2) =~= tail);
        } else if c == '\t' {
            assert(s =~= seq!['\\', 't'] + tail);
            assert(s[0] == '\\' && s[1] == 't');
            assert(s.skip(2) =~= tail);
        } else if c == '\n' {
            assert(s =~= seq!['\\', 'n'] + tail);
            assert(s[0] == '\\' && s[1] == 'n');
            assert(s.skip(2) =~= tail);
        } else if c == '\u{c}' {
            assert(s =~= seq!['\\', 'f'] + tail);
            assert(s[0] == '\\' && s[1] == 'f');
            assert(s.skip(2) =~= tail);
        } else if c == '\r' {
            assert(s =~= seq!['\\', 'r'] + tail);
            assert(s[0] == '\\' && s[1] == 'r');
            assert(s.skip(2) =~= tail);
        } else if (c as u32) < 0x20 {
            let u = c as u32;
            let hi = u as int / 16;
            let lo = u as int % 16;
            assert(s =~= seq!['\\', 'u', '0', '0', hex_digit(hi), hex_digit(lo)] + tail);
            assert(s[0] == '\\' && s[1] == 'u');
            assert(s[2] == '0' && s[3] == '0' && s[4] == hex_digit(hi) && s[5] == hex_digit(lo));
            assert(s.len() >= 7);
            let q = s.subrange(2, 6);
            assert(q[0] == '0' && q[1] == '0' && q[2] == hex_digit(hi) && q[3] == hex_digit(lo));
            lemma_hex_digit_val(hi);
            lemma_hex_digit_val(lo);
            assert(hex_val('0') == Some(0u32));
            assert(spec_hex4(q) == Some((hi * 16 + lo) as u32));
            assert(hi * 16 + lo == u) by {
                assert(u as int == 16 * (u as int / 16) + (u as int % 16));
            }
            assert(spec_hex4(q) == Some(u));
            assert(u < 0x20);
            assert(s.skip(6) =~= tail);
            vstd::utf8::char_u32_cast(c, u);
            assert(u as char == c);
        } else {
            assert(s[0] == c);
            assert(s.drop_first() =~= tail);
            assert((c as u32) >= 0x20);
        }
    }
}

proof fn lemma_parse_string_inv(x: Seq<char>, rest: Seq<char>)
    ensures
        spec_parse_string(jstr(x) + rest) == Some((x, rest)),
{
    let s = jstr(x) + rest;
    assert(s[0] == '"');
    assert(s.drop_first() =~= json_escape(x) + seq!['"'] + rest);
    lemma_parse_string_body_inv(x, rest);
}

proof fn lemma_parse_value_inv(v: JsonScalar, rest: Seq<char>)
    requires
        v matches JsonScalar::Num(n) ==> -0x7fff_ffff_ffff_ffff <= n
            <= 0x7fff_ffff_ffff_ffff,
        rest.len() > 0 ==> rest[0] == ',' || rest[0] == '}',
    ensures
        spec_parse_value(jscalar_text(v) + rest) == Some((v, rest)),
{
    let s = jscalar_text(v) + rest;
    match v {
        JsonScalar::Text(x) => {
            assert(s =~= jstr(x) + rest);
            assert(s[0] == '"');
            lemma_parse_string_inv(x, rest);
        },
        JsonScalar::Num(n) => {
            assert(s =~= dec_int(n) + rest);
            if n >= 0 {
                lemma_dec_nat_digits(n);
                assert(s[0] == dec_nat(n)[0]);
                assert(is_digit(s[0]));
            } else {
                lemma_dec_nat_digits(-n);
                assert(s[0] == '-');
            }
            assert(s[0] != '"');
            lemma_parse_number_inv(n, rest);
        },
        JsonScalar::Flag(b) => {
            if b {
                reveal_strlit("true");
                assert(s =~= "true"@ + rest);
                assert(s[0] == 't' && s[1] == 'r' && s[2] == 'u' && s[3] == 'e');
                assert(s[0] != '"' && s[0] != '-' && !is_digit(s[0]));
                assert(s.skip(4) =~= rest);
            } else {
                reveal_strlit("false");
                assert(s =~= "false"@ + rest);
                assert(s[0] == 'f' && s[1] == 'a' && s[2] == 'l' && s[3] == 's' && s[4] == 'e');
                assert(s[0] != '"' && s[0] != '-' && !is_digit(s[0]) && s[0] != 't');
                assert(s.skip(5) =~= rest);
            }
        },
        JsonScalar::Null => {
            reveal_strlit("null");
            assert(s =~= "null"@ + rest);
            assert(s[0] == 'n' && s[1] == 'u' && s[2] == 'l' && s[3] == 'l');
            assert(s[0] != '"' && s[0] != '-' && !is_digit(s[0]) && s[0] != 't' && s[0] != 'f');
            assert(s.skip(4) =~= rest);
        },
    }
}

proof fn lemma_jscalar_text_starts(v: JsonScalar)
    ensures
        jscalar_text(v).len() > 0,
        !is_ws(jscalar_text(v)[0]),
{
    match v {
        JsonScalar::Text(x) => {
            assert(jscalar_text(v)[0] == '"');
        },
        JsonScalar::Num(n) => {
            if n >= 0 {
                lemma_dec_nat_digits(n);
                assert(jscalar_text(v)[0] == dec_nat(n)[0]);
                assert(is_digit(jscalar_text(v)[0]));
            } else {
                lemma_dec_nat_digits(-n);
                assert(jscalar_text(v)[0] == '-');
            }
        },
        JsonScalar::Flag(b) => {
            if b {
                reveal_strlit("true");
                assert(jscalar_text(v)[0] == 't');
            } else {
                reveal_strlit("false");
                assert(jscalar_text(v)[0] == 'f');
            }
        },
        JsonScalar::Null => {
            reveal_strlit("null");
            assert(jscalar_text(v)[0] == 'n');
        },
    }
}

proof fn lemma_members_text_len(ms: Seq<(Seq<char>, JsonScalar)>, i: int)
    requires
        0 <= i <= ms.len(),
    ensures
        members_text_from(ms, i).len() >= ms.len() - i,
    decreases ms.len() - i,
{
    if i < ms.len() {
        lemma_jscalar_text_starts(ms[i].1);
        if i < ms.len() - 1 {
            lemma_members_text_len(ms, i + 1);
        }
    }
}

#[verifier::rlimit(100)]
proof fn lemma_members_inv(
    ms: Seq<(Seq<char>, JsonScalar)>,
    i: int,
    st: FieldState,
    rest: Seq<char>,
    fuel: nat,
)
    requires
        0 <= i < ms.len(),
        fuel >= ms.len() - i,
        forall|k: int| i <= k < ms.len() ==> member_ok(#[trigger] ms[k]),
        fold_members(st, ms, i) is Some,
    ensures
        spec_parse_members(members_text_from(ms, i) + seq!['}'] + rest, st, fuel) == Some(
            (fold_members(st, ms, i).unwrap(), rest),
        ),
    decreases ms.len() - i,
{
    let key = ms[i].0;
    let val = ms[i].1;
    let s0 = members_text_from(ms, i) + seq!['}'] + rest;
    let last = i == ms.len() - 1;
    let tail2: Seq<char> = if last {
        seq!['}'] + rest
    } else {
        seq![','] + members_text_from(ms, i + 1) + seq!['}'] + rest
    };
    assert(s0 =~= jstr(key) + (seq![':'] + (jscalar_text(val) + tail2)));
    lemma_parse_string_inv(key, seq![':'] + (jscalar_text(val) + tail2));
    let r1 = seq![':'] + (jscalar_text(val) + tail2);
    assert(spec_parse_string(s0) == Some((key, r1)));
    assert(r1[0] == ':');
    assert(!is_ws(':'));
    assert(skip_ws(r1) == r1);
    let r3 = r1.drop_first();
    assert(r3 =~= jscalar_text(val) + tail2);
    lemma_jscalar_text_starts(val);
    assert(r3[0] == jscalar_text(val)[0]);
    assert(skip_ws(r3) == r3);
    assert(tail2.len() > 0 && (tail2[0] == ',' || tail2[0] == '}'));
    lemma_parse_value_inv(val, tail2);
    assert(spec_parse_value(r3) == Some((val, tail2)));
    let st2 = apply_member(st, key, val).unwrap();
    assert(!is_ws(',') && !is_ws('}'));
    assert(skip_ws(tail2) == tail2);
    if last {
        assert(tail2[0] == '}');
        assert(tail2[0] != ',');
        assert(tail2.drop_first() =~= rest);
        assert(fold_members(st, ms, i).unwrap() == st2);
    } else {
        assert(tail2[0] == ',');
        let nxt = tail2.drop_first();
        assert(nxt =~= members_text_from(ms, i + 1) + seq!['}'] + rest);
        lemma_jscalar_text_starts(ms[i + 1].1);
        assert(members_text_from(ms, i + 1)[0] == jstr(ms[i + 1].0)[0]);
        assert(nxt[0] == '"');
        assert(!is_ws('"'));
        assert(skip_ws(nxt) == nxt);
        lemma_members_inv(ms, i + 1, st2, rest, (fuel - 1) as nat);
        assert(fold_members(st, ms, i).unwrap() == fold_members(st2, ms, i + 1).unwrap());
    }
}

#[verifier::rlimit(100)]
proof fn lemma_desc_fold(f: LinkFields)
    requires
        -0x8000_0000 <= f.port <= 0x7fff_ffff,
        -0x8000_0000 <= f.aid <= 0x7fff_ffff,
        f.sni is None,
    ensures
        forall|k: int| 0 <= k < desc_members(f).len() ==> member_ok(#[trigger] desc_members(f)[k]),
        fold_members(empty_fields(), desc_members(f), 0) is Some,
        finish_fields(fold_members(empty_fields(), desc_members(f), 0).unwrap()) == Some(f),
{
    reveal_strlit("v");
    reveal_strlit("ps");
    reveal_strlit("add");
    reveal_strlit("port");
    reveal_strlit("id");
    reveal_strlit("aid");
    reveal_strlit("scy");
    reveal_strlit("net");
    reveal_strlit("type");
    reveal_strlit("host");
    reveal_strlit("path");
    reveal_strlit("tls");
    reveal_strlit("sni");
    assert("v"@.len() == 1 && "ps"@.len() == 2 && "add"@.len() == 3 && "port"@.len() == 4
        && "id"@.len() == 2 && "aid"@.len() == 3 && "scy"@.len() == 3 && "net"@.len() == 3
        && "type"@.len() == 4 && "host"@.len() == 4 && "path"@.len() == 4 && "tls"@.len() == 3
        && "sni"@.len() == 3);
    assert("ps"@[0] == 'p' && "id"@[0] == 'i');
    assert("add"@[0] == 'a' && "add"@[1] == 'd' && "aid"@[1] == 'i' && "scy"@[0] == 's'
        && "scy"@[1] == 'c' && "net"@[0] == 'n' && "tls"@[0] == 't' && "sni"@[0] == 's'
        && "sni"@[1] == 'n');
    assert("port"@[0] == 'p' && "port"@[1] == 'o' && "type"@[0] == 't' && "host"@[0] == 'h'
        && "path"@[0] == 'p' && "path"@[1] == 'a');
    let ms = desc_members(f);
    let hostv: JsonScalar = match f.host {
        Some(x) => JsonScalar::Text(x),
        Option::None => JsonScalar::Null,
    };
    let pathv: JsonScalar = match f.path {
        Some(x) => JsonScalar::Text(x),
        Option::None => JsonScalar::Null,
    };
    let st0 = empty_fields();
    match f.scy {
        Some(sc) => {
            assert(ms =~= seq![
                ("v"@, JsonScalar::Text(f.v)),
                ("ps"@, JsonScalar::Text(f.ps)),
                ("add"@, JsonScalar::Text(f.add)),
                ("port"@, JsonScalar::Num(f.port)),
                ("id"@, JsonScalar::Text(f.id)),
                ("aid"@, JsonScalar::Num(f.aid)),
                ("scy"@, JsonScalar::Text(sc)),
                ("net"@, JsonScalar::Text(f.net)),
                ("type"@, JsonScalar::Text(f.typ)),
                ("host"@, hostv),
                ("path"@, pathv),
                ("tls"@, JsonScalar::Text(f.tls)),
            ]);
            let st1 = apply_member(st0, "v"@, JsonScalar::Text(f.v)).unwrap();
            assert(fold_members(st0, ms, 0) == fold_members(st1, ms, 1));
            let st2 = apply_member(st1, "ps"@, JsonScalar::Text(f.ps)).unwrap();
            assert(fold_members(st1, ms, 1) == fold_members(st2, ms, 2));
            let st3 = apply_member(st2, "add"@, JsonScalar::Text(f.add)).unwrap();
            assert(fold_members(st2, ms, 2) == fold_members(st3, ms, 3));
            let st4 = apply_member(st3, "port"@, JsonScalar::Num(f.port)).unwrap();
            assert(fold_members(st3, ms, 3) == fold_members(st4, ms, 4));
            let st5 = apply_member(st4, "id"@, JsonScalar::Text(f.id)).unwrap();
            assert(fold_members(st4, ms, 4) == fold_members(st5, ms, 5));
            let st6 = apply_member(st5, "aid"@, JsonScalar::Num(f.aid)).unwrap();
            assert(fold_members(st5, ms, 5) == fold_members(st6, ms, 6));
            let st7 = apply_member(st6, "scy"@, JsonScalar::Text(sc)).unwrap();
            assert(fold_members(st6, ms, 6) == fold_members(st7, ms, 7));
            let st8 = apply_member(st7, "net"@, JsonScalar::Text(f.net)).unwrap();
            assert(fold_members(st7, ms, 7) == fold_members(st8, ms, 8));
            let st9 = apply_member(st8, "type"@, JsonScalar::Text(f.typ)).unwrap();
            assert(fold_members(st8, ms, 8) == fold_members(st9, ms, 9));
            let st10 = apply_member(st9, "host"@, hostv).unwrap();
            assert(fold_members(st9, ms, 9) == fold_members(st10, ms, 10));
            let st11 = apply_member(st10, "path"@, pathv).unwrap();
            assert(fold_members(st10, ms, 10) == fold_members(st11, ms, 11));
            let st12 = apply_member(st11, "tls"@, JsonScalar::Text(f.tls)).unwrap();
            assert(fold_members(st11, ms, 11) == fold_members(st12, ms, 12));
            assert(fold_members(st12, ms, 12) == Some(st12));
            assert(finish_fields(st12) == Some(f));
        },
        Option::None => {
            assert(ms =~= seq![
                ("v"@, JsonScalar::Text(f.v)),
                ("ps"@, JsonScalar::Text(f.ps)),
                ("add"@, JsonScalar::Text(f.add)),
                ("port"@, JsonScalar::Num(f.port)),
                ("id"@, JsonScalar::Text(f.id)),
                ("aid"@, JsonScalar::Num(f.aid)),
                ("net"@, JsonScalar::Text(f.net)),
                ("type"@, JsonScalar::Text(f.typ)),
                ("host"@, hostv),
                ("path"@, pathv),
                ("tls"@, JsonScalar::Text(f.tls)),
            ]);
            let st1 = apply_member(st0, "v"@, JsonScalar::Text(f.v)).unwrap();
            assert(fold_members(st0, ms, 0) == fold_members(st1, ms, 1));
            let st2 = apply_member(st1, "ps"@, JsonScalar::Text(f.ps)).unwrap();
            assert(fold_members(st1, ms, 1) == fold_members(st2, ms, 2));
            let st3 = apply_member(st2, "add"@, JsonScalar::Text(f.add)).unwrap();
            assert(fold_members(st2, ms, 2) == fold_members(st3, ms, 3));
            let st4 = apply_member(st3, "port"@, JsonScalar::Num(f.port)).unwrap();
            assert(fold_members(st3, ms, 3) == fold_members(st4, ms, 4));
            let st5 = apply_member(st4, "id"@, JsonScalar::Text(f.id)).unwrap();
            assert(fold_members(st4, ms, 4) == fold_members(st5, ms, 5));
            let st6 = apply_member(st5, "aid"@, JsonScalar::Num(f.aid)).unwrap();
            assert(fold_members(st5, ms, 5) == fold_members(st6, ms, 6));
            let st7 = apply_member(st6, "net"@, JsonScalar::Text(f.net)).unwrap();
            assert(fold_members(st6, ms, 6) == fold_members(st7, ms, 7));
            let st8 = apply_member(st7, "type"@, JsonScalar::Text(f.typ)).unwrap();
            assert(fold_members(st7, ms, 7) == fold_members(st8, ms, 8));
            let st9 = apply_member(st8, "host"@, hostv).unwrap();
            assert(fold_members(st8, ms, 8) == fold_members(st9, ms, 9));
            let st10 = apply_member(st9, "path"@, pathv).unwrap();
            assert(fold_members(st9, ms, 9) == fold_members(st10, ms, 10));
            let st11 = apply_member(st10, "tls"@, JsonScalar::Text(f.tls)).unwrap();
            assert(fold_members(st10, ms, 10) == fold_members(st11, ms, 11));
            assert(fold_members(st11, ms, 11) == Some(st11));
            assert(finish_fields(st11) == Some(f));
        },
    }
}

/// Reading a written descriptor gives back exactly its fields, for any
/// descriptor whose ports fit the schema and that sets no server-name
/// override, as every generated link does.
pub proof fn lemma_descriptor_round_trip(f: LinkFields)
    requires
        -0x8000_0000 <= f.port <= 0x7fff_ffff,
        -0x8000_0000 <= f.aid <= 0x7fff_ffff,
        f.sni is None,
    ensures
        spec_parse_descriptor(spec_descriptor_json(f)) == Some(f),
{
    let ms = desc_members(f);
    let body = members_text_from(ms, 0);
    let s = spec_descriptor_json(f);
    assert(ms.len() >= 11);
    lemma_members_text_len(ms, 0);
    lemma_desc_fold(f);
    assert(s[0] == '{');
    assert(!is_ws('{'));
    assert(skip_ws(s) == s);
    let inner = s.drop_first();
    assert(inner =~= body + seq!['}']);
    assert(body[0] == jstr(ms[0].0)[0]);
    assert(body[0] == '"');
    assert(inner[0] == '"');
    assert(!is_ws('"'));
    assert(skip_ws(inner) == inner);
    assert(inner[0] != '}');
    let fuel = (inner.len() + 1) as nat;
    assert(fuel >= ms.len());
    assert(inner =~= body + seq!['}'] + Seq::<char>::empty());
    lemma_members_inv(ms, 0, empty_fields(), Seq::<char>::empty(), fuel);
    assert(spec_parse_members(inner, empty_fields(), fuel) == Some(
        (fold_members(empty_fields(), ms, 0).unwrap(), Seq::<char>::empty()),
    ));
    assert(skip_ws(Seq::<char>::empty()).len() == 0);
}

} // verus!
