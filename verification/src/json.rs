//! Reading back the JSON text the library writes: string literals and the
//! first string field of an object. The reader follows RFC 8259 for string
//! literals, except that it does not read `\u` escapes of UTF-16 surrogates,
//! and it takes no whitespace between the tokens of an object; the library
//! writes neither.
use vstd::prelude::*;
use crate::http::json_field;
use crate::primitives::{hex_digit, json_escape_char, json_escaped, json_quoted};
use crate::push::subscription_spec;

verus! {

/// The value of a hexadecimal digit of either case.
pub open spec fn hex_value(c: char) -> Option<nat> {
    if '0' <= c && c <= '9' {
        Some((c as nat - 48) as nat)
    } else if 'a' <= c && c <= 'f' {
        Some((c as nat - 87) as nat)
    } else if 'A' <= c && c <= 'F' {
        Some((c as nat - 55) as nat)
    } else {
        None
    }
}

/// The character that the escape after a backslash at the start of `t`
/// stands for, and how many characters of `t` the escape takes.
pub open spec fn json_escape_value(t: Seq<char>) -> Option<(char, int)> {
    if t.len() == 0 {
        None
    } else if t[0] == '"' {
        Some(('"', 1))
    } else if t[0] == '\\' {
        Some(('\\', 1))
    } else if t[0] == '/' {
        Some(('/', 1))
    } else if t[0] == 'b' {
        Some(((8u32) as char, 1))
    } else if t[0] == 'f' {
        Some(((12u32) as char, 1))
    } else if t[0] == 'n' {
        Some(((10u32) as char, 1))
    } else if t[0] == 'r' {
        Some(((13u32) as char, 1))
    } else if t[0] == 't' {
        Some(((9u32) as char, 1))
    } else if t[0] == 'u' && t.len() >= 5 {
        match (hex_value(t[1]), hex_value(t[2]), hex_value(t[3]), hex_value(t[4])) {
            (Some(a), Some(b), Some(c), Some(d)) => {
                let v = a * 4096 + b * 256 + c * 16 + d;
                if 0xd800 <= v && v <= 0xdfff {
                    None
                } else {
                    Some(((v as u32) as char, 5))
                }
            },
            _ => None,
        }
    } else {
        None
    }
}

/// Reads the body of a JSON string literal, from just after its opening
/// quote: the text it stands for and what follows its closing quote; `None`
/// when there is no closing quote, an escape is malformed, or a control
/// character stands unescaped.
pub open spec fn json_read_body(t: Seq<char>) -> Option<(Seq<char>, Seq<char>)>
    decreases t.len(),
{
    if t.len() == 0 {
        None
    } else if t[0] == '"' {
        Some((seq![], t.skip(1)))
    } else if t[0] == '\\' {
        match json_escape_value(t.skip(1)) {
            Some((c, n)) => if 0 < n && n < t.len() {
                match json_read_body(t.skip(n + 1)) {
                    Some((s, rest)) => Some((seq![c] + s, rest)),
                    None => None,
                }
            } else {
                None
            },
            None => None,
        }
    } else if (t[0] as u32) < 0x20 {
        None
    } else {
        match json_read_body(t.skip(1)) {
            Some((s, rest)) => Some((seq![t[0]] + s, rest)),
            None => None,
        }
    }
}

/// Reads a JSON string literal at the start of `t`: the text it stands for
/// and what follows it.
pub open spec fn json_read_string(t: Seq<char>) -> Option<(Seq<char>, Seq<char>)> {
    if t.len() > 0 && t[0] == '"' {
        json_read_body(t.skip(1))
    } else {
        None
    }
}

/// Reads the start of a JSON object whose first member has a string value:
/// its key, its value, and the text after the value.
pub open spec fn json_read_first_field(t: Seq<char>) -> Option<(Seq<char>, Seq<char>, Seq<char>)> {
    if t.len() > 0 && t[0] == '{' {
        match json_read_string(t.skip(1)) {
            Some((k, r1)) => if r1.len() > 0 && r1[0] == ':' {
                match json_read_string(r1.skip(1)) {
                    Some((v, r2)) => Some((k, v, r2)),
                    None => None,
                }
            } else {
                None
            },
            None => None,
        }
    } else {
        None
    }
}

/// Each hex digit the library writes reads back as its value.
proof fn lemma_hex_value(n: nat)
    requires
        n < 16,
    ensures
        hex_value(hex_digit(n)) == Some(n),
{
}

/// The escaped text of `s` followed by a closing quote reads back as `s`.
proof fn lemma_read_escaped(s: Seq<char>, rest: Seq<char>)
    ensures
        json_read_body(json_escaped(s) + seq!['"'] + rest) == Some((s, rest)),
    decreases s.len(),
{
    let t = json_escaped(s) + seq!['"'] + rest;
    if s.len() == 0 {
        assert(t =~= seq!['"'] + rest);
        assert(t.skip(1) =~= rest);
    } else {
        let c = s[0];
        let tail = s.drop_first();
        let e = json_escape_char(c);
        let t2 = json_escaped(tail) + seq!['"'] + rest;
        lemma_read_escaped(tail, rest);
        assert(t =~= e + t2);
        let v = c as u32;
        vstd::utf8::char_u32_cast(c, v);
        if c == '"' || c == '\\' || v == 0x08 || v == 0x09 || v == 0x0a || v == 0x0c || v
            == 0x0d {
            assert(e.len() == 2);
            assert(t.skip(2) =~= t2);
            assert(t.skip(1)[0] == e[1]);
        } else if v < 0x20 {
            lemma_hex_value((v / 16) as nat);
            lemma_hex_value((v % 16) as nat);
            lemma_hex_value(0);
            assert(e.len() == 6);
            let u = t.skip(1);
            assert(u[0] == 'u' && u[1] == '0' && u[2] == '0');
            assert(u[3] == hex_digit((v / 16) as nat));
            assert(u[4] == hex_digit((v % 16) as nat));
            assert((v / 16) * 16 + v % 16 == v);
            assert(t.skip(6) =~= t2);
        } else {
            assert(e =~= seq![c]);
            assert(t.skip(1) =~= t2);
        }
        assert(seq![c] + tail =~= s);
    }
}

/// A JSON string literal the library writes reads back as the text it was
/// made from, whatever follows it.
pub proof fn json_string_reads_back(s: Seq<char>, rest: Seq<char>)
    ensures
        json_read_string(json_quoted(s) + rest) == Some((s, rest)),
{
    let t = json_quoted(s) + rest;
    lemma_read_escaped(s, rest);
    assert(t.skip(1) =~= json_escaped(s) + seq!['"'] + rest);
}

/// A one-field object the library writes (an error body among them) reads
/// back as its key and value, followed by the closing brace alone.
pub proof fn json_field_reads_back(key: Seq<char>, value: Seq<char>)
    ensures
        json_read_first_field(json_field(key, value)) == Some((key, value, seq!['}'])),
{
    let t = json_field(key, value);
    let r1 = seq![':'] + json_quoted(value) + seq!['}'];
    assert(t.skip(1) =~= json_quoted(key) + r1);
    json_string_reads_back(key, r1);
    assert(r1.skip(1) =~= json_quoted(value) + seq!['}']);
    json_string_reads_back(value, seq!['}']);
}

/// The push subscription the library stores reads back with its endpoint as
/// the value of its first member, `endpoint`.
pub proof fn subscription_endpoint_reads_back(endpoint: Seq<char>, p256dh: Seq<char>, auth: Seq<char>)
    ensures
        json_read_first_field(subscription_spec(endpoint, p256dh, auth)) matches Some((k, v, _))
            && k == "endpoint"@ && v == endpoint,
{
    reveal_strlit("{\"endpoint\":");
    let t = subscription_spec(endpoint, p256dh, auth);
    let after = ",\"keys\":{\"auth\":"@ + json_quoted(auth) + ",\"p256dh\":"@ + json_quoted(p256dh)
        + "}}"@;
    let r1 = seq![':'] + json_quoted(endpoint) + after;
    assert("{\"endpoint\":"@ =~= seq!['{'] + json_quoted("endpoint"@) + seq![':']) by {
        reveal_strlit("endpoint");
        assert(json_escaped("endpoint"@) =~= "endpoint"@) by {
            reveal_with_fuel(json_escaped, 9);
        }
    }
    assert(t.skip(1) =~= json_quoted("endpoint"@) + r1);
    json_string_reads_back("endpoint"@, r1);
    assert(r1.skip(1) =~= json_quoted(endpoint) + after);
    json_string_reads_back(endpoint, after);
}

} // verus!
