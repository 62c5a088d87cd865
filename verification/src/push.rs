//! Web Push: the stored subscription, the VAPID JWT (ES256 over `{aud, exp,
//! sub}`), the headers of a payload-free "tickle", and the fan-out targets.
use vstd::prelude::*;
use vstd::utf8::encode_utf8;
use crate::http::{json_field, json_field_object};
use crate::primitives::{
    b64url_bytes,
    b64url_char,
    b64url_decode,
    b64url_decoded,
    b64url_encode,
    b64url_text,
    b64url_value,
    byte_len,
    es256_key_check,
    es256_sign,
    es256_valid_key,
    es256_signature,
    json_quoted,
    json_string,
};
use crate::text::{
    decimal,
    decimal_string,
    find,
    first_occurrence,
    has_infix,
    lemma_first_occurrence,
    lemma_first_occurrence_is,
    occurs_at,
};

verus! {

/// How long a VAPID JWT stays valid: twelve hours, in seconds.
pub const VAPID_TTL_SECS: u64 = 12 * 60 * 60;

/// Why a tickle could not be prepared.
#[derive(Debug, Clone, Copy, PartialEq, Eq)]
pub enum PushError {
    /// The endpoint has no `://`.
    BadEndpoint,
    /// The private key is not unpadded URL-safe base64.
    PrivateKeyEncoding,
    /// The private key does not decode to 32 bytes.
    PrivateKeyLength,
    /// The private key is not a valid P-256 scalar, or signing failed.
    PrivateKey,
}

/// The audience of a push endpoint: its scheme, `://` and host.
pub open spec fn audience_spec(endpoint: Seq<char>) -> Option<Seq<char>> {
    match first_occurrence(endpoint, "://"@) {
        None => None,
        Some(i) => {
            let rest = endpoint.skip(i + 3);
            let host = match first_occurrence(rest, "/"@) {
                Some(j) => rest.take(j),
                None => rest,
            };
            Some(endpoint.take(i) + "://"@ + host)
        },
    }
}

/// The audience of an endpoint `scheme://host/path` is `scheme://host`: the
/// scheme up to the first `://`, and the host up to the first `/` after it
/// (or to the end when there is no path).
pub proof fn audience_is_scheme_and_host(scheme: Seq<char>, host: Seq<char>, path: Seq<char>)
    requires
        forall|i: int| 0 <= i < scheme.len() ==> scheme[i] != ':',
        forall|i: int| 0 <= i < host.len() ==> host[i] != '/',
        path.len() == 0 || path[0] == '/',
    ensures
        audience_spec(scheme + "://"@ + host + path) == Some(scheme + "://"@ + host),
{
    reveal_strlit("://");
    reveal_strlit("/");
    let sep = "://"@;
    let e = scheme + sep + host + path;
    let n = scheme.len() as int;
    assert(e.subrange(n, n + 3) =~= sep);
    assert forall|q: int| 0 <= q < n implies !occurs_at(e, sep, q) by {
        if occurs_at(e, sep, q) {
            assert(e.subrange(q, q + 3)[0] == e[q]);
            assert(e[q] == scheme[q]);
        }
    }
    lemma_first_occurrence(e, sep, n);
    let rest = e.skip(n + 3);
    assert(rest =~= host + path);
    let slash = "/"@;
    if path.len() == 0 {
        assert(rest =~= host);
        assert forall|q: int| !occurs_at(rest, slash, q) by {
            if occurs_at(rest, slash, q) {
                assert(rest.subrange(q, q + 1)[0] == rest[q]);
            }
        }
        assert(!has_infix(rest, slash));
        assert(e.take(n) + sep + rest =~= scheme + sep + host);
    } else {
        let h = host.len() as int;
        assert(rest.subrange(h, h + 1) =~= slash);
        assert forall|q: int| 0 <= q < h implies !occurs_at(rest, slash, q) by {
            if occurs_at(rest, slash, q) {
                assert(rest.subrange(q, q + 1)[0] == rest[q]);
                assert(rest[q] == host[q]);
            }
        }
        lemma_first_occurrence(rest, slash, h);
        assert(rest.take(h) =~= host);
        assert(e.take(n) =~= scheme);
    }
}

/// A VAPID JWT is valid for twelve hours.
pub proof fn vapid_jwt_lasts_twelve_hours()
    ensures
        VAPID_TTL_SECS == 43200,
{
}

/// The audience (`scheme://host`) that a push service expects in the JWT.
pub fn audience_of(endpoint: &str) -> (r: Result<String, PushError>)
    ensures
        match audience_spec(endpoint@) {
            Some(a) => r matches Ok(s) && s@ == a,
            None => r == Err::<String, PushError>(PushError::BadEndpoint),
        },
{
    proof {
        reveal_strlit("://");
    }
    match find(endpoint, "://") {
        None => Err(PushError::BadEndpoint),
        Some(i) => {
            proof {
                lemma_first_occurrence_is(endpoint@, "://"@);
            }
            let n = endpoint.unicode_len();
            let scheme = endpoint.substring_char(0, i);
            let rest = endpoint.substring_char(i + 3, n);
            proof {
                lemma_first_occurrence_is(rest@, "/"@);
            }
            let host = match find(rest, "/") {
                Some(j) => rest.substring_char(0, j),
                None => rest,
            };
            let mut a = String::from_str(scheme);
            a.append("://");
            a.append(host);
            assert(scheme@ =~= endpoint@.take(i as int));
            assert(rest@ =~= endpoint@.skip(i + 3));
            assert(rest@.take(rest@.len() as int) =~= rest@);
            Ok(a)
        },
    }
}

/// The JOSE header of a VAPID JWT.
pub open spec fn jwt_header() -> Seq<char> {
    "{\"typ\":\"JWT\",\"alg\":\"ES256\"}"@
}

/// The claims of a VAPID JWT, as `serde_json` writes `{aud, exp, sub}`.
pub open spec fn claims_json(aud: Seq<char>, exp: nat, sub: Seq<char>) -> Seq<char> {
    "{\"aud\":"@ + json_quoted(aud) + ",\"exp\":"@ + decimal(exp) + ",\"sub\":"@ + json_quoted(sub)
        + "}"@
}

/// The signed part of a JWT: the base64 of header and claims, joined by a dot.
pub open spec fn signing_input(claims: Seq<char>) -> Seq<char> {
    b64url_text(encode_utf8(jwt_header())) + "."@ + b64url_text(encode_utf8(claims))
}

/// The JWT for a signing scalar and claims; `None` where signing fails.
pub open spec fn jwt_spec(scalar: Seq<u8>, claims: Seq<char>) -> Option<Seq<char>> {
    match es256_signature(scalar, encode_utf8(signing_input(claims))) {
        Some(sig) => Some(signing_input(claims) + "."@ + b64url_text(sig)),
        None => None,
    }
}

/// The subject of the JWT: the configured one, or the admin mailbox.
pub open spec fn subject_of(subject: Option<Seq<char>>) -> Seq<char> {
    match subject {
        Some(s) => s,
        None => "mailto:admin@example.com"@,
    }
}

/// The outcome of `vapid_jwt` for a decoded key.
pub open spec fn vapid_outcome(
    decoded: Option<Seq<u8>>,
    endpoint: Seq<char>,
    subject: Seq<char>,
    now: nat,
) -> Result<Seq<char>, PushError> {
    match decoded {
        None => Err(PushError::PrivateKeyEncoding),
        Some(d) => if d.len() != 32 {
            Err(PushError::PrivateKeyLength)
        } else if !es256_valid_key(d) {
            Err(PushError::PrivateKey)
        } else {
            match audience_spec(endpoint) {
                None => Err(PushError::BadEndpoint),
                Some(aud) => match jwt_spec(d, claims_json(aud, (now + VAPID_TTL_SECS) as nat, subject)) {
                    Some(j) => Ok(j),
                    None => Err(PushError::PrivateKey),
                },
            }
        },
    }
}

/// Signs a JWT with a 32-byte scalar over the given claims.
pub fn signed_jwt(scalar: &[u8], claims: &str) -> (r: Option<String>)
    requires
        scalar@.len() == 32,
    ensures
        match jwt_spec(scalar@, claims@) {
            Some(j) => r matches Some(s) && s@ == j,
            None => r is None,
        },
{
    let header = "{\"typ\":\"JWT\",\"alg\":\"ES256\"}";
    let header_bytes = header.as_bytes();
    let claims_bytes = claims.as_bytes();
    // No slice exceeds isize::MAX bytes, which `b64url_encode` needs to know.
    let _ = byte_len(header_bytes);
    let _ = byte_len(claims_bytes);
    let mut input = b64url_encode(header_bytes);
    input.append(".");
    input.append(b64url_encode(claims_bytes).as_str());
    assert(input@ == signing_input(claims@));
    let input_bytes = input.as_str().as_bytes();
    match es256_sign(scalar, input_bytes) {
        Some(sig) => {
            let _ = byte_len(sig.as_slice());
            let mut jwt = input;
            jwt.append(".");
            jwt.append(b64url_encode(sig.as_slice()).as_str());
            Some(jwt)
        },
        None => None,
    }
}

/// The claims text `{"aud":..,"exp":..,"sub":..}`.
pub fn claims_text(aud: &str, exp: u64, sub: &str) -> (r: String)
    ensures
        r@ == claims_json(aud@, exp as nat, sub@),
{
    let mut c = String::from_str("{\"aud\":");
    c.append(json_string(aud).as_str());
    c.append(",\"exp\":");
    c.append(decimal_string(exp).as_str());
    c.append(",\"sub\":");
    c.append(json_string(sub).as_str());
    c.append("}");
    c
}

/// The VAPID JWT for a push endpoint: audience `scheme://host` of the
/// endpoint, expiry twelve hours after `now` (seconds), subject the
/// configured one (the admin mailbox by default), signed with the base64url
/// private scalar.
pub fn vapid_jwt(subject: Option<&str>, private_key: &str, endpoint: &str, now: u64) -> (r: Result<
    String,
    PushError,
>)
    requires
        now + VAPID_TTL_SECS <= i64::MAX,
    ensures
        match vapid_outcome(
            b64url_decoded(private_key@),
            endpoint@,
            subject_of(
                match subject {
                    Some(s) => Some(s@),
                    None => None,
                },
            ),
            now as nat,
        ) {
            Ok(j) => r matches Ok(s) && s@ == j,
            Err(e) => r == Err::<String, PushError>(e),
        },
{
    let sub = match subject {
        Some(s) => s,
        None => "mailto:admin@example.com",
    };
    let d = match b64url_decode(private_key) {
        Some(d) => {
            proof {
                lemma_b64url_round_trip(d@);
            }
            d
        },
        None => {
            proof {
                let t = b64url_bytes(private_key@);
                assert(b64url_text(t) != private_key@);
            }
            return Err(PushError::PrivateKeyEncoding);
        },
    };
    if d.len() != 32 {
        return Err(PushError::PrivateKeyLength);
    }
    if !es256_key_check(d.as_slice()) {
        return Err(PushError::PrivateKey);
    }
    let aud = match audience_of(endpoint) {
        Ok(a) => a,
        Err(e) => {
            return Err(e);
        },
    };
    let claims = claims_text(aud.as_str(), now + VAPID_TTL_SECS, sub);
    match signed_jwt(d.as_slice(), claims.as_str()) {
        Some(j) => Ok(j),
        None => Err(PushError::PrivateKey),
    }
}

/// The `Authorization` value of a tickle: `vapid t=<jwt>, k=<public key>`.
pub open spec fn vapid_authorization(jwt: Seq<char>, public_key: Seq<char>) -> Seq<char> {
    "vapid t="@ + jwt + ", k="@ + public_key
}

/// The headers of a payload-free tickle: VAPID authorization, one day of
/// TTL, an empty body, normal urgency.
pub fn tickle_headers(jwt: &str, public_key: &str) -> (h: Vec<(String, String)>)
    ensures
        h@.len() == 4,
        h@[0].0@ == "Authorization"@ && h@[0].1@ == vapid_authorization(jwt@, public_key@),
        h@[1].0@ == "TTL"@ && h@[1].1@ == "86400"@,
        h@[2].0@ == "Content-Length"@ && h@[2].1@ == "0"@,
        h@[3].0@ == "Urgency"@ && h@[3].1@ == "normal"@,
{
    let mut auth = String::from_str("vapid t=");
    auth.append(jwt);
    auth.append(", k=");
    auth.append(public_key);
    vec![
        (String::from_str("Authorization"), auth),
        (String::from_str("TTL"), String::from_str("86400")),
        (String::from_str("Content-Length"), String::from_str("0")),
        (String::from_str("Urgency"), String::from_str("normal")),
    ]
}

/// The stored subscriptions among the rows, in order.
pub open spec fn stored_subs(rows: Seq<Option<String>>) -> Seq<String>
    decreases rows.len(),
{
    if rows.len() == 0 {
        seq![]
    } else {
        let rest = stored_subs(rows.drop_last());
        match rows.last() {
            Some(s) => rest.push(s),
            None => rest,
        }
    }
}

/// Every stored subscription is a target, in the order of the rows, and
/// nothing else is: the targets are the rows that hold a subscription, with
/// the empty rows left out.
pub proof fn targets_are_every_stored_sub(rows: Seq<Option<String>>)
    ensures
        stored_subs(rows) == rows.filter_map(|r: Option<String>| r),
        stored_subs(rows).len() == rows.filter(|r: Option<String>| r is Some).len(),
        forall|i: int|
            0 <= i < rows.len() && rows[i] is Some ==> stored_subs(rows).contains(
                #[trigger] rows[i]->0,
            ),
    decreases rows.len(),
{
    reveal(Seq::filter);
    if rows.len() > 0 {
        targets_are_every_stored_sub(rows.drop_last());
        let f = |r: Option<String>| r;
        assert(rows.filter_map(f) =~= match rows.last() {
            Some(s) => rows.drop_last().filter_map(f).push(s),
            None => rows.drop_last().filter_map(f),
        });
        assert forall|i: int| 0 <= i < rows.len() && rows[i] is Some implies stored_subs(
            rows,
        ).contains(#[trigger] rows[i]->0) by {
            if i < rows.len() - 1 {
                assert(rows.drop_last()[i] == rows[i]);
                let j = choose|j: int|
                    0 <= j < stored_subs(rows.drop_last()).len() && stored_subs(
                        rows.drop_last(),
                    )[j] == rows[i]->0;
                assert(stored_subs(rows)[j] == rows[i]->0);
            } else {
                assert(stored_subs(rows).last() == rows[i]->0);
            }
        }
    }
}

/// The subscriptions a new post is pushed to: every stored one, in order.
pub fn tickle_targets(rows: Vec<Option<String>>) -> (t: Vec<String>)
    ensures
        t@ == stored_subs(rows@),
{
    let mut out: Vec<String> = Vec::new();
    let mut i: usize = 0;
    let n = rows.len();
    while i < n
        invariant
            i <= n,
            n == rows@.len(),
            out@ == stored_subs(rows@.take(i as int)),
        decreases n - i,
    {
        assert(rows@.take(i + 1).drop_last() =~= rows@.take(i as int));
        match &rows[i] {
            Some(s) => out.push(s.clone()),
            None => {},
        }
        i += 1;
    }
    assert(rows@.take(n as int) =~= rows@);
    out
}

/// A push service answers 410 Gone for a subscription that no longer
/// exists; the worker then forgets it.
pub fn should_forget_subscription(status: u16) -> (b: bool)
    ensures
        b == (status == 410),
{
    status == 410
}

/// The stored form of a subscription, as `serde_json` writes
/// `{endpoint, keys: {p256dh, auth}}` (object keys sorted).
pub open spec fn subscription_spec(endpoint: Seq<char>, p256dh: Seq<char>, auth: Seq<char>) -> Seq<
    char,
> {
    "{\"endpoint\":"@ + json_quoted(endpoint) + ",\"keys\":{\"auth\":"@ + json_quoted(auth)
        + ",\"p256dh\":"@ + json_quoted(p256dh) + "}}"@
}

/// The JSON text stored for a browser's push subscription.
pub fn subscription_json(endpoint: &str, p256dh: &str, auth: &str) -> (r: String)
    ensures
        r@ == subscription_spec(endpoint@, p256dh@, auth@),
{
    let mut s = String::from_str("{\"endpoint\":");
    s.append(json_string(endpoint).as_str());
    s.append(",\"keys\":{\"auth\":");
    s.append(json_string(auth).as_str());
    s.append(",\"p256dh\":");
    s.append(json_string(p256dh).as_str());
    s.append("}}");
    s
}

/// The body that hands out the VAPID public key (empty when none is set).
pub fn vapid_public(public_key: Option<&str>) -> (r: String)
    ensures
        r@ == json_field(
            "vapid_public_key"@,
            match public_key {
                Some(k) => k@,
                None => Seq::empty(),
            },
        ),
{
    match public_key {
        Some(k) => json_field_object("vapid_public_key", k),
        None => {
            let e = String::new();
            json_field_object("vapid_public_key", e.as_str())
        },
    }
}


/// Each base64 character gives back the six bits it was made from.
proof fn lemma_b64url_value(v: nat)
    requires
        v < 64,
    ensures
        b64url_value(b64url_char(v)) == v,
{
}

/// Three bytes split into four six-bit groups are put back together by the
/// decoder's arithmetic.
proof fn lemma_b64url_group(x: u8, y: u8, z: u8)
    ensures
        x / 4 < 64,
        (x % 4) * 16 + y / 16 < 64,
        (y % 16) * 4 + z / 64 < 64,
        z % 64 < 64,
        (x / 4) * 4 + ((x % 4) * 16 + y / 16) / 16 == x,
        (((x % 4) * 16 + y / 16) % 16) * 16 + ((y % 16) * 4 + z / 64) / 4 == y,
        (((y % 16) * 4 + z / 64) % 4) * 64 + z % 64 == z,
{
    assert(x / 4 < 64) by (bit_vector);
    assert((x % 4) * 16 + y / 16 < 64) by (bit_vector);
    assert((y % 16) * 4 + z / 64 < 64) by (bit_vector);
    assert((x / 4) * 4 + ((x % 4) * 16 + y / 16) / 16 == x) by (bit_vector);
    assert((((x % 4) * 16 + y / 16) % 16) * 16 + ((y % 16) * 4 + z / 64) / 4 == y) by (bit_vector);
    assert((((y % 16) * 4 + z / 64) % 4) * 64 + z % 64 == z) by (bit_vector);
}

/// Decoding gives back what encoding wrote: the bytes read from the URL-safe
/// base64 text of `b` are `b`.
pub proof fn lemma_b64url_round_trip(b: Seq<u8>)
    ensures
        b64url_bytes(b64url_text(b)) == b,
    decreases b.len(),
{
    let t = b64url_text(b);
    if b.len() == 0 {
    } else if b.len() == 1 {
        lemma_b64url_group(b[0], 0, 0);
        lemma_b64url_value((b[0] / 4) as nat);
        lemma_b64url_value(((b[0] % 4) * 16) as nat);
        assert(b64url_bytes(t) =~= b);
    } else if b.len() == 2 {
        lemma_b64url_group(b[0], b[1], 0);
        lemma_b64url_value((b[0] / 4) as nat);
        lemma_b64url_value(((b[0] % 4) * 16 + b[1] / 16) as nat);
        lemma_b64url_value(((b[1] % 16) * 4) as nat);
        assert(b64url_bytes(t) =~= b);
    } else {
        lemma_b64url_group(b[0], b[1], b[2]);
        lemma_b64url_value((b[0] / 4) as nat);
        lemma_b64url_value(((b[0] % 4) * 16 + b[1] / 16) as nat);
        lemma_b64url_value(((b[1] % 16) * 4 + b[2] / 64) as nat);
        lemma_b64url_value((b[2] % 64) as nat);
        lemma_b64url_round_trip(b.skip(3));
        let rest = b64url_text(b.skip(3));
        assert(t.skip(4) =~= rest);
        assert(b64url_bytes(t) =~= b.take(3) + b64url_bytes(rest));
        assert(b =~= b.take(3) + b.skip(3));
    }
}

} // verus!
