//! The calls into outside crates: hashing, encodings, randomness, UUIDs
//! and ECDSA signing. Each function here is trusted: its contract restates
//! what the called crate documents, and nothing in this file is proved.
use sha2::Digest;
use p256::ecdsa::signature::Signer;
use base64::Engine;
use vstd::prelude::*;

verus! {

/// The lower-case hexadecimal digit for `v` (below 16): `0`-`9`, then
/// `a`-`f`.
pub open spec fn hex_digit(v: nat) -> char {
    if v < 10 {
        (48 + v) as char
    } else {
        (87 + v) as char
    }
}

/// `c` is a lower-case hexadecimal digit.
pub open spec fn is_hex_char(c: char) -> bool {
    exists|v: nat| v < 16 && c == #[trigger] hex_digit(v)
}

/// Lower-case hexadecimal text of a byte string: two digits per byte, high nibble first.
pub open spec fn hex_lower(b: Seq<u8>) -> Seq<char>
    decreases b.len(),
{
    if b.len() == 0 {
        seq![]
    } else {
        seq![hex_digit((b[0] / 16) as nat), hex_digit((b[0] % 16) as nat)] + hex_lower(
            b.drop_first(),
        )
    }
}

/// Calls `hex::encode`, which the `hex` crate documents as lower-case hex with
/// two digits per byte; the contract states exactly that text.
#[verifier::external_body]
pub(crate) fn hex_encode(data: &[u8]) -> (r: String)
    ensures
        r@ == hex_lower(data@),
{
    hex::encode(data)
}

/// The SHA-256 digest of a byte string.
pub uninterp spec fn sha256_digest(data: Seq<u8>) -> Seq<u8>;

/// Calls `sha2::Sha256::digest`. The contract names its result
/// `sha256_digest(data)` and states the documented 32-byte output size.
#[verifier::external_body]
pub(crate) fn sha256(data: &[u8]) -> (r: Vec<u8>)
    ensures
        r@ == sha256_digest(data@),
        r@.len() == 32,
{
    sha2::Sha256::digest(data).to_vec()
}

/// Calls `getrandom::getrandom` on a buffer of `n` bytes. The bytes come from
/// the operating system, so the contract says only that a success yields `n`
/// bytes; it does not say when the source fails.
#[verifier::external_body]
pub(crate) fn random_bytes(n: usize) -> (r: Option<Vec<u8>>)
    ensures
        r matches Some(v) ==> v@.len() == n,
{
    let mut v = vec![0u8; n];
    match getrandom::getrandom(&mut v) {
        Ok(()) => Some(v),
        Err(_) => None,
    }
}

/// The sixteen bytes of a version-4 UUID made from `b`: the high nibble of
/// byte 6 is the version (4), the two high bits of byte 8 are the RFC 4122
/// variant (`10`); every other bit is taken from `b`.
pub open spec fn uuid_v4_bytes(b: Seq<u8>) -> Seq<u8> {
    b.update(6, (b[6] & 0x0fu8) | 0x40u8).update(8, (b[8] & 0x3fu8) | 0x80u8)
}

/// Hex text in the hyphenated UUID layout: groups of 8, 4, 4, 4 and 12
/// digits joined by hyphens.
pub open spec fn hyphenated(h: Seq<char>) -> Seq<char> {
    h.subrange(0, 8) + seq!['-'] + h.subrange(8, 12) + seq!['-'] + h.subrange(12, 16) + seq!['-']
        + h.subrange(16, 20) + seq!['-'] + h.subrange(20, 32)
}

/// The hyphenated lower-case text of the version-4 UUID made from `b`.
pub open spec fn uuid_v4_text(b: Seq<u8>) -> Seq<char> {
    hyphenated(hex_lower(uuid_v4_bytes(b)))
}

/// Calls `uuid::Builder::from_random_bytes` and renders the UUID with
/// `to_string`. The crate sets the version nibble and the variant bits as
/// `uuid_v4_bytes` says and formats the bytes as hyphenated lower-case hex;
/// the contract states that text.
#[verifier::external_body]
pub(crate) fn uuid_from_random_bytes(bytes: [u8; 16]) -> (r: String)
    ensures
        r@ == uuid_v4_text(bytes@),
{
    uuid::Builder::from_random_bytes(bytes).into_uuid().to_string()
}

/// The URL-safe base64 alphabet (RFC 4648 section 5): `A`-`Z` for 0-25,
/// `a`-`z` for 26-51, `0`-`9` for 52-61, then `-` and `_`.
pub open spec fn b64url_char(v: nat) -> char {
    if v < 26 {
        (65 + v) as char
    } else if v < 52 {
        (71 + v) as char
    } else if v < 62 {
        (v - 4) as char
    } else if v == 62 {
        '-'
    } else {
        '_'
    }
}

/// URL-safe base64 of a byte string without `=` padding.
pub open spec fn b64url_text(b: Seq<u8>) -> Seq<char>
    decreases b.len(),
{
    if b.len() == 0 {
        seq![]
    } else if b.len() == 1 {
        seq![b64url_char((b[0] / 4) as nat), b64url_char(((b[0] % 4) * 16) as nat)]
    } else if b.len() == 2 {
        seq![
            b64url_char((b[0] / 4) as nat),
            b64url_char(((b[0] % 4) * 16 + b[1] / 16) as nat),
            b64url_char(((b[1] % 16) * 4) as nat),
        ]
    } else {
        seq![
            b64url_char((b[0] / 4) as nat),
            b64url_char(((b[0] % 4) * 16 + b[1] / 16) as nat),
            b64url_char(((b[1] % 16) * 4 + b[2] / 64) as nat),
            b64url_char((b[2] % 64) as nat),
        ] + b64url_text(b.skip(3))
    }
}

/// Calls `<[u8]>::len`. The standard library documents that no slice spans
/// more than `isize::MAX` bytes; the contract states that bound.
#[verifier::external_body]
pub(crate) fn byte_len(data: &[u8]) -> (n: usize)
    ensures
        n == data@.len(),
        n <= isize::MAX,
{
    data.len()
}

/// Calls `base64::engine::general_purpose::URL_SAFE_NO_PAD.encode`, RFC 4648
/// URL-safe base64 without padding; the contract states that text exactly.
/// `encode` panics when the output length overflows `usize`, which needs more
/// than `isize::MAX` input bytes; `requires` leaves those inputs out.
#[verifier::external_body]
pub(crate) fn b64url_encode(data: &[u8]) -> (r: String)
    requires
        data@.len() <= isize::MAX,
    ensures
        r@ == b64url_text(data@),
{
    base64::engine::general_purpose::URL_SAFE_NO_PAD.encode(data)
}

/// The six-bit value of a URL-safe base64 character.
pub open spec fn b64url_value(c: char) -> nat {
    if 'A' <= c && c <= 'Z' {
        (c as nat - 65) as nat
    } else if 'a' <= c && c <= 'z' {
        (c as nat - 71) as nat
    } else if '0' <= c && c <= '9' {
        (c as nat + 4) as nat
    } else if c == '-' {
        62
    } else {
        63
    }
}

/// The bytes that unpadded URL-safe base64 text stands for, read four
/// characters (three bytes) at a time; a final group of two or three
/// characters gives one or two bytes.
pub open spec fn b64url_bytes(t: Seq<char>) -> Seq<u8>
    decreases t.len(),
{
    let v0 = b64url_value(t[0]);
    let v1 = b64url_value(t[1]);
    let v2 = b64url_value(t[2]);
    let v3 = b64url_value(t[3]);
    if t.len() < 2 {
        seq![]
    } else if t.len() == 2 {
        seq![(v0 * 4 + v1 / 16) as u8]
    } else if t.len() == 3 {
        seq![(v0 * 4 + v1 / 16) as u8, ((v1 % 16) * 16 + v2 / 4) as u8]
    } else {
        seq![
            (v0 * 4 + v1 / 16) as u8,
            ((v1 % 16) * 16 + v2 / 4) as u8,
            ((v2 % 4) * 64 + v3) as u8,
        ] + b64url_bytes(t.skip(4))
    }
}

/// What URL-safe unpadded base64 decoding gives for a text: the bytes whose
/// encoding it is, or `None` when it is the encoding of no byte string.
pub open spec fn b64url_decoded(text: Seq<char>) -> Option<Seq<u8>> {
    if b64url_text(b64url_bytes(text)) == text {
        Some(b64url_bytes(text))
    } else {
        None
    }
}

/// Calls `base64::engine::general_purpose::URL_SAFE_NO_PAD.decode`. That
/// engine rejects padding and non-zero trailing bits, so it accepts exactly
/// the texts that `b64url_text` gives and returns the bytes they encode; the
/// contract states that.
#[verifier::external_body]
pub(crate) fn b64url_decode(text: &str) -> (r: Option<Vec<u8>>)
    ensures
        r matches Some(v) ==> b64url_text(v@) == text@,
        r is None ==> forall|b: Seq<u8>| #[trigger] b64url_text(b) != text@,
{
    base64::engine::general_purpose::URL_SAFE_NO_PAD.decode(text).ok()
}

/// Whether a 32-byte string is a valid P-256 secret scalar (non-zero and
/// below the group order).
pub uninterp spec fn es256_valid_key(scalar: Seq<u8>) -> bool;

/// Calls `p256::ecdsa::SigningKey::from_slice` on the scalar and reports
/// whether it gave a key. The contract names that outcome
/// `es256_valid_key(scalar)`.
#[verifier::external_body]
pub(crate) fn es256_key_check(scalar: &[u8]) -> (b: bool)
    requires
        scalar@.len() == 32,
    ensures
        b == es256_valid_key(scalar@),
{
    p256::ecdsa::SigningKey::from_slice(scalar).is_ok()
}

/// The ES256 signature (P-256 ECDSA over SHA-256, RFC 6979 nonces, 64 bytes
/// `r || s`) of `message` under the secret scalar `scalar`; `None` where the
/// scalar is not a valid key or signing fails.
pub uninterp spec fn es256_signature(scalar: Seq<u8>, message: Seq<u8>) -> Option<Seq<u8>>;

/// Calls `p256::ecdsa::SigningKey::from_slice` on the 32-byte scalar and
/// `Signer::try_sign` on the message, and returns `Signature::to_bytes`.
/// RFC 6979 makes the signature a function of key and message, so the
/// contract names it; it also states the documented 64-byte length.
#[verifier::external_body]
pub(crate) fn es256_sign(scalar: &[u8], message: &[u8]) -> (r: Option<Vec<u8>>)
    requires
        scalar@.len() == 32,
    ensures
        r matches Some(v) ==> es256_signature(scalar@, message@) == Some(v@) && v@.len() == 64,
        r is None ==> es256_signature(scalar@, message@) is None,
{
    let key = p256::ecdsa::SigningKey::from_slice(scalar).ok()?;
    let sig: p256::ecdsa::Signature = key.try_sign(message).ok()?;
    Some(sig.to_bytes().to_vec())
}

/// The JSON escape of one character, as `serde_json` writes it inside a string.
pub open spec fn json_escape_char(c: char) -> Seq<char> {
    let v = c as u32;
    if c == '"' {
        seq!['\\', '"']
    } else if c == '\\' {
        seq!['\\', '\\']
    } else if v == 0x08 {
        seq!['\\', 'b']
    } else if v == 0x09 {
        seq!['\\', 't']
    } else if v == 0x0a {
        seq!['\\', 'n']
    } else if v == 0x0c {
        seq!['\\', 'f']
    } else if v == 0x0d {
        seq!['\\', 'r']
    } else if v < 0x20 {
        seq!['\\', 'u', '0', '0', hex_digit((v / 16) as nat), hex_digit((v % 16) as nat)]
    } else {
        seq![c]
    }
}

/// The escaped characters of `s`.
pub open spec fn json_escaped(s: Seq<char>) -> Seq<char>
    decreases s.len(),
{
    if s.len() == 0 {
        seq![]
    } else {
        json_escape_char(s[0]) + json_escaped(s.drop_first())
    }
}

/// `s` as a JSON string literal: quoted and escaped.
pub open spec fn json_quoted(s: Seq<char>) -> Seq<char> {
    seq!['"'] + json_escaped(s) + seq!['"']
}

/// Calls `serde_json::to_string` on a string slice. The source escapes `"`,
/// `\` and the control characters below U+0020 (short forms for \b \t \n \f \r,
/// `\u00xx` with lower-case hex for the rest) and copies everything else; the
/// contract states that text. Serialising a `str` into a buffer cannot fail.
#[verifier::external_body]
pub(crate) fn json_string(s: &str) -> (r: String)
    ensures
        r@ == json_quoted(s@),
{
    serde_json::to_string(s).unwrap_or_default()
}

} // verus!
