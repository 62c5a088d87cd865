//! Sessions and PINs: bearer tokens, session records, salted PIN hashes, and
//! the checks of registration and sign-in.
use vstd::prelude::*;
use vstd::utf8::encode_utf8;
use crate::http::ApiError;
use crate::primitives::{hex_digit, is_hex_char, hex_encode, hex_lower, random_bytes, sha256, sha256_digest};
use crate::text::{has_prefix, strip_prefix, trim, trim_seq};
use crate::types::User;

verus! {

/// How long a session lasts: thirty days, in seconds.
pub const SESSION_TTL_SECS: u64 = 60 * 60 * 24 * 30;

/// Every character of `s` is a lower-case hex digit.
pub open spec fn is_hex_text(s: Seq<char>) -> bool {
    forall|i: int| 0 <= i < s.len() ==> is_hex_char(#[trigger] s[i])
}

/// Hex text has two digits per byte, all of them lower-case hex digits.
pub proof fn lemma_hex_lower(b: Seq<u8>)
    ensures
        hex_lower(b).len() == 2 * b.len(),
        is_hex_text(hex_lower(b)),
    decreases b.len(),
{
    if b.len() > 0 {
        lemma_hex_lower(b.drop_first());
        let h = hex_lower(b);
        let rest = hex_lower(b.drop_first());
        let hi = (b[0] / 16) as nat;
        let lo = (b[0] % 16) as nat;
        assert forall|i: int| 0 <= i < h.len() implies is_hex_char(#[trigger] h[i]) by {
            if i == 0 {
                assert(h[i] == hex_digit(hi));
            } else if i == 1 {
                assert(h[i] == hex_digit(lo));
            } else {
                assert(h[i] == rest[i - 2]);
            }
        }
    }
}

/// The session token made of `bytes`: their lower-case hex text, two digits
/// per byte.
pub fn token_from_bytes(bytes: &[u8]) -> (t: String)
    ensures
        t@ == hex_lower(bytes@),
        t@.len() == 2 * bytes@.len(),
        is_hex_text(t@),
{
    let t = hex_encode(bytes);
    proof {
        lemma_hex_lower(bytes@);
    }
    t
}

/// A fresh session token: 32 random bytes in lower-case hex, so 64 hex
/// digits; `None` when the system gives no random bytes.
pub fn random_token() -> (t: Option<String>)
    ensures
        t matches Some(s) ==> {
            &&& exists|b: Seq<u8>| b.len() == 32 && s@ == #[trigger] hex_lower(b)
            &&& s@.len() == 64
            &&& is_hex_text(s@)
        },
{
    match random_bytes(32) {
        Some(b) => Some(token_from_bytes(b.as_slice())),
        None => None,
    }
}

/// The row that starts a session.
#[derive(Debug, Clone, PartialEq, Eq)]
pub struct NewSession {
    pub token: String,
    pub user_id: String,
    pub created_at: u64,
    pub expires_at: u64,
}

/// The session that `token` opens for `user_id` at `now` (seconds): it
/// expires `SESSION_TTL_SECS` later.
pub fn session_with_token(token: String, user_id: &str, now: u64) -> (s: NewSession)
    requires
        now + SESSION_TTL_SECS <= u64::MAX,
    ensures
        s.token == token,
        s.user_id@ == user_id@,
        s.created_at == now,
        s.expires_at == now + SESSION_TTL_SECS,
{
    NewSession {
        token,
        user_id: String::from_str(user_id),
        created_at: now,
        expires_at: now + SESSION_TTL_SECS,
    }
}

/// A new session for `user_id` opened at `now` (seconds): a fresh token, and
/// an expiry `SESSION_TTL_SECS` later; `None` when no token could be drawn.
pub fn create_session(user_id: &str, now: u64) -> (s: Option<NewSession>)
    requires
        now + SESSION_TTL_SECS <= u64::MAX,
    ensures
        s matches Some(n) ==> {
            &&& exists|b: Seq<u8>| b.len() == 32 && n.token@ == #[trigger] hex_lower(b)
            &&& n.token@.len() == 64
            &&& is_hex_text(n.token@)
            &&& n.user_id@ == user_id@
            &&& n.created_at == now
            &&& n.expires_at == now + SESSION_TTL_SECS
        },
{
    match random_token() {
        Some(token) => Some(session_with_token(token, user_id, now)),
        None => None,
    }
}

/// A session is accepted while its expiry lies ahead of the current time.
pub fn session_is_live(expires_at: u64, now: u64) -> (b: bool)
    ensures
        b == (expires_at > now),
{
    expires_at > now
}

/// A session opened at `opened` is accepted at every moment before thirty
/// days have passed, and at none after.
pub proof fn session_lasts_ttl(opened: u64, expires_at: u64, t: u64)
    requires
        expires_at == opened + SESSION_TTL_SECS,
    ensures
        (expires_at > t) == (t < opened + SESSION_TTL_SECS),
        opened <= t < opened + 60 * 60 * 24 * 30 ==> expires_at > t,
{
}

/// The token carried by an `Authorization` header of the form `Bearer <token>`.
pub open spec fn bearer_of(header: Option<Seq<char>>) -> Option<Seq<char>> {
    match header {
        Some(h) => if has_prefix(h, "Bearer "@) {
            Some(h.skip(7))
        } else {
            None
        },
        None => None,
    }
}

/// The session token of an `Authorization` header: what follows `Bearer `;
/// `None` when the header is missing or has another form.
pub fn bearer_token(header: Option<&str>) -> (t: Option<&str>)
    ensures
        t matches Some(s) ==> bearer_of(
            match header {
                Some(h) => Some(h@),
                None => None,
            },
        ) == Some(s@),
        t is None ==> bearer_of(
            match header {
                Some(h) => Some(h@),
                None => None,
            },
        ) is None,
{
    proof {
        reveal_strlit("Bearer ");
    }
    match header {
        Some(h) => strip_prefix(h, "Bearer "),
        None => None,
    }
}

/// The bytes hashed for a PIN: the salt, a colon, the PIN (UTF-8).
pub open spec fn pin_hash_input(salt: Seq<char>, pin: Seq<char>) -> Seq<u8> {
    encode_utf8(salt) + seq![58u8] + encode_utf8(pin)
}

/// The stored hash of a PIN under a salt: hex of SHA-256 of `salt:pin`.
pub open spec fn pin_hash_text(salt: Seq<char>, pin: Seq<char>) -> Seq<char> {
    hex_lower(sha256_digest(pin_hash_input(salt, pin)))
}

/// Appends `b` to `v`.
fn append_bytes(v: &mut Vec<u8>, b: &[u8])
    ensures
        final(v)@ == old(v)@ + b@,
{
    let mut i: usize = 0;
    while i < b.len()
        invariant
            i <= b@.len(),
            v@ == old(v)@ + b@.take(i as int),
        decreases b@.len() - i,
    {
        v.push(b[i]);
        i += 1;
        assert(b@.take(i as int) =~= b@.take(i - 1).push(b@[i - 1]));
    }
    assert(b@.take(i as int) =~= b@);
}

/// Hashes a PIN with a given salt. Returns the salt and the hex hash, 64
/// lower-case hex digits.
pub fn hash_pin_with_salt(salt: &str, pin: &str) -> (r: (String, String))
    ensures
        r.0@ == salt@,
        r.1@ == pin_hash_text(salt@, pin@),
        r.1@.len() == 64,
        is_hex_text(r.1@),
{
    let mut input: Vec<u8> = Vec::new();
    append_bytes(&mut input, salt.as_bytes());
    input.push(58u8);
    append_bytes(&mut input, pin.as_bytes());
    assert(input@ =~= pin_hash_input(salt@, pin@));
    let d = sha256(input.as_slice());
    proof {
        lemma_hex_lower(d@);
    }
    (String::from_str(salt), hex_encode(d.as_slice()))
}

/// Hashes a PIN with the salt made of `salt_bytes` (their lower-case hex
/// text). Returns the salt and the hex hash.
pub fn hash_pin_with_salt_bytes(salt_bytes: &[u8], pin: &str) -> (r: (String, String))
    ensures
        r.0@ == hex_lower(salt_bytes@),
        r.0@.len() == 2 * salt_bytes@.len(),
        is_hex_text(r.0@),
        r.1@ == pin_hash_text(r.0@, pin@),
        r.1@.len() == 64,
        is_hex_text(r.1@),
{
    let salt = token_from_bytes(salt_bytes);
    hash_pin_with_salt(salt.as_str(), pin)
}

/// Hashes a PIN with a fresh random salt of 16 bytes. Returns the salt (32
/// hex digits) and the hash; `None` when no random bytes could be drawn.
pub fn hash_pin(pin: &str) -> (r: Option<(String, String)>)
    ensures
        r matches Some(p) ==> {
            &&& exists|b: Seq<u8>| b.len() == 16 && p.0@ == #[trigger] hex_lower(b)
            &&& p.0@.len() == 32
            &&& is_hex_text(p.0@)
            &&& p.1@ == pin_hash_text(p.0@, pin@)
            &&& p.1@.len() == 64
            &&& is_hex_text(p.1@)
        },
{
    match random_bytes(16) {
        Some(b) => Some(hash_pin_with_salt_bytes(b.as_slice(), pin)),
        None => None,
    }
}

/// The length in bytes of the UTF-8 text of `s`.
pub open spec fn utf8_len(s: Seq<char>) -> nat {
    encode_utf8(s).len()
}

/// What registration makes of a display name and a PIN: the trimmed name
/// must be non-empty and at most 40 bytes long in UTF-8, the PIN at least 4
/// characters; the result is the trimmed name.
pub open spec fn registration_check(display_name: Seq<char>, pin: Seq<char>) -> Result<
    Seq<char>,
    ApiError,
> {
    let name = trim_seq(display_name);
    if name.len() == 0 || utf8_len(name) > 40 {
        Err(ApiError::DisplayNameInvalid)
    } else if pin.len() < 4 {
        Err(ApiError::PinTooShort)
    } else {
        Ok(name)
    }
}

/// Registration accepts exactly a name that is not blank and at most 40
/// bytes once trimmed, with a PIN of at least 4 characters, and keeps the
/// trimmed name; a blank or too long name is refused before the PIN is
/// looked at.
pub proof fn registration_rule(display_name: Seq<char>, pin: Seq<char>)
    ensures
        registration_check(display_name, pin) is Ok <==> (trim_seq(display_name).len() > 0
            && utf8_len(trim_seq(display_name)) <= 40 && pin.len() >= 4),
        registration_check(display_name, pin) matches Ok(n) ==> n == trim_seq(display_name),
        (trim_seq(display_name).len() == 0 || utf8_len(trim_seq(display_name)) > 40)
            ==> registration_check(display_name, pin) == Err::<Seq<char>, ApiError>(
            ApiError::DisplayNameInvalid,
        ),
        (trim_seq(display_name).len() > 0 && utf8_len(trim_seq(display_name)) <= 40 && pin.len()
            < 4) ==> registration_check(display_name, pin) == Err::<Seq<char>, ApiError>(
            ApiError::PinTooShort,
        ),
{
}

/// Checks a registration: the display name, trimmed, must be non-empty and at
/// most 40 bytes; the PIN at least 4 characters. Returns the trimmed name.
pub fn validate_registration<'a>(display_name: &'a str, pin: &str) -> (r: Result<&'a str, ApiError>)
    ensures
        match registration_check(display_name@, pin@) {
            Ok(name) => r matches Ok(n) && n@ == name,
            Err(e) => r == Err::<&str, ApiError>(e),
        },
{
    let name = trim(display_name);
    if name.is_empty() || name.as_bytes().len() > 40 {
        return Err(ApiError::DisplayNameInvalid);
    }
    if pin.unicode_len() < 4 {
        return Err(ApiError::PinTooShort);
    }
    Ok(name)
}

/// What sign-in makes of a display name and a PIN: the trimmed name must be
/// non-empty and the PIN at least 4 characters; the result is the trimmed
/// name.
pub open spec fn login_check(display_name: Seq<char>, pin: Seq<char>) -> Option<Seq<char>> {
    let name = trim_seq(display_name);
    if name.len() == 0 || pin.len() < 4 {
        None
    } else {
        Some(name)
    }
}

/// Checks a sign-in form: the trimmed name must be non-empty and the PIN at
/// least 4 characters. Returns the trimmed name.
pub fn validate_login<'a>(display_name: &'a str, pin: &str) -> (r: Result<&'a str, ApiError>)
    ensures
        match login_check(display_name@, pin@) {
            Some(name) => r matches Ok(n) && n@ == name,
            None => r == Err::<&str, ApiError>(ApiError::LoginFieldsRequired),
        },
{
    let name = trim(display_name);
    if name.is_empty() || pin.unicode_len() < 4 {
        return Err(ApiError::LoginFieldsRequired);
    }
    Ok(name)
}

/// A name and PIN that registration accepts pass the sign-in check too, and
/// under the same trimmed name.
pub proof fn registered_fields_sign_in(display_name: Seq<char>, pin: Seq<char>)
    requires
        registration_check(display_name, pin) is Ok,
    ensures
        login_check(display_name, pin) == Some(registration_check(display_name, pin)->Ok_0),
{
}

/// The stored account that a sign-in is checked against.
#[derive(Debug, Clone, PartialEq, Eq)]
pub struct LoginRow {
    pub id: String,
    pub display_name: String,
    pub avatar_key: Option<String>,
    pub pin_hash: Option<String>,
    pub pin_salt: Option<String>,
}

/// The PIN matches the stored salted hash of the account.
pub open spec fn pin_matches(row: LoginRow, pin: Seq<char>) -> bool {
    match (row.pin_hash, row.pin_salt) {
        (Some(h), Some(s)) => pin_hash_text(s@, pin) == h@,
        _ => false,
    }
}

/// The account has both a PIN hash and a salt.
pub open spec fn has_pin(row: LoginRow) -> bool {
    row.pin_hash is Some && row.pin_salt is Some
}

/// Decides a sign-in: no such account, or a wrong PIN, is refused as invalid
/// credentials; an account without a PIN is refused as such; otherwise the
/// member of the account is signed in.
pub fn check_login(row: Option<LoginRow>, pin: &str) -> (r: Result<User, ApiError>)
    ensures
        match row {
            None => r == Err::<User, ApiError>(ApiError::InvalidCredentials),
            Some(rw) => if !has_pin(rw) {
                r == Err::<User, ApiError>(ApiError::NoPin)
            } else if !pin_matches(rw, pin@) {
                r == Err::<User, ApiError>(ApiError::InvalidCredentials)
            } else {
                r == Ok::<User, ApiError>(
                    User { id: rw.id, display_name: rw.display_name, avatar_key: rw.avatar_key },
                )
            },
        },
{
    match row {
        None => Err(ApiError::InvalidCredentials),
        Some(rw) => {
            match (&rw.pin_hash, &rw.pin_salt) {
                (Some(stored_hash), Some(salt)) => {
                    let (_, computed) = hash_pin_with_salt(salt.as_str(), pin);
                    if computed != *stored_hash {
                        return Err(ApiError::InvalidCredentials);
                    }
                },
                _ => {
                    return Err(ApiError::NoPin);
                },
            }
            Ok(User { id: rw.id, display_name: rw.display_name, avatar_key: rw.avatar_key })
        },
    }
}

/// A PIN chosen at registration signs the member in: an account that stores
/// the salt and the hash that registration computed for a PIN accepts that PIN.
pub proof fn registered_pin_is_accepted(row: LoginRow, pin: Seq<char>)
    requires
        row.pin_salt matches Some(s) && row.pin_hash matches Some(h) && h@ == pin_hash_text(
            s@,
            pin,
        ),
    ensures
        has_pin(row),
        pin_matches(row, pin),
{
}

} // verus!
