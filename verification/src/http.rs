//! Answers of the worker: the error catalogue with its statuses and messages,
//! JSON bodies, and the headers put on every response.
use vstd::prelude::*;
use crate::primitives::{json_quoted, json_string};
use crate::text::{decimal, decimal_string};

verus! {

/// Every refusal the worker answers with, one variant per message.
#[derive(Debug, Clone, PartialEq, Eq)]
pub enum ApiError {
    BadBody { detail: String },
    DisplayNameInvalid,
    PinTooShort,
    InvalidInvite,
    LoginFieldsRequired,
    InvalidCredentials,
    NoPin,
    Unauthorized,
    PassphraseRequired,
    InvitesClosed,
    InvalidPassphrase,
    AdminNotConfigured,
    InvalidAdminSecret,
    PassphraseTooShort,
    PassphraseTooLong,
    EmojiNotAllowed,
    EmptyPost,
    MissingId,
    EmptyComment,
    MethodNotAllowed,
    MissingKey,
    KeyNotOwned,
    MediaTooLarge { size: u64, max: u64 },
    StorageCapReached { used: u64, cap: u64 },
    NotFound,
    Internal { detail: String },
}

/// The HTTP status of an error.
pub open spec fn status_of(e: ApiError) -> u16 {
    match e {
        ApiError::BadBody { .. } => 400,
        ApiError::DisplayNameInvalid => 400,
        ApiError::PinTooShort => 400,
        ApiError::InvalidInvite => 403,
        ApiError::LoginFieldsRequired => 400,
        ApiError::InvalidCredentials => 401,
        ApiError::NoPin => 401,
        ApiError::Unauthorized => 401,
        ApiError::PassphraseRequired => 400,
        ApiError::InvitesClosed => 503,
        ApiError::InvalidPassphrase => 401,
        ApiError::AdminNotConfigured => 503,
        ApiError::InvalidAdminSecret => 401,
        ApiError::PassphraseTooShort => 400,
        ApiError::PassphraseTooLong => 400,
        ApiError::EmojiNotAllowed => 400,
        ApiError::EmptyPost => 400,
        ApiError::MissingId => 400,
        ApiError::EmptyComment => 400,
        ApiError::MethodNotAllowed => 405,
        ApiError::MissingKey => 400,
        ApiError::KeyNotOwned => 403,
        ApiError::MediaTooLarge { .. } => 413,
        ApiError::StorageCapReached { .. } => 413,
        ApiError::NotFound => 404,
        ApiError::Internal { .. } => 500,
    }
}

/// The status classes of errors: refused input is 400, a refused
/// credential, session, passphrase or admin secret 401, a refused invite or
/// another member's media key 403, a missing object 404, a wrong method 405,
/// a too-large upload 413, an internal failure 500, and a service that is
/// not set up (closed invites, no admin secret) 503.
pub proof fn error_status_classes(e: ApiError)
    ensures
        (e is BadBody || e is DisplayNameInvalid || e is PinTooShort || e is LoginFieldsRequired
            || e is PassphraseRequired || e is PassphraseTooShort || e is PassphraseTooLong
            || e is EmojiNotAllowed || e is EmptyPost || e is MissingId || e is EmptyComment
            || e is MissingKey) ==> status_of(e) == 400,
        (e is InvalidCredentials || e is NoPin || e is Unauthorized || e is InvalidPassphrase
            || e is InvalidAdminSecret) ==> status_of(e) == 401,
        (e is InvalidInvite || e is KeyNotOwned) ==> status_of(e) == 403,
        e is NotFound ==> status_of(e) == 404,
        e is MethodNotAllowed ==> status_of(e) == 405,
        (e is MediaTooLarge || e is StorageCapReached) ==> status_of(e) == 413,
        e is Internal ==> status_of(e) == 500,
        (e is InvitesClosed || e is AdminNotConfigured) ==> status_of(e) == 503,
{
}

/// The message of an error, as the body's `error` field carries it.
pub open spec fn message_of(e: ApiError) -> Seq<char> {
    match e {
        ApiError::BadBody { detail } => "bad body: "@ + detail@,
        ApiError::DisplayNameInvalid => "display_name required, max 40 chars"@,
        ApiError::PinTooShort => "pin must be at least 4 characters"@,
        ApiError::InvalidInvite => "invalid or already-used invite code"@,
        ApiError::LoginFieldsRequired => "display_name and pin (4+ chars) required"@,
        ApiError::InvalidCredentials => "invalid name or PIN"@,
        ApiError::NoPin => "this account has no PIN \u{2014} re-register with an invite code"@,
        ApiError::Unauthorized => "unauthorized"@,
        ApiError::PassphraseRequired => "passphrase required"@,
        ApiError::InvitesClosed => "invites are not currently open"@,
        ApiError::InvalidPassphrase => "invalid passphrase"@,
        ApiError::AdminNotConfigured => "admin not configured"@,
        ApiError::InvalidAdminSecret => "invalid admin secret"@,
        ApiError::PassphraseTooShort => "passphrase too short (min 8 chars)"@,
        ApiError::PassphraseTooLong => "passphrase too long (max 200 chars)"@,
        ApiError::EmojiNotAllowed => "emoji not allowed"@,
        ApiError::EmptyPost => "post needs body, image, or video"@,
        ApiError::MissingId => "missing id"@,
        ApiError::EmptyComment => "comment empty"@,
        ApiError::MethodNotAllowed => "method not allowed"@,
        ApiError::MissingKey => "missing key"@,
        ApiError::KeyNotOwned => "key not owned"@,
        ApiError::MediaTooLarge { size, max } => "media too large ("@ + decimal(size as nat)
            + " bytes, max "@ + decimal(max as nat) + ")"@,
        ApiError::StorageCapReached { used, cap } => "storage cap reached ("@ + decimal(
            used as nat,
        ) + " of "@ + decimal(cap as nat) + " bytes used)"@,
        ApiError::NotFound => "not found"@,
        ApiError::Internal { detail } => "internal: "@ + detail@,
    }
}

impl ApiError {
    /// The HTTP status of this error.
    pub fn status(&self) -> (s: u16)
        ensures
            s == status_of(*self),
    {
        match self {
            ApiError::BadBody { .. } => 400,
            ApiError::DisplayNameInvalid => 400,
            ApiError::PinTooShort => 400,
            ApiError::InvalidInvite => 403,
            ApiError::LoginFieldsRequired => 400,
            ApiError::InvalidCredentials => 401,
            ApiError::NoPin => 401,
            ApiError::Unauthorized => 401,
            ApiError::PassphraseRequired => 400,
            ApiError::InvitesClosed => 503,
            ApiError::InvalidPassphrase => 401,
            ApiError::AdminNotConfigured => 503,
            ApiError::InvalidAdminSecret => 401,
            ApiError::PassphraseTooShort => 400,
            ApiError::PassphraseTooLong => 400,
            ApiError::EmojiNotAllowed => 400,
            ApiError::EmptyPost => 400,
            ApiError::MissingId => 400,
            ApiError::EmptyComment => 400,
            ApiError::MethodNotAllowed => 405,
            ApiError::MissingKey => 400,
            ApiError::KeyNotOwned => 403,
            ApiError::MediaTooLarge { .. } => 413,
            ApiError::StorageCapReached { .. } => 413,
            ApiError::NotFound => 404,
            ApiError::Internal { .. } => 500,
        }
    }

    /// The message of this error.
    pub fn message(&self) -> (m: String)
        ensures
            m@ == message_of(*self),
    {
        match self {
            ApiError::BadBody { detail } => {
                let mut m = String::from_str("bad body: ");
                m.append(detail.as_str());
                m
            },
            ApiError::DisplayNameInvalid => String::from_str("display_name required, max 40 chars"),
            ApiError::PinTooShort => String::from_str("pin must be at least 4 characters"),
            ApiError::InvalidInvite => String::from_str("invalid or already-used invite code"),
            ApiError::LoginFieldsRequired => String::from_str(
                "display_name and pin (4+ chars) required",
            ),
            ApiError::InvalidCredentials => String::from_str("invalid name or PIN"),
            ApiError::NoPin => String::from_str(
                "this account has no PIN \u{2014} re-register with an invite code",
            ),
            ApiError::Unauthorized => String::from_str("unauthorized"),
            ApiError::PassphraseRequired => String::from_str("passphrase required"),
            ApiError::InvitesClosed => String::from_str("invites are not currently open"),
            ApiError::InvalidPassphrase => String::from_str("invalid passphrase"),
            ApiError::AdminNotConfigured => String::from_str("admin not configured"),
            ApiError::InvalidAdminSecret => String::from_str("invalid admin secret"),
            ApiError::PassphraseTooShort => String::from_str("passphrase too short (min 8 chars)"),
            ApiError::PassphraseTooLong => String::from_str("passphrase too long (max 200 chars)"),
            ApiError::EmojiNotAllowed => String::from_str("emoji not allowed"),
            ApiError::EmptyPost => String::from_str("post needs body, image, or video"),
            ApiError::MissingId => String::from_str("missing id"),
            ApiError::EmptyComment => String::from_str("comment empty"),
            ApiError::MethodNotAllowed => String::from_str("method not allowed"),
            ApiError::MissingKey => String::from_str("missing key"),
            ApiError::KeyNotOwned => String::from_str("key not owned"),
            ApiError::MediaTooLarge { size, max } => {
                let mut m = String::from_str("media too large (");
                m.append(decimal_string(*size).as_str());
                m.append(" bytes, max ");
                m.append(decimal_string(*max).as_str());
                m.append(")");
                m
            },
            ApiError::StorageCapReached { used, cap } => {
                let mut m = String::from_str("storage cap reached (");
                m.append(decimal_string(*used).as_str());
                m.append(" of ");
                m.append(decimal_string(*cap).as_str());
                m.append(" bytes used)");
                m
            },
            ApiError::NotFound => String::from_str("not found"),
            ApiError::Internal { detail } => {
                let mut m = String::from_str("internal: ");
                m.append(detail.as_str());
                m
            },
        }
    }
}

/// A JSON answer: its status and body text.
#[derive(Debug, Clone, PartialEq, Eq)]
pub struct Reply {
    pub status: u16,
    pub body: String,
}

/// The text of a JSON object with one string field.
pub open spec fn json_field(key: Seq<char>, value: Seq<char>) -> Seq<char> {
    seq!['{'] + json_quoted(key) + seq![':'] + json_quoted(value) + seq!['}']
}

/// A JSON object with one string field, as `serde_json` writes `{ key: value }`.
pub fn json_field_object(key: &str, value: &str) -> (r: String)
    ensures
        r@ == json_field(key@, value@),
{
    let mut r = String::from_str("{");
    r.append(json_string(key).as_str());
    r.append(":");
    r.append(json_string(value).as_str());
    r.append("}");
    proof {
        reveal_strlit("{");
        reveal_strlit(":");
        reveal_strlit("}");
    }
    r
}

/// The JSON error answer `{"error": msg}` with the given status.
pub fn json_error(status: u16, msg: &str) -> (r: Reply)
    ensures
        r.status == status,
        r.body@ == json_field("error"@, msg@),
{
    Reply { status, body: json_field_object("error", msg) }
}

/// The JSON answer for an error of the catalogue.
pub fn error_reply(e: &ApiError) -> (r: Reply)
    ensures
        r.status == status_of(*e),
        r.body@ == json_field("error"@, message_of(*e)),
{
    let m = e.message();
    json_error(e.status(), m.as_str())
}

/// The header `name: value`.
pub open spec fn header_is(h: (String, String), name: Seq<char>, value: Seq<char>) -> bool {
    h.0@ == name && h.1@ == value
}

/// The CORS headers of every answer: the allowed origin (the configured one,
/// `*` when none is), credentials, methods and request headers.
pub fn cors_headers(allowed_origin: Option<&str>) -> (h: Vec<(String, String)>)
    ensures
        h@.len() == 4,
        header_is(
            h@[0],
            "Access-Control-Allow-Origin"@,
            match allowed_origin {
                Some(o) => o@,
                None => "*"@,
            },
        ),
        header_is(h@[1], "Access-Control-Allow-Credentials"@, "true"@),
        header_is(h@[2], "Access-Control-Allow-Methods"@, "GET,POST,PUT,OPTIONS"@),
        header_is(h@[3], "Access-Control-Allow-Headers"@, "Content-Type,Authorization"@),
{
    let origin = match allowed_origin {
        Some(o) => String::from_str(o),
        None => String::from_str("*"),
    };
    vec![
        (String::from_str("Access-Control-Allow-Origin"), origin),
        (String::from_str("Access-Control-Allow-Credentials"), String::from_str("true")),
        (String::from_str("Access-Control-Allow-Methods"), String::from_str("GET,POST,PUT,OPTIONS")),
        (
            String::from_str("Access-Control-Allow-Headers"),
            String::from_str("Content-Type,Authorization"),
        ),
    ]
}

/// The security headers put on every routed answer: a content security
/// policy that admits only this origin (and the WebAssembly it runs), no
/// sniffing, no framing, a strict referrer, and the camera for this origin
/// alone.
pub fn security_headers() -> (h: Vec<(String, String)>)
    ensures
        h@.len() == 5,
        header_is(
            h@[0],
            "Content-Security-Policy"@,
            "default-src 'self'; script-src 'self' 'wasm-unsafe-eval'; img-src 'self' blob: data:; connect-src 'self'"@,
        ),
        header_is(h@[1], "X-Content-Type-Options"@, "nosniff"@),
        header_is(h@[2], "X-Frame-Options"@, "DENY"@),
        header_is(h@[3], "Referrer-Policy"@, "strict-origin-when-cross-origin"@),
        header_is(h@[4], "Permissions-Policy"@, "camera=(self), microphone=(), geolocation=()"@),
{
    vec![
        (
            String::from_str("Content-Security-Policy"),
            String::from_str(
                "default-src 'self'; script-src 'self' 'wasm-unsafe-eval'; img-src 'self' blob: data:; connect-src 'self'",
            ),
        ),
        (String::from_str("X-Content-Type-Options"), String::from_str("nosniff")),
        (String::from_str("X-Frame-Options"), String::from_str("DENY")),
        (String::from_str("Referrer-Policy"), String::from_str("strict-origin-when-cross-origin")),
        (
            String::from_str("Permissions-Policy"),
            String::from_str("camera=(self), microphone=(), geolocation=()"),
        ),
    ]
}

/// The circle that this worker serves: the configured one, `default` when none is.
pub fn circle_id(configured: Option<&str>) -> (c: String)
    ensures
        c@ == match configured {
            Some(v) => v@,
            None => "default"@,
        },
{
    match configured {
        Some(v) => String::from_str(v),
        None => String::from_str("default"),
    }
}

} // verus!
