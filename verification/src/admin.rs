//! Invites: the admin gate, the invite passphrase, its comparison, and the
//! minting of single-use invite codes.
use vstd::prelude::*;
use vstd::utf8::encode_utf8;
use crate::auth::{bearer_of, bearer_token, utf8_len};
use crate::http::ApiError;
use crate::ids::new_id;
use crate::primitives::is_hex_char;
use crate::text::{eq_str, trim, trim_seq};

verus! {

/// The view of an optional string slice.
pub open spec fn opt_view(o: Option<&str>) -> Option<Seq<char>> {
    match o {
        Some(s) => Some(s@),
        None => None,
    }
}

/// Admits an admin request: the admin secret (the secret binding, else the
/// plain variable) must be configured, and the request must carry it as its
/// bearer token.
pub fn check_admin(
    secret: Option<&str>,
    var: Option<&str>,
    authorization: Option<&str>,
) -> (r: Result<(), ApiError>)
    ensures
        ({
            let configured = match secret {
                Some(s) => Some(s@),
                None => opt_view(var),
            };
            match configured {
                None => r == Err::<(), ApiError>(ApiError::AdminNotConfigured),
                Some(c) => if bearer_of(opt_view(authorization)) == Some(c) {
                    r == Ok::<(), ApiError>(())
                } else {
                    r == Err::<(), ApiError>(ApiError::InvalidAdminSecret)
                },
            }
        }),
{
    let configured = match secret {
        Some(s) => s,
        None => match var {
            Some(v) => v,
            None => {
                return Err(ApiError::AdminNotConfigured);
            },
        },
    };
    match bearer_token(authorization) {
        Some(t) => if eq_str(t, configured) {
            Ok(())
        } else {
            Err(ApiError::InvalidAdminSecret)
        },
        None => Err(ApiError::InvalidAdminSecret),
    }
}

/// Checks a new invite passphrase: trimmed, it must have 8 to 200 bytes.
/// Returns the trimmed passphrase.
pub fn validate_passphrase<'a>(passphrase: &'a str) -> (r: Result<&'a str, ApiError>)
    ensures
        ({
            let p = trim_seq(passphrase@);
            if utf8_len(p) < 8 {
                r == Err::<&str, ApiError>(ApiError::PassphraseTooShort)
            } else if utf8_len(p) > 200 {
                r == Err::<&str, ApiError>(ApiError::PassphraseTooLong)
            } else {
                r matches Ok(t) && t@ == p
            }
        }),
{
    let p = trim(passphrase);
    let n = p.as_bytes().len();
    if n < 8 {
        return Err(ApiError::PassphraseTooShort);
    }
    if n > 200 {
        return Err(ApiError::PassphraseTooLong);
    }
    Ok(p)
}

/// The passphrase offered to redeem an invite, trimmed; it must not be empty.
pub fn offered_passphrase<'a>(passphrase: &'a str) -> (r: Result<&'a str, ApiError>)
    ensures
        trim_seq(passphrase@).len() == 0 ==> r == Err::<&str, ApiError>(
            ApiError::PassphraseRequired,
        ),
        trim_seq(passphrase@).len() != 0 ==> (r matches Ok(t) && t@ == trim_seq(passphrase@)),
{
    let p = trim(passphrase);
    if p.is_empty() {
        return Err(ApiError::PassphraseRequired);
    }
    Ok(p)
}

/// Whether two byte strings are equal, comparing every byte of equal-length
/// inputs whatever their content.
pub fn constant_time_eq(a: &[u8], b: &[u8]) -> (r: bool)
    ensures
        r == (a@ == b@),
{
    if a.len() != b.len() {
        return false;
    }
    let mut diff: u8 = 0;
    let mut i: usize = 0;
    while i < a.len()
        invariant
            i <= a@.len(),
            a@.len() == b@.len(),
            (diff == 0) == (forall|j: int| 0 <= j < i ==> a@[j] == b@[j]),
        decreases a@.len() - i,
    {
        let x = a[i];
        let y = b[i];
        let d = diff | (x ^ y);
        assert((d == 0) == (diff == 0 && x == y)) by (bit_vector)
            requires
                d == diff | (x ^ y),
        ;
        diff = d;
        i += 1;
    }
    assert((diff == 0) ==> a@ =~= b@);
    diff == 0
}

/// The outcome of a redemption: closed while no passphrase is stored,
/// accepted when the offered passphrase equals the stored one byte for byte.
pub open spec fn redeem_outcome(offered: Seq<char>, stored: Option<Seq<char>>) -> Result<
    (),
    ApiError,
> {
    match stored {
        None => Err(ApiError::InvitesClosed),
        Some(s) => if encode_utf8(offered) == encode_utf8(s) {
            Ok(())
        } else {
            Err(ApiError::InvalidPassphrase)
        },
    }
}

/// Decides a redemption: invites are closed while no passphrase is stored,
/// and the offered passphrase must equal the stored one byte for byte.
pub fn check_redeem(offered: &str, stored: Option<&str>) -> (r: Result<(), ApiError>)
    ensures
        r == redeem_outcome(offered@, opt_view(stored)),
{
    match stored {
        None => Err(ApiError::InvitesClosed),
        Some(s) => if constant_time_eq(offered.as_bytes(), s.as_bytes()) {
            Ok(())
        } else {
            Err(ApiError::InvalidPassphrase)
        },
    }
}

/// A passphrase set as `set` (stored trimmed) admits exactly the offers that
/// equal it once trimmed: any other offer is refused as a wrong passphrase.
pub proof fn redeem_matches_set_passphrase(set: Seq<char>, offer: Seq<char>)
    ensures
        redeem_outcome(trim_seq(offer), Some(trim_seq(set))) == if trim_seq(offer) == trim_seq(
            set,
        ) {
            Ok::<(), ApiError>(())
        } else {
            Err::<(), ApiError>(ApiError::InvalidPassphrase)
        },
{
    vstd::utf8::encode_utf8_decode_utf8(trim_seq(offer));
    vstd::utf8::encode_utf8_decode_utf8(trim_seq(set));
}

/// An invite code: `prefix` followed by the first eight characters of `id`.
pub fn invite_code(prefix: &str, id: &str) -> (r: String)
    requires
        id@.len() >= 8,
    ensures
        r@ == prefix@ + id@.take(8),
{
    let head = id.substring_char(0, 8);
    let mut r = String::from_str(prefix);
    r.append(head);
    assert(head@ =~= id@.take(8));
    r
}

/// A fresh invite code: `prefix` and eight random hex digits, the first
/// eight of a random UUID; `None` when the system gives no random bytes.
pub fn mint_invite_code(prefix: &str) -> (r: Option<String>)
    ensures
        r matches Some(c) ==> {
            &&& c@.len() == prefix@.len() + 8
            &&& c@.take(prefix@.len() as int) == prefix@
            &&& forall|i: int| prefix@.len() <= i < c@.len() ==> is_hex_char(#[trigger] c@[i])
        },
{
    match new_id() {
        Some(id) => {
            let r = invite_code(prefix, id.as_str());
            assert(r@.take(prefix@.len() as int) =~= prefix@);
            assert forall|i: int| prefix@.len() <= i < r@.len() implies is_hex_char(
                #[trigger] r@[i],
            ) by {
                assert(r@[i] == id@[i - prefix@.len()]);
            }
            Some(r)
        },
        None => None,
    }
}

} // verus!
