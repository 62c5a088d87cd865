//! Random identifiers: version-4 UUIDs in their hyphenated text form.
use vstd::prelude::*;
use crate::auth::{is_hex_text, lemma_hex_lower};
use crate::primitives::{
    hex_lower,
    is_hex_char,
    random_bytes,
    uuid_from_random_bytes,
    uuid_v4_bytes,
    uuid_v4_text,
};

verus! {

/// The text of a hyphenated lower-case UUID: 36 characters, hyphens at 8, 13,
/// 18 and 23, lower-case hex digits elsewhere.
pub open spec fn is_uuid_text(s: Seq<char>) -> bool {
    &&& s.len() == 36
    &&& forall|i: int|
        0 <= i < 36 ==> if i == 8 || i == 13 || i == 18 || i == 23 {
            s[i] == '-'
        } else {
            is_hex_char(s[i])
        }
}

/// The UUID text made from any sixteen bytes has the hyphenated lower-case
/// shape.
pub proof fn lemma_uuid_v4_text(b: Seq<u8>)
    requires
        b.len() == 16,
    ensures
        is_uuid_text(uuid_v4_text(b)),
{
    let h = hex_lower(uuid_v4_bytes(b));
    lemma_hex_lower(uuid_v4_bytes(b));
    assert(h.len() == 32);
    assert(is_hex_text(h));
    let s = uuid_v4_text(b);
    assert(s.len() == 36);
    assert forall|i: int| 0 <= i < 36 implies (if i == 8 || i == 13 || i == 18 || i == 23 {
        s[i] == '-'
    } else {
        is_hex_char(s[i])
    }) by {
        if i < 8 {
            assert(s[i] == h[i]);
        } else if i == 8 || i == 13 || i == 18 || i == 23 {
        } else if i < 13 {
            assert(s[i] == h[i - 1]);
        } else if i < 18 {
            assert(s[i] == h[i - 2]);
        } else if i < 23 {
            assert(s[i] == h[i - 3]);
        } else {
            assert(s[i] == h[i - 4]);
        }
    }
}

/// The identifier made from sixteen given bytes: the hyphenated lower-case
/// text of the version-4 UUID they make.
pub fn id_from_bytes(bytes: &[u8]) -> (r: String)
    requires
        bytes@.len() == 16,
    ensures
        r@ == uuid_v4_text(bytes@),
        is_uuid_text(r@),
{
    let mut a: [u8; 16] = [0u8; 16];
    let mut i: usize = 0;
    while i < 16
        invariant
            i <= 16,
            bytes@.len() == 16,
            a@.len() == 16,
            forall|j: int| 0 <= j < i ==> a@[j] == bytes@[j],
        decreases 16 - i,
    {
        a[i] = bytes[i];
        i += 1;
    }
    assert(a@ =~= bytes@);
    proof {
        lemma_uuid_v4_text(bytes@);
    }
    uuid_from_random_bytes(a)
}

/// A fresh random identifier: a version-4 UUID made from sixteen random
/// bytes; `None` when the system gives no random bytes.
pub fn new_id() -> (r: Option<String>)
    ensures
        r matches Some(s) ==> {
            &&& exists|b: Seq<u8>| b.len() == 16 && s@ == #[trigger] uuid_v4_text(b)
            &&& is_uuid_text(s@)
        },
{
    match random_bytes(16) {
        Some(b) => Some(id_from_bytes(b.as_slice())),
        None => None,
    }
}

} // verus!
