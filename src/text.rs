//! Identifiers as the callback receives them.
//!
//! An identifier arrives as raw bytes. It is handed on as text when the bytes
//! are valid UTF-8 and hold no nul byte (so that it can travel as a
//! nul-terminated string); any other identifier is replaced by the empty text.
use vstd::prelude::*;
use vstd::utf8::{decode_utf8, valid_utf8};

verus! {

/// Whether `raw` can be handed on unchanged: valid UTF-8 without a nul byte.
pub open spec fn representable(raw: Seq<u8>) -> bool {
    valid_utf8(raw) && !raw.contains(0u8)
}

/// The text that stands for the identifier `raw`.
pub open spec fn safe_text(raw: Seq<u8>) -> Seq<char> {
    if representable(raw) {
        decode_utf8(raw)
    } else {
        Seq::empty()
    }
}

/// Relies on `std::str::from_utf8`: it accepts exactly the byte sequences that
/// are valid UTF-8, and then yields the characters they encode.
#[verifier::external_body]
fn decode_utf8_bytes(raw: &[u8]) -> (r: Option<String>)
    ensures
        r is Some <==> valid_utf8(raw@),
        r matches Some(s) ==> s@ == decode_utf8(raw@),
{
    std::str::from_utf8(raw).ok().map(|s| s.to_string())
}

/// Whether `raw` holds a nul byte.
pub fn has_nul(raw: &[u8]) -> (r: bool)
    ensures
        r == raw@.contains(0u8),
{
    let mut i: usize = 0;
    while i < raw.len()
        invariant
            0 <= i <= raw@.len(),
            forall|k: int| 0 <= k < i ==> raw@[k] != 0u8,
        decreases raw@.len() - i,
    {
        if raw[i] == 0u8 {
            assert(raw@[i as int] == 0u8);
            return true;
        }
        i = i + 1;
    }
    false
}

/// The text for `raw`, given what decoding `raw` as UTF-8 gave: the decoded
/// text when `raw` holds no nul byte and decoding succeeded, else the empty text.
pub fn text_from_decoded(raw: &[u8], decoded: Option<String>) -> (r: String)
    ensures
        r@ == (match decoded {
            Some(s) => if raw@.contains(0u8) { Seq::empty() } else { s@ },
            None => Seq::<char>::empty(),
        }),
{
    if has_nul(raw) {
        return String::new();
    }
    match decoded {
        Some(s) => s,
        None => String::new(),
    }
}

/// The text that stands for the identifier `raw`: `raw` decoded when it is
/// valid UTF-8 without a nul byte, the empty text otherwise.
pub fn identifier_text(raw: &[u8]) -> (r: String)
    ensures
        r@ == safe_text(raw@),
        !representable(raw@) ==> r@.len() == 0,
{
    let decoded = decode_utf8_bytes(raw);
    text_from_decoded(raw, decoded)
}

} // verus!
