//! The telemetry listener's part that computes: turning a received datagram
//! into text.
use vstd::prelude::*;
use vstd::utf8::{valid_utf8, encode_utf8};

verus! {

/// Relies on std::str::from_utf8: it succeeds exactly on valid UTF-8, and the
/// text it gives is made of those very bytes.
#[verifier::external_body]
fn utf8_text(bytes: &[u8]) -> (r: Option<String>)
    ensures
        r is Some <==> valid_utf8(bytes@),
        r matches Some(s) ==> encode_utf8(s@) == bytes@,
{
    std::str::from_utf8(bytes).ok().map(String::from)
}

/// The text of a datagram, or `None` when it is not valid UTF-8 (such a
/// datagram is dropped; the listener goes on).
pub fn decode_datagram(bytes: &[u8]) -> (r: Option<String>)
    ensures
        r is Some <==> valid_utf8(bytes@),
        r matches Some(s) ==> encode_utf8(s@) == bytes@,
{
    utf8_text(bytes)
}

} // verus!
