//! The `account` header that some listings require.

use vstd::prelude::*;
use crate::web::{reason_text, Reason, WebErr};

verus! {

/// A byte that `HeaderValue::to_str` accepts: visible ASCII or a tab.
pub open spec fn is_visible_ascii(b: u8) -> bool {
    (32 <= b && b < 127) || b == 9
}

/// A byte that `HeaderValue::from_bytes` accepts.
pub open spec fn is_header_byte(b: u8) -> bool {
    (32 <= b && b != 127) || b == 9
}

/// The characters of a string of ASCII bytes.
pub open spec fn ascii_chars(bytes: Seq<u8>) -> Seq<char> {
    bytes.map_values(|b: u8| b as char)
}

/// `http::HeaderValue::from_bytes` followed by `HeaderValue::to_str`. The
/// text comes back when every byte is visible ASCII or a tab; else the
/// message of the failure: that of `ToStrError` when every byte is a valid
/// header byte (as every byte of a received header is).
#[verifier::external_body]
pub(crate) fn header_text(bytes: &[u8]) -> (r: Result<String, String>)
    ensures
        r is Ok <==> (forall|i: int| 0 <= i < bytes@.len() ==> is_visible_ascii(#[trigger] bytes@[i])),
        r matches Ok(s) ==> s@ == ascii_chars(bytes@),
        (forall|i: int| 0 <= i < bytes@.len() ==> is_header_byte(#[trigger] bytes@[i])) ==> (
        r matches Err(m) ==> m@ == "failed to convert header to a str"@),
{
    match http::HeaderValue::from_bytes(bytes) {
        Ok(v) => match v.to_str() {
            Ok(s) => Ok(s.to_string()),
            Err(e) => Err(e.to_string()),
        },
        Err(e) => Err(e.to_string()),
    }
}

/// The account that a header's bytes name, when they are visible ASCII and
/// not empty.
pub open spec fn header_account(header: Option<Seq<u8>>) -> Option<Seq<char>> {
    match header {
        Some(b) => if b.len() > 0 && (forall|i: int| 0 <= i < b.len() ==> is_visible_ascii(#[trigger] b[i])) {
            Some(ascii_chars(b))
        } else {
            None
        },
        None => None,
    }
}

/// The bytes of an optional header.
pub open spec fn header_bytes(header: Option<&[u8]>) -> Option<Seq<u8>> {
    match header {
        Some(b) => Some(b@),
        None => None,
    }
}

/// The message of an error result.
pub open spec fn error_text(r: Result<String, WebErr>) -> Seq<char> {
    match r {
        Ok(_) => seq![],
        Err(e) => reason_text(e.reason),
    }
}

/// The account a request names in its `account` header, given the header's
/// bytes: an absent or empty header is refused, and so is one that is not
/// visible ASCII.
pub fn account_of(header: Option<&[u8]>) -> (r: Result<String, WebErr>)
    ensures
        r is Ok <==> header_account(header_bytes(header)) is Some,
        r matches Ok(s) ==> header_account(header_bytes(header)) == Some(s@),
        header is None ==> r == Err::<String, WebErr>(WebErr { reason: Reason::NoAccount }),
        header matches Some(b) ==> {
            let visible = forall|i: int| 0 <= i < b@.len() ==> is_visible_ascii(#[trigger] b@[i]);
            &&& (r is Ok <==> visible && b@.len() > 0)
            &&& (r matches Ok(s) ==> s@ == ascii_chars(b@))
            &&& (visible && b@.len() == 0 ==> r == Err::<String, WebErr>(WebErr { reason: Reason::NoAccount }))
            &&& (!visible ==> r is Err)
            &&& (!visible && (forall|i: int| 0 <= i < b@.len() ==> is_header_byte(#[trigger] b@[i]))
                ==> error_text(r) == "failed to convert header to a str"@)
        },
{
    match header {
        None => Err(WebErr::new(Reason::NoAccount)),
        Some(b) => match header_text(b) {
            Err(m) => Err(WebErr::from_message(m)),
            Ok(s) => {
                if s.as_str().is_empty() {
                    Err(WebErr::new(Reason::NoAccount))
                } else {
                    Ok(s)
                }
            },
        },
    }
}

} // verus!
