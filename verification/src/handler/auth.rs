//! Guarding the endpoints that need a signed-in administrator: the request's
//! `sessionid` header must equal the session id kept for its `account`.

use vstd::prelude::*;
use crate::handler::account::{ascii_chars, header_text, is_visible_ascii};
use crate::handler::login::{session_key, spec_session_key};

verus! {

/// The text of a header, when it is visible ASCII.
pub open spec fn header_str(b: Seq<u8>) -> Option<Seq<char>> {
    if forall|i: int| 0 <= i < b.len() ==> is_visible_ascii(#[trigger] b[i]) {
        Some(ascii_chars(b))
    } else {
        None
    }
}

/// What a request claims: the key of its account's session and its session
/// id, when both headers are present and readable.
pub open spec fn spec_session_claim(account: Option<Seq<u8>>, session: Option<Seq<u8>>) -> Option<(Seq<char>, Seq<char>)> {
    match (account, session) {
        (Some(a), Some(s)) => match (header_str(a), header_str(s)) {
            (Some(name), Some(id)) => Some((spec_session_key(name), id)),
            _ => None,
        },
        _ => None,
    }
}

fn readable(b: &[u8]) -> (r: Option<String>)
    ensures
        r is Some <==> header_str(b@) is Some,
        r matches Some(s) ==> header_str(b@) == Some(s@),
{
    match header_text(b) {
        Ok(s) => Some(s),
        Err(_) => None,
    }
}

/// The session key to look up and the session id to compare, given the
/// bytes of the `account` and `sessionid` headers; `None` when either is
/// absent or not visible ASCII, and the request is refused.
pub fn session_claim(account: Option<&[u8]>, session: Option<&[u8]>) -> (r: Option<(String, String)>)
    ensures
        r is Some <==> spec_session_claim(
            crate::handler::account::header_bytes(account),
            crate::handler::account::header_bytes(session),
        ) is Some,
        r matches Some(p) ==> spec_session_claim(
            crate::handler::account::header_bytes(account),
            crate::handler::account::header_bytes(session),
        ) == Some((p.0@, p.1@)),
{
    match (account, session) {
        (Some(a), Some(s)) => match (readable(a), readable(s)) {
            (Some(name), Some(id)) => Some((session_key(name.as_str()), id)),
            _ => None,
        },
        _ => None,
    }
}

/// A claimed session id is valid when a session id is kept for the account
/// and the two are equal.
pub open spec fn spec_session_valid(claimed: Seq<char>, kept: Seq<char>) -> bool {
    kept.len() > 0 && claimed == kept
}

/// Whether a claimed session id matches the one kept (empty when none is,
/// or the store could not be read).
pub fn session_valid(claimed: &String, kept: &String) -> (r: bool)
    ensures
        r == spec_session_valid(claimed@, kept@),
{
    !kept.as_str().is_empty() && *claimed == *kept
}

} // verus!
