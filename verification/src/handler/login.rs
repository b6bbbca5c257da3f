//! Signing in: the stored password is the MD5 digest of the given one, in
//! lowercase hex; a new session id is a random UUID in hex without dashes,
//! kept under the account's session key.

use vstd::prelude::*;
use crate::handler::statement::{bind_values, statement, Bind, BindValue, Statement};
use vstd::string::{StringExecFns, StringSliceAdditionalSpecFns};
use crate::text::push_char;

verus! {

/// The sign-in endpoint.
pub struct Login;

/// An administrator's name and password.
#[derive(Debug)]
pub struct LoginReq {
    pub name: String,
    pub password: String,
}

/// The signed-in administrator and the new session id.
#[derive(Debug)]
pub struct LoginResponse {
    pub id: u32,
    pub name: String,
    pub department: String,
    pub session_id: String,
}

/// The MD5 digest of a byte string.
pub uninterp spec fn md5_of(data: Seq<u8>) -> Seq<u8>;

/// `md5::compute`: the 16-byte digest of `data`, named `md5_of`.
#[verifier::external_body]
fn md5_compute(data: &[u8]) -> (d: [u8; 16])
    ensures
        d@ == md5_of(data@),
{
    md5::compute(data).0
}

/// `uuid::Uuid::new_v4` as bytes: random, but for the version nibble 4 and
/// the variant bits `10`, which its source sets.
#[verifier::external_body]
fn new_v4_bytes() -> (b: [u8; 16])
    ensures
        b@[6] / 16 == 4,
        b@[8] / 64 == 2,
{
    uuid::Uuid::new_v4().into_bytes()
}

/// The lowercase hex digit of `d`, below 16.
pub open spec fn hex_digit(d: nat) -> char {
    if d < 10 {
        (48 + d) as char
    } else {
        (87 + d) as char
    }
}

/// The lowercase hex text of a byte string, two digits a byte.
pub open spec fn hex_lower(bytes: Seq<u8>) -> Seq<char>
    decreases bytes.len(),
{
    if bytes.len() == 0 {
        seq![]
    } else {
        hex_lower(bytes.drop_last()) + seq![hex_digit((bytes.last() / 16) as nat), hex_digit((bytes.last() % 16) as nat)]
    }
}

fn hex_char(d: u8) -> (c: char)
    requires
        d < 16,
    ensures
        c == hex_digit(d as nat),
{
    if d < 10 {
        (48u8 + d) as char
    } else {
        (87u8 + d) as char
    }
}

/// A lowercase hex digit.
pub open spec fn is_hex_digit(c: char) -> bool {
    ('0' <= c <= '9') || ('a' <= c <= 'f')
}

/// Hex text is two lowercase hex digits a byte.
pub proof fn lemma_hex_lower_shape(bytes: Seq<u8>)
    ensures
        hex_lower(bytes).len() == 2 * bytes.len(),
        forall|i: int| 0 <= i < hex_lower(bytes).len() ==> is_hex_digit(#[trigger] hex_lower(bytes)[i]),
    decreases bytes.len(),
{
    if bytes.len() > 0 {
        lemma_hex_lower_shape(bytes.drop_last());
        let h = hex_lower(bytes);
        let p = hex_lower(bytes.drop_last());
        let b = bytes.last();
        assert forall|i: int| 0 <= i < h.len() implies is_hex_digit(#[trigger] h[i]) by {
            if i < p.len() {
                assert(h[i] == p[i]);
            } else {
                let d: nat = if i == p.len() { (b / 16) as nat } else { (b % 16) as nat };
                assert(h[i] == hex_digit(d));
                assert(d < 16);
            }
        }
    }
}

/// The lowercase hex text of `bytes`, as `{:02x}` writes each byte.
pub fn hex_text(bytes: &[u8]) -> (s: String)
    ensures
        s@ == hex_lower(bytes@),
{
    let mut s = String::new();
    let n = bytes.len();
    let mut i: usize = 0;
    while i < n
        invariant
            n == bytes@.len(),
            i <= n,
            s@ == hex_lower(bytes@.take(i as int)),
        decreases n - i,
    {
        let b = bytes[i];
        push_char(&mut s, hex_char(b / 16));
        push_char(&mut s, hex_char(b % 16));
        proof {
            assert(bytes@.take((i + 1) as int).drop_last() =~= bytes@.take(i as int));
            assert(s@ =~= hex_lower(bytes@.take((i + 1) as int)));
        }
        i += 1;
    }
    proof {
        assert(bytes@.take(n as int) =~= bytes@);
    }
    s
}

/// The stored form of a password: the lowercase hex of the MD5 digest of its
/// UTF-8 bytes.
pub fn md5_encrypt(pswd: &str) -> (s: String)
    ensures
        s@ == hex_lower(md5_of(pswd.spec_bytes())),
        s@.len() == 32,
{
    let d = md5_compute(pswd.as_bytes());
    proof {
        lemma_hex_lower_shape(d@);
    }
    hex_text(d.as_slice())
}

/// The session id text of a UUID's bytes: lowercase hex, without dashes.
pub fn uuid_text(bytes: [u8; 16]) -> (s: String)
    ensures
        s@ == hex_lower(bytes@),
{
    hex_text(bytes.as_slice())
}

/// A new session id: a random version 4 UUID in lowercase hex, without dashes.
pub fn get_uuid() -> (s: String)
    ensures
        exists|b: Seq<u8>| b.len() == 16 && b[6] / 16 == 4 && b[8] / 64 == 2 && s@ == hex_lower(b),
        s@.len() == 32,
{
    let b = new_v4_bytes();
    let s = uuid_text(b);
    proof {
        assert(b@.len() == 16);
        lemma_hex_lower_shape(b@);
    }
    s
}

/// The key under which an account's session id is kept.
pub open spec fn spec_session_key(name: Seq<char>) -> Seq<char> {
    "zscm_"@ + name
}

/// The key under which an account's session id is kept.
pub fn session_key(name: &str) -> (k: String)
    ensures
        k@ == spec_session_key(name@),
{
    let mut k = String::new();
    k.append("zscm_");
    k.append(name);
    k
}

/// The administrator of a name and stored password.
pub const SIGN_IN_SQL: &'static str = r#"
            select id, name, department from admin where name = ? and password = ?
        "#;

/// The sign-in query: the administrator whose name is the given one and
/// whose stored password is the digest of the given password.
pub open spec fn spec_sign_in_query(name: &str, password: &str) -> (Seq<char>, Seq<BindValue>) {
    (SIGN_IN_SQL@, seq![BindValue::Text(name@), BindValue::Text(hex_lower(md5_of(password.spec_bytes())))])
}

/// Builds the sign-in query of a name and password; its first row signs in.
pub fn sign_in_query(name: &str, password: &str) -> (s: Statement)
    ensures
        s@ == spec_sign_in_query(name, password),
{
    let digest = md5_encrypt(password);
    let binds = vec![Bind::Text(<String as StringExecFns>::from_str(name)), Bind::Text(digest)];
    proof {
        assert(bind_values(binds@) =~= spec_sign_in_query(name, password).1);
    }
    statement(SIGN_IN_SQL, binds)
}

} // verus!
