//! The active programs of the sites that an administrator manages.

use vstd::prelude::*;
use vstd::string::StringExecFns;
use crate::handler::account::{account_of, error_text, header_account, header_bytes, is_header_byte, is_visible_ascii};
use crate::web::{Reason, WebErr};

verus! {

/// The program listing endpoint.
pub struct GetPrograms;

/// The program listing takes no parameters.
#[derive(Debug)]
pub struct GetProgramsReq;

/// A program of a site.
#[derive(Debug)]
pub struct GetProgramsResp {
    pub id: u32,
    pub name: String,
    pub media_type: u8,
    pub site_id: u32,
    pub code: String,
    pub state: u8,
}

/// The program query up to the administrator's name.
pub const PROGRAMS_HEAD: &'static str = "select * from program where state = 1 and site_id in (select site_id from admin_sites where admin_id in (select id from admin where name = '";
/// The end of the program query.
pub const PROGRAMS_TAIL: &'static str = "'))";

/// The program query for an administrator.
pub open spec fn spec_programs_sql(account: Seq<char>) -> Seq<char> {
    PROGRAMS_HEAD@ + account + PROGRAMS_TAIL@
}

/// Builds the program query for the administrator an `account` header names.
pub fn programs_sql(account: &str) -> (sql: String)
    ensures
        sql@ == spec_programs_sql(account@),
{
    let mut s = String::new();
    s.append(PROGRAMS_HEAD);
    s.append(account);
    s.append(PROGRAMS_TAIL);
    s
}

/// The program query for the administrator of a request's `account` header,
/// given the header's bytes; an absent, empty or unreadable header is refused
/// with the error that `account_of` gives.
pub fn programs_query(header: Option<&[u8]>) -> (r: Result<String, WebErr>)
    ensures
        r is Ok <==> header_account(header_bytes(header)) is Some,
        r matches Ok(sql) ==> sql@ == spec_programs_sql(header_account(header_bytes(header))->0),
        header is None ==> r == Err::<String, WebErr>(WebErr { reason: Reason::NoAccount }),
        header matches Some(b) ==> {
            let visible = forall|i: int| 0 <= i < b@.len() ==> is_visible_ascii(#[trigger] b@[i]);
            &&& (visible && b@.len() == 0 ==> r == Err::<String, WebErr>(WebErr { reason: Reason::NoAccount }))
            &&& (!visible && (forall|i: int| 0 <= i < b@.len() ==> is_header_byte(#[trigger] b@[i]))
                ==> r is Err && error_text(r) == "failed to convert header to a str"@)
        },
{
    match account_of(header) {
        Ok(account) => Ok(programs_sql(account.as_str())),
        Err(e) => Err(e),
    }
}

} // verus!
