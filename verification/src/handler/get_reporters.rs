//! The active reporters, optionally of one department.

use vstd::prelude::*;
use vstd::string::StringExecFns;

verus! {

/// The reporter listing endpoint.
pub struct GetReporters;

/// The department to list, or all.
#[derive(Debug)]
pub struct GetReportersReq {
    pub department: Option<String>,
}

/// A reporter as listed.
#[derive(Debug)]
pub struct Reporter {
    pub id: i64,
    pub name: String,
    pub phone: String,
    pub department: String,
    pub reporter_category_id: u32,
    pub reporter_category_name: String,
    pub state: u32,
}

/// The reporter query up to the department condition.
pub const REPORTERS_HEAD: &'static str = "\n                select\n                    r.id, r.name, r.phone, r.reporter_category_id, r.department,\n                    rc.name as reporter_category_name, \n                    r.state\n                from reporter r\n                join reporter_category rc on r.reporter_category_id = rc.id\n                where r.state = 1 ";
/// The end of the reporter query.
pub const REPORTERS_TAIL: &'static str = "\n            ";

/// The reporter query of a request.
pub open spec fn spec_reporters_sql(req: GetReportersReq) -> Seq<char> {
    REPORTERS_HEAD@ + match req.department {
        Some(d) => "and r.department = '"@ + d@ + "'"@,
        None => seq![],
    } + REPORTERS_TAIL@
}

/// Builds the reporter query of a request.
pub fn reporters_sql(req: &GetReportersReq) -> (sql: String)
    ensures
        sql@ == spec_reporters_sql(*req),
{
    let mut s = String::new();
    s.append(REPORTERS_HEAD);
    if let Some(d) = &req.department {
        s.append("and r.department = '");
        s.append(d.as_str());
        s.append("'");
    }
    s.append(REPORTERS_TAIL);
    proof {
        assert(s@ =~= spec_reporters_sql(*req));
    }
    s
}

} // verus!
