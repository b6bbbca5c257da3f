//! An active reporter, found by name.

use vstd::prelude::*;
use crate::handler::statement::{bind_values, statement, text_bind, BindValue, Statement};

verus! {

/// The reporter lookup endpoint.
pub struct GetReporterInfoByName;

/// The name to look up.
#[derive(Debug)]
pub struct GetReporterInfoByNameReq {
    pub name: String,
}

/// A reporter's record.
#[derive(Debug)]
pub struct ReporterInfo {
    pub id: u32,
    pub name: String,
    pub phone: String,
    pub ref_code: String,
    pub reporter_category_id: u32,
    pub department: String,
    pub state: i32,
}

/// The active reporter of a name.
pub const REPORTER_BY_NAME_SQL: &'static str = "SELECT * FROM reporter WHERE name = ? and state = 1";

/// The query of a request: the active reporters of its name.
pub open spec fn spec_reporter_by_name_query(req: GetReporterInfoByNameReq) -> (Seq<char>, Seq<BindValue>) {
    (REPORTER_BY_NAME_SQL@, seq![BindValue::Text(req.name@)])
}

/// Builds the query of a request; its first row is the answer.
pub fn reporter_by_name_query(req: &GetReporterInfoByNameReq) -> (s: Statement)
    ensures
        s@ == spec_reporter_by_name_query(*req),
{
    let binds = vec![text_bind(&req.name)];
    proof {
        assert(bind_values(binds@) =~= seq![BindValue::Text(req.name@)]);
    }
    statement(REPORTER_BY_NAME_SQL, binds)
}

} // verus!
