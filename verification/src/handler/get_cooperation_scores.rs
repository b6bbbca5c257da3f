//! A reporter's cooperation scores of a month.

use vstd::prelude::*;
use crate::handler::statement::{month_binds, statement, BindValue, Statement};

verus! {

/// The cooperation score endpoint.
pub struct GetCooperationScores;

/// The reporter and the month.
#[derive(Debug)]
pub struct GetCooperationScoresReq {
    pub reporter_id: u32,
    pub year: u32,
    pub month: u32,
}

/// A cooperation score.
#[derive(Debug)]
pub struct CooperationScore {
    pub id: u32,
    pub reporter_id: u32,
    pub content: String,
    pub score: i32,
    pub score_from: String,
    pub publish_year: u32,
    pub publish_month: u32,
    pub state: i32,
}

/// The listed scores: those the query found, or none when it failed.
pub fn scores_or_none(found: Result<Vec<CooperationScore>, String>) -> (r: Vec<CooperationScore>)
    ensures
        found matches Ok(v) ==> r == v,
        found is Err ==> r@.len() == 0,
{
    match found {
        Ok(v) => v,
        Err(_) => Vec::new(),
    }
}

/// The reporter's active cooperation scores of the month.
pub const COOPERATION_SQL: &'static str = "SELECT * FROM cooperation_score WHERE reporter_id = ? AND publish_year = ? AND publish_month = ? and state = 1";

/// The query of a request: the active cooperation scores of its reporter,
/// year and month.
pub open spec fn spec_cooperation_query(req: GetCooperationScoresReq) -> (Seq<char>, Seq<BindValue>) {
    (
        COOPERATION_SQL@,
        seq![BindValue::Int(req.reporter_id as int), BindValue::Int(req.year as int), BindValue::Int(req.month as int)],
    )
}

/// Builds the query of a request.
pub fn cooperation_query(req: &GetCooperationScoresReq) -> (s: Statement)
    ensures
        s@ == spec_cooperation_query(*req),
{
    statement(COOPERATION_SQL, month_binds(req.reporter_id, req.year, req.month))
}

} // verus!
