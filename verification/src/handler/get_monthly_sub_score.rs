//! A reporter's monthly penalty.

use vstd::prelude::*;
use crate::handler::statement::{month_binds, statement, BindValue, Statement};

verus! {

/// The monthly penalty endpoint.
pub struct GetMonthlySubScore;

/// The reporter and the month.
#[derive(Debug)]
pub struct GetMonthlySubScoreReq {
    pub reporter_id: u32,
    pub year: u32,
    pub month: u32,
}

/// A monthly penalty.
#[derive(Debug)]
pub struct MonthlySubScore {
    pub id: Option<u32>,
    pub reporter_id: u32,
    pub reason: String,
    pub score: i32,
    pub publish_year: u32,
    pub publish_month: u32,
    pub state: i32,
}

impl Default for MonthlySubScore {
    /// No penalty: every number zero, no id, no reason.
    fn default() -> (s: MonthlySubScore)
        ensures
            s.id is None,
            s.reporter_id == 0,
            s.reason@ == Seq::<char>::empty(),
            s.score == 0,
            s.publish_year == 0,
            s.publish_month == 0,
            s.state == 0,
    {
        MonthlySubScore {
            id: None,
            reporter_id: 0,
            reason: String::new(),
            score: 0,
            publish_year: 0,
            publish_month: 0,
            state: 0,
        }
    }
}

/// The penalty shown: the one the query found, or no penalty when it found
/// none or failed.
pub fn penalty_or_none(found: Result<MonthlySubScore, String>) -> (r: MonthlySubScore)
    ensures
        found matches Ok(p) ==> r == p,
        found is Err ==> r.id is None && r.reporter_id == 0 && r.reason@.len() == 0 && r.score == 0
            && r.publish_year == 0 && r.publish_month == 0 && r.state == 0,
{
    match found {
        Ok(p) => p,
        Err(_) => MonthlySubScore::default(),
    }
}

/// The reporter's active penalty of the month.
pub const PENALTY_SQL: &'static str = "SELECT * FROM monthly_sub_score WHERE reporter_id = ? AND publish_year = ? AND publish_month = ? and state = 1";

/// The query of a request: the active penalty of its reporter, year and month.
pub open spec fn spec_penalty_query(req: GetMonthlySubScoreReq) -> (Seq<char>, Seq<BindValue>) {
    (
        PENALTY_SQL@,
        seq![BindValue::Int(req.reporter_id as int), BindValue::Int(req.year as int), BindValue::Int(req.month as int)],
    )
}

/// Builds the query of a request; its first row is the answer.
pub fn penalty_query(req: &GetMonthlySubScoreReq) -> (s: Statement)
    ensures
        s@ == spec_penalty_query(*req),
{
    statement(PENALTY_SQL, month_binds(req.reporter_id, req.year, req.month))
}

} // verus!
