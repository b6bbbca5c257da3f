//! Creating, updating and deleting a reporter's monthly bonus score.

use vstd::prelude::*;
use crate::handler::write::{spec_write_kind, write_kind, WriteKind, WriteOutcome};
use vstd::string::StringExecFns;
use crate::handler::statement::{bind_value, text_bind, Bind, BindValue, Statement};
use crate::web::{Data, Notice, Reply, WebErr, Reason};

verus! {

/// The monthly bonus endpoint.
pub struct MonthlyAddScore;

/// A monthly bonus as submitted; without an id it is new.
#[derive(Debug)]
pub struct MonthlyAddScoreReq {
    pub id: Option<i32>,
    pub reporter_id: i32,
    pub score: i32,
    pub reason: String,
    pub publish_year: i32,
    pub publish_month: i32,
    pub state: i32,
}

/// The statement a bonus request leads to: delete, update or insert.
pub open spec fn spec_monthly_add_plan(req: MonthlyAddScoreReq) -> WriteKind {
    spec_write_kind(
        match req.id {
            Some(i) => Some(i as i64),
            None => None,
        },
        req.state == 0,
    )
}

/// Decides which statement a bonus request leads to.
pub fn monthly_add_plan(req: &MonthlyAddScoreReq) -> (k: WriteKind)
    ensures
        k == spec_monthly_add_plan(*req),
{
    let id = match req.id {
        Some(i) => Some(i as i64),
        None => None,
    };
    write_kind(id, req.state == 0)
}

/// The reply once the statement has run: a delete or update that changed no
/// row means the record does not exist. Both a delete and an update are
/// acknowledged as a deletion.
pub open spec fn spec_monthly_add_reply(kind: WriteKind, outcome: Result<WriteOutcome, String>) -> Result<Reply, WebErr> {
    match outcome {
        Err(m) => Err(WebErr { reason: Reason::Backend(m) }),
        Ok(w) => match kind {
            WriteKind::Create => Ok(Reply { notice: Notice::Created, data: Data::RowId(w.last_insert_rowid) }),
            _ => if w.rows_affected == 0 {
                Err(WebErr { reason: Reason::RecordNotFound })
            } else {
                Ok(Reply { notice: Notice::Deleted, data: Data::Rows(w.rows_affected) })
            },
        },
    }
}

/// Answers a bonus request once its statement has run.
pub fn monthly_add_reply(kind: WriteKind, outcome: Result<WriteOutcome, String>) -> (r: Result<Reply, WebErr>)
    ensures
        r == spec_monthly_add_reply(kind, outcome),
{
    match outcome {
        Err(m) => Err(WebErr::from_message(m)),
        Ok(w) => match kind {
            WriteKind::Create => Ok(Reply { notice: Notice::Created, data: Data::RowId(w.last_insert_rowid) }),
            _ => if w.rows_affected == 0 {
                Err(WebErr::new(Reason::RecordNotFound))
            } else {
                Ok(Reply { notice: Notice::Deleted, data: Data::Rows(w.rows_affected) })
            },
        },
    }
}

/// Deleting a bonus: the row is removed.
pub const BONUS_DELETE_SQL: &'static str = "DELETE FROM monthly_add_score WHERE id = ?";

/// Updating a bonus: its score, reason, year and month only.
pub const BONUS_UPDATE_SQL: &'static str = r#"
                        update monthly_add_score
                        set
                            score = ?,
                            reason = ?,
                            publish_year = ?,
                            publish_month = ?
                        where id = ?
                    "#;

/// Inserting a bonus.
pub const BONUS_INSERT_SQL: &'static str = r#"
                    insert into monthly_add_score
                        (reporter_id, score, reason, publish_year, publish_month)
                    values (?, ?, ?, ?, ?)
                "#;

/// The statement a bonus request runs: a removal deletes row `id`; an
/// update writes the score, reason, year and month of row `id` and leaves
/// its reporter and state as they are; a new bonus is inserted with its
/// reporter, score, reason, year and month.
pub open spec fn spec_monthly_add_statement(req: MonthlyAddScoreReq) -> (Seq<char>, Seq<BindValue>) {
    match spec_monthly_add_plan(req) {
        WriteKind::Remove { id } => (BONUS_DELETE_SQL@, seq![BindValue::Int(id as int)]),
        WriteKind::Update { id } => (
            BONUS_UPDATE_SQL@,
            seq![
                BindValue::Int(req.score as int),
                BindValue::Text(req.reason@),
                BindValue::Int(req.publish_year as int),
                BindValue::Int(req.publish_month as int),
                BindValue::Int(id as int),
            ],
        ),
        WriteKind::Create => (
            BONUS_INSERT_SQL@,
            seq![
                BindValue::Int(req.reporter_id as int),
                BindValue::Int(req.score as int),
                BindValue::Text(req.reason@),
                BindValue::Int(req.publish_year as int),
                BindValue::Int(req.publish_month as int),
            ],
        ),
    }
}

/// Builds the statement a bonus request runs.
pub fn monthly_add_statement(req: &MonthlyAddScoreReq) -> (s: Statement)
    ensures
        s@ == spec_monthly_add_statement(*req),
{
    let s = match monthly_add_plan(req) {
        WriteKind::Remove { id } => Statement { sql: String::from_str(BONUS_DELETE_SQL), binds: vec![Bind::Int(id)] },
        WriteKind::Update { id } => Statement {
            sql: String::from_str(BONUS_UPDATE_SQL),
            binds: vec![
                Bind::Int(req.score as i64),
                text_bind(&req.reason),
                Bind::Int(req.publish_year as i64),
                Bind::Int(req.publish_month as i64),
                Bind::Int(id),
            ],
        },
        WriteKind::Create => Statement {
            sql: String::from_str(BONUS_INSERT_SQL),
            binds: vec![
                Bind::Int(req.reporter_id as i64),
                Bind::Int(req.score as i64),
                text_bind(&req.reason),
                Bind::Int(req.publish_year as i64),
                Bind::Int(req.publish_month as i64),
            ],
        },
    };
    proof {
        assert(s@.1 =~= spec_monthly_add_statement(*req).1);
    }
    s
}

} // verus!
