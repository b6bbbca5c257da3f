//! Creating, updating and deleting a reporter's event score.

use vstd::prelude::*;
use crate::handler::write::{spec_write_kind, write_kind, WriteKind, WriteOutcome};
use vstd::string::StringExecFns;
use crate::handler::statement::{bind_value, text_bind, Bind, BindValue, Statement};
use crate::web::{Data, Notice, Reply, WebErr, Reason};

verus! {

/// The event-score endpoint.
pub struct Event;

/// An event score as submitted; without an id it is new.
#[derive(Debug)]
pub struct EventReq {
    pub id: Option<u32>,
    pub reporter_id: u32,
    pub content: String,
    pub score: u32,
    pub score_from: String,
    pub publish_year: u32,
    pub publish_month: u32,
    pub state: u32,
}

/// The statement an event request leads to: delete, update or insert.
pub open spec fn spec_event_plan(req: EventReq) -> WriteKind {
    spec_write_kind(
        match req.id {
            Some(i) => Some(i as i64),
            None => None,
        },
        req.state == 0,
    )
}

/// Decides which statement an event request leads to.
pub fn event_plan(req: &EventReq) -> (k: WriteKind)
    ensures
        k == spec_event_plan(*req),
{
    let id = match req.id {
        Some(i) => Some(i as i64),
        None => None,
    };
    write_kind(id, req.state == 0)
}

/// The reply once the statement has run: a delete or update that changed no
/// row means the record does not exist.
pub open spec fn spec_event_reply(kind: WriteKind, outcome: Result<WriteOutcome, String>) -> Result<Reply, WebErr> {
    match outcome {
        Err(m) => Err(WebErr { reason: Reason::Backend(m) }),
        Ok(w) => match kind {
            WriteKind::Create => Ok(Reply { notice: Notice::Created, data: Data::RowId(w.last_insert_rowid) }),
            _ => if w.rows_affected == 0 {
                Err(WebErr { reason: Reason::RecordNotFound })
            } else {
                Ok(Reply {
                    notice: if kind is Remove { Notice::Deleted } else { Notice::Updated },
                    data: Data::Rows(w.rows_affected),
                })
            },
        },
    }
}

/// Answers an event request once its statement has run.
pub fn event_reply(kind: WriteKind, outcome: Result<WriteOutcome, String>) -> (r: Result<Reply, WebErr>)
    ensures
        r == spec_event_reply(kind, outcome),
{
    match outcome {
        Err(m) => Err(WebErr::from_message(m)),
        Ok(w) => match kind {
            WriteKind::Create => Ok(Reply { notice: Notice::Created, data: Data::RowId(w.last_insert_rowid) }),
            _ => if w.rows_affected == 0 {
                Err(WebErr::new(Reason::RecordNotFound))
            } else {
                let notice = match kind {
                    WriteKind::Remove { .. } => Notice::Deleted,
                    _ => Notice::Updated,
                };
                Ok(Reply { notice, data: Data::Rows(w.rows_affected) })
            },
        },
    }
}

/// Deleting an event score: the row is removed.
pub const EVENT_DELETE_SQL: &'static str = "DELETE FROM event_score WHERE id = ?";

/// Updating an event score: every submitted field.
pub const EVENT_UPDATE_SQL: &'static str = "UPDATE event_score SET reporter_id = ?, content = ?, score = ?, score_from = ?, publish_year = ?, publish_month = ?, state = ? WHERE id = ?";

/// Inserting an event score.
pub const EVENT_INSERT_SQL: &'static str = "INSERT INTO event_score (reporter_id, content, score, score_from, publish_year, publish_month, state) VALUES (?, ?, ?, ?, ?, ?, ?)";

/// The submitted fields, in the order the update and the insert bind them.
pub open spec fn event_fields(req: EventReq) -> Seq<BindValue> {
    seq![
        BindValue::Int(req.reporter_id as int),
        BindValue::Text(req.content@),
        BindValue::Int(req.score as int),
        BindValue::Text(req.score_from@),
        BindValue::Int(req.publish_year as int),
        BindValue::Int(req.publish_month as int),
        BindValue::Int(req.state as int),
    ]
}

/// The statement an event request runs: a removal deletes row `id`; an
/// update writes every field to row `id`; a new score is inserted.
pub open spec fn spec_event_statement(req: EventReq) -> (Seq<char>, Seq<BindValue>) {
    match spec_event_plan(req) {
        WriteKind::Remove { id } => (EVENT_DELETE_SQL@, seq![BindValue::Int(id as int)]),
        WriteKind::Update { id } => (EVENT_UPDATE_SQL@, event_fields(req).push(BindValue::Int(id as int))),
        WriteKind::Create => (EVENT_INSERT_SQL@, event_fields(req)),
    }
}

fn event_field_binds(req: &EventReq) -> (v: Vec<Bind>)
    ensures
        v@.map_values(|b: Bind| bind_value(b)) == event_fields(*req),
{
    let v = vec![
        Bind::Int(req.reporter_id as i64),
        text_bind(&req.content),
        Bind::Int(req.score as i64),
        text_bind(&req.score_from),
        Bind::Int(req.publish_year as i64),
        Bind::Int(req.publish_month as i64),
        Bind::Int(req.state as i64),
    ];
    proof {
        assert(v@.map_values(|b: Bind| bind_value(b)) =~= event_fields(*req));
    }
    v
}

/// Builds the statement an event request runs.
pub fn event_statement(req: &EventReq) -> (s: Statement)
    ensures
        s@ == spec_event_statement(*req),
{
    match event_plan(req) {
        WriteKind::Remove { id } => {
            let s = Statement { sql: String::from_str(EVENT_DELETE_SQL), binds: vec![Bind::Int(id)] };
            proof {
                assert(s@.1 =~= spec_event_statement(*req).1);
            }
            s
        },
        WriteKind::Update { id } => {
            let mut binds = event_field_binds(req);
            let ghost before = binds@;
            binds.push(Bind::Int(id));
            let s = Statement { sql: String::from_str(EVENT_UPDATE_SQL), binds };
            proof {
                assert(s@.1 =~= before.map_values(|b: Bind| bind_value(b)).push(BindValue::Int(id as int)));
            }
            s
        },
        WriteKind::Create => Statement { sql: String::from_str(EVENT_INSERT_SQL), binds: event_field_binds(req) },
    }
}

} // verus!
