//! Adding, updating and deactivating a reporter.

use vstd::prelude::*;
use crate::handler::write::{spec_write_kind, write_kind, WriteKind, WriteOutcome};
use vstd::string::StringExecFns;
use crate::handler::statement::{bind_value, text_bind, Bind, BindValue, Statement};
use crate::web::{Data, Notice, Reply, WebErr, Reason};

verus! {

/// The reporter endpoint.
pub struct Reporter;

/// A reporter as submitted; without an id it is new.
#[derive(Debug)]
pub struct ReporterRequest {
    pub id: Option<u32>,
    pub name: String,
    pub phone: String,
    pub department: String,
    pub reporter_category_id: u32,
    pub state: u32,
}

/// The statement a reporter request leads to: deactivate (state 0), update
/// or insert.
pub open spec fn spec_reporter_plan(req: ReporterRequest) -> WriteKind {
    spec_write_kind(
        match req.id {
            Some(i) => Some(i as i64),
            None => None,
        },
        req.state == 0,
    )
}

/// Decides which statement a reporter request leads to.
pub fn reporter_plan(req: &ReporterRequest) -> (k: WriteKind)
    ensures
        k == spec_reporter_plan(*req),
{
    let id = match req.id {
        Some(i) => Some(i as i64),
        None => None,
    };
    write_kind(id, req.state == 0)
}

/// The reply once the statement has run: a statement that changed no row
/// means the reporter does not exist, or could not be inserted.
pub open spec fn spec_reporter_reply(kind: WriteKind, outcome: Result<WriteOutcome, String>) -> Result<Reply, WebErr> {
    match outcome {
        Err(m) => Err(WebErr { reason: Reason::Backend(m) }),
        Ok(w) => if w.rows_affected == 0 {
            Err(WebErr { reason: if kind is Create { Reason::InsertUserFailed } else { Reason::UserNotFound } })
        } else {
            Ok(match kind {
                WriteKind::Remove { .. } => Reply { notice: Notice::Deleted, data: Data::Rows(w.rows_affected) },
                WriteKind::Update { .. } => Reply { notice: Notice::Updated, data: Data::Rows(w.rows_affected) },
                WriteKind::Create => Reply { notice: Notice::Inserted, data: Data::RowId(w.last_insert_rowid) },
            })
        },
    }
}

/// Answers a reporter request once its statement has run.
pub fn reporter_reply(kind: WriteKind, outcome: Result<WriteOutcome, String>) -> (r: Result<Reply, WebErr>)
    ensures
        r == spec_reporter_reply(kind, outcome),
{
    match outcome {
        Err(m) => Err(WebErr::from_message(m)),
        Ok(w) => if w.rows_affected == 0 {
            match kind {
                WriteKind::Create => Err(WebErr::new(Reason::InsertUserFailed)),
                _ => Err(WebErr::new(Reason::UserNotFound)),
            }
        } else {
            Ok(match kind {
                WriteKind::Remove { .. } => Reply { notice: Notice::Deleted, data: Data::Rows(w.rows_affected) },
                WriteKind::Update { .. } => Reply { notice: Notice::Updated, data: Data::Rows(w.rows_affected) },
                WriteKind::Create => Reply { notice: Notice::Inserted, data: Data::RowId(w.last_insert_rowid) },
            })
        },
    }
}

/// Deactivating a reporter: only the state is set to 0; no row is deleted.
pub const REPORTER_DEACTIVATE_SQL: &'static str = "UPDATE reporter set state = 0 WHERE id = ?";

/// Updating a reporter: every submitted field.
pub const REPORTER_UPDATE_SQL: &'static str = r#"
                        UPDATE reporter SET name = ?, phone = ?, department = ?,
                            reporter_category_id = ?, state = ? WHERE id = ?
                        "#;

/// Inserting a reporter.
pub const REPORTER_INSERT_SQL: &'static str = "INSERT INTO reporter (name, phone, department, reporter_category_id, state) VALUES (?, ?, ?, ?, ?)";

/// The submitted fields, in the order the update and the insert bind them.
pub open spec fn reporter_fields(req: ReporterRequest) -> Seq<BindValue> {
    seq![
        BindValue::Text(req.name@),
        BindValue::Text(req.phone@),
        BindValue::Text(req.department@),
        BindValue::Int(req.reporter_category_id as int),
        BindValue::Int(req.state as int),
    ]
}

/// The statement a reporter request runs: a deactivation sets the state of
/// row `id` to 0 and writes nothing else; an update writes every field to
/// row `id`; a new reporter is inserted.
pub open spec fn spec_reporter_statement(req: ReporterRequest) -> (Seq<char>, Seq<BindValue>) {
    match spec_reporter_plan(req) {
        WriteKind::Remove { id } => (REPORTER_DEACTIVATE_SQL@, seq![BindValue::Int(id as int)]),
        WriteKind::Update { id } => (REPORTER_UPDATE_SQL@, reporter_fields(req).push(BindValue::Int(id as int))),
        WriteKind::Create => (REPORTER_INSERT_SQL@, reporter_fields(req)),
    }
}

fn reporter_field_binds(req: &ReporterRequest) -> (v: Vec<Bind>)
    ensures
        v@.map_values(|b: Bind| bind_value(b)) == reporter_fields(*req),
{
    let v = vec![
        text_bind(&req.name),
        text_bind(&req.phone),
        text_bind(&req.department),
        Bind::Int(req.reporter_category_id as i64),
        Bind::Int(req.state as i64),
    ];
    proof {
        assert(v@.map_values(|b: Bind| bind_value(b)) =~= reporter_fields(*req));
    }
    v
}

/// Builds the statement a reporter request runs.
pub fn reporter_statement(req: &ReporterRequest) -> (s: Statement)
    ensures
        s@ == spec_reporter_statement(*req),
{
    match reporter_plan(req) {
        WriteKind::Remove { id } => {
            let s = Statement { sql: String::from_str(REPORTER_DEACTIVATE_SQL), binds: vec![Bind::Int(id)] };
            proof {
                assert(s@.1 =~= spec_reporter_statement(*req).1);
            }
            s
        },
        WriteKind::Update { id } => {
            let mut binds = reporter_field_binds(req);
            let ghost before = binds@;
            binds.push(Bind::Int(id));
            let s = Statement { sql: String::from_str(REPORTER_UPDATE_SQL), binds };
            proof {
                assert(s@.1 =~= before.map_values(|b: Bind| bind_value(b)).push(BindValue::Int(id as int)));
            }
            s
        },
        WriteKind::Create => Statement { sql: String::from_str(REPORTER_INSERT_SQL), binds: reporter_field_binds(req) },
    }
}

} // verus!
