//! Creating, updating and withdrawing an article.

use vstd::prelude::*;
use crate::handler::write::{spec_write_kind, write_kind, WriteKind, WriteOutcome};
use vstd::string::StringExecFns;
use crate::handler::statement::{bind_value, text_bind, Bind, BindValue, Statement};
use crate::web::{Data, Notice, Reply, WebErr, Reason};

verus! {

/// The article endpoint.
pub struct Article;

/// An article as the editor submits it; without an id it is new.
#[derive(Debug)]
pub struct ArticleRequest {
    pub id: Option<u32>,
    pub title: String,
    pub tv_or_paper: u8,
    pub publish_year: u32,
    pub publish_month: u32,
    pub publish_day: u32,
    pub tv_url: String,
    pub page_meta_id: u8,
    pub page_name: String,
    pub state: u8,
    pub is_collaboration: Option<u8>,
}

/// The statement an article request leads to.
#[derive(Debug, Clone, Copy, PartialEq, Eq)]
pub struct ArticlePlan {
    /// Withdraw (set the state to 0), update every field, or insert.
    pub kind: WriteKind,
    /// The collaboration flag written; absent means 0.
    pub is_collaboration: u8,
}

/// The id of an article request, widened.
pub open spec fn request_id(req: ArticleRequest) -> Option<i64> {
    match req.id {
        Some(i) => Some(i as i64),
        None => None,
    }
}

/// The plan for a request.
pub open spec fn spec_article_plan(req: ArticleRequest) -> ArticlePlan {
    ArticlePlan {
        kind: spec_write_kind(request_id(req), req.state == 0),
        is_collaboration: match req.is_collaboration {
            Some(c) => c,
            None => 0,
        },
    }
}

/// Decides which statement an article request leads to.
pub fn article_plan(req: &ArticleRequest) -> (p: ArticlePlan)
    ensures
        p == spec_article_plan(*req),
{
    let id = match req.id {
        Some(i) => Some(i as i64),
        None => None,
    };
    ArticlePlan {
        kind: write_kind(id, req.state == 0),
        is_collaboration: match req.is_collaboration {
            Some(c) => c,
            None => 0,
        },
    }
}

/// The reply to an article request, given how its statement went.
pub open spec fn spec_article_reply(plan: ArticlePlan, outcome: Result<WriteOutcome, String>) -> Result<Reply, WebErr> {
    match outcome {
        Err(m) => Err(WebErr { reason: Reason::Backend(m) }),
        Ok(w) => Ok(match plan.kind {
            WriteKind::Remove { .. } => Reply { notice: Notice::ArticleDeleted, data: Data::Rows(w.rows_affected) },
            WriteKind::Update { .. } => Reply { notice: Notice::ArticleUpdated, data: Data::Rows(w.rows_affected) },
            WriteKind::Create => Reply { notice: Notice::ArticleCreated, data: Data::RowId(w.last_insert_rowid) },
        }),
    }
}

/// Answers an article request once its statement has run.
pub fn article_reply(plan: ArticlePlan, outcome: Result<WriteOutcome, String>) -> (r: Result<Reply, WebErr>)
    ensures
        r == spec_article_reply(plan, outcome),
{
    match outcome {
        Err(m) => Err(WebErr::from_message(m)),
        Ok(w) => Ok(match plan.kind {
            WriteKind::Remove { .. } => Reply { notice: Notice::ArticleDeleted, data: Data::Rows(w.rows_affected) },
            WriteKind::Update { .. } => Reply { notice: Notice::ArticleUpdated, data: Data::Rows(w.rows_affected) },
            WriteKind::Create => Reply { notice: Notice::ArticleCreated, data: Data::RowId(w.last_insert_rowid) },
        }),
    }
}

/// Withdrawing an article: only its state is written.
pub const ARTICLE_WITHDRAW_SQL: &'static str = "update article set state=? where id=?";

/// Updating an article: every field the editor submits.
pub const ARTICLE_UPDATE_SQL: &'static str = r#"
                        update article set title=?, tv_or_paper=?, publish_year=?,
                            publish_month=?, publish_day=?, tv_url=?, page_meta_id=?,
                            page_name=?, state=?, is_collaboration=?
                        where id=?
                    "#;

/// Inserting an article.
pub const ARTICLE_INSERT_SQL: &'static str = r#"
                    insert into article(
                        title, tv_or_paper, publish_year, publish_month,
                        publish_day, tv_url, page_meta_id, page_name, state, is_collaboration)
                    values(?,?,?,?,?,?,?,?,?,?)
                "#;

/// The submitted fields, in the order the update and the insert bind them.
pub open spec fn article_fields(req: ArticleRequest) -> Seq<BindValue> {
    seq![
        BindValue::Text(req.title@),
        BindValue::Int(req.tv_or_paper as int),
        BindValue::Int(req.publish_year as int),
        BindValue::Int(req.publish_month as int),
        BindValue::Int(req.publish_day as int),
        BindValue::Text(req.tv_url@),
        BindValue::Int(req.page_meta_id as int),
        BindValue::Text(req.page_name@),
        BindValue::Int(req.state as int),
        BindValue::Int(spec_article_plan(req).is_collaboration as int),
    ]
}

/// The statement an article request runs: a withdrawal writes the state (0)
/// of row `id` and nothing else, deleting no row; an update writes every
/// field to row `id`; a new article is inserted with every field.
pub open spec fn spec_article_statement(req: ArticleRequest) -> (Seq<char>, Seq<BindValue>) {
    match spec_article_plan(req).kind {
        WriteKind::Remove { id } => (
            ARTICLE_WITHDRAW_SQL@,
            seq![BindValue::Int(req.state as int), BindValue::Int(id as int)],
        ),
        WriteKind::Update { id } => (ARTICLE_UPDATE_SQL@, article_fields(req).push(BindValue::Int(id as int))),
        WriteKind::Create => (ARTICLE_INSERT_SQL@, article_fields(req)),
    }
}

fn article_field_binds(req: &ArticleRequest, is_collaboration: u8) -> (v: Vec<Bind>)
    requires
        is_collaboration == spec_article_plan(*req).is_collaboration,
    ensures
        v@.map_values(|b: Bind| bind_value(b)) == article_fields(*req),
{
    let v = vec![
        text_bind(&req.title),
        Bind::Int(req.tv_or_paper as i64),
        Bind::Int(req.publish_year as i64),
        Bind::Int(req.publish_month as i64),
        Bind::Int(req.publish_day as i64),
        text_bind(&req.tv_url),
        Bind::Int(req.page_meta_id as i64),
        text_bind(&req.page_name),
        Bind::Int(req.state as i64),
        Bind::Int(is_collaboration as i64),
    ];
    proof {
        assert(v@.map_values(|b: Bind| bind_value(b)) =~= article_fields(*req));
    }
    v
}

/// Builds the statement an article request runs.
pub fn article_statement(req: &ArticleRequest) -> (s: Statement)
    ensures
        s@ == spec_article_statement(*req),
{
    let plan = article_plan(req);
    match plan.kind {
        WriteKind::Remove { id } => {
            let binds = vec![Bind::Int(req.state as i64), Bind::Int(id)];
            let s = Statement { sql: String::from_str(ARTICLE_WITHDRAW_SQL), binds };
            proof {
                assert(s@.1 =~= spec_article_statement(*req).1);
            }
            s
        },
        WriteKind::Update { id } => {
            let mut binds = article_field_binds(req, plan.is_collaboration);
            let ghost before = binds@;
            binds.push(Bind::Int(id));
            let s = Statement { sql: String::from_str(ARTICLE_UPDATE_SQL), binds };
            proof {
                assert(s@.1 =~= before.map_values(|b: Bind| bind_value(b)).push(BindValue::Int(id as int)));
            }
            s
        },
        WriteKind::Create => Statement {
            sql: String::from_str(ARTICLE_INSERT_SQL),
            binds: article_field_binds(req, plan.is_collaboration),
        },
    }
}

} // verus!
