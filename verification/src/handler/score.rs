//! Scoring an article: the article's reporter scores are replaced by those of
//! the request. Each score names its reporter by id, by reference code or by
//! name; an external contributor (category 7) who is not yet known is added
//! as a reporter first. The database work is done by the caller, step by
//! step, as `score_step` directs.

use vstd::prelude::*;
use vstd::string::StringExecFns;
use crate::text::{decimal, push_decimal};
use crate::handler::statement::{bind_values, statement, Bind, BindValue, Statement};
use crate::web::{Data, Notice, Reply, WebErr, Reason};

verus! {

/// The scoring endpoint.
pub struct Score;

/// One reporter's share of an article's score.
#[derive(Debug)]
pub struct UserScore {
    pub reporter_id: Option<u32>,
    pub reporter_name: Option<String>,
    pub reporter_category_id: u32,
    pub ref_code: Option<String>,
    pub score: u32,
}

/// A request to score an article.
#[derive(Debug)]
pub struct ScoreRequest {
    pub article_id: u32,
    pub score_basic: u32,
    pub score_action: u32,
    pub reporter_scores: Vec<UserScore>,
}

/// The category of external contributors, who are known by name only.
pub const EXTERNAL_CATEGORY: u32 = 7;

/// Where the scoring of a request stands: which statement, if any, is awaited.
#[derive(Debug, Clone, Copy, PartialEq, Eq)]
pub enum ScoreStep {
    Start,
    AfterDelete,
    AfterUpdate,
    /// The score of the reporter at this position is being inserted.
    AfterInsert(usize),
    /// The reporter at this position is being looked up by reference code.
    AfterRefLookup(usize),
    /// The reporter at this position is being looked up by name.
    AfterNameLookup(usize),
    /// The external reporter at this position is being added.
    AfterNewReporter(usize),
    Finished,
}

/// What the caller does next.
#[derive(Debug)]
pub enum ScoreAction {
    /// Delete all reporter scores of the article.
    DeleteArticleScores { article_id: u32 },
    /// Set the article's basic and action scores.
    UpdateArticle { article_id: u32, score_basic: u32, score_action: u32 },
    /// Insert one reporter score of the article.
    InsertScore { article_id: u32, reporter_id: i64, category_id: u32, score: u32 },
    /// Look up a reporter's id by reference code.
    FindByRefCode { ref_code: String },
    /// Look up a reporter's id by name, among external contributors or among the others.
    FindByName { name: String, external: bool },
    /// Add an external contributor as a reporter (department "外部", state 1).
    AddExternalReporter { name: String, category_id: u32 },
    /// Answer the client: the scoring is complete.
    Respond(Reply),
    /// Answer the client with this error.
    Fail(WebErr),
    /// Nothing is left to do.
    Stop,
}

/// Whether a score names its reporter in any way.
pub open spec fn names_reporter(u: UserScore) -> bool {
    u.reporter_id is Some || u.ref_code is Some || u.reporter_name is Some
}

/// The first position at or after `i` whose score names its reporter, or the
/// length of `scores` if there is none.
pub open spec fn next_named(scores: Seq<UserScore>, i: nat) -> nat
    decreases scores.len() - i,
{
    if i >= scores.len() {
        scores.len()
    } else if names_reporter(scores[i as int]) {
        i
    } else {
        next_named(scores, i + 1)
    }
}

/// The reply once every score is handled.
pub open spec fn done_reply() -> Reply {
    Reply { notice: Notice::Done, data: Data::EmptyText }
}

/// Inserting the score at position `i` for the reporter with id `reporter_id`.
pub open spec fn insert_action(req: ScoreRequest, i: int, reporter_id: i64) -> ScoreAction {
    ScoreAction::InsertScore {
        article_id: req.article_id,
        reporter_id,
        category_id: req.reporter_scores@[i].reporter_category_id,
        score: req.reporter_scores@[i].score,
    }
}

/// Handling the scores from position `i` on: the first that names its
/// reporter is handled by id if it has one, else by reference code, else by
/// name; when none is left, the client is answered.
pub open spec fn handle_from(req: ScoreRequest, i: nat) -> (ScoreStep, ScoreAction) {
    let scores = req.reporter_scores@;
    let k = next_named(scores, i);
    if k >= scores.len() {
        (ScoreStep::Finished, ScoreAction::Respond(done_reply()))
    } else {
        let u = scores[k as int];
        match u.reporter_id {
            Some(id) => (ScoreStep::AfterInsert(k as usize), insert_action(req, k as int, id as i64)),
            None => match u.ref_code {
                Some(code) => (ScoreStep::AfterRefLookup(k as usize), ScoreAction::FindByRefCode { ref_code: code }),
                None => (
                    ScoreStep::AfterNameLookup(k as usize),
                    ScoreAction::FindByName {
                        name: u.reporter_name->0,
                        external: u.reporter_category_id == EXTERNAL_CATEGORY,
                    },
                ),
            },
        }
    }
}

/// The next step and action, given the outcome of the awaited statement:
/// `Ok` with the inserted row's id or the found reporter's id, or `Err` with
/// the failure's message (for a lookup, that no reporter was found).
pub open spec fn spec_score_step(req: ScoreRequest, step: ScoreStep, outcome: Result<i64, String>) -> (ScoreStep, ScoreAction) {
    match step {
        ScoreStep::Start => (ScoreStep::AfterDelete, ScoreAction::DeleteArticleScores { article_id: req.article_id }),
        ScoreStep::AfterDelete => match outcome {
            Ok(_) => (
                ScoreStep::AfterUpdate,
                ScoreAction::UpdateArticle {
                    article_id: req.article_id,
                    score_basic: req.score_basic,
                    score_action: req.score_action,
                },
            ),
            Err(m) => (ScoreStep::Finished, ScoreAction::Fail(WebErr { reason: Reason::Backend(m) })),
        },
        ScoreStep::AfterUpdate => match outcome {
            Ok(_) => handle_from(req, 0),
            Err(m) => (ScoreStep::Finished, ScoreAction::Fail(WebErr { reason: Reason::Backend(m) })),
        },
        ScoreStep::AfterInsert(i) => match outcome {
            Ok(_) => handle_from(req, (i + 1) as nat),
            Err(m) => (ScoreStep::Finished, ScoreAction::Fail(WebErr { reason: Reason::Backend(m) })),
        },
        ScoreStep::AfterRefLookup(i) => match outcome {
            Ok(id) => (ScoreStep::AfterInsert(i), insert_action(req, i as int, id)),
            Err(_) => handle_from(req, (i + 1) as nat),
        },
        ScoreStep::AfterNameLookup(i) => match outcome {
            Ok(id) => (ScoreStep::AfterInsert(i), insert_action(req, i as int, id)),
            Err(_) => {
                let u = req.reporter_scores@[i as int];
                if u.reporter_category_id == EXTERNAL_CATEGORY {
                    (
                        ScoreStep::AfterNewReporter(i),
                        ScoreAction::AddExternalReporter {
                            name: u.reporter_name->0,
                            category_id: u.reporter_category_id,
                        },
                    )
                } else {
                    handle_from(req, (i + 1) as nat)
                }
            },
        },
        ScoreStep::AfterNewReporter(i) => match outcome {
            Ok(id) => (ScoreStep::AfterInsert(i), insert_action(req, i as int, id)),
            Err(m) => (ScoreStep::Finished, ScoreAction::Fail(WebErr { reason: Reason::Backend(m) })),
        },
        ScoreStep::Finished => (ScoreStep::Finished, ScoreAction::Stop),
    }
}

/// A step is consistent with the request: a position it holds is in range,
/// and the score there names its reporter in the way the step awaits (an
/// external reporter is added only when looked up by name).
pub open spec fn step_fits(req: ScoreRequest, step: ScoreStep) -> bool {
    let scores = req.reporter_scores@;
    match step {
        ScoreStep::AfterInsert(i) => i < scores.len(),
        ScoreStep::AfterRefLookup(i) => i < scores.len() && scores[i as int].reporter_id is None
            && scores[i as int].ref_code is Some,
        ScoreStep::AfterNameLookup(i) => i < scores.len() && scores[i as int].reporter_id is None
            && scores[i as int].ref_code is None && scores[i as int].reporter_name is Some,
        ScoreStep::AfterNewReporter(i) => i < scores.len() && scores[i as int].reporter_id is None
            && scores[i as int].ref_code is None && scores[i as int].reporter_name is Some
            && scores[i as int].reporter_category_id == EXTERNAL_CATEGORY,
        _ => true,
    }
}

/// The search for the next score that names its reporter stops at a score
/// that names one, passing over only scores that name none.
pub proof fn lemma_next_named(scores: Seq<UserScore>, i: nat)
    ensures
        i <= next_named(scores, i) || i > scores.len(),
        next_named(scores, i) <= scores.len(),
        next_named(scores, i) < scores.len() ==> names_reporter(scores[next_named(scores, i) as int]),
        forall|j: nat| i <= j < next_named(scores, i) ==> !names_reporter(#[trigger] scores[j as int]),
    decreases scores.len() - i,
{
    if i < scores.len() && !names_reporter(scores[i as int]) {
        lemma_next_named(scores, i + 1);
    }
}

fn clone_opt(s: &Option<String>) -> (r: Option<String>)
    ensures
        r == *s,
{
    match s {
        Some(x) => Some(x.clone()),
        None => None,
    }
}

fn names_any(u: &UserScore) -> (b: bool)
    ensures
        b == names_reporter(*u),
{
    u.reporter_id.is_some() || u.ref_code.is_some() || u.reporter_name.is_some()
}

/// Finds the first score at or after `from` that names its reporter, and
/// the action for it.
fn handle_exec(req: &ScoreRequest, from: usize) -> (res: (ScoreStep, ScoreAction))
    requires
        from <= req.reporter_scores@.len(),
    ensures
        res == handle_from(*req, from as nat),
        step_fits(*req, res.0),
{
    let n = req.reporter_scores.len();
    let mut k = from;
    proof {
        lemma_next_named(req.reporter_scores@, from as nat);
    }
    while k < n && !names_any(&req.reporter_scores[k])
        invariant
            n == req.reporter_scores@.len(),
            from <= k <= n,
            next_named(req.reporter_scores@, from as nat) == next_named(req.reporter_scores@, k as nat),
        decreases n - k,
    {
        k += 1;
    }
    proof {
        lemma_next_named(req.reporter_scores@, k as nat);
    }
    if k >= n {
        return (ScoreStep::Finished, ScoreAction::Respond(Reply { notice: Notice::Done, data: Data::EmptyText }));
    }
    let u = &req.reporter_scores[k];
    match u.reporter_id {
        Some(id) => (
            ScoreStep::AfterInsert(k),
            ScoreAction::InsertScore {
                article_id: req.article_id,
                reporter_id: id as i64,
                category_id: u.reporter_category_id,
                score: u.score,
            },
        ),
        None => match &u.ref_code {
            Some(code) => (ScoreStep::AfterRefLookup(k), ScoreAction::FindByRefCode { ref_code: code.clone() }),
            None => {
                let name = clone_opt(&u.reporter_name);
                (
                    ScoreStep::AfterNameLookup(k),
                    ScoreAction::FindByName {
                        name: name.unwrap(),
                        external: u.reporter_category_id == EXTERNAL_CATEGORY,
                    },
                )
            },
        },
    }
}

/// Decides the next step of scoring `req`, given the outcome of the
/// statement that `step` awaits.
pub fn score_step(req: &ScoreRequest, step: ScoreStep, outcome: Result<i64, String>) -> (res: (ScoreStep, ScoreAction))
    requires
        step_fits(*req, step),
    ensures
        res == spec_score_step(*req, step, outcome),
        step_fits(*req, res.0),
{
    let n = req.reporter_scores.len();
    match step {
        ScoreStep::Start => (ScoreStep::AfterDelete, ScoreAction::DeleteArticleScores { article_id: req.article_id }),
        ScoreStep::AfterDelete => match outcome {
            Ok(_) => (
                ScoreStep::AfterUpdate,
                ScoreAction::UpdateArticle {
                    article_id: req.article_id,
                    score_basic: req.score_basic,
                    score_action: req.score_action,
                },
            ),
            Err(m) => (ScoreStep::Finished, ScoreAction::Fail(WebErr::from_message(m))),
        },
        ScoreStep::AfterUpdate => match outcome {
            Ok(_) => handle_exec(req, 0),
            Err(m) => (ScoreStep::Finished, ScoreAction::Fail(WebErr::from_message(m))),
        },
        ScoreStep::AfterInsert(i) => match outcome {
            Ok(_) => handle_exec(req, i + 1),
            Err(m) => (ScoreStep::Finished, ScoreAction::Fail(WebErr::from_message(m))),
        },
        ScoreStep::AfterRefLookup(i) => match outcome {
            Ok(id) => {
                let u = &req.reporter_scores[i];
                (
                    ScoreStep::AfterInsert(i),
                    ScoreAction::InsertScore {
                        article_id: req.article_id,
                        reporter_id: id,
                        category_id: u.reporter_category_id,
                        score: u.score,
                    },
                )
            },
            Err(_) => handle_exec(req, i + 1),
        },
        ScoreStep::AfterNameLookup(i) => {
            let u = &req.reporter_scores[i];
            match outcome {
                Ok(id) => (
                    ScoreStep::AfterInsert(i),
                    ScoreAction::InsertScore {
                        article_id: req.article_id,
                        reporter_id: id,
                        category_id: u.reporter_category_id,
                        score: u.score,
                    },
                ),
                Err(_) => {
                    if u.reporter_category_id == EXTERNAL_CATEGORY {
                        let name = clone_opt(&u.reporter_name);
                        (
                            ScoreStep::AfterNewReporter(i),
                            ScoreAction::AddExternalReporter {
                                name: name.unwrap(),
                                category_id: u.reporter_category_id,
                            },
                        )
                    } else {
                        handle_exec(req, i + 1)
                    }
                },
            }
        },
        ScoreStep::AfterNewReporter(i) => match outcome {
            Ok(id) => {
                let u = &req.reporter_scores[i];
                (
                    ScoreStep::AfterInsert(i),
                    ScoreAction::InsertScore {
                        article_id: req.article_id,
                        reporter_id: id,
                        category_id: u.reporter_category_id,
                        score: u.score,
                    },
                )
            },
            Err(m) => (ScoreStep::Finished, ScoreAction::Fail(WebErr::from_message(m))),
        },
        ScoreStep::Finished => (ScoreStep::Finished, ScoreAction::Stop),
    }
}

/// The statement that deletes an article's reporter scores.
pub open spec fn spec_delete_scores_sql(article_id: u32) -> Seq<char> {
    "DELETE FROM article_reporter_score WHERE article_id = "@ + decimal(article_id as nat)
}

/// Builds the statement that deletes an article's reporter scores.
pub fn delete_scores_sql(article_id: u32) -> (sql: String)
    ensures
        sql@ == spec_delete_scores_sql(article_id),
{
    let mut s = String::new();
    s.append("DELETE FROM article_reporter_score WHERE article_id = ");
    push_decimal(&mut s, article_id as u64);
    s
}

/// Setting an article's basic and action scores.
pub const ARTICLE_SCORES_SQL: &'static str = "\n            update article set score_basic = ?, score_action = ? where id = ?\n        ";
/// Inserting one reporter score of an article.
pub const REPORTER_SCORE_INSERT_SQL: &'static str = "\n            insert into article_reporter_score (article_id, reporter_id, reporter_category_id, score)\n            values (?, ?, ?, ?)\n        ";
/// A reporter's id by reference code.
pub const BY_REF_CODE_SQL: &'static str = "select id from reporter where ref_code = ?";
/// An external contributor's id by name.
pub const EXTERNAL_BY_NAME_SQL: &'static str = "select id from reporter where name = ? and reporter_category_id = 7";
/// Another reporter's id by name.
pub const STAFF_BY_NAME_SQL: &'static str = "select id from reporter where name = ? and reporter_category_id != 7";
/// Adding an external contributor.
pub const ADD_EXTERNAL_SQL: &'static str = "insert into reporter (name, phone, ref_code, department, reporter_category_id, state) values (?, ?, ?, ?, ?, ?)";

/// The statement an action runs, if it runs one: the deletion of the
/// article's scores, the update of its two scores, the insert of a reporter
/// score, a lookup by reference code or by name (among external contributors
/// or among the others), or the addition of an external contributor with
/// empty phone and reference code, department "外部" and state 1.
pub open spec fn spec_action_statement(a: ScoreAction) -> Option<(Seq<char>, Seq<BindValue>)> {
    match a {
        ScoreAction::DeleteArticleScores { article_id } => Some((spec_delete_scores_sql(article_id), seq![])),
        ScoreAction::UpdateArticle { article_id, score_basic, score_action } => Some((
            ARTICLE_SCORES_SQL@,
            seq![BindValue::Int(score_basic as int), BindValue::Int(score_action as int), BindValue::Int(article_id as int)],
        )),
        ScoreAction::InsertScore { article_id, reporter_id, category_id, score } => Some((
            REPORTER_SCORE_INSERT_SQL@,
            seq![
                BindValue::Int(article_id as int),
                BindValue::Int(reporter_id as int),
                BindValue::Int(category_id as int),
                BindValue::Int(score as int),
            ],
        )),
        ScoreAction::FindByRefCode { ref_code } => Some((BY_REF_CODE_SQL@, seq![BindValue::Text(ref_code@)])),
        ScoreAction::FindByName { name, external } => Some((
            if external { EXTERNAL_BY_NAME_SQL@ } else { STAFF_BY_NAME_SQL@ },
            seq![BindValue::Text(name@)],
        )),
        ScoreAction::AddExternalReporter { name, category_id } => Some((
            ADD_EXTERNAL_SQL@,
            seq![
                BindValue::Text(name@),
                BindValue::Text(""@),
                BindValue::Text(""@),
                BindValue::Text("外部"@),
                BindValue::Int(category_id as int),
                BindValue::Int(1),
            ],
        )),
        _ => None,
    }
}

/// Builds the statement an action runs; `None` for an answer or the end.
pub fn action_statement(a: &ScoreAction) -> (r: Option<Statement>)
    ensures
        r matches Some(s) ==> spec_action_statement(*a) == Some(s@),
        r is None ==> spec_action_statement(*a) is None,
{
    match a {
        ScoreAction::DeleteArticleScores { article_id } => {
            let binds: Vec<Bind> = Vec::new();
            let s = Statement { sql: delete_scores_sql(*article_id), binds };
            proof {
                assert(s@.1 =~= Seq::<BindValue>::empty());
            }
            Some(s)
        },
        ScoreAction::UpdateArticle { article_id, score_basic, score_action } => {
            let binds = vec![Bind::Int(*score_basic as i64), Bind::Int(*score_action as i64), Bind::Int(*article_id as i64)];
            proof {
                assert(bind_values(binds@) =~= (spec_action_statement(*a)->0).1);
            }
            Some(statement(ARTICLE_SCORES_SQL, binds))
        },
        ScoreAction::InsertScore { article_id, reporter_id, category_id, score } => {
            let binds = vec![
                Bind::Int(*article_id as i64),
                Bind::Int(*reporter_id),
                Bind::Int(*category_id as i64),
                Bind::Int(*score as i64),
            ];
            proof {
                assert(bind_values(binds@) =~= (spec_action_statement(*a)->0).1);
            }
            Some(statement(REPORTER_SCORE_INSERT_SQL, binds))
        },
        ScoreAction::FindByRefCode { ref_code } => {
            let binds = vec![Bind::Text(ref_code.clone())];
            proof {
                assert(bind_values(binds@) =~= (spec_action_statement(*a)->0).1);
            }
            Some(statement(BY_REF_CODE_SQL, binds))
        },
        ScoreAction::FindByName { name, external } => {
            let binds = vec![Bind::Text(name.clone())];
            proof {
                assert(bind_values(binds@) =~= (spec_action_statement(*a)->0).1);
            }
            Some(statement(if *external { EXTERNAL_BY_NAME_SQL } else { STAFF_BY_NAME_SQL }, binds))
        },
        ScoreAction::AddExternalReporter { name, category_id } => {
            let binds = vec![
                Bind::Text(name.clone()),
                Bind::Text(String::from_str("")),
                Bind::Text(String::from_str("")),
                Bind::Text(String::from_str("外部")),
                Bind::Int(*category_id as i64),
                Bind::Int(1),
            ];
            proof {
                assert(bind_values(binds@) =~= (spec_action_statement(*a)->0).1);
            }
            Some(statement(ADD_EXTERNAL_SQL, binds))
        },
        _ => None,
    }
}

} // verus!
