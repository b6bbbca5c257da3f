//! What the built statements and queries carry, stated of their inputs: which
//! value is bound to which parameter, and which condition a query holds for
//! each filter a request gives.

use vstd::prelude::*;
use crate::text::{decimal, parse_i32_spec, signed_decimal};
use crate::handler::statement::BindValue;
use crate::handler::score::{spec_action_statement, ScoreAction, ARTICLE_SCORES_SQL, REPORTER_SCORE_INSERT_SQL};
use crate::handler::calc_monthly::{spec_sheet_params, spec_sheet_sql, CalcMonthlyReq, ONE_REPORTER, SHEET_SQL};
use crate::handler::get_articles::{
    spec_articles_sql, spec_count_sql, GetArticlesReq, LIST_OFFSET, LIST_ORDER, LIST_TAIL,
};
use crate::handler::get_paper_abnormal_articles::{spec_abnormal_sql, GetPaperAbnormalArticlesReq};
use crate::handler::article::{
    spec_article_plan, spec_article_reply, spec_article_statement, ArticleRequest, ARTICLE_INSERT_SQL,
    ARTICLE_UPDATE_SQL, ARTICLE_WITHDRAW_SQL,
};
use crate::handler::event::{spec_event_reply, spec_event_statement, EventReq, EVENT_DELETE_SQL, EVENT_INSERT_SQL, EVENT_UPDATE_SQL};
use crate::handler::monthly_add_score::{
    spec_monthly_add_reply, spec_monthly_add_statement, MonthlyAddScoreReq, BONUS_DELETE_SQL, BONUS_INSERT_SQL,
    BONUS_UPDATE_SQL,
};
use crate::handler::reporter::{
    spec_reporter_reply, spec_reporter_statement, ReporterRequest, REPORTER_DEACTIVATE_SQL, REPORTER_INSERT_SQL,
    REPORTER_UPDATE_SQL,
};
use crate::handler::write::{WriteKind, WriteOutcome};
use crate::handler::get_cooperation_scores::{spec_cooperation_query, GetCooperationScoresReq, COOPERATION_SQL};
use crate::handler::get_monthly_sub_score::{spec_penalty_query, GetMonthlySubScoreReq, PENALTY_SQL};
use crate::handler::batch_update_tv_urls::{spec_tv_url_update, TV_URL_UPDATE_SQL};
use crate::handler::get_reporter_events::{spec_events_sql, GetReporterEventsReq, EVENTS_HEAD, EVENTS_TAIL};
use crate::handler::get_reporters::{spec_reporters_sql, GetReportersReq, REPORTERS_HEAD, REPORTERS_TAIL};
use crate::handler::login::{hex_digit, hex_lower, md5_of, spec_sign_in_query, SIGN_IN_SQL};
use crate::web::{Data, Notice, Reason, Reply, WebErr};
use crate::handler::get_articles::{article_of, scores_of, Article, ArticleReporterScore, ArticleRow, ArticleScoreRow};
use crate::handler::get_paper_abnormal_articles::{
    abnormal_article_of, abnormal_scores_of, PaperAbnormalArticle, PaperAbnormalArticleReporterScore,
    PaperAbnormalArticleRow, PaperAbnormalScoreRow,
};
use vstd::string::StringSliceAdditionalSpecFns;

verus! {

/// Whether `t` occurs in `s` as a run of consecutive characters.
pub open spec fn contains_text(s: Seq<char>, t: Seq<char>) -> bool {
    exists|i: int| 0 <= i && i + t.len() <= s.len() && #[trigger] s.subrange(i, i + t.len()) == t
}

/// A text occurs in any text that has it between two others.
pub proof fn lemma_contains_middle(a: Seq<char>, t: Seq<char>, b: Seq<char>)
    ensures
        contains_text(a + t + b, t),
{
    let s = a + t + b;
    assert(s.subrange(a.len() as int, (a.len() + t.len()) as int) =~= t);
}

/// Whether `s` ends with `t`.
pub open spec fn ends_with(s: Seq<char>, t: Seq<char>) -> bool {
    t.len() <= s.len() && s.subrange(s.len() - t.len(), s.len() as int) == t
}

// ---------------------------------------------------------------- scoring

/// Setting an article's scores binds, in the order of the statement's
/// placeholders (`score_basic = ?, score_action = ? where id = ?`), the basic
/// score, the action score and the article's id.
pub proof fn law_article_scores_bind_in_order(article_id: u32, score_basic: u32, score_action: u32)
    ensures
        spec_action_statement(ScoreAction::UpdateArticle { article_id, score_basic, score_action }) == Some((
            ARTICLE_SCORES_SQL@,
            seq![BindValue::Int(score_basic as int), BindValue::Int(score_action as int), BindValue::Int(article_id as int)],
        )),
{
    let s = spec_action_statement(ScoreAction::UpdateArticle { article_id, score_basic, score_action });
    assert((s->0).1 =~= seq![BindValue::Int(score_basic as int), BindValue::Int(score_action as int), BindValue::Int(article_id as int)]);
}

/// Inserting a reporter score binds, in the order of the statement's columns
/// (`article_id, reporter_id, reporter_category_id, score`), the article, the
/// reporter, the category and the score.
pub proof fn law_reporter_score_binds_in_order(article_id: u32, reporter_id: i64, category_id: u32, score: u32)
    ensures
        spec_action_statement(ScoreAction::InsertScore { article_id, reporter_id, category_id, score }) == Some((
            REPORTER_SCORE_INSERT_SQL@,
            seq![
                BindValue::Int(article_id as int),
                BindValue::Int(reporter_id as int),
                BindValue::Int(category_id as int),
                BindValue::Int(score as int),
            ],
        )),
{
}

// ---------------------------------------------------------------- sheet

/// The sheet's values alternate the year and the month over its five
/// subqueries (the year at each even position, the month at each odd one),
/// with or without a reporter; a reporter, when given, is the eleventh and
/// last value, and only then is the query narrowed to one reporter.
pub proof fn law_sheet_binds_year_then_month(req: CalcMonthlyReq)
    ensures
        ({
            let p = spec_sheet_params(req);
            &&& forall|j: int| 0 <= j < 10 ==> #[trigger] p[j] == (if j % 2 == 0 { req.year } else { req.month })
            &&& req.reporter_id is None ==> p.len() == 10 && spec_sheet_sql(req) == SHEET_SQL@
            &&& req.reporter_id matches Some(r) ==> p.len() == 11 && p[10] == r
                && spec_sheet_sql(req) == SHEET_SQL@ + ONE_REPORTER@
        }),
{
}

// ---------------------------------------------------------------- listing

/// A listing page is the window of `limit` articles after the pages before
/// it: the query ends with `limit <limit> offset <(page - 1) * limit>`.
#[verifier::spinoff_prover]
#[verifier::rlimit(40)]
pub proof fn law_listing_pages_follow_each_other(req: GetArticlesReq)
    requires
        req.page >= 1,
    ensures
        ends_with(
            spec_articles_sql(req),
            LIST_ORDER@ + decimal(req.limit as nat) + LIST_OFFSET@ + decimal(((req.page - 1) * req.limit) as nat)
                + LIST_TAIL@,
        ),
{
    let sql = spec_articles_sql(req);
    let tail = LIST_ORDER@ + decimal(req.limit as nat) + LIST_OFFSET@ + decimal(((req.page - 1) * req.limit) as nat)
        + LIST_TAIL@;
    assert(sql.subrange(sql.len() - tail.len(), sql.len() as int) =~= tail);
}

/// Every filter a listing request gives is a condition of its query: the
/// reporter, a medium given by number (a negative one selects every
/// medium) or a list of media, the day, a keyword in the title and the video
/// address.
#[verifier::spinoff_prover]
#[verifier::rlimit(40)]
pub proof fn law_listing_applies_every_filter(req: GetArticlesReq)
    ensures
        req.reporter_id matches Some(id) ==> contains_text(
            spec_articles_sql(req),
            "a.id = ars.article_id and ars.reporter_id = "@ + decimal(id as nat) + " and"@,
        ),
        req.tv_or_paper matches Some(t) ==> match parse_i32_spec(t@) {
            Some(v) => v >= 0 ==> contains_text(spec_articles_sql(req), "a.tv_or_paper = "@ + signed_decimal(v as int) + " and"@),
            None => contains_text(spec_articles_sql(req), "a.tv_or_paper in ("@ + t@ + ") and "@),
        },
        req.day matches Some(d) ==> contains_text(spec_articles_sql(req), "and a.publish_day = "@ + decimal(d as nat)),
        req.keyword matches Some(k) ==> contains_text(spec_articles_sql(req), "and a.title like '%"@ + k@ + "%'"@),
        req.tv_url matches Some(u) ==> contains_text(spec_articles_sql(req), "and a.tv_url = '"@ + u@ + "'"@),
{
    let sql = spec_articles_sql(req);
    if let Some(id) = req.reporter_id {
        let t = "a.id = ars.article_id and ars.reporter_id = "@ + decimal(id as nat) + " and"@;
        let i = (crate::handler::get_articles::LIST_HEAD@ + crate::handler::get_articles::spec_reporter_table(req.reporter_id)
            + crate::handler::get_articles::LIST_JOINS@).len();
        assert(sql.subrange(i as int, (i + t.len()) as int) =~= t);
    }
    if let Some(t) = req.tv_or_paper {
        let i = (crate::handler::get_articles::LIST_HEAD@ + crate::handler::get_articles::spec_reporter_table(req.reporter_id)
            + crate::handler::get_articles::LIST_JOINS@ + crate::handler::get_articles::spec_reporter_cond(req.reporter_id)
            + crate::handler::get_articles::LIST_BREAK@).len();
        let m = crate::handler::get_articles::spec_media_cond(req.tv_or_paper);
        assert(sql.subrange(i as int, (i + m.len()) as int) =~= m);
    }
    if let Some(d) = req.day {
        let t = "and a.publish_day = "@ + decimal(d as nat);
        let i = (crate::handler::get_articles::LIST_HEAD@ + crate::handler::get_articles::spec_reporter_table(req.reporter_id)
            + crate::handler::get_articles::LIST_JOINS@ + crate::handler::get_articles::spec_reporter_cond(req.reporter_id)
            + crate::handler::get_articles::LIST_BREAK@ + crate::handler::get_articles::spec_media_cond(req.tv_or_paper)
            + crate::handler::get_articles::LIST_MONTH@).len();
        assert(sql.subrange(i as int, (i + t.len()) as int) =~= t);
    }
    if let Some(k) = req.keyword {
        let t = "and a.title like '%"@ + k@ + "%'"@;
        let i = (crate::handler::get_articles::LIST_HEAD@ + crate::handler::get_articles::spec_reporter_table(req.reporter_id)
            + crate::handler::get_articles::LIST_JOINS@ + crate::handler::get_articles::spec_reporter_cond(req.reporter_id)
            + crate::handler::get_articles::LIST_BREAK@ + crate::handler::get_articles::spec_media_cond(req.tv_or_paper)
            + crate::handler::get_articles::LIST_MONTH@ + crate::handler::get_articles::spec_day_cond(req.day)
            + crate::handler::get_articles::LIST_BREAK@).len();
        assert(sql.subrange(i as int, (i + t.len()) as int) =~= t);
    }
    if let Some(u) = req.tv_url {
        let t = "and a.tv_url = '"@ + u@ + "'"@;
        let i = (crate::handler::get_articles::LIST_HEAD@ + crate::handler::get_articles::spec_reporter_table(req.reporter_id)
            + crate::handler::get_articles::LIST_JOINS@ + crate::handler::get_articles::spec_reporter_cond(req.reporter_id)
            + crate::handler::get_articles::LIST_BREAK@ + crate::handler::get_articles::spec_media_cond(req.tv_or_paper)
            + crate::handler::get_articles::LIST_MONTH@ + crate::handler::get_articles::spec_day_cond(req.day)
            + crate::handler::get_articles::LIST_BREAK@ + crate::handler::get_articles::spec_keyword_cond(req.keyword)
            + crate::handler::get_articles::LIST_BREAK@).len();
        assert(sql.subrange(i as int, (i + t.len()) as int) =~= t);
    }
}

/// The listing's count applies its reporter, keyword and media filters.
#[verifier::spinoff_prover]
#[verifier::rlimit(40)]
pub proof fn law_count_applies_its_filters(req: GetArticlesReq)
    ensures
        req.reporter_id matches Some(id) ==> contains_text(
            spec_count_sql(req),
            ", article_reporter_score ars where a.id = ars.article_id and ars.reporter_id = "@ + decimal(id as nat)
                + " and"@,
        ),
        req.keyword matches Some(k) ==> contains_text(spec_count_sql(req), "and a.title like '%"@ + k@ + "%'"@),
        req.tv_or_paper matches Some(t) ==> contains_text(spec_count_sql(req), "and a.tv_or_paper in ("@ + t@ + ")"@),
{
    let sql = spec_count_sql(req);
    let head = crate::handler::get_articles::COUNT_HEAD@;
    if let Some(id) = req.reporter_id {
        let t = ", article_reporter_score ars where a.id = ars.article_id and ars.reporter_id = "@ + decimal(id as nat)
            + " and"@;
        let i = head.len();
        assert(sql.subrange(i as int, (i + t.len()) as int) =~= t);
    }
    if let Some(k) = req.keyword {
        let t = "and a.title like '%"@ + k@ + "%'"@;
        let i = (head + crate::handler::get_articles::spec_count_from(req.reporter_id)
            + crate::handler::get_articles::COUNT_MONTH@).len();
        assert(sql.subrange(i as int, (i + t.len()) as int) =~= t);
    }
    if let Some(m) = req.tv_or_paper {
        let t = "and a.tv_or_paper in ("@ + m@ + ")"@;
        let i = (head + crate::handler::get_articles::spec_count_from(req.reporter_id)
            + crate::handler::get_articles::COUNT_MONTH@ + crate::handler::get_articles::spec_keyword_cond(req.keyword)
            + crate::handler::get_articles::COUNT_BREAK@).len();
        assert(sql.subrange(i as int, (i + t.len()) as int) =~= t);
    }
}

// ---------------------------------------------------------------- abnormal

/// The abnormal listing applies its keyword whether or not a reporter is
/// given, and its reporter when one is.
#[verifier::spinoff_prover]
#[verifier::rlimit(40)]
pub proof fn law_abnormal_applies_its_filters(req: GetPaperAbnormalArticlesReq)
    ensures
        req.keyword matches Some(k) ==> contains_text(spec_abnormal_sql(req), "and a.title like '%"@ + k@ + "%'"@),
        req.reporter_id matches Some(id) ==> contains_text(
            spec_abnormal_sql(req),
            "a.id = ars.article_id and ars.reporter_id = "@ + decimal(id as nat) + " and"@,
        ),
{
    let sql = spec_abnormal_sql(req);
    let gp = crate::handler::get_paper_abnormal_articles::ABNORMAL_HEAD@ + crate::handler::get_articles::spec_reporter_table(
        req.reporter_id,
    ) + crate::handler::get_paper_abnormal_articles::ABNORMAL_JOIN@;
    if let Some(k) = req.keyword {
        let t = "and a.title like '%"@ + k@ + "%'"@;
        let i = (gp + crate::handler::get_articles::spec_reporter_cond(req.reporter_id)
            + crate::handler::get_paper_abnormal_articles::ABNORMAL_MONTH@).len();
        assert(sql.subrange(i as int, (i + t.len()) as int) =~= t);
    }
    if let Some(id) = req.reporter_id {
        let t = "a.id = ars.article_id and ars.reporter_id = "@ + decimal(id as nat) + " and"@;
        let i = gp.len();
        assert(sql.subrange(i as int, (i + t.len()) as int) =~= t);
    }
}

// ---------------------------------------------------------------- articles

/// The collaboration flag written is the request's own, or 0 when it gives
/// none; an update and an insert bind it tenth, after the state.
pub proof fn law_collaboration_flag_is_the_request_s(req: ArticleRequest)
    ensures
        req.is_collaboration matches Some(c) ==> spec_article_plan(req).is_collaboration == c,
        req.is_collaboration is None ==> spec_article_plan(req).is_collaboration == 0,
        !(req.id is Some && req.state == 0) ==> ({
            let b = spec_article_statement(req).1;
            &&& b.len() >= 10
            &&& b[8] == BindValue::Int(req.state as int)
            &&& b[9] == BindValue::Int(match req.is_collaboration {
                Some(c) => c as int,
                None => 0int,
            })
        }),
{
}

/// An article request's statement: with an id and state 0, only the state
/// (0) of that row is written and no row is deleted; with an id and another
/// state, every field is written to that row, in the order of the update's
/// placeholders (title, medium, year, month, day, video address, page, page
/// name, state, collaboration flag, then the id); without an id a row is
/// inserted with the same fields.
pub proof fn law_article_statement_writes_the_request(req: ArticleRequest)
    ensures
        ({
            let flag: int = match req.is_collaboration {
                Some(c) => c as int,
                None => 0int,
            };
            let fields = seq![
                BindValue::Text(req.title@),
                BindValue::Int(req.tv_or_paper as int),
                BindValue::Int(req.publish_year as int),
                BindValue::Int(req.publish_month as int),
                BindValue::Int(req.publish_day as int),
                BindValue::Text(req.tv_url@),
                BindValue::Int(req.page_meta_id as int),
                BindValue::Text(req.page_name@),
                BindValue::Int(req.state as int),
                BindValue::Int(flag),
            ];
            let s = spec_article_statement(req);
            let id: int = match req.id { Some(i) => i as int, None => 0 };
            &&& req.id is Some && req.state == 0 ==> s == (
                ARTICLE_WITHDRAW_SQL@,
                seq![BindValue::Int(0), BindValue::Int(id)],
            )
            &&& req.id is Some && req.state != 0 ==> s == (ARTICLE_UPDATE_SQL@, fields.push(BindValue::Int(id)))
            &&& req.id is None ==> s == (ARTICLE_INSERT_SQL@, fields)
        }),
{
}

/// An event request's statement: with an id and state 0 the row is deleted;
/// with an id and another state every field is written to it (reporter,
/// content, score, source, year, month, state, then the id); without an id
/// a row is inserted with the same fields.
pub proof fn law_event_statement_writes_the_request(req: EventReq)
    ensures
        ({
            let fields = seq![
                BindValue::Int(req.reporter_id as int),
                BindValue::Text(req.content@),
                BindValue::Int(req.score as int),
                BindValue::Text(req.score_from@),
                BindValue::Int(req.publish_year as int),
                BindValue::Int(req.publish_month as int),
                BindValue::Int(req.state as int),
            ];
            let s = spec_event_statement(req);
            let id: int = match req.id { Some(i) => i as int, None => 0 };
            &&& req.id is Some && req.state == 0 ==> s == (EVENT_DELETE_SQL@, seq![BindValue::Int(id)])
            &&& req.id is Some && req.state != 0 ==> s == (EVENT_UPDATE_SQL@, fields.push(BindValue::Int(id)))
            &&& req.id is None ==> s == (EVENT_INSERT_SQL@, fields)
        }),
{
}

/// A bonus request's statement: with an id and state 0 the row is deleted;
/// with an id and another state its score, reason, year and month are
/// written (then the id), its reporter and state left alone; without an id
/// a row is inserted with its reporter, score, reason, year and month.
pub proof fn law_bonus_statement_writes_the_request(req: MonthlyAddScoreReq)
    ensures
        ({
            let s = spec_monthly_add_statement(req);
            let id: int = match req.id { Some(i) => i as int, None => 0 };
            &&& req.id is Some && req.state == 0 ==> s == (BONUS_DELETE_SQL@, seq![BindValue::Int(id)])
            &&& req.id is Some && req.state != 0 ==> s == (
                BONUS_UPDATE_SQL@,
                seq![
                    BindValue::Int(req.score as int),
                    BindValue::Text(req.reason@),
                    BindValue::Int(req.publish_year as int),
                    BindValue::Int(req.publish_month as int),
                    BindValue::Int(id),
                ],
            )
            &&& req.id is None ==> s == (
                BONUS_INSERT_SQL@,
                seq![
                    BindValue::Int(req.reporter_id as int),
                    BindValue::Int(req.score as int),
                    BindValue::Text(req.reason@),
                    BindValue::Int(req.publish_year as int),
                    BindValue::Int(req.publish_month as int),
                ],
            )
        }),
{
}

/// A reporter request's statement: with an id and state 0 only the row's
/// state is set to 0; with an id and another state every field is written
/// (name, phone, department, category, state, then the id); without an id a
/// row is inserted with the same fields.
pub proof fn law_reporter_statement_writes_the_request(req: ReporterRequest)
    ensures
        ({
            let fields = seq![
                BindValue::Text(req.name@),
                BindValue::Text(req.phone@),
                BindValue::Text(req.department@),
                BindValue::Int(req.reporter_category_id as int),
                BindValue::Int(req.state as int),
            ];
            let s = spec_reporter_statement(req);
            let id: int = match req.id { Some(i) => i as int, None => 0 };
            &&& req.id is Some && req.state == 0 ==> s == (REPORTER_DEACTIVATE_SQL@, seq![BindValue::Int(id)])
            &&& req.id is Some && req.state != 0 ==> s == (REPORTER_UPDATE_SQL@, fields.push(BindValue::Int(id)))
            &&& req.id is None ==> s == (REPORTER_INSERT_SQL@, fields)
        }),
{
}

/// The replies of the write endpoints, given how the statement went: a
/// failure is answered with its message; an article write always succeeds
/// with the rows changed (or the new row's id); an event, bonus or reporter
/// write that changed no row fails as not found (a reporter insert as not
/// inserted); otherwise the removal, update or creation is acknowledged
/// with the rows changed or the new row's id, a bonus update as a deletion.
pub proof fn law_write_replies(kind: WriteKind, w: WriteOutcome, m: String, flag: u8)
    ensures
        spec_event_reply(kind, Err(m)) == Err::<Reply, WebErr>(WebErr { reason: Reason::Backend(m) }),
        spec_article_reply(crate::handler::article::ArticlePlan { kind, is_collaboration: flag }, Ok(w)) == Ok::<Reply, WebErr>(
            match kind {
                WriteKind::Remove { .. } => Reply { notice: Notice::ArticleDeleted, data: Data::Rows(w.rows_affected) },
                WriteKind::Update { .. } => Reply { notice: Notice::ArticleUpdated, data: Data::Rows(w.rows_affected) },
                WriteKind::Create => Reply { notice: Notice::ArticleCreated, data: Data::RowId(w.last_insert_rowid) },
            },
        ),
        kind is Create ==> spec_event_reply(kind, Ok(w)) == Ok::<Reply, WebErr>(
            Reply { notice: Notice::Created, data: Data::RowId(w.last_insert_rowid) },
        ),
        kind is Create ==> spec_monthly_add_reply(kind, Ok(w)) == Ok::<Reply, WebErr>(
            Reply { notice: Notice::Created, data: Data::RowId(w.last_insert_rowid) },
        ),
        !(kind is Create) && w.rows_affected == 0 ==> spec_event_reply(kind, Ok(w)) == Err::<Reply, WebErr>(
            WebErr { reason: Reason::RecordNotFound },
        ) && spec_monthly_add_reply(kind, Ok(w)) == Err::<Reply, WebErr>(WebErr { reason: Reason::RecordNotFound })
            && spec_reporter_reply(kind, Ok(w)) == Err::<Reply, WebErr>(WebErr { reason: Reason::UserNotFound }),
        kind is Create && w.rows_affected == 0 ==> spec_reporter_reply(kind, Ok(w)) == Err::<Reply, WebErr>(
            WebErr { reason: Reason::InsertUserFailed },
        ),
        kind is Remove && w.rows_affected > 0 ==> spec_event_reply(kind, Ok(w)) == Ok::<Reply, WebErr>(
            Reply { notice: Notice::Deleted, data: Data::Rows(w.rows_affected) },
        ) && spec_reporter_reply(kind, Ok(w)) == Ok::<Reply, WebErr>(
            Reply { notice: Notice::Deleted, data: Data::Rows(w.rows_affected) },
        ) && spec_monthly_add_reply(kind, Ok(w)) == Ok::<Reply, WebErr>(
            Reply { notice: Notice::Deleted, data: Data::Rows(w.rows_affected) },
        ),
        kind is Update && w.rows_affected > 0 ==> spec_event_reply(kind, Ok(w)) == Ok::<Reply, WebErr>(
            Reply { notice: Notice::Updated, data: Data::Rows(w.rows_affected) },
        ) && spec_reporter_reply(kind, Ok(w)) == Ok::<Reply, WebErr>(
            Reply { notice: Notice::Updated, data: Data::Rows(w.rows_affected) },
        ) && spec_monthly_add_reply(kind, Ok(w)) == Ok::<Reply, WebErr>(
            Reply { notice: Notice::Deleted, data: Data::Rows(w.rows_affected) },
        ),
        kind is Create && w.rows_affected > 0 ==> spec_reporter_reply(kind, Ok(w)) == Ok::<Reply, WebErr>(
            Reply { notice: Notice::Inserted, data: Data::RowId(w.last_insert_rowid) },
        ),
{
}

/// The monthly lookups bind the reporter, the year and the month, in the
/// order of their placeholders.
pub proof fn law_monthly_lookups_bind_reporter_year_month(reporter_id: u32, year: u32, month: u32)
    ensures
        spec_cooperation_query(GetCooperationScoresReq { reporter_id, year, month }) == (
            COOPERATION_SQL@,
            seq![BindValue::Int(reporter_id as int), BindValue::Int(year as int), BindValue::Int(month as int)],
        ),
        spec_penalty_query(GetMonthlySubScoreReq { reporter_id, year, month }) == (
            PENALTY_SQL@,
            seq![BindValue::Int(reporter_id as int), BindValue::Int(year as int), BindValue::Int(month as int)],
        ),
{
}

/// A video-address update binds the address, then the article's id.
pub proof fn law_tv_url_update_binds_address_then_id(id: i32, url: String)
    ensures
        spec_tv_url_update((id, url)) == (TV_URL_UPDATE_SQL@, seq![BindValue::Text(url@), BindValue::Int(id as int)]),
{
}

/// Sign-in looks the administrator up by the given name and the digest of
/// the given password, in that order.
pub proof fn law_sign_in_binds_name_then_digest(name: &str, password: &str)
    ensures
        spec_sign_in_query(name, password) == (
            SIGN_IN_SQL@,
            seq![BindValue::Text(name@), BindValue::Text(hex_lower(md5_of(password.spec_bytes())))],
        ),
{
}

/// Whether a score row belongs to the article with this id.
pub open spec fn of_article(id: i32) -> spec_fn(ArticleScoreRow) -> bool {
    |r: ArticleScoreRow| r.article_id == id
}

/// The score a score row carries.
pub open spec fn row_score() -> spec_fn(ArticleScoreRow) -> ArticleReporterScore {
    |r: ArticleScoreRow| r.score
}

proof fn lemma_scores_of_filters(rows: Seq<ArticleScoreRow>, id: i32)
    ensures
        scores_of(rows, id) == rows.filter(of_article(id)).map_values(row_score()),
    decreases rows.len(),
{
    reveal(Seq::filter);
    if rows.len() > 0 {
        lemma_scores_of_filters(rows.drop_last(), id);
        let sub = rows.drop_last().filter(of_article(id));
        if rows.last().article_id == id {
            assert(sub.push(rows.last()).map_values(row_score()) =~= sub.map_values(row_score()).push(rows.last().score));
        }
    } else {
        assert(rows.filter(of_article(id)).map_values(row_score()) =~= Seq::<ArticleReporterScore>::empty());
    }
}

/// A listed article is its row, field for field, with the scores of the
/// score rows that belong to it, in the order the scores were read.
pub proof fn law_listed_article_is_its_row(a: Article, row: ArticleRow, scores: Seq<ArticleScoreRow>)
    requires
        article_of(a, row, scores),
    ensures
        a.id == row.id && a.title == row.title && a.content == row.content && a.html_content == row.html_content,
        a.tv_or_paper == row.tv_or_paper && a.media_type == row.media_type,
        a.publish_year == row.publish_year && a.publish_month == row.publish_month && a.publish_day == row.publish_day,
        a.tv_url == row.tv_url && a.paper_url == row.paper_url,
        a.page_meta_id == row.page_meta_id && a.page_name == row.page_name,
        a.score_basic == row.score_basic && a.score_action == row.score_action,
        a.ref_id == row.ref_id && a.duration == row.duration && a.character_count == row.character_count,
        a.reporter_scores@ == scores.filter(of_article(row.id)).map_values(row_score()),
{
    lemma_scores_of_filters(scores, row.id);
}

/// Whether an abnormal-listing score row belongs to the article with this id.
pub open spec fn of_abnormal_article(id: i32) -> spec_fn(PaperAbnormalScoreRow) -> bool {
    |r: PaperAbnormalScoreRow| r.article_id == id
}

/// The score an abnormal-listing score row carries.
pub open spec fn abnormal_row_score() -> spec_fn(PaperAbnormalScoreRow) -> PaperAbnormalArticleReporterScore {
    |r: PaperAbnormalScoreRow| r.score
}

proof fn lemma_abnormal_scores_of_filters(rows: Seq<PaperAbnormalScoreRow>, id: i32)
    ensures
        abnormal_scores_of(rows, id) == rows.filter(of_abnormal_article(id)).map_values(abnormal_row_score()),
    decreases rows.len(),
{
    reveal(Seq::filter);
    if rows.len() > 0 {
        lemma_abnormal_scores_of_filters(rows.drop_last(), id);
        let sub = rows.drop_last().filter(of_abnormal_article(id));
        if rows.last().article_id == id {
            assert(sub.push(rows.last()).map_values(abnormal_row_score())
                =~= sub.map_values(abnormal_row_score()).push(rows.last().score));
        }
    } else {
        assert(rows.filter(of_abnormal_article(id)).map_values(abnormal_row_score())
            =~= Seq::<PaperAbnormalArticleReporterScore>::empty());
    }
}

/// An article of the abnormal listing is its row, field for field, with the
/// scores of the score rows that belong to it, in the order read.
pub proof fn law_abnormal_article_is_its_row(
    a: PaperAbnormalArticle,
    row: PaperAbnormalArticleRow,
    scores: Seq<PaperAbnormalScoreRow>,
)
    requires
        abnormal_article_of(a, row, scores),
    ensures
        a.id == row.id && a.title == row.title && a.content == row.content && a.html_content == row.html_content,
        a.tv_or_paper == row.tv_or_paper && a.media_type == row.media_type && a.program_name == row.program_name,
        a.publish_year == row.publish_year && a.publish_month == row.publish_month && a.publish_day == row.publish_day,
        a.tv_url == row.tv_url && a.paper_url == row.paper_url,
        a.page_meta_id == row.page_meta_id && a.page_name == row.page_name,
        a.score_basic == row.score_basic && a.score_action == row.score_action,
        a.ref_id == row.ref_id && a.duration == row.duration && a.character_count == row.character_count,
        a.reporter_scores@ == scores.filter(of_abnormal_article(row.id)).map_values(abnormal_row_score()),
{
    lemma_abnormal_scores_of_filters(scores, row.id);
}

proof fn lemma_hex_digit(d: nat)
    requires
        d < 16,
    ensures
        hex_digit(d) == hex_digit_of(d as int),
{
    reveal_strlit("0123456789abcdef");
}

/// The digit of a value below 16 in lowercase hex.
pub open spec fn hex_digit_of(d: int) -> char {
    "0123456789abcdef"@[d]
}

/// Hex text writes each byte as two lowercase digits, the high half of the
/// byte first: byte `i` is at positions `2i` and `2i + 1`.
pub proof fn law_hex_text_high_digit_first(bytes: Seq<u8>)
    ensures
        hex_lower(bytes).len() == 2 * bytes.len(),
        forall|i: int| 0 <= i < bytes.len() ==> #[trigger] hex_lower(bytes)[2 * i] == hex_digit_of((bytes[i] / 16) as int),
        forall|i: int| 0 <= i < bytes.len() ==> #[trigger] hex_lower(bytes)[2 * i + 1] == hex_digit_of((bytes[i] % 16) as int),
    decreases bytes.len(),
{
    crate::handler::login::lemma_hex_lower_shape(bytes);
    if bytes.len() > 0 {
        let p = bytes.drop_last();
        law_hex_text_high_digit_first(p);
        let h = hex_lower(bytes);
        let b = bytes.last();
        lemma_hex_digit((b / 16) as nat);
        lemma_hex_digit((b % 16) as nat);
        assert(h == hex_lower(p) + seq![hex_digit((b / 16) as nat), hex_digit((b % 16) as nat)]);
        assert forall|i: int| 0 <= i < bytes.len() implies #[trigger] h[2 * i] == hex_digit_of((bytes[i] / 16) as int) by {
            if i < p.len() {
                assert(h[2 * i] == hex_lower(p)[2 * i]);
                assert(bytes[i] == p[i]);
            } else {
                assert(bytes[i] == b);
                assert(h[2 * i] == hex_digit((b / 16) as nat));
            }
        }
        assert forall|i: int| 0 <= i < bytes.len() implies #[trigger] h[2 * i + 1] == hex_digit_of((bytes[i] % 16) as int) by {
            if i < p.len() {
                assert(h[2 * i + 1] == hex_lower(p)[2 * i + 1]);
                assert(bytes[i] == p[i]);
            } else {
                assert(bytes[i] == b);
                assert(h[2 * i + 1] == hex_digit((b % 16) as nat));
            }
        }
    }
}

/// A reporter's events are those of the month, and of the day when one is
/// given: the day's condition is in the query exactly then.
pub proof fn law_events_filter_by_day(req: GetReporterEventsReq)
    ensures
        req.day matches Some(d) ==> contains_text(spec_events_sql(req), "and publish_day = "@ + decimal(d as nat)),
        req.day is None ==> spec_events_sql(req) == EVENTS_HEAD@ + EVENTS_TAIL@,
{
    if let Some(d) = req.day {
        lemma_contains_middle(EVENTS_HEAD@, "and publish_day = "@ + decimal(d as nat), EVENTS_TAIL@);
    } else {
        assert(spec_events_sql(req) =~= EVENTS_HEAD@ + EVENTS_TAIL@);
    }
}

/// The reporter listing keeps the given department only; without one, it
/// lists every active reporter.
pub proof fn law_reporters_filter_by_department(req: GetReportersReq)
    ensures
        req.department matches Some(d) ==> contains_text(spec_reporters_sql(req), "and r.department = '"@ + d@ + "'"@),
        req.department is None ==> spec_reporters_sql(req) == REPORTERS_HEAD@ + REPORTERS_TAIL@,
{
    if let Some(d) = req.department {
        lemma_contains_middle(REPORTERS_HEAD@, "and r.department = '"@ + d@ + "'"@, REPORTERS_TAIL@);
    } else {
        assert(spec_reporters_sql(req) =~= REPORTERS_HEAD@ + REPORTERS_TAIL@);
    }
}

/// An account's session is kept under `zscm_` followed by its name.
pub proof fn law_session_key_prefixes_the_name(name: Seq<char>)
    ensures
        crate::handler::login::spec_session_key(name) == "zscm_"@ + name,
{
}

} // verus!
