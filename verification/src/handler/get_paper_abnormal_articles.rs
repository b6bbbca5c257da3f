//! Listing a month's newspaper articles whose scoring looks wrong: every
//! scored reporter belongs to a department other than the news desks, and
//! none is an outside contributor.

use vstd::prelude::*;
use vstd::string::StringExecFns;
use crate::text::text_eq;
use crate::handler::get_articles::{
    push_keyword_cond, push_reporter_cond, push_reporter_table, spec_keyword_cond,
    spec_reporter_cond, spec_reporter_table,
};

verus! {

/// The abnormal-article endpoint.
pub struct GetPaperAbnormalArticles;

/// The month to examine, optionally narrowed by keyword or reporter.
#[derive(Debug)]
pub struct GetPaperAbnormalArticlesReq {
    pub year: u16,
    pub month: u8,
    pub keyword: Option<String>,
    pub reporter_id: Option<u32>,
}

/// The start of the query, up to the extra tables.
pub const ABNORMAL_HEAD: &'static str = "\n            select\n                a.id,\n                a.title,\n                a.content,\n                a.html_content,\n                a.tv_or_paper,\n                p.media_type,\n                p.name as program_name,\n                a.publish_year,\n                a.publish_month,\n                a.publish_day,\n                a.tv_url,\n                a.page_meta_id,\n                'https://epaper.wifizs.cn/zsrb/' || a.publish_year || '-' || substr('00'||a.publish_month, -2) || '/' || substr('00'||a.publish_day, -2) || '/node_' || pm.page_web_no || '.html' as paper_url,\n                a.page_name,\n                a.score_basic,\n                a.score_action,\n                a.ref_id,\n                a.duration,\n                a.character_count\n            from program p, article a ";
/// The join of the query.
pub const ABNORMAL_JOIN: &'static str = "\n                left join page_meta pm on a.page_meta_id = pm.id\n                where\n                ";
/// The fixed conditions: published newspaper articles of the month.
pub const ABNORMAL_MONTH: &'static str = "\n                a.state = 1\n                and a.tv_or_paper not in (0,2,3,4,5)\n                and a.publish_year = ?\n                and a.publish_month = ?\n                and a.tv_or_paper = p.site_id\n                and p.state = 1\n                ";
/// The grouping and ordering of the query.
pub const ABNORMAL_TAIL: &'static str = "\n            group by a.id\n            order by a.publish_year desc, a.publish_month desc, a.publish_day desc\n        ";

/// The query of a request's candidate articles.
pub open spec fn spec_abnormal_sql(req: GetPaperAbnormalArticlesReq) -> Seq<char> {
    ABNORMAL_HEAD@ + spec_reporter_table(req.reporter_id) + ABNORMAL_JOIN@
        + spec_reporter_cond(req.reporter_id) + ABNORMAL_MONTH@ + spec_keyword_cond(req.keyword)
        + ABNORMAL_TAIL@
}

/// Builds the query of a request's candidate articles; the year and the
/// month are bound to its two parameters.
pub fn abnormal_sql(req: &GetPaperAbnormalArticlesReq) -> (sql: String)
    ensures
        sql@ == spec_abnormal_sql(*req),
{
    let mut s = String::new();
    s.append(ABNORMAL_HEAD);
    push_reporter_table(&mut s, req.reporter_id);
    s.append(ABNORMAL_JOIN);
    push_reporter_cond(&mut s, req.reporter_id);
    s.append(ABNORMAL_MONTH);
    push_keyword_cond(&mut s, &req.keyword);
    s.append(ABNORMAL_TAIL);
    proof {
        assert(s@ =~= spec_abnormal_sql(*req));
    }
    s
}

/// The start of the query of the candidates' reporter scores.
pub const ABNORMAL_SCORES_HEAD: &'static str = "\n                select\n                    ars.article_id,\n                    r.id as reporter_id,\n                    r.name as reporter_name,\n                    r.department,\n                    ars.reporter_category_id,\n                    rc.name as reporter_category_name,\n                    ars.score\n                from article_reporter_score ars\n                join reporter r on ars.reporter_id = r.id\n                join reporter_category rc on ars.reporter_category_id = rc.id\n                where ars.article_id in (";
/// The end of that query.
pub const ABNORMAL_SCORES_TAIL: &'static str = ")\n            ";

/// The query of the reporter scores, with departments, of these articles.
pub open spec fn spec_abnormal_scores_sql(ids: Seq<i32>) -> Seq<char> {
    ABNORMAL_SCORES_HEAD@ + crate::handler::get_articles::id_list(ids) + ABNORMAL_SCORES_TAIL@
}

/// Builds the query of the candidates' reporter scores.
pub fn abnormal_scores_sql(ids: &Vec<i32>) -> (sql: String)
    ensures
        sql@ == spec_abnormal_scores_sql(ids@),
{
    let mut s = String::new();
    s.append(ABNORMAL_SCORES_HEAD);
    crate::handler::get_articles::push_id_list(&mut s, ids);
    s.append(ABNORMAL_SCORES_TAIL);
    s
}

/// One reporter's score of a candidate article, with the reporter's department.
#[derive(Debug)]
pub struct PaperAbnormalArticleReporterScore {
    pub reporter_id: i32,
    pub reporter_name: String,
    pub department: String,
    pub reporter_category_id: i32,
    pub reporter_category_name: String,
    pub score: u32,
}

impl PaperAbnormalArticleReporterScore {
    /// A copy of this score.
    pub fn duplicate(&self) -> (r: PaperAbnormalArticleReporterScore)
        ensures
            r == *self,
    {
        PaperAbnormalArticleReporterScore {
            reporter_id: self.reporter_id,
            reporter_name: self.reporter_name.clone(),
            department: self.department.clone(),
            reporter_category_id: self.reporter_category_id,
            reporter_category_name: self.reporter_category_name.clone(),
            score: self.score,
        }
    }
}

/// A row of the score query: the article and one reporter's score.
#[derive(Debug)]
pub struct PaperAbnormalScoreRow {
    pub article_id: i32,
    pub score: PaperAbnormalArticleReporterScore,
}

/// A row of the candidate query.
#[derive(Debug)]
pub struct PaperAbnormalArticleRow {
    pub id: i32,
    pub title: String,
    pub tv_or_paper: u8,
    pub media_type: u8,
    pub program_name: String,
    pub publish_year: u32,
    pub publish_month: u32,
    pub publish_day: u32,
    pub tv_url: String,
    pub paper_url: String,
    pub page_meta_id: u32,
    pub page_name: String,
    pub score_basic: u32,
    pub score_action: u32,
    pub content: String,
    pub html_content: String,
    pub ref_id: u32,
    pub duration: u32,
    pub character_count: u32,
}

/// An abnormal article with its reporters' scores.
#[derive(Debug)]
pub struct PaperAbnormalArticle {
    pub id: i32,
    pub title: String,
    pub tv_or_paper: u8,
    pub media_type: u8,
    pub program_name: String,
    pub publish_year: u32,
    pub publish_month: u32,
    pub publish_day: u32,
    pub tv_url: String,
    pub paper_url: String,
    pub page_meta_id: u32,
    pub page_name: String,
    pub score_basic: u32,
    pub score_action: u32,
    pub reporter_scores: Vec<PaperAbnormalArticleReporterScore>,
    pub content: String,
    pub html_content: String,
    pub ref_id: u32,
    pub duration: u32,
    pub character_count: u32,
}

/// The abnormal articles and their number.
#[derive(Debug)]
pub struct GetPaperAbnormalArticlesResp {
    pub articles: Vec<PaperAbnormalArticle>,
    pub total: i64,
}

/// One of the three news desks, whose reporters' scores are normal.
pub open spec fn is_news_desk(d: Seq<char>) -> bool {
    d == "时政要闻部"@ || d == "民生专题部"@ || d == "经济专题部"@
}

/// An outside contributor's department, or none.
pub open spec fn is_outside(d: Seq<char>) -> bool {
    d == "外部"@ || d.len() == 0
}

/// An article's scores look wrong: it has some, and every scored reporter
/// belongs to some department other than the news desks.
pub open spec fn is_abnormal(scores: Seq<PaperAbnormalArticleReporterScore>) -> bool {
    &&& scores.len() > 0
    &&& forall|i: int| 0 <= i < scores.len() ==> !is_news_desk(#[trigger] scores[i].department@)
    &&& forall|i: int| 0 <= i < scores.len() ==> !is_outside(#[trigger] scores[i].department@)
}

/// Decides `is_abnormal` for an article's scores.
pub fn abnormal(scores: &Vec<PaperAbnormalArticleReporterScore>) -> (r: bool)
    ensures
        r == is_abnormal(scores@),
{
    if scores.len() == 0 {
        return false;
    }
    let mut outside = false;
    let n = scores.len();
    let mut i: usize = 0;
    while i < n
        invariant
            n == scores@.len(),
            i <= n,
            forall|j: int| 0 <= j < i ==> !is_news_desk(#[trigger] scores@[j].department@),
            outside <==> exists|j: int| 0 <= j < i && is_outside(#[trigger] scores@[j].department@),
        decreases n - i,
    {
        let d = &scores[i].department;
        if text_eq(d, "时政要闻部") || text_eq(d, "民生专题部") || text_eq(d, "经济专题部") {
            return false;
        }
        if text_eq(d, "外部") || d.as_str().is_empty() {
            outside = true;
        }
        i += 1;
    }
    !outside
}

/// The scores, in query order, of the article with this id.
pub open spec fn abnormal_scores_of(rows: Seq<PaperAbnormalScoreRow>, id: i32) -> Seq<PaperAbnormalArticleReporterScore>
    decreases rows.len(),
{
    if rows.len() == 0 {
        seq![]
    } else {
        let rest = abnormal_scores_of(rows.drop_last(), id);
        if rows.last().article_id == id {
            rest.push(rows.last().score)
        } else {
            rest
        }
    }
}

/// The candidate rows whose scores are abnormal, in order.
pub open spec fn abnormal_rows(rows: Seq<PaperAbnormalArticleRow>, scores: Seq<PaperAbnormalScoreRow>) -> Seq<PaperAbnormalArticleRow>
    decreases rows.len(),
{
    if rows.len() == 0 {
        seq![]
    } else {
        let rest = abnormal_rows(rows.drop_last(), scores);
        if is_abnormal(abnormal_scores_of(scores, rows.last().id)) {
            rest.push(rows.last())
        } else {
            rest
        }
    }
}

/// An article made of a row and the scores of its id.
pub open spec fn abnormal_article_of(a: PaperAbnormalArticle, row: PaperAbnormalArticleRow, scores: Seq<PaperAbnormalScoreRow>) -> bool {
    &&& a.id == row.id
    &&& a.title == row.title
    &&& a.tv_or_paper == row.tv_or_paper
    &&& a.media_type == row.media_type
    &&& a.program_name == row.program_name
    &&& a.publish_year == row.publish_year
    &&& a.publish_month == row.publish_month
    &&& a.publish_day == row.publish_day
    &&& a.tv_url == row.tv_url
    &&& a.paper_url == row.paper_url
    &&& a.page_meta_id == row.page_meta_id
    &&& a.page_name == row.page_name
    &&& a.score_basic == row.score_basic
    &&& a.score_action == row.score_action
    &&& a.reporter_scores@ == abnormal_scores_of(scores, row.id)
    &&& a.content == row.content
    &&& a.html_content == row.html_content
    &&& a.ref_id == row.ref_id
    &&& a.duration == row.duration
    &&& a.character_count == row.character_count
}

/// The ids of the candidate rows, in order.
pub open spec fn abnormal_row_ids(rows: Seq<PaperAbnormalArticleRow>) -> Seq<i32> {
    rows.map_values(|r: PaperAbnormalArticleRow| r.id)
}

/// The ids of the candidate rows, for the score query.
pub fn candidate_ids(rows: &Vec<PaperAbnormalArticleRow>) -> (ids: Vec<i32>)
    ensures
        ids@ == abnormal_row_ids(rows@),
{
    let mut ids: Vec<i32> = Vec::new();
    let n = rows.len();
    let mut i: usize = 0;
    while i < n
        invariant
            n == rows@.len(),
            i <= n,
            ids@ == abnormal_row_ids(rows@.take(i as int)),
        decreases n - i,
    {
        ids.push(rows[i].id);
        proof {
            assert(abnormal_row_ids(rows@.take((i + 1) as int)) =~= abnormal_row_ids(rows@.take(i as int)).push(rows@[i as int].id));
        }
        i += 1;
    }
    proof {
        assert(rows@.take(n as int) =~= rows@);
    }
    ids
}

/// The scores of the article with id `id`, copied in query order.
pub fn collect_abnormal_scores(rows: &Vec<PaperAbnormalScoreRow>, id: i32) -> (out: Vec<PaperAbnormalArticleReporterScore>)
    ensures
        out@ == abnormal_scores_of(rows@, id),
{
    let mut out: Vec<PaperAbnormalArticleReporterScore> = Vec::new();
    let n = rows.len();
    let mut i: usize = 0;
    while i < n
        invariant
            n == rows@.len(),
            i <= n,
            out@ == abnormal_scores_of(rows@.take(i as int), id),
        decreases n - i,
    {
        proof {
            assert(rows@.take((i + 1) as int).drop_last() =~= rows@.take(i as int));
        }
        if rows[i].article_id == id {
            out.push(rows[i].score.duplicate());
        }
        i += 1;
    }
    proof {
        assert(rows@.take(n as int) =~= rows@);
    }
    out
}

/// Keeps the candidates whose scores are abnormal, in order, each with its
/// reporters' scores; the total is their number.
pub fn assemble_abnormal(rows: Vec<PaperAbnormalArticleRow>, scores: &Vec<PaperAbnormalScoreRow>) -> (resp: GetPaperAbnormalArticlesResp)
    ensures
        resp.articles@.len() == abnormal_rows(rows@, scores@).len(),
        forall|k: int| 0 <= k < resp.articles@.len() ==> abnormal_article_of(
            #[trigger] resp.articles@[k],
            abnormal_rows(rows@, scores@)[k],
            scores@,
        ),
        resp.total == resp.articles@.len() as i64,
{
    let ghost all = rows@;
    let mut articles: Vec<PaperAbnormalArticle> = Vec::new();
    for row in it: rows
        invariant
            it.seq() == all,
            articles@.len() == abnormal_rows(all.take(it.index() as int), scores@).len(),
            forall|k: int| 0 <= k < articles@.len() ==> abnormal_article_of(
                #[trigger] articles@[k],
                abnormal_rows(all.take(it.index() as int), scores@)[k],
                scores@,
            ),
    {
        let ghost i = it.index() as int;
        proof {
            assert(all.take(i + 1).drop_last() =~= all.take(i));
            assert(all.take(i + 1).last() == row);
        }
        let reporter_scores = collect_abnormal_scores(scores, row.id);
        if abnormal(&reporter_scores) {
            articles.push(PaperAbnormalArticle {
                id: row.id,
                title: row.title,
                tv_or_paper: row.tv_or_paper,
                media_type: row.media_type,
                program_name: row.program_name,
                publish_year: row.publish_year,
                publish_month: row.publish_month,
                publish_day: row.publish_day,
                tv_url: row.tv_url,
                paper_url: row.paper_url,
                page_meta_id: row.page_meta_id,
                page_name: row.page_name,
                score_basic: row.score_basic,
                score_action: row.score_action,
                reporter_scores,
                content: row.content,
                html_content: row.html_content,
                ref_id: row.ref_id,
                duration: row.duration,
                character_count: row.character_count,
            });
        }
    }
    proof {
        assert(all.take(all.len() as int) =~= all);
    }
    let total = #[verifier::truncate] (articles.len() as i64);
    GetPaperAbnormalArticlesResp { articles, total }
}

} // verus!
