//! Listing a month's articles, page by page, each with its reporters' scores.

use vstd::prelude::*;
use vstd::string::StringExecFns;
use crate::text::{decimal, parse_i32, parse_i32_spec, push_decimal, push_signed_decimal, signed_decimal};

verus! {

/// The article listing endpoint.
pub struct GetArticles;

/// Which articles to list: a month, optionally a day, media, keyword,
/// reporter or video address, and a page of `limit` articles.
#[derive(Debug)]
pub struct GetArticlesReq {
    pub year: u16,
    pub month: u8,
    pub day: Option<u8>,
    pub page: u32,
    pub limit: u32,
    pub tv_or_paper: Option<String>,
    pub keyword: Option<String>,
    pub reporter_id: Option<u32>,
    pub tv_url: Option<String>,
}

/// The start of the listing query, up to the extra tables.
pub const LIST_HEAD: &'static str = "\n            select\n                a.id,\n                a.title,\n                a.content,\n                a.html_content,\n                a.tv_or_paper,\n                program.media_type,\n                a.publish_year,\n                a.publish_month,\n                a.publish_day,\n                a.tv_url,\n                a.page_meta_id,\n                'https://epaper.wifizs.cn/zsrb/' || a.publish_year || '-' || substr('00'||a.publish_month, -2) || '/' || substr('00'||a.publish_day, -2) || '/node_' || pm.page_web_no || '.html' as paper_url,\n                a.page_name,\n                a.score_basic,\n                a.score_action,\n                a.ref_id,\n                a.duration,\n                a.character_count\n            from article a ";
/// The joins of the listing query.
pub const LIST_JOINS: &'static str = "\n                left join program on a.tv_or_paper = program.site_id\n                left join page_meta pm on a.page_meta_id = pm.id\n                where\n                ";
/// A line break between clauses.
pub const LIST_BREAK: &'static str = "\n                ";
/// The fixed conditions of the listing query.
pub const LIST_MONTH: &'static str = "\n                a.state = 1\n                and a.publish_year = ?\n                and a.publish_month = ?\n                ";
/// The ordering of the listing query, up to the limit.
pub const LIST_ORDER: &'static str = "\n            order by a.publish_year desc, a.publish_month desc, a.publish_day desc\n            limit ";
/// Between the limit and the offset.
pub const LIST_OFFSET: &'static str = " offset ";
/// The end of the listing query.
pub const LIST_TAIL: &'static str = "\n        ";

/// The text of an optional string, empty when absent.
pub open spec fn opt_text(o: Option<String>) -> Seq<char> {
    match o {
        Some(s) => s@,
        None => seq![],
    }
}

/// The extra table when the listing is by reporter.
pub open spec fn spec_reporter_table(r: Option<u32>) -> Seq<char> {
    match r {
        Some(_) => ", article_reporter_score ars"@,
        None => seq![],
    }
}

/// The condition on the reporter.
pub open spec fn spec_reporter_cond(r: Option<u32>) -> Seq<char> {
    match r {
        Some(id) => "a.id = ars.article_id and ars.reporter_id = "@ + decimal(id as nat) + " and"@,
        None => seq![],
    }
}

/// The condition on the media: a number selects one medium, a negative
/// number none, and any other text is taken as a list of media.
pub open spec fn spec_media_cond(t: Option<String>) -> Seq<char> {
    match t {
        Some(s) => match parse_i32_spec(s@) {
            Some(v) => if v < 0 {
                seq![]
            } else {
                "a.tv_or_paper = "@ + signed_decimal(v as int) + " and"@
            },
            None => "a.tv_or_paper in ("@ + s@ + ") and "@,
        },
        None => seq![],
    }
}

/// The condition on the day.
pub open spec fn spec_day_cond(d: Option<u8>) -> Seq<char> {
    match d {
        Some(day) => "and a.publish_day = "@ + decimal(day as nat),
        None => seq![],
    }
}

/// The condition on a keyword in the title.
pub open spec fn spec_keyword_cond(k: Option<String>) -> Seq<char> {
    match k {
        Some(w) => "and a.title like '%"@ + w@ + "%'"@,
        None => seq![],
    }
}

/// The condition on the video address.
pub open spec fn spec_tv_url_cond(u: Option<String>) -> Seq<char> {
    match u {
        Some(url) => "and a.tv_url = '"@ + url@ + "'"@,
        None => seq![],
    }
}

/// The offset of a page: the pages before it, `limit` articles each.
pub open spec fn page_offset(req: GetArticlesReq) -> int {
    (req.page - 1) * req.limit
}

/// The listing query of a request.
pub open spec fn spec_articles_sql(req: GetArticlesReq) -> Seq<char> {
    LIST_HEAD@ + spec_reporter_table(req.reporter_id) + LIST_JOINS@ + spec_reporter_cond(req.reporter_id)
        + LIST_BREAK@ + spec_media_cond(req.tv_or_paper) + LIST_MONTH@ + spec_day_cond(req.day)
        + LIST_BREAK@ + spec_keyword_cond(req.keyword) + LIST_BREAK@ + spec_tv_url_cond(req.tv_url)
        + LIST_ORDER@ + decimal(req.limit as nat) + LIST_OFFSET@ + decimal(page_offset(req) as nat)
        + LIST_TAIL@
}

pub(crate) fn push_reporter_table(s: &mut String, r: Option<u32>)
    ensures
        final(s)@ == old(s)@ + spec_reporter_table(r),
{
    if r.is_some() {
        s.append(", article_reporter_score ars");
    } else {
        proof {
            assert(old(s)@ + seq![] =~= old(s)@);
        }
    }
}

pub(crate) fn push_reporter_cond(s: &mut String, r: Option<u32>)
    ensures
        final(s)@ == old(s)@ + spec_reporter_cond(r),
{
    match r {
        Some(id) => {
            s.append("a.id = ars.article_id and ars.reporter_id = ");
            push_decimal(s, id as u64);
            s.append(" and");
            proof {
                assert(final(s)@ =~= old(s)@ + spec_reporter_cond(r));
            }
        },
        None => {
            proof {
                assert(old(s)@ + seq![] =~= old(s)@);
            }
        },
    }
}

fn push_media_cond(s: &mut String, t: &Option<String>)
    ensures
        final(s)@ == old(s)@ + spec_media_cond(*t),
{
    match t {
        Some(text) => match parse_i32(text.as_str()) {
            Some(v) => {
                if v < 0 {
                    proof {
                        assert(old(s)@ + seq![] =~= old(s)@);
                    }
                } else {
                    s.append("a.tv_or_paper = ");
                    push_signed_decimal(s, v as i64);
                    s.append(" and");
                    proof {
                        assert(final(s)@ =~= old(s)@ + spec_media_cond(*t));
                    }
                }
            },
            None => {
                s.append("a.tv_or_paper in (");
                s.append(text.as_str());
                s.append(") and ");
                proof {
                    assert(final(s)@ =~= old(s)@ + spec_media_cond(*t));
                }
            },
        },
        None => {
            proof {
                assert(old(s)@ + seq![] =~= old(s)@);
            }
        },
    }
}

fn push_day_cond(s: &mut String, d: Option<u8>)
    ensures
        final(s)@ == old(s)@ + spec_day_cond(d),
{
    match d {
        Some(day) => {
            s.append("and a.publish_day = ");
            push_decimal(s, day as u64);
            proof {
                assert(final(s)@ =~= old(s)@ + spec_day_cond(d));
            }
        },
        None => {
            proof {
                assert(old(s)@ + seq![] =~= old(s)@);
            }
        },
    }
}

pub(crate) fn push_keyword_cond(s: &mut String, k: &Option<String>)
    ensures
        final(s)@ == old(s)@ + spec_keyword_cond(*k),
{
    match k {
        Some(w) => {
            s.append("and a.title like '%");
            s.append(w.as_str());
            s.append("%'");
            proof {
                assert(final(s)@ =~= old(s)@ + spec_keyword_cond(*k));
            }
        },
        None => {
            proof {
                assert(old(s)@ + seq![] =~= old(s)@);
            }
        },
    }
}

fn push_tv_url_cond(s: &mut String, u: &Option<String>)
    ensures
        final(s)@ == old(s)@ + spec_tv_url_cond(*u),
{
    match u {
        Some(url) => {
            s.append("and a.tv_url = '");
            s.append(url.as_str());
            s.append("'");
            proof {
                assert(final(s)@ =~= old(s)@ + spec_tv_url_cond(*u));
            }
        },
        None => {
            proof {
                assert(old(s)@ + seq![] =~= old(s)@);
            }
        },
    }
}

/// Builds the listing query of a request. The year and the month are bound
/// to its two parameters; the other conditions, the limit and the offset are
/// written into the text.
pub fn articles_sql(req: &GetArticlesReq) -> (sql: String)
    requires
        req.page >= 1,
        page_offset(*req) <= u32::MAX,
    ensures
        sql@ == spec_articles_sql(*req),
{
    let mut s = String::new();
    s.append(LIST_HEAD);
    push_reporter_table(&mut s, req.reporter_id);
    s.append(LIST_JOINS);
    push_reporter_cond(&mut s, req.reporter_id);
    s.append(LIST_BREAK);
    push_media_cond(&mut s, &req.tv_or_paper);
    s.append(LIST_MONTH);
    push_day_cond(&mut s, req.day);
    s.append(LIST_BREAK);
    push_keyword_cond(&mut s, &req.keyword);
    s.append(LIST_BREAK);
    push_tv_url_cond(&mut s, &req.tv_url);
    s.append(LIST_ORDER);
    push_decimal(&mut s, req.limit as u64);
    s.append(LIST_OFFSET);
    let offset = (req.page - 1) * req.limit;
    push_decimal(&mut s, offset as u64);
    s.append(LIST_TAIL);
    proof {
        assert(s@ =~= spec_articles_sql(*req));
    }
    s
}

/// The start of the count query.
pub const COUNT_HEAD: &'static str = "\n                select count(a.id)\n                from article a\n                    ";
/// The fixed conditions of the count query.
pub const COUNT_MONTH: &'static str = "\n                    a.state = 1\n                    and a.publish_year = ?\n                    and a.publish_month = ?\n                    ";
/// A line break between clauses of the count query.
pub const COUNT_BREAK: &'static str = "\n                    ";
/// The end of the count query.
pub const COUNT_TAIL: &'static str = "\n            ";

/// The tables and first condition of the count query.
pub open spec fn spec_count_from(r: Option<u32>) -> Seq<char> {
    match r {
        Some(id) => ", article_reporter_score ars where a.id = ars.article_id and ars.reporter_id = "@
            + decimal(id as nat) + " and"@,
        None => "where "@,
    }
}

/// The media condition of the count query: the text is taken as a list of media.
pub open spec fn spec_count_media(t: Option<String>) -> Seq<char> {
    match t {
        Some(s) => "and a.tv_or_paper in ("@ + s@ + ")"@,
        None => seq![],
    }
}

/// The query that counts the articles of a month, by reporter, keyword and
/// media. The day, the video address and the page play no part.
pub open spec fn spec_count_sql(req: GetArticlesReq) -> Seq<char> {
    COUNT_HEAD@ + spec_count_from(req.reporter_id) + COUNT_MONTH@ + spec_keyword_cond(req.keyword)
        + COUNT_BREAK@ + spec_count_media(req.tv_or_paper) + COUNT_TAIL@
}

/// Builds the count query of a request; the year and the month are bound to
/// its two parameters.
pub fn count_sql(req: &GetArticlesReq) -> (sql: String)
    ensures
        sql@ == spec_count_sql(*req),
{
    let mut s = String::new();
    s.append(COUNT_HEAD);
    match req.reporter_id {
        Some(id) => {
            s.append(", article_reporter_score ars where a.id = ars.article_id and ars.reporter_id = ");
            push_decimal(&mut s, id as u64);
            s.append(" and");
        },
        None => s.append("where "),
    }
    s.append(COUNT_MONTH);
    push_keyword_cond(&mut s, &req.keyword);
    s.append(COUNT_BREAK);
    match &req.tv_or_paper {
        Some(t) => {
            s.append("and a.tv_or_paper in (");
            s.append(t.as_str());
            s.append(")");
        },
        None => {},
    }
    s.append(COUNT_TAIL);
    proof {
        assert(s@ =~= spec_count_sql(*req));
    }
    s
}

/// The numerals of `ids`, separated by commas.
pub open spec fn id_list(ids: Seq<i32>) -> Seq<char>
    decreases ids.len(),
{
    if ids.len() == 0 {
        seq![]
    } else if ids.len() == 1 {
        signed_decimal(ids[0] as int)
    } else {
        id_list(ids.drop_last()) + seq![','] + signed_decimal(ids.last() as int)
    }
}

/// Appends the numerals of `ids`, separated by commas.
pub fn push_id_list(s: &mut String, ids: &Vec<i32>)
    ensures
        final(s)@ == old(s)@ + id_list(ids@),
{
    let ghost start = s@;
    let n = ids.len();
    let mut i: usize = 0;
    while i < n
        invariant
            n == ids@.len(),
            i <= n,
            s@ == start + id_list(ids@.take(i as int)),
        decreases n - i,
    {
        if i > 0 {
            crate::text::push_char(s, ',');
        }
        push_signed_decimal(s, ids[i] as i64);
        proof {
            let t = ids@.take((i + 1) as int);
            assert(t.drop_last() =~= ids@.take(i as int));
            if i == 0 {
                assert(id_list(ids@.take(0)) =~= seq![]);
            }
            assert(s@ =~= start + id_list(t));
        }
        i += 1;
    }
    proof {
        assert(ids@.take(n as int) =~= ids@);
    }
}

/// The start of the query of the listed articles' reporter scores.
pub const SCORES_HEAD: &'static str = "\n                select\n                    ars.article_id,\n                    r.id as reporter_id,\n                    r.name as reporter_name,\n                    ars.reporter_category_id,\n                    rc.name as reporter_category_name,\n                    ars.score\n                from article_reporter_score ars\n                join reporter r on ars.reporter_id = r.id\n                join reporter_category rc on ars.reporter_category_id = rc.id\n                where ars.article_id in (";
/// The end of the reporter score query.
pub const SCORES_TAIL: &'static str = ")\n            ";

/// The query of the reporter scores of the articles with these ids.
pub open spec fn spec_scores_sql(ids: Seq<i32>) -> Seq<char> {
    SCORES_HEAD@ + id_list(ids) + SCORES_TAIL@
}

/// Builds the query of the reporter scores of the listed articles. It is
/// only run when some article is listed.
pub fn scores_sql(ids: &Vec<i32>) -> (sql: String)
    ensures
        sql@ == spec_scores_sql(ids@),
{
    let mut s = String::new();
    s.append(SCORES_HEAD);
    push_id_list(&mut s, ids);
    s.append(SCORES_TAIL);
    s
}

/// One reporter's score of a listed article.
#[derive(Debug)]
pub struct ArticleReporterScore {
    pub reporter_id: i32,
    pub reporter_name: String,
    pub reporter_category_id: i32,
    pub reporter_category_name: String,
    pub score: u32,
}

impl ArticleReporterScore {
    /// A copy of this score.
    pub fn duplicate(&self) -> (r: ArticleReporterScore)
        ensures
            r == *self,
    {
        ArticleReporterScore {
            reporter_id: self.reporter_id,
            reporter_name: self.reporter_name.clone(),
            reporter_category_id: self.reporter_category_id,
            reporter_category_name: self.reporter_category_name.clone(),
            score: self.score,
        }
    }
}

/// A row of the reporter score query: the article and one reporter's score.
#[derive(Debug)]
pub struct ArticleScoreRow {
    pub article_id: i32,
    pub score: ArticleReporterScore,
}

/// A row of the listing query.
#[derive(Debug)]
pub struct ArticleRow {
    pub id: i32,
    pub title: String,
    pub tv_or_paper: u8,
    pub media_type: u8,
    pub publish_year: u32,
    pub publish_month: u32,
    pub publish_day: u32,
    pub tv_url: String,
    pub paper_url: String,
    pub page_meta_id: u32,
    pub page_name: String,
    pub score_basic: u32,
    pub score_action: u32,
    pub content: String,
    pub html_content: String,
    pub ref_id: u32,
    pub duration: u32,
    pub character_count: u32,
}

/// A listed article with its reporters' scores.
#[derive(Debug)]
pub struct Article {
    pub id: i32,
    pub title: String,
    pub tv_or_paper: u8,
    pub media_type: u8,
    pub publish_year: u32,
    pub publish_month: u32,
    pub publish_day: u32,
    pub tv_url: String,
    pub paper_url: String,
    pub page_meta_id: u32,
    pub page_name: String,
    pub score_basic: u32,
    pub score_action: u32,
    pub reporter_scores: Vec<ArticleReporterScore>,
    pub content: String,
    pub html_content: String,
    pub ref_id: u32,
    pub duration: u32,
    pub character_count: u32,
}

/// A page of the listing and the number of articles the month holds.
#[derive(Debug)]
pub struct GetArticlesResp {
    pub articles: Vec<Article>,
    pub total: i64,
}

/// The scores, in query order, of the article with this id.
pub open spec fn scores_of(rows: Seq<ArticleScoreRow>, id: i32) -> Seq<ArticleReporterScore>
    decreases rows.len(),
{
    if rows.len() == 0 {
        seq![]
    } else {
        let rest = scores_of(rows.drop_last(), id);
        if rows.last().article_id == id {
            rest.push(rows.last().score)
        } else {
            rest
        }
    }
}

/// An article made of a row and the scores of its id.
pub open spec fn article_of(a: Article, row: ArticleRow, scores: Seq<ArticleScoreRow>) -> bool {
    &&& a.id == row.id
    &&& a.title == row.title
    &&& a.tv_or_paper == row.tv_or_paper
    &&& a.media_type == row.media_type
    &&& a.publish_year == row.publish_year
    &&& a.publish_month == row.publish_month
    &&& a.publish_day == row.publish_day
    &&& a.tv_url == row.tv_url
    &&& a.paper_url == row.paper_url
    &&& a.page_meta_id == row.page_meta_id
    &&& a.page_name == row.page_name
    &&& a.score_basic == row.score_basic
    &&& a.score_action == row.score_action
    &&& a.reporter_scores@ == scores_of(scores, row.id)
    &&& a.content == row.content
    &&& a.html_content == row.html_content
    &&& a.ref_id == row.ref_id
    &&& a.duration == row.duration
    &&& a.character_count == row.character_count
}

/// The ids of the rows, in order.
pub open spec fn row_ids(rows: Seq<ArticleRow>) -> Seq<i32> {
    rows.map_values(|r: ArticleRow| r.id)
}

/// The ids of the listed rows, for the reporter score query.
pub fn article_ids(rows: &Vec<ArticleRow>) -> (ids: Vec<i32>)
    ensures
        ids@ == row_ids(rows@),
{
    let mut ids: Vec<i32> = Vec::new();
    let n = rows.len();
    let mut i: usize = 0;
    while i < n
        invariant
            n == rows@.len(),
            i <= n,
            ids@ == row_ids(rows@.take(i as int)),
        decreases n - i,
    {
        ids.push(rows[i].id);
        proof {
            assert(row_ids(rows@.take((i + 1) as int)) =~= row_ids(rows@.take(i as int)).push(rows@[i as int].id));
        }
        i += 1;
    }
    proof {
        assert(rows@.take(n as int) =~= rows@);
    }
    ids
}

/// The scores of the article with id `id`, copied in query order.
pub fn collect_scores(rows: &Vec<ArticleScoreRow>, id: i32) -> (out: Vec<ArticleReporterScore>)
    ensures
        out@ == scores_of(rows@, id),
{
    let mut out: Vec<ArticleReporterScore> = Vec::new();
    let n = rows.len();
    let mut i: usize = 0;
    while i < n
        invariant
            n == rows@.len(),
            i <= n,
            out@ == scores_of(rows@.take(i as int), id),
        decreases n - i,
    {
        proof {
            assert(rows@.take((i + 1) as int).drop_last() =~= rows@.take(i as int));
        }
        if rows[i].article_id == id {
            out.push(rows[i].score.duplicate());
        }
        i += 1;
    }
    proof {
        assert(rows@.take(n as int) =~= rows@);
    }
    out
}

/// Joins each listed row with its reporters' scores, keeping the listing order.
pub fn assemble_articles(rows: Vec<ArticleRow>, scores: &Vec<ArticleScoreRow>) -> (articles: Vec<Article>)
    ensures
        articles@.len() == rows@.len(),
        forall|k: int| 0 <= k < rows@.len() ==> article_of(#[trigger] articles@[k], rows@[k], scores@),
{
    let ghost all = rows@;
    let mut articles: Vec<Article> = Vec::new();
    for row in it: rows
        invariant
            it.seq() == all,
            articles@.len() == it.index(),
            forall|k: int| 0 <= k < articles@.len() ==> article_of(#[trigger] articles@[k], all[k], scores@),
    {
        let reporter_scores = collect_scores(scores, row.id);
        articles.push(Article {
            id: row.id,
            title: row.title,
            tv_or_paper: row.tv_or_paper,
            media_type: row.media_type,
            publish_year: row.publish_year,
            publish_month: row.publish_month,
            publish_day: row.publish_day,
            tv_url: row.tv_url,
            paper_url: row.paper_url,
            page_meta_id: row.page_meta_id,
            page_name: row.page_name,
            score_basic: row.score_basic,
            score_action: row.score_action,
            reporter_scores,
            content: row.content,
            html_content: row.html_content,
            ref_id: row.ref_id,
            duration: row.duration,
            character_count: row.character_count,
        });
    }
    articles
}

} // verus!
