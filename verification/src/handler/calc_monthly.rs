//! A month's score sheet: for each active reporter, the article, event,
//! cooperation, bonus and penalty scores and their total.

use vstd::prelude::*;
use vstd::string::StringExecFns;

verus! {

/// The score sheet endpoint.
pub struct CalcMonthly;

/// The month of the sheet, and optionally the one reporter to show.
#[derive(Debug)]
pub struct CalcMonthlyReq {
    pub year: u32,
    pub month: u32,
    pub reporter_id: Option<u32>,
}

/// The sheet query for every active reporter; its five subqueries each take
/// the year and the month.
pub const SHEET_SQL: &'static str = "\n        SELECT\n            r.id,\n            r.name,\n            r.phone,\n            r.department,\n            r.reporter_category_id,\n            rc.name as reporter_category_name,\n            COALESCE(article_stats.article_count, 0) as article_count,\n            COALESCE(article_stats.article_score, 0) as article_score,\n            COALESCE(event_score.total_event_score, 0) as event_score,\n            COALESCE(cooperation_score.total_cooperation_score, 0) as cooperation_score,\n            COALESCE(monthly_add_score.total_monthly_add_score, 0) as monthly_add_score,\n            COALESCE(monthly_sub_score.total_monthly_sub_score, 0) as monthly_sub_score,\n            (\n                COALESCE(article_stats.article_score, 0) + \n                COALESCE(event_score.total_event_score, 0) + \n                COALESCE(cooperation_score.total_cooperation_score, 0) + \n                COALESCE(monthly_add_score.total_monthly_add_score, 0) - \n                COALESCE(monthly_sub_score.total_monthly_sub_score, 0)\n            ) as total_score\n        FROM reporter r\n        JOIN reporter_category rc ON r.reporter_category_id = rc.id\n        LEFT JOIN (\n            SELECT\n                ars.reporter_id,\n                COUNT(DISTINCT ars.article_id) as article_count,\n                SUM(ars.score) as article_score\n            FROM article_reporter_score ars\n            JOIN article a ON ars.article_id = a.id\n            WHERE a.publish_year = ?\n                AND a.publish_month = ?\n                AND a.state = 1\n            GROUP BY ars.reporter_id\n        ) AS article_stats ON r.id = article_stats.reporter_id\n        LEFT JOIN (\n            SELECT\n                es.reporter_id,\n                SUM(es.score) as total_event_score\n            FROM event_score es\n            WHERE es.publish_year = ?\n                AND es.publish_month = ?\n                AND es.state = 1\n            GROUP BY es.reporter_id\n        ) AS event_score ON r.id = event_score.reporter_id\n        LEFT JOIN (\n            SELECT\n                cs.reporter_id,\n                SUM(cs.score) as total_cooperation_score\n            FROM cooperation_score cs\n            WHERE cs.publish_year = ?\n                AND cs.publish_month = ?\n                AND cs.state = 1\n            GROUP BY cs.reporter_id\n        ) AS cooperation_score ON r.id = cooperation_score.reporter_id\n        LEFT JOIN (\n            SELECT\n                mas.reporter_id,\n                SUM(mas.score) as total_monthly_add_score\n            FROM monthly_add_score mas\n            WHERE mas.publish_year = ?\n                AND mas.publish_month = ?\n                AND mas.state = 1\n            GROUP BY mas.reporter_id\n        ) AS monthly_add_score ON r.id = monthly_add_score.reporter_id\n        LEFT JOIN (\n            SELECT\n                mss.reporter_id,\n                SUM(mss.score) as total_monthly_sub_score\n            FROM monthly_sub_score mss\n            WHERE mss.publish_year = ?\n                AND mss.publish_month = ?\n                AND mss.state = 1\n            GROUP BY mss.reporter_id\n        ) AS monthly_sub_score ON r.id = monthly_sub_score.reporter_id\n        WHERE r.state = 1\n        ";

/// The condition that narrows the sheet to one reporter.
pub const ONE_REPORTER: &'static str = " AND r.id = ?";

/// The sheet query of a request.
pub open spec fn spec_sheet_sql(req: CalcMonthlyReq) -> Seq<char> {
    match req.reporter_id {
        Some(_) => SHEET_SQL@ + ONE_REPORTER@,
        None => SHEET_SQL@,
    }
}

/// The values bound to the sheet query: the year and the month five times,
/// then the reporter if there is one.
pub open spec fn spec_sheet_params(req: CalcMonthlyReq) -> Seq<u32> {
    let pairs = seq![req.year, req.month, req.year, req.month, req.year, req.month, req.year, req.month, req.year, req.month];
    match req.reporter_id {
        Some(r) => pairs.push(r),
        None => pairs,
    }
}

/// Builds the sheet query of a request and the values bound to it, in order.
pub fn sheet_query(req: &CalcMonthlyReq) -> (q: (String, Vec<u32>))
    ensures
        q.0@ == spec_sheet_sql(*req),
        q.1@ == spec_sheet_params(*req),
{
    let mut sql = String::new();
    sql.append(SHEET_SQL);
    let mut params: Vec<u32> = Vec::new();
    let mut k: usize = 0;
    while k < 5
        invariant
            k <= 5,
            params@.len() == 2 * k,
            forall|j: int| 0 <= j < 2 * k ==> #[trigger] params@[j] == (if j % 2 == 0 { req.year } else { req.month }),
        decreases 5 - k,
    {
        params.push(req.year);
        params.push(req.month);
        k += 1;
    }
    if let Some(r) = req.reporter_id {
        sql.append(ONE_REPORTER);
        params.push(r);
    }
    proof {
        assert(params@ =~= spec_sheet_params(*req));
    }
    (sql, params)
}

} // verus!
