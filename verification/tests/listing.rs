use zscm::handler::get_articles::{
    article_ids, articles_sql, assemble_articles, count_sql, scores_sql, ArticleReporterScore, ArticleRow,
    ArticleScoreRow, GetArticlesReq,
};
use zscm::handler::get_paper_abnormal_articles::{
    abnormal, abnormal_scores_sql, abnormal_sql, assemble_abnormal, candidate_ids,
    GetPaperAbnormalArticlesReq, PaperAbnormalArticleReporterScore, PaperAbnormalArticleRow,
    PaperAbnormalScoreRow,
};

fn req() -> GetArticlesReq {
    GetArticlesReq {
        year: 2024,
        month: 5,
        day: None,
        page: 1,
        limit: 20,
        tv_or_paper: None,
        keyword: None,
        reporter_id: None,
        tv_url: None,
    }
}

fn squash(s: &str) -> String {
    s.split_whitespace().collect::<Vec<_>>().join(" ")
}

#[test]
fn plain_listing_has_the_month_and_first_page() {
    let sql = squash(&articles_sql(&req()));
    assert!(sql.contains("from article a left join program on a.tv_or_paper = program.site_id"));
    assert!(sql.contains("where a.state = 1 and a.publish_year = ? and a.publish_month = ?"));
    assert!(sql.ends_with("limit 20 offset 0"));
}

#[test]
fn listing_offset_skips_earlier_pages() {
    let mut r = req();
    r.page = 3;
    r.limit = 10;
    assert!(squash(&articles_sql(&r)).ends_with("limit 10 offset 20"));
}

#[test]
fn listing_by_reporter_joins_scores() {
    let mut r = req();
    r.reporter_id = Some(42);
    let sql = squash(&articles_sql(&r));
    assert!(sql.contains("from article a , article_reporter_score ars left join program"));
    assert!(sql.contains("where a.id = ars.article_id and ars.reporter_id = 42 and a.state = 1"));
}

#[test]
fn listing_media_condition_follows_the_number() {
    let mut r = req();
    r.tv_or_paper = Some("+05".to_string());
    assert!(squash(&articles_sql(&r)).contains("where a.tv_or_paper = 5 and a.state = 1"));
    r.tv_or_paper = Some("-1".to_string());
    assert!(squash(&articles_sql(&r)).contains("where a.state = 1"));
    r.tv_or_paper = Some("1,3".to_string());
    assert!(squash(&articles_sql(&r)).contains("where a.tv_or_paper in (1,3) and a.state = 1"));
}

#[test]
fn listing_day_keyword_and_video_conditions() {
    let mut r = req();
    r.day = Some(9);
    r.keyword = Some("港口".to_string());
    r.tv_url = Some("http://v/1".to_string());
    let sql = squash(&articles_sql(&r));
    assert!(sql.contains("and a.publish_month = ? and a.publish_day = 9 and a.title like '%港口%' and a.tv_url = 'http://v/1' order by"));
}

#[test]
fn count_ignores_day_and_parses_no_media() {
    let mut r = req();
    r.day = Some(9);
    r.tv_or_paper = Some("1,3".to_string());
    r.keyword = Some("港".to_string());
    let sql = squash(&count_sql(&r));
    assert_eq!(
        sql,
        "select count(a.id) from article a where a.state = 1 and a.publish_year = ? and a.publish_month = ? and a.title like '%港%' and a.tv_or_paper in (1,3)"
    );
    r.reporter_id = Some(7);
    assert!(squash(&count_sql(&r)).starts_with(
        "select count(a.id) from article a , article_reporter_score ars where a.id = ars.article_id and ars.reporter_id = 7 and a.state = 1"
    ));
}

#[test]
fn score_query_lists_the_ids() {
    let sql = squash(&scores_sql(&vec![3, -1, 12]));
    assert!(sql.ends_with("where ars.article_id in (3,-1,12)"));
    assert!(squash(&abnormal_scores_sql(&vec![5])).ends_with("where ars.article_id in (5)"));
}

fn row(id: i32, title: &str) -> ArticleRow {
    ArticleRow {
        id,
        title: title.to_string(),
        tv_or_paper: 1,
        media_type: 2,
        publish_year: 2024,
        publish_month: 5,
        publish_day: 3,
        tv_url: String::new(),
        paper_url: format!("u{}", id),
        page_meta_id: 4,
        page_name: "A1".to_string(),
        score_basic: 10,
        score_action: 2,
        content: "c".to_string(),
        html_content: "<p>c</p>".to_string(),
        ref_id: 0,
        duration: 0,
        character_count: 1,
    }
}

fn score(article_id: i32, reporter_id: i32, name: &str) -> ArticleScoreRow {
    ArticleScoreRow {
        article_id,
        score: ArticleReporterScore {
            reporter_id,
            reporter_name: name.to_string(),
            reporter_category_id: 1,
            reporter_category_name: "记者".to_string(),
            score: 5,
        },
    }
}

#[test]
fn articles_carry_their_own_scores_in_order() {
    let rows = vec![row(1, "一"), row(2, "二"), row(3, "三")];
    assert_eq!(article_ids(&rows), vec![1, 2, 3]);
    let scores = vec![score(2, 10, "甲"), score(1, 11, "乙"), score(2, 12, "丙")];
    let articles = assemble_articles(rows, &scores);
    assert_eq!(articles.len(), 3);
    assert_eq!(articles[0].id, 1);
    assert_eq!(articles[0].reporter_scores.len(), 1);
    assert_eq!(articles[0].reporter_scores[0].reporter_name, "乙");
    assert_eq!(articles[1].title, "二");
    let names: Vec<&str> = articles[1].reporter_scores.iter().map(|s| s.reporter_name.as_str()).collect();
    assert_eq!(names, vec!["甲", "丙"]);
    assert!(articles[2].reporter_scores.is_empty());
    assert_eq!(articles[2].paper_url, "u3");
}

fn paper_score(department: &str) -> PaperAbnormalArticleReporterScore {
    PaperAbnormalArticleReporterScore {
        reporter_id: 1,
        reporter_name: "甲".to_string(),
        department: department.to_string(),
        reporter_category_id: 1,
        reporter_category_name: "记者".to_string(),
        score: 3,
    }
}

#[test]
fn abnormal_means_only_other_departments() {
    assert!(!abnormal(&vec![]));
    assert!(abnormal(&vec![paper_score("体育部")]));
    assert!(abnormal(&vec![paper_score("体育部"), paper_score("文化部")]));
    assert!(!abnormal(&vec![paper_score("体育部"), paper_score("时政要闻部")]));
    assert!(!abnormal(&vec![paper_score("民生专题部")]));
    assert!(!abnormal(&vec![paper_score("经济专题部"), paper_score("外部")]));
    assert!(!abnormal(&vec![paper_score("体育部"), paper_score("外部")]));
    assert!(!abnormal(&vec![paper_score("")]));
}

fn paper_row(id: i32) -> PaperAbnormalArticleRow {
    PaperAbnormalArticleRow {
        id,
        title: format!("t{}", id),
        tv_or_paper: 1,
        media_type: 1,
        program_name: "日报".to_string(),
        publish_year: 2024,
        publish_month: 5,
        publish_day: 1,
        tv_url: String::new(),
        paper_url: String::new(),
        page_meta_id: 1,
        page_name: "A1".to_string(),
        score_basic: 1,
        score_action: 0,
        content: String::new(),
        html_content: String::new(),
        ref_id: 0,
        duration: 0,
        character_count: 0,
    }
}

#[test]
fn abnormal_listing_keeps_only_abnormal_articles() {
    let rows = vec![paper_row(1), paper_row(2), paper_row(3), paper_row(4)];
    assert_eq!(candidate_ids(&rows), vec![1, 2, 3, 4]);
    let scores = vec![
        PaperAbnormalScoreRow { article_id: 1, score: paper_score("体育部") },
        PaperAbnormalScoreRow { article_id: 2, score: paper_score("时政要闻部") },
        PaperAbnormalScoreRow { article_id: 3, score: paper_score("外部") },
        PaperAbnormalScoreRow { article_id: 4, score: paper_score("文化部") },
        PaperAbnormalScoreRow { article_id: 4, score: paper_score("体育部") },
    ];
    let resp = assemble_abnormal(rows, &scores);
    let ids: Vec<i32> = resp.articles.iter().map(|a| a.id).collect();
    assert_eq!(ids, vec![1, 4]);
    assert_eq!(resp.total, 2);
    assert_eq!(resp.articles[1].reporter_scores.len(), 2);
    assert_eq!(resp.articles[0].program_name, "日报");
}

#[test]
fn abnormal_query_by_reporter_and_keyword() {
    let r = GetPaperAbnormalArticlesReq { year: 2024, month: 5, keyword: Some("桥".to_string()), reporter_id: Some(8) };
    let sql = squash(&abnormal_sql(&r));
    assert!(sql.contains("from program p, article a , article_reporter_score ars left join page_meta pm"));
    assert!(sql.contains("where a.id = ars.article_id and ars.reporter_id = 8 and a.state = 1 and a.tv_or_paper not in (0,2,3,4,5)"));
    assert!(sql.contains("and p.state = 1 and a.title like '%桥%' group by a.id"));
}
