use zscm::embedding::VocabEntry;
use zscm::handler::account::account_of;
use zscm::handler::article::{article_statement, ArticleRequest, ARTICLE_INSERT_SQL, ARTICLE_UPDATE_SQL};
use zscm::handler::batch_update_tv_urls::{batch_next, BatchAction, BatchUpdateTvUrlsReq};
use zscm::handler::event::{event_statement, EventReq};
use zscm::handler::get_cooperation_scores::{cooperation_query, GetCooperationScoresReq};
use zscm::handler::get_monthly_sub_score::{penalty_query, GetMonthlySubScoreReq};
use zscm::handler::get_programs::programs_query;
use zscm::handler::get_reporter_info_by_name::{reporter_by_name_query, GetReporterInfoByNameReq};
use zscm::handler::login::sign_in_query;
use zscm::handler::monthly_add_score::{monthly_add_statement, MonthlyAddScoreReq, BONUS_UPDATE_SQL};
use zscm::handler::reporter::{reporter_statement, ReporterRequest};
use zscm::handler::statement::{Bind, Statement};
use zscm::handler::vectorize_titles::{vocab_insert, vocab_titles_query};
use zscm::web::{Notice, Reason};

fn binds(s: &Statement) -> Vec<String> {
    s.binds
        .iter()
        .map(|b| match b {
            Bind::Int(i) => format!("{}", i),
            Bind::Text(t) => format!("'{}'", t),
        })
        .collect()
}

fn article(id: Option<u32>, state: u8, is_collaboration: Option<u8>) -> ArticleRequest {
    ArticleRequest {
        id,
        title: "标题".to_string(),
        tv_or_paper: 3,
        publish_year: 2024,
        publish_month: 5,
        publish_day: 6,
        tv_url: "http://v".to_string(),
        page_meta_id: 2,
        page_name: "A1".to_string(),
        state,
        is_collaboration,
    }
}

#[test]
fn withdrawing_an_article_writes_only_its_state() {
    let s = article_statement(&article(Some(12), 0, Some(1)));
    assert_eq!(s.sql, "update article set state=? where id=?");
    assert_eq!(binds(&s), vec!["0", "12"]);
}

#[test]
fn updating_an_article_writes_every_field() {
    let s = article_statement(&article(Some(12), 1, None));
    assert_eq!(s.sql, ARTICLE_UPDATE_SQL);
    assert!(s.sql.contains("update article set title=?"));
    assert_eq!(binds(&s), vec!["'标题'", "3", "2024", "5", "6", "'http://v'", "2", "'A1'", "1", "0", "12"]);
}

#[test]
fn creating_an_article_inserts_every_field() {
    let s = article_statement(&article(None, 1, Some(1)));
    assert_eq!(s.sql, ARTICLE_INSERT_SQL);
    assert!(s.sql.contains("insert into article("));
    assert_eq!(binds(&s), vec!["'标题'", "3", "2024", "5", "6", "'http://v'", "2", "'A1'", "1", "1"]);
}

fn event(id: Option<u32>, state: u32) -> EventReq {
    EventReq {
        id,
        reporter_id: 4,
        content: "c".to_string(),
        score: 5,
        score_from: "f".to_string(),
        publish_year: 2024,
        publish_month: 7,
        state,
    }
}

#[test]
fn removing_an_event_deletes_its_row() {
    let s = event_statement(&event(Some(8), 0));
    assert_eq!(s.sql, "DELETE FROM event_score WHERE id = ?");
    assert_eq!(binds(&s), vec!["8"]);
}

#[test]
fn updating_and_creating_an_event_write_every_field() {
    let s = event_statement(&event(Some(8), 1));
    assert_eq!(
        s.sql,
        "UPDATE event_score SET reporter_id = ?, content = ?, score = ?, score_from = ?, publish_year = ?, publish_month = ?, state = ? WHERE id = ?"
    );
    assert_eq!(binds(&s), vec!["4", "'c'", "5", "'f'", "2024", "7", "1", "8"]);
    let s = event_statement(&event(None, 1));
    assert!(s.sql.starts_with("INSERT INTO event_score"));
    assert_eq!(binds(&s), vec!["4", "'c'", "5", "'f'", "2024", "7", "1"]);
}

fn bonus(id: Option<i32>, state: i32) -> MonthlyAddScoreReq {
    MonthlyAddScoreReq { id, reporter_id: 9, score: 3, reason: "r".to_string(), publish_year: 2024, publish_month: 8, state }
}

#[test]
fn updating_a_bonus_leaves_its_reporter_and_state() {
    let s = monthly_add_statement(&bonus(Some(5), 2));
    assert_eq!(s.sql, BONUS_UPDATE_SQL);
    assert!(!s.sql.contains("reporter_id"));
    assert!(!s.sql.contains("state"));
    assert_eq!(binds(&s), vec!["3", "'r'", "2024", "8", "5"]);
}

#[test]
fn removing_and_creating_a_bonus() {
    let s = monthly_add_statement(&bonus(Some(5), 0));
    assert_eq!(s.sql, "DELETE FROM monthly_add_score WHERE id = ?");
    assert_eq!(binds(&s), vec!["5"]);
    let s = monthly_add_statement(&bonus(None, 1));
    assert!(s.sql.contains("insert into monthly_add_score"));
    assert_eq!(binds(&s), vec!["9", "3", "'r'", "2024", "8"]);
}

fn reporter(id: Option<u32>, state: u32) -> ReporterRequest {
    ReporterRequest {
        id,
        name: "张三".to_string(),
        phone: "1".to_string(),
        department: "d".to_string(),
        reporter_category_id: 2,
        state,
    }
}

#[test]
fn deactivating_a_reporter_sets_only_the_state() {
    let s = reporter_statement(&reporter(Some(3), 0));
    assert_eq!(s.sql, "UPDATE reporter set state = 0 WHERE id = ?");
    assert_eq!(binds(&s), vec!["3"]);
    let s = reporter_statement(&reporter(Some(3), 1));
    assert_eq!(binds(&s), vec!["'张三'", "'1'", "'d'", "2", "1", "3"]);
    let s = reporter_statement(&reporter(None, 1));
    assert_eq!(s.sql, "INSERT INTO reporter (name, phone, department, reporter_category_id, state) VALUES (?, ?, ?, ?, ?)");
    assert_eq!(binds(&s), vec!["'张三'", "'1'", "'d'", "2", "1"]);
}

#[test]
fn monthly_lookups_bind_reporter_year_and_month() {
    let s = cooperation_query(&GetCooperationScoresReq { reporter_id: 4, year: 2024, month: 3 });
    assert_eq!(
        s.sql,
        "SELECT * FROM cooperation_score WHERE reporter_id = ? AND publish_year = ? AND publish_month = ? and state = 1"
    );
    assert_eq!(binds(&s), vec!["4", "2024", "3"]);
    let s = penalty_query(&GetMonthlySubScoreReq { reporter_id: 4, year: 2024, month: 3 });
    assert_eq!(
        s.sql,
        "SELECT * FROM monthly_sub_score WHERE reporter_id = ? AND publish_year = ? AND publish_month = ? and state = 1"
    );
    assert_eq!(binds(&s), vec!["4", "2024", "3"]);
}

#[test]
fn reporter_lookup_binds_the_name() {
    let s = reporter_by_name_query(&GetReporterInfoByNameReq { name: "李四".to_string() });
    assert_eq!(s.sql, "SELECT * FROM reporter WHERE name = ? and state = 1");
    assert_eq!(binds(&s), vec!["'李四'"]);
}

#[test]
fn sign_in_binds_the_name_and_password_digest() {
    let s = sign_in_query("admin", "123456");
    assert!(s.sql.contains("select id, name, department from admin where name = ? and password = ?"));
    assert_eq!(binds(&s), vec!["'admin'", "'e10adc3949ba59abbe56e057f20f883e'"]);
}

#[test]
fn batch_updates_each_pair_then_answers() {
    let req = BatchUpdateTvUrlsReq { tv_urls: vec![(1, "u1".to_string()), (2, "u2".to_string())] };
    match batch_next(&req, 0, Ok(())) {
        BatchAction::Run(s) => {
            assert_eq!(s.sql, "update article set tv_url = ? where id = ?");
            assert_eq!(binds(&s), vec!["'u1'", "1"]);
        },
        _ => panic!("expected an update"),
    }
    match batch_next(&req, 1, Ok(())) {
        BatchAction::Run(s) => assert_eq!(binds(&s), vec!["'u2'", "2"]),
        _ => panic!("expected an update"),
    }
    match batch_next(&req, 2, Ok(())) {
        BatchAction::Answer(Ok(r)) => assert_eq!(r.notice, Notice::Success),
        _ => panic!("expected success"),
    }
}

#[test]
fn batch_stops_at_the_first_failure() {
    let req = BatchUpdateTvUrlsReq { tv_urls: vec![(1, "u1".to_string()), (2, "u2".to_string())] };
    match batch_next(&req, 1, Err("disk full".to_string())) {
        BatchAction::Answer(Err(e)) => assert_eq!(e.message(), "disk full"),
        _ => panic!("expected the failure"),
    }
}

#[test]
fn vocabulary_queries() {
    let s = vocab_titles_query();
    assert_eq!(s.sql, "SELECT id, title FROM article WHERE tv_or_paper != 0 AND tv_or_paper != 2");
    assert!(s.binds.is_empty());
    let s = vocab_insert(&VocabEntry { word: "新".to_string(), idx: 7 });
    assert_eq!(s.sql, "INSERT INTO vector_vocab (word, idx) VALUES (?, ?)");
    assert_eq!(binds(&s), vec!["'新'", "7"]);
}

#[test]
fn program_listing_without_account_says_no_account() {
    let e = programs_query(None).unwrap_err();
    assert!(matches!(e.reason, Reason::NoAccount));
    assert_eq!(e.message(), "no account");
    let e = programs_query(Some(b"")).unwrap_err();
    assert_eq!(e.message(), "no account");
    let e = programs_query(Some("张".as_bytes())).unwrap_err();
    assert_eq!(e.message(), "failed to convert header to a str");
    assert_eq!(account_of(Some(b"admin")).unwrap(), "admin");
}

#[test]
fn fixed_listings_and_vocabulary_steps() {
    let s = zscm::handler::get_page_meta::page_meta_query();
    assert_eq!(s.sql.trim(), "select * from page_meta");
    assert!(s.binds.is_empty());
    let s = zscm::handler::get_reporter_categories::categories_query();
    assert_eq!(s.sql.trim(), "select id, name from reporter_category");
    let step = zscm::handler::vectorize_titles::VocabStep::Clear;
    assert_eq!(zscm::handler::vectorize_titles::vocab_statement(step).sql, "DELETE FROM vector_vocab");
    let step = zscm::handler::vectorize_titles::VocabStep::Count;
    assert_eq!(zscm::handler::vectorize_titles::vocab_statement(step).sql, "SELECT COUNT(*) as cnt FROM vector_vocab");
    let step = zscm::handler::vectorize_titles::VocabStep::Load;
    assert_eq!(zscm::handler::vectorize_titles::vocab_statement(step).sql, "SELECT word, idx FROM vector_vocab ORDER BY idx");
}

#[test]
fn searches_read_their_own_vocabulary_and_vectors() {
    let (v, t) = zscm::handler::search_similar_combined::search_queries(true);
    assert_eq!(v.sql, "SELECT word, idx FROM newspaper_vector_vocab ORDER BY idx");
    assert!(t.sql.contains("FROM newspaper_title_vector ntv"));
    let (v, t) = zscm::handler::search_similar_combined::search_queries(false);
    assert_eq!(v.sql, "SELECT word, idx FROM newspaper_content_vocab ORDER BY idx");
    assert!(t.sql.contains("FROM newspaper_content_vector ncv"));
    assert!(v.binds.is_empty() && t.binds.is_empty());
}
