use zscm::handler::statement::Bind;
use zscm::handler::score::{action_statement, delete_scores_sql, score_step, ScoreAction, ScoreRequest, ScoreStep, UserScore};
use zscm::web::{Data, Notice, Reason};

fn user(reporter_id: Option<u32>, name: Option<&str>, category: u32, ref_code: Option<&str>, score: u32) -> UserScore {
    UserScore {
        reporter_id,
        reporter_name: name.map(|s| s.to_string()),
        reporter_category_id: category,
        ref_code: ref_code.map(|s| s.to_string()),
        score,
    }
}

fn request() -> ScoreRequest {
    ScoreRequest {
        article_id: 9,
        score_basic: 30,
        score_action: 5,
        reporter_scores: vec![
            user(Some(4), None, 1, None, 10),
            user(None, None, 1, None, 99),
            user(None, None, 2, Some("R7"), 6),
            user(None, Some("王五"), 7, None, 3),
            user(None, Some("赵六"), 1, None, 2),
        ],
    }
}

#[test]
fn scoring_walks_through_every_named_reporter() {
    let req = request();
    let (s, a) = score_step(&req, ScoreStep::Start, Ok(0));
    assert_eq!(s, ScoreStep::AfterDelete);
    assert!(matches!(a, ScoreAction::DeleteArticleScores { article_id: 9 }));
    let (s, a) = score_step(&req, s, Ok(0));
    assert_eq!(s, ScoreStep::AfterUpdate);
    assert!(matches!(a, ScoreAction::UpdateArticle { article_id: 9, score_basic: 30, score_action: 5 }));
    let (s, a) = score_step(&req, s, Ok(0));
    assert_eq!(s, ScoreStep::AfterInsert(0));
    assert!(matches!(a, ScoreAction::InsertScore { article_id: 9, reporter_id: 4, category_id: 1, score: 10 }));
    // the unnamed score at position 1 is passed over
    let (s, a) = score_step(&req, s, Ok(1));
    assert_eq!(s, ScoreStep::AfterRefLookup(2));
    match a {
        ScoreAction::FindByRefCode { ref_code } => assert_eq!(ref_code, "R7"),
        other => panic!("{:?}", other),
    }
    let (s, a) = score_step(&req, s, Ok(77));
    assert_eq!(s, ScoreStep::AfterInsert(2));
    assert!(matches!(a, ScoreAction::InsertScore { article_id: 9, reporter_id: 77, category_id: 2, score: 6 }));
    let (s, a) = score_step(&req, s, Ok(2));
    assert_eq!(s, ScoreStep::AfterNameLookup(3));
    match a {
        ScoreAction::FindByName { name, external } => {
            assert_eq!(name, "王五");
            assert!(external);
        },
        other => panic!("{:?}", other),
    }
    // an unknown external contributor is added first
    let (s, a) = score_step(&req, s, Err("no rows".to_string()));
    assert_eq!(s, ScoreStep::AfterNewReporter(3));
    match a {
        ScoreAction::AddExternalReporter { name, category_id } => {
            assert_eq!(name, "王五");
            assert_eq!(category_id, 7);
        },
        other => panic!("{:?}", other),
    }
    let (s, a) = score_step(&req, s, Ok(501));
    assert_eq!(s, ScoreStep::AfterInsert(3));
    assert!(matches!(a, ScoreAction::InsertScore { article_id: 9, reporter_id: 501, category_id: 7, score: 3 }));
    let (s, a) = score_step(&req, s, Ok(3));
    assert_eq!(s, ScoreStep::AfterNameLookup(4));
    match a {
        ScoreAction::FindByName { name, external } => {
            assert_eq!(name, "赵六");
            assert!(!external);
        },
        other => panic!("{:?}", other),
    }
    // an unknown staff reporter is skipped
    let (s, a) = score_step(&req, s, Err("no rows".to_string()));
    assert_eq!(s, ScoreStep::Finished);
    match a {
        ScoreAction::Respond(r) => {
            assert_eq!(r.notice, Notice::Done);
            assert_eq!(r.data, Data::EmptyText);
            assert_eq!(r.notice.text(), "操作成功");
        },
        other => panic!("{:?}", other),
    }
    let (s, a) = score_step(&req, s, Ok(0));
    assert_eq!(s, ScoreStep::Finished);
    assert!(matches!(a, ScoreAction::Stop));
}

#[test]
fn unknown_reference_code_is_skipped() {
    let req = request();
    let (s, _) = score_step(&req, ScoreStep::AfterRefLookup(2), Err("no rows".to_string()));
    assert_eq!(s, ScoreStep::AfterNameLookup(3));
}

#[test]
fn failed_write_ends_scoring() {
    let req = request();
    for step in [ScoreStep::AfterDelete, ScoreStep::AfterUpdate, ScoreStep::AfterInsert(0), ScoreStep::AfterNewReporter(3)] {
        let (s, a) = score_step(&req, step, Err("disk full".to_string()));
        assert_eq!(s, ScoreStep::Finished);
        match a {
            ScoreAction::Fail(e) => {
                assert!(matches!(e.reason, Reason::Backend(_)));
                assert_eq!(e.message(), "disk full");
            },
            other => panic!("{:?}", other),
        }
    }
}

#[test]
fn scoring_with_no_reporters_answers_at_once() {
    let req = ScoreRequest { article_id: 1, score_basic: 0, score_action: 0, reporter_scores: vec![] };
    let (s, a) = score_step(&req, ScoreStep::AfterUpdate, Ok(0));
    assert_eq!(s, ScoreStep::Finished);
    assert!(matches!(a, ScoreAction::Respond(_)));
}

#[test]
fn delete_statement_names_the_article() {
    assert_eq!(delete_scores_sql(9), "DELETE FROM article_reporter_score WHERE article_id = 9");
    assert_eq!(delete_scores_sql(4294967295), "DELETE FROM article_reporter_score WHERE article_id = 4294967295");
}

#[test]
fn actions_run_their_statements() {
    let text = |b: &Bind| match b {
        Bind::Int(i) => format!("{}", i),
        Bind::Text(t) => format!("'{}'", t),
    };
    let s = action_statement(&ScoreAction::AddExternalReporter { name: "王五".to_string(), category_id: 7 }).unwrap();
    assert_eq!(s.sql, "insert into reporter (name, phone, ref_code, department, reporter_category_id, state) values (?, ?, ?, ?, ?, ?)");
    assert_eq!(s.binds.iter().map(text).collect::<Vec<_>>(), vec!["'王五'", "''", "''", "'外部'", "7", "1"]);
    let s = action_statement(&ScoreAction::FindByName { name: "赵六".to_string(), external: false }).unwrap();
    assert_eq!(s.sql, "select id from reporter where name = ? and reporter_category_id != 7");
    let s = action_statement(&ScoreAction::InsertScore { article_id: 9, reporter_id: 4, category_id: 1, score: 10 }).unwrap();
    assert!(s.sql.contains("insert into article_reporter_score"));
    assert_eq!(s.binds.iter().map(text).collect::<Vec<_>>(), vec!["9", "4", "1", "10"]);
    let s = action_statement(&ScoreAction::DeleteArticleScores { article_id: 9 }).unwrap();
    assert_eq!(s.sql, "DELETE FROM article_reporter_score WHERE article_id = 9");
    assert!(s.binds.is_empty());
    assert!(action_statement(&ScoreAction::Stop).is_none());
}

#[derive(Clone, Debug, PartialEq)]
struct Tables {
    reporters: Vec<(String, String, u32)>,
    scores: Vec<(u32, i64, u32, u32)>,
    articles: Vec<(u32, u32, u32)>,
}

fn run_scoring(req: &ScoreRequest, t: &mut Tables) {
    let mut step = ScoreStep::Start;
    let mut last: Result<i64, String> = Ok(0);
    loop {
        let (next, action) = score_step(req, step, last);
        step = next;
        last = match action {
            ScoreAction::DeleteArticleScores { article_id } => {
                t.scores.retain(|s| s.0 != article_id);
                Ok(0)
            },
            ScoreAction::UpdateArticle { article_id, score_basic, score_action } => {
                t.articles.retain(|a| a.0 != article_id);
                t.articles.push((article_id, score_basic, score_action));
                Ok(0)
            },
            ScoreAction::InsertScore { article_id, reporter_id, category_id, score } => {
                t.scores.push((article_id, reporter_id, category_id, score));
                Ok(0)
            },
            ScoreAction::FindByRefCode { ref_code } => {
                t.reporters.iter().position(|r| r.1 == ref_code).map(|j| j as i64 + 1).ok_or("no rows".to_string())
            },
            ScoreAction::FindByName { name, external } => t
                .reporters
                .iter()
                .position(|r| r.0 == name && (r.2 == 7) == external)
                .map(|j| j as i64 + 1)
                .ok_or("no rows".to_string()),
            ScoreAction::AddExternalReporter { name, category_id } => {
                t.reporters.push((name, String::new(), category_id));
                Ok(t.reporters.len() as i64)
            },
            _ => return,
        };
    }
}

#[test]
fn scoring_twice_is_scoring_once() {
    let req = request();
    let mut t = Tables {
        reporters: vec![("甲".to_string(), "R7".to_string(), 2), ("赵六".to_string(), "".to_string(), 1)],
        scores: vec![(9, 1, 1, 50), (3, 1, 1, 4)],
        articles: vec![],
    };
    run_scoring(&req, &mut t);
    let once = t.clone();
    assert_eq!(once.reporters.len(), 3);
    run_scoring(&req, &mut t);
    assert_eq!(t, once);
}
