use zscm::handler::article::{article_plan, article_reply, ArticleRequest};
use zscm::handler::batch_update_tv_urls::batch_reply;
use zscm::handler::event::{event_plan, event_reply, EventReq};
use zscm::handler::monthly_add_score::{monthly_add_plan, monthly_add_reply, MonthlyAddScoreReq};
use zscm::handler::reporter::{reporter_plan, reporter_reply, ReporterRequest};
use zscm::handler::write::{WriteKind, WriteOutcome};
use zscm::web::{Data, Notice, Reason};

fn article(id: Option<u32>, state: u8, collab: Option<u8>) -> ArticleRequest {
    ArticleRequest {
        id,
        title: "标题".to_string(),
        tv_or_paper: 1,
        publish_year: 2024,
        publish_month: 5,
        publish_day: 6,
        tv_url: String::new(),
        page_meta_id: 1,
        page_name: "A1".to_string(),
        state,
        is_collaboration: collab,
    }
}

const DONE: WriteOutcome = WriteOutcome { rows_affected: 1, last_insert_rowid: 88 };
const NONE: WriteOutcome = WriteOutcome { rows_affected: 0, last_insert_rowid: 0 };

#[test]
fn article_requests_withdraw_update_or_create() {
    let p = article_plan(&article(Some(5), 0, None));
    assert_eq!(p.kind, WriteKind::Remove { id: 5 });
    assert_eq!(p.is_collaboration, 0);
    let r = article_reply(p, Ok(DONE)).unwrap();
    assert_eq!((r.notice, r.data), (Notice::ArticleDeleted, Data::Rows(1)));
    assert_eq!(r.notice.text(), "文章删除成功");

    let p = article_plan(&article(Some(5), 1, Some(1)));
    assert_eq!(p.kind, WriteKind::Update { id: 5 });
    assert_eq!(p.is_collaboration, 1);
    let r = article_reply(p, Ok(NONE)).unwrap();
    assert_eq!((r.notice, r.data), (Notice::ArticleUpdated, Data::Rows(0)));

    let p = article_plan(&article(None, 0, None));
    assert_eq!(p.kind, WriteKind::Create);
    let r = article_reply(p, Ok(DONE)).unwrap();
    assert_eq!((r.notice, r.data), (Notice::ArticleCreated, Data::RowId(88)));

    let e = article_reply(p, Err("locked".to_string())).unwrap_err();
    assert_eq!(e.message(), "locked");
}

#[test]
fn event_without_a_matching_row_is_an_error() {
    let req = EventReq { id: Some(3), reporter_id: 1, content: String::new(), score: 1, score_from: String::new(), publish_year: 2024, publish_month: 1, state: 0 };
    let k = event_plan(&req);
    assert_eq!(k, WriteKind::Remove { id: 3 });
    let e = event_reply(k, Ok(NONE)).unwrap_err();
    assert!(matches!(e.reason, Reason::RecordNotFound));
    assert_eq!(e.message(), "未找到指定的记录");
    let r = event_reply(k, Ok(DONE)).unwrap();
    assert_eq!((r.notice, r.data), (Notice::Deleted, Data::Rows(1)));
    let r = event_reply(WriteKind::Update { id: 3 }, Ok(DONE)).unwrap();
    assert_eq!(r.notice.text(), "更新成功");
    let r = event_reply(WriteKind::Create, Ok(DONE)).unwrap();
    assert_eq!((r.notice, r.data), (Notice::Created, Data::RowId(88)));
}

#[test]
fn reporter_missing_or_not_inserted() {
    let req = ReporterRequest { id: None, name: "甲".to_string(), phone: String::new(), department: String::new(), reporter_category_id: 1, state: 1 };
    let k = reporter_plan(&req);
    assert_eq!(k, WriteKind::Create);
    let e = reporter_reply(k, Ok(NONE)).unwrap_err();
    assert_eq!(e.message(), "插入用户失败");
    let r = reporter_reply(k, Ok(DONE)).unwrap();
    assert_eq!((r.notice, r.data), (Notice::Inserted, Data::RowId(88)));
    let e = reporter_reply(WriteKind::Remove { id: 2 }, Ok(NONE)).unwrap_err();
    assert_eq!(e.message(), "用户不存在");
    let e = reporter_reply(WriteKind::Update { id: 2 }, Ok(NONE)).unwrap_err();
    assert!(matches!(e.reason, Reason::UserNotFound));
}

#[test]
fn monthly_bonus_update_is_acknowledged_as_deletion() {
    let req = MonthlyAddScoreReq { id: Some(-4), reporter_id: 1, score: 2, reason: String::new(), publish_year: 2024, publish_month: 2, state: 1 };
    let k = monthly_add_plan(&req);
    assert_eq!(k, WriteKind::Update { id: -4 });
    let r = monthly_add_reply(k, Ok(DONE)).unwrap();
    assert_eq!(r.notice.text(), "删除成功");
    let e = monthly_add_reply(k, Ok(NONE)).unwrap_err();
    assert!(matches!(e.reason, Reason::RecordNotFound));
    let r = monthly_add_reply(WriteKind::Create, Ok(DONE)).unwrap();
    assert_eq!((r.notice, r.data), (Notice::Created, Data::RowId(88)));
}

#[test]
fn batch_update_answers_success_or_the_failure() {
    let r = batch_reply(Ok(())).unwrap();
    assert_eq!((r.notice, r.data), (Notice::Success, Data::Null));
    assert_eq!(r.notice.text(), "success");
    assert_eq!(batch_reply(Err("bad id".to_string())).unwrap_err().message(), "bad id");
}
