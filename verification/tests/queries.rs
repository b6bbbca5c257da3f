use zscm::handler::calc_monthly::{sheet_query, CalcMonthlyReq, SHEET_SQL};
use zscm::handler::get_cooperation_scores::scores_or_none;
use zscm::handler::get_monthly_sub_score::{penalty_or_none, MonthlySubScore};
use zscm::handler::get_reporter_events::{events_sql, GetReporterEventsReq};
use zscm::handler::get_reporters::{reporters_sql, GetReportersReq};
use zscm::handler::params::{require_params, require_query};
use zscm::web::Reason;

fn squash(s: &str) -> String {
    s.split_whitespace().collect::<Vec<_>>().join(" ")
}

#[test]
fn sheet_binds_the_month_to_each_subquery() {
    let (sql, params) = sheet_query(&CalcMonthlyReq { year: 2024, month: 7, reporter_id: None });
    assert_eq!(sql, SHEET_SQL);
    assert_eq!(params, vec![2024, 7, 2024, 7, 2024, 7, 2024, 7, 2024, 7]);
    assert_eq!(sql.matches('?').count(), 10);
}

#[test]
fn sheet_of_one_reporter() {
    let (sql, params) = sheet_query(&CalcMonthlyReq { year: 2024, month: 7, reporter_id: Some(12) });
    assert!(sql.ends_with("WHERE r.state = 1\n         AND r.id = ?"));
    assert_eq!(params.len(), 11);
    assert_eq!(params[10], 12);
    assert_eq!(sql.matches('?').count(), 11);
}

#[test]
fn events_of_a_day() {
    let r = GetReporterEventsReq { reporter_id: 1, year: 2024, month: 3, day: Some(15) };
    assert_eq!(
        squash(&events_sql(&r)),
        "select * from event_score where state = 1 and reporter_id = ? and publish_year = ? and publish_month = ? and publish_day = 15"
    );
    let r = GetReporterEventsReq { reporter_id: 1, year: 2024, month: 3, day: None };
    assert!(squash(&events_sql(&r)).ends_with("and publish_month = ?"));
}

#[test]
fn reporters_of_a_department() {
    let sql = squash(&reporters_sql(&GetReportersReq { department: Some("体育部".to_string()) }));
    assert!(sql.ends_with("where r.state = 1 and r.department = '体育部'"));
    let sql = squash(&reporters_sql(&GetReportersReq { department: None }));
    assert!(sql.ends_with("where r.state = 1"));
}

#[test]
fn missing_parameters_are_refused() {
    assert_eq!(require_params(Some(3)).unwrap(), 3);
    assert_eq!(require_params::<u8>(None).unwrap_err().message(), "Missing parameters");
    assert!(matches!(require_query::<u8>(None).unwrap_err().reason, Reason::MissingQueryParameters));
    assert_eq!(require_query::<u8>(None).unwrap_err().message(), "Missing query parameters");
}

#[test]
fn failed_lookups_fall_back() {
    assert!(scores_or_none(Err("gone".to_string())).is_empty());
    let p = penalty_or_none(Err("no rows".to_string()));
    assert_eq!(p.id, None);
    assert_eq!(p.reason, "");
    assert_eq!(p.score, 0);
    let found = MonthlySubScore { id: Some(2), reporter_id: 5, reason: "迟到".to_string(), score: 3, publish_year: 2024, publish_month: 1, state: 1 };
    assert_eq!(penalty_or_none(Ok(found)).reason, "迟到");
}
