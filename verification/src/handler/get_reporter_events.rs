//! A reporter's event scores of a month, or of one day.

use vstd::prelude::*;
use vstd::string::StringExecFns;
use crate::text::{decimal, push_decimal};

verus! {

/// The event listing endpoint.
pub struct GetReporterEvents;

/// The reporter and the month, and optionally the day.
#[derive(Debug)]
pub struct GetReporterEventsReq {
    pub reporter_id: u32,
    pub year: u32,
    pub month: u32,
    pub day: Option<u32>,
}

/// The event query up to the day condition; the reporter, year and month
/// are bound to its parameters.
pub const EVENTS_HEAD: &'static str = "\n            select * from event_score\n            where state = 1\n                and reporter_id = ?\n                and publish_year = ?\n                and publish_month = ?\n                ";
/// The end of the event query.
pub const EVENTS_TAIL: &'static str = "\n            ";

/// The event query of a request.
pub open spec fn spec_events_sql(req: GetReporterEventsReq) -> Seq<char> {
    EVENTS_HEAD@ + match req.day {
        Some(d) => "and publish_day = "@ + decimal(d as nat),
        None => seq![],
    } + EVENTS_TAIL@
}

/// Builds the event query of a request.
pub fn events_sql(req: &GetReporterEventsReq) -> (sql: String)
    ensures
        sql@ == spec_events_sql(*req),
{
    let mut s = String::new();
    s.append(EVENTS_HEAD);
    if let Some(d) = req.day {
        s.append("and publish_day = ");
        push_decimal(&mut s, d as u64);
    }
    s.append(EVENTS_TAIL);
    proof {
        assert(s@ =~= spec_events_sql(*req));
    }
    s
}

} // verus!
