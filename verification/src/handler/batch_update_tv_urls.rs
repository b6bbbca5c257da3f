//! Setting the video address of many articles at once.

use vstd::prelude::*;
use crate::handler::statement::{bind_values, statement, Bind, BindValue, Statement};
use crate::web::{Data, Notice, Reply, WebErr, Reason};

verus! {

/// The batch video-address endpoint.
pub struct BatchUpdateTvUrls;

/// Pairs of article id and video address.
#[derive(Debug)]
pub struct BatchUpdateTvUrlsReq {
    pub tv_urls: Vec<(i32, String)>,
}

/// The reply once every update has run, or the first failure stopped them.
pub open spec fn spec_batch_reply(outcome: Result<(), String>) -> Result<Reply, WebErr> {
    match outcome {
        Ok(_) => Ok(Reply { notice: Notice::Success, data: Data::Null }),
        Err(m) => Err(WebErr { reason: Reason::Backend(m) }),
    }
}

/// Answers a batch request: success once every update has run, else the
/// message of the update that failed.
pub fn batch_reply(outcome: Result<(), String>) -> (r: Result<Reply, WebErr>)
    ensures
        r == spec_batch_reply(outcome),
{
    match outcome {
        Ok(_) => Ok(Reply { notice: Notice::Success, data: Data::Null }),
        Err(m) => Err(WebErr::from_message(m)),
    }
}

/// Setting one article's video address.
pub const TV_URL_UPDATE_SQL: &'static str = "update article set tv_url = ? where id = ?";

/// The update of the pair at a position: its address, then its article id.
pub open spec fn spec_tv_url_update(pair: (i32, String)) -> (Seq<char>, Seq<BindValue>) {
    (TV_URL_UPDATE_SQL@, seq![BindValue::Text(pair.1@), BindValue::Int(pair.0 as int)])
}

/// What a batch does next: run an update, or answer.
#[derive(Debug)]
pub enum BatchAction {
    Run(Statement),
    Answer(Result<Reply, WebErr>),
}

/// The next action of a batch once the updates before position `next` have
/// run, `last` being how the latest went: the first failure ends the batch
/// with its message (the earlier updates stay done); else the pair at `next`
/// is updated; once none is left, the batch succeeds.
pub open spec fn spec_batch_next(req: BatchUpdateTvUrlsReq, next: nat, last: Result<(), String>) -> Option<(Seq<char>, Seq<BindValue>)> {
    match last {
        Err(_) => None,
        Ok(_) => if next < req.tv_urls@.len() { Some(spec_tv_url_update(req.tv_urls@[next as int])) } else { None },
    }
}

/// Decides the next action of a batch.
pub fn batch_next(req: &BatchUpdateTvUrlsReq, next: usize, last: Result<(), String>) -> (a: BatchAction)
    ensures
        spec_batch_next(*req, next as nat, last) matches Some(s) ==> (a matches BatchAction::Run(st) && st@ == s),
        spec_batch_next(*req, next as nat, last) is None ==> (a matches BatchAction::Answer(r) && r == spec_batch_reply(last)),
{
    match last {
        Err(m) => BatchAction::Answer(batch_reply(Err(m))),
        Ok(()) => if next < req.tv_urls.len() {
            let pair = &req.tv_urls[next];
            let binds = vec![Bind::Text(pair.1.clone()), Bind::Int(pair.0 as i64)];
            proof {
                assert(bind_values(binds@) =~= spec_tv_url_update(req.tv_urls@[next as int]).1);
            }
            BatchAction::Run(statement(TV_URL_UPDATE_SQL, binds))
        } else {
            BatchAction::Answer(batch_reply(Ok(())))
        },
    }
}

} // verus!
