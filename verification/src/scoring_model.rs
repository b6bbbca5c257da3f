//! What a scoring does to the database, run to its end: a model of the
//! tables the scoring statements touch, the effect of each action on them,
//! and the law that scoring a request a second time changes nothing.

use vstd::prelude::*;
use crate::handler::score::{
    handle_from, lemma_next_named, names_reporter, next_named, spec_score_step, step_fits, ScoreAction,
    ScoreRequest, ScoreStep, EXTERNAL_CATEGORY,
};
use crate::laws::{law_score_steps_terminate, score_rank};

verus! {

/// A reporter row; its id is its position plus one.
pub struct ReporterRecord {
    pub name: Seq<char>,
    pub ref_code: Seq<char>,
    pub category: u32,
}

/// A row of an article's reporter scores.
pub struct ScoreRecord {
    pub article_id: u32,
    pub reporter_id: i64,
    pub category_id: u32,
    pub score: u32,
}

/// The tables a scoring reads and writes: the reporters in insertion order,
/// the reporter scores in insertion order, and each article's basic and
/// action scores.
pub struct ScoringDb {
    pub reporters: Seq<ReporterRecord>,
    pub scores: Seq<ScoreRecord>,
    pub article_scores: Map<u32, (u32, u32)>,
}

/// What a lookup asks for: a reference code, or a name among external
/// contributors (`true`) or among the others.
pub enum Lookup {
    Ref(Seq<char>),
    Name(Seq<char>, bool),
}

/// Whether a reporter row answers a lookup.
pub open spec fn answers(r: ReporterRecord, k: Lookup) -> bool {
    match k {
        Lookup::Ref(code) => r.ref_code == code,
        Lookup::Name(name, external) => r.name == name
            && (if external { r.category == EXTERNAL_CATEGORY } else { r.category != EXTERNAL_CATEGORY }),
    }
}

/// The position of the first reporter row that answers a lookup.
pub open spec fn find(rs: Seq<ReporterRecord>, k: Lookup) -> Option<nat>
    decreases rs.len(),
{
    if rs.len() == 0 {
        None
    } else {
        match find(rs.drop_last(), k) {
            Some(j) => Some(j),
            None => if answers(rs.last(), k) { Some((rs.len() - 1) as nat) } else { None },
        }
    }
}

/// The id of the reporter at a position.
pub open spec fn reporter_id_at(j: nat) -> i64 {
    (j + 1) as i64
}

/// The scores of all articles but one, in order.
pub open spec fn without_article(ss: Seq<ScoreRecord>, a: u32) -> Seq<ScoreRecord>
    decreases ss.len(),
{
    if ss.len() == 0 {
        seq![]
    } else if ss.last().article_id == a {
        without_article(ss.drop_last(), a)
    } else {
        without_article(ss.drop_last(), a).push(ss.last())
    }
}

/// The outcome of a lookup: the found reporter's id, or a failure.
pub open spec fn lookup_outcome(rs: Seq<ReporterRecord>, k: Lookup) -> Result<i64, String> {
    match find(rs, k) {
        Some(j) => Ok(reporter_id_at(j)),
        None => Err(arbitrary()),
    }
}

/// The effect of an action's statement on the tables, and its outcome, the
/// statement succeeding: the article's scores are deleted, its two scores
/// set, a score row appended, a reporter looked up (the first row that
/// answers, as the table is read in order) or an external contributor
/// appended with empty reference code.
pub open spec fn apply(db: ScoringDb, a: ScoreAction) -> (ScoringDb, Result<i64, String>) {
    match a {
        ScoreAction::DeleteArticleScores { article_id } => (
            ScoringDb { scores: without_article(db.scores, article_id), ..db },
            Ok(0),
        ),
        ScoreAction::UpdateArticle { article_id, score_basic, score_action } => (
            ScoringDb { article_scores: db.article_scores.insert(article_id, (score_basic, score_action)), ..db },
            Ok(0),
        ),
        ScoreAction::InsertScore { article_id, reporter_id, category_id, score } => (
            ScoringDb { scores: db.scores.push(ScoreRecord { article_id, reporter_id, category_id, score }), ..db },
            Ok(0),
        ),
        ScoreAction::FindByRefCode { ref_code } => (db, lookup_outcome(db.reporters, Lookup::Ref(ref_code@))),
        ScoreAction::FindByName { name, external } => (db, lookup_outcome(db.reporters, Lookup::Name(name@, external))),
        ScoreAction::AddExternalReporter { name, category_id } => (
            ScoringDb {
                reporters: db.reporters.push(ReporterRecord { name: name@, ref_code: seq![], category: category_id }),
                ..db
            },
            Ok(reporter_id_at(db.reporters.len())),
        ),
        _ => (db, Ok(0)),
    }
}

/// An action that answers or ends instead of running a statement.
pub open spec fn answers_client(a: ScoreAction) -> bool {
    a is Respond || a is Fail || a is Stop
}

/// The next step of a fitting step fits too.
pub proof fn lemma_step_fits_next(req: ScoreRequest, step: ScoreStep, outcome: Result<i64, String>)
    requires
        step_fits(req, step),
        req.reporter_scores@.len() <= usize::MAX,
    ensures
        step_fits(req, spec_score_step(req, step, outcome).0),
{
    match step {
        ScoreStep::AfterUpdate => {
            lemma_next_named(req.reporter_scores@, 0);
        },
        ScoreStep::AfterInsert(i) => {
            lemma_next_named(req.reporter_scores@, (i + 1) as nat);
        },
        ScoreStep::AfterRefLookup(i) => {
            lemma_next_named(req.reporter_scores@, (i + 1) as nat);
        },
        ScoreStep::AfterNameLookup(i) => {
            lemma_next_named(req.reporter_scores@, (i + 1) as nat);
        },
        _ => {},
    }
}

/// The tables once scoring `req` has run from `step`, the awaited statement
/// having had `outcome`, every later statement succeeding.
pub open spec fn scoring_run(req: ScoreRequest, step: ScoreStep, outcome: Result<i64, String>, db: ScoringDb) -> ScoringDb
    decreases score_rank(req, step),
    when step_fits(req, step) && req.reporter_scores@.len() <= usize::MAX
{
    let (next, a) = spec_score_step(req, step, outcome);
    if answers_client(a) {
        db
    } else {
        proof {
            law_score_steps_terminate(req, step, outcome);
            lemma_step_fits_next(req, step, outcome);
        }
        let (db2, o2) = apply(db, a);
        scoring_run(req, next, o2, db2)
    }
}

/// The tables once a score row for the score at position `k` is appended,
/// for the reporter with id `id`.
pub open spec fn insert_score(db: ScoringDb, req: ScoreRequest, k: int, id: i64) -> ScoringDb {
    let u = req.reporter_scores@[k];
    ScoringDb {
        scores: db.scores.push(
            ScoreRecord { article_id: req.article_id, reporter_id: id, category_id: u.reporter_category_id, score: u.score },
        ),
        ..db
    }
}

/// The tables once an external contributor is appended.
pub open spec fn add_reporter(db: ScoringDb, name: Seq<char>, category: u32) -> ScoringDb {
    ScoringDb { reporters: db.reporters.push(ReporterRecord { name, ref_code: seq![], category }), ..db }
}

/// The effect of the score at position `k`: inserted for the reporter its
/// id names, or the one found by reference code, or by name; an external
/// contributor not found by name is added first; a reporter not found
/// otherwise, or a score naming none, changes nothing.
pub open spec fn score_one(req: ScoreRequest, k: int, db: ScoringDb) -> ScoringDb {
    let u = req.reporter_scores@[k];
    match u.reporter_id {
        Some(id) => insert_score(db, req, k, id as i64),
        None => match u.ref_code {
            Some(code) => match find(db.reporters, Lookup::Ref(code@)) {
                Some(j) => insert_score(db, req, k, reporter_id_at(j)),
                None => db,
            },
            None => match u.reporter_name {
                Some(name) => match find(db.reporters, Lookup::Name(name@, u.reporter_category_id == EXTERNAL_CATEGORY)) {
                    Some(j) => insert_score(db, req, k, reporter_id_at(j)),
                    None => if u.reporter_category_id == EXTERNAL_CATEGORY {
                        insert_score(
                            add_reporter(db, name@, u.reporter_category_id),
                            req,
                            k,
                            reporter_id_at(db.reporters.len()),
                        )
                    } else {
                        db
                    },
                },
                None => db,
            },
        },
    }
}

/// The effect of the scores from position `i` on, in order.
pub open spec fn score_all(req: ScoreRequest, i: nat, db: ScoringDb) -> ScoringDb
    decreases req.reporter_scores@.len() - i,
{
    if i >= req.reporter_scores@.len() {
        db
    } else {
        score_all(req, i + 1, score_one(req, i as int, db))
    }
}

/// Running on from a step and its action.
pub open spec fn continue_from(req: ScoreRequest, sa: (ScoreStep, ScoreAction), db: ScoringDb) -> ScoringDb {
    if answers_client(sa.1) {
        db
    } else {
        let (db2, o2) = apply(db, sa.1);
        scoring_run(req, sa.0, o2, db2)
    }
}

proof fn lemma_run_unfold(req: ScoreRequest, step: ScoreStep, outcome: Result<i64, String>, db: ScoringDb)
    requires
        step_fits(req, step),
        req.reporter_scores@.len() <= usize::MAX,
    ensures
        scoring_run(req, step, outcome, db) == continue_from(req, spec_score_step(req, step, outcome), db),
{
    let (next, a) = spec_score_step(req, step, outcome);
    if !answers_client(a) {
        law_score_steps_terminate(req, step, outcome);
        lemma_step_fits_next(req, step, outcome);
        let (db2, o2) = apply(db, a);
        assert(scoring_run(req, step, outcome, db) == scoring_run(req, next, o2, db2));
    }
}

proof fn lemma_skip_unnamed(req: ScoreRequest, i: nat, db: ScoringDb)
    requires
        i <= req.reporter_scores@.len(),
    ensures
        score_all(req, i, db) == score_all(req, next_named(req.reporter_scores@, i), db),
    decreases req.reporter_scores@.len() - i,
{
    if i < req.reporter_scores@.len() && !names_reporter(req.reporter_scores@[i as int]) {
        assert(score_one(req, i as int, db) == db);
        lemma_skip_unnamed(req, i + 1, db);
    }
}

/// Running on from the handling of the scores at position `i` has the
/// effect of those scores.
proof fn lemma_handle_is_score_all(req: ScoreRequest, i: nat, db: ScoringDb)
    requires
        i <= req.reporter_scores@.len(),
        req.reporter_scores@.len() <= usize::MAX,
    ensures
        continue_from(req, handle_from(req, i), db) == score_all(req, i, db),
    decreases req.reporter_scores@.len() - i,
{
    let scores = req.reporter_scores@;
    let n = scores.len();
    lemma_next_named(scores, i);
    lemma_skip_unnamed(req, i, db);
    let k = next_named(scores, i);
    if k < n {
        let u = scores[k as int];
        let ku = k as usize;
        assert(ku as nat == k);
        let next = (k + 1) as nat;
        match u.reporter_id {
            Some(id) => {
                let db2 = insert_score(db, req, k as int, id as i64);
                lemma_run_unfold(req, ScoreStep::AfterInsert(ku), Ok(0), db2);
                lemma_handle_is_score_all(req, next, db2);
            },
            None => match u.ref_code {
                Some(code) => {
                    let o = lookup_outcome(db.reporters, Lookup::Ref(code@));
                    lemma_run_unfold(req, ScoreStep::AfterRefLookup(ku), o, db);
                    match find(db.reporters, Lookup::Ref(code@)) {
                        Some(j) => {
                            let db2 = insert_score(db, req, k as int, reporter_id_at(j));
                            lemma_run_unfold(req, ScoreStep::AfterInsert(ku), Ok(0), db2);
                            lemma_handle_is_score_all(req, next, db2);
                        },
                        None => {
                            lemma_handle_is_score_all(req, next, db);
                        },
                    }
                },
                None => {
                    let name = u.reporter_name->0;
                    let external = u.reporter_category_id == EXTERNAL_CATEGORY;
                    let key = Lookup::Name(name@, external);
                    let o = lookup_outcome(db.reporters, key);
                    lemma_run_unfold(req, ScoreStep::AfterNameLookup(ku), o, db);
                    match find(db.reporters, key) {
                        Some(j) => {
                            let db2 = insert_score(db, req, k as int, reporter_id_at(j));
                            lemma_run_unfold(req, ScoreStep::AfterInsert(ku), Ok(0), db2);
                            lemma_handle_is_score_all(req, next, db2);
                        },
                        None => {
                            if external {
                                let db3 = add_reporter(db, name@, u.reporter_category_id);
                                let id = reporter_id_at(db.reporters.len());
                                lemma_run_unfold(req, ScoreStep::AfterNewReporter(ku), Ok(id), db3);
                                let db2 = insert_score(db3, req, k as int, id);
                                lemma_run_unfold(req, ScoreStep::AfterInsert(ku), Ok(0), db2);
                                lemma_handle_is_score_all(req, next, db2);
                            } else {
                                lemma_handle_is_score_all(req, next, db);
                            }
                        },
                    }
                },
            },
        }
    }
}

/// `new` extends `old`: the article scores are kept, and rows are only
/// appended: external contributors with empty reference code, and scores of
/// article `a`.
pub open spec fn grows(old: ScoringDb, new: ScoringDb, a: u32) -> bool {
    &&& new.article_scores == old.article_scores
    &&& old.reporters.len() <= new.reporters.len()
    &&& new.reporters.subrange(0, old.reporters.len() as int) == old.reporters
    &&& forall|j: int| old.reporters.len() <= j < new.reporters.len() ==> {
        &&& (#[trigger] new.reporters[j]).ref_code == Seq::<char>::empty()
        &&& new.reporters[j].category == EXTERNAL_CATEGORY
    }
    &&& old.scores.len() <= new.scores.len()
    &&& new.scores.subrange(0, old.scores.len() as int) == old.scores
    &&& forall|j: int| old.scores.len() <= j < new.scores.len() ==> (#[trigger] new.scores[j]).article_id == a
}

proof fn lemma_grows_trans(x: ScoringDb, y: ScoringDb, z: ScoringDb, a: u32)
    requires
        grows(x, y, a),
        grows(y, z, a),
    ensures
        grows(x, z, a),
{
    assert(z.reporters.subrange(0, x.reporters.len() as int) =~= x.reporters) by {
        assert forall|j: int| 0 <= j < x.reporters.len() implies z.reporters[j] == x.reporters[j] by {
            assert(z.reporters[j] == z.reporters.subrange(0, y.reporters.len() as int)[j]);
            assert(y.reporters[j] == y.reporters.subrange(0, x.reporters.len() as int)[j]);
        }
    }
    assert(z.scores.subrange(0, x.scores.len() as int) =~= x.scores) by {
        assert forall|j: int| 0 <= j < x.scores.len() implies z.scores[j] == x.scores[j] by {
            assert(z.scores[j] == z.scores.subrange(0, y.scores.len() as int)[j]);
            assert(y.scores[j] == y.scores.subrange(0, x.scores.len() as int)[j]);
        }
    }
    assert forall|j: int| x.reporters.len() <= j < z.reporters.len() implies {
        &&& (#[trigger] z.reporters[j]).ref_code == Seq::<char>::empty()
        &&& z.reporters[j].category == EXTERNAL_CATEGORY
    } by {
        if j < y.reporters.len() {
            assert(z.reporters[j] == z.reporters.subrange(0, y.reporters.len() as int)[j]);
            assert(y.reporters[j].ref_code == Seq::<char>::empty());
        }
    }
    assert forall|j: int| x.scores.len() <= j < z.scores.len() implies (#[trigger] z.scores[j]).article_id == a by {
        if j < y.scores.len() {
            assert(z.scores[j] == z.scores.subrange(0, y.scores.len() as int)[j]);
            assert(y.scores[j].article_id == a);
        }
    }
}

proof fn lemma_grows_refl(x: ScoringDb, a: u32)
    ensures
        grows(x, x, a),
{
    assert(x.reporters.subrange(0, x.reporters.len() as int) =~= x.reporters);
    assert(x.scores.subrange(0, x.scores.len() as int) =~= x.scores);
}

proof fn lemma_score_one_grows(req: ScoreRequest, k: int, db: ScoringDb)
    requires
        0 <= k < req.reporter_scores@.len(),
    ensures
        grows(db, score_one(req, k, db), req.article_id),
{
    let u = req.reporter_scores@[k];
    let r = score_one(req, k, db);
    lemma_grows_refl(db, req.article_id);
    assert(r.reporters.subrange(0, db.reporters.len() as int) =~= db.reporters);
    assert(r.scores.subrange(0, db.scores.len() as int) =~= db.scores);
}

proof fn lemma_score_all_grows(req: ScoreRequest, i: nat, db: ScoringDb)
    ensures
        grows(db, score_all(req, i, db), req.article_id),
    decreases req.reporter_scores@.len() - i,
{
    if i >= req.reporter_scores@.len() {
        lemma_grows_refl(db, req.article_id);
    } else {
        let d1 = score_one(req, i as int, db);
        lemma_score_one_grows(req, i as int, db);
        lemma_score_all_grows(req, i + 1, d1);
        lemma_grows_trans(db, d1, score_all(req, i + 1, d1), req.article_id);
    }
}

proof fn lemma_find_prefix(r: Seq<ReporterRecord>, f: Seq<ReporterRecord>, k: Lookup)
    requires
        r.len() <= f.len(),
        f.subrange(0, r.len() as int) == r,
        find(r, k) is Some,
    ensures
        find(f, k) == find(r, k),
    decreases f.len(),
{
    if f.len() > r.len() {
        assert(f.drop_last().subrange(0, r.len() as int) =~= r);
        lemma_find_prefix(r, f.drop_last(), k);
    } else {
        assert(f =~= r);
    }
}

proof fn lemma_find_none_beyond(r: Seq<ReporterRecord>, f: Seq<ReporterRecord>, k: Lookup)
    requires
        r.len() <= f.len(),
        f.subrange(0, r.len() as int) == r,
        find(r, k) is None,
        forall|j: int| r.len() <= j < f.len() ==> !answers(#[trigger] f[j], k),
    ensures
        find(f, k) is None,
    decreases f.len(),
{
    if f.len() > r.len() {
        assert(f.drop_last().subrange(0, r.len() as int) =~= r);
        lemma_find_none_beyond(r, f.drop_last(), k);
        assert(!answers(f[f.len() - 1], k));
    } else {
        assert(f =~= r);
    }
}

proof fn lemma_find_first_added(r: Seq<ReporterRecord>, f: Seq<ReporterRecord>, k: Lookup)
    requires
        r.len() < f.len(),
        f.subrange(0, r.len() as int) == r,
        find(r, k) is None,
        answers(f[r.len() as int], k),
    ensures
        find(f, k) == Some(r.len()),
    decreases f.len(),
{
    if f.len() > r.len() + 1 {
        assert(f.drop_last().subrange(0, r.len() as int) =~= r);
        lemma_find_first_added(r, f.drop_last(), k);
    } else {
        assert(f.drop_last() =~= r);
    }
}

/// Scoring again against tables that already hold the first scoring's
/// reporters finds every reporter the first scoring used, at the same
/// position, and adds none.
proof fn lemma_rescore(req: ScoreRequest, i: nat, db0: ScoringDb, db1: ScoringDb)
    requires
        i <= req.reporter_scores@.len(),
        forall|k: int| 0 <= k < req.reporter_scores@.len() && (#[trigger] req.reporter_scores@[k]).reporter_id is None
            ==> (req.reporter_scores@[k].ref_code matches Some(c) ==> c@.len() > 0),
        db1.scores == db0.scores,
        db1.article_scores == db0.article_scores,
        db1.reporters == score_all(req, i, db0).reporters,
    ensures
        score_all(req, i, db1) == score_all(req, i, db0),
    decreases req.reporter_scores@.len() - i,
{
    let n = req.reporter_scores@.len();
    if i >= n {
        assert(db1 == db0);
    } else {
        let k = i as int;
        let u = req.reporter_scores@[k];
        let db0p = score_one(req, k, db0);
        let g = score_all(req, i + 1, db0p);
        lemma_score_one_grows(req, k, db0);
        lemma_score_all_grows(req, i + 1, db0p);
        lemma_grows_trans(db0, db0p, g, req.article_id);
        let r = db0.reporters;
        let f = db1.reporters;
        assert(f == g.reporters);
        let db1p = score_one(req, k, db1);
        match u.reporter_id {
            Some(id) => {},
            None => match u.ref_code {
                Some(code) => {
                    let key = Lookup::Ref(code@);
                    match find(r, key) {
                        Some(j) => {
                            lemma_find_prefix(r, f, key);
                        },
                        None => {
                            assert forall|j: int| r.len() <= j < f.len() implies !answers(#[trigger] f[j], key) by {
                                assert(f[j].ref_code == Seq::<char>::empty());
                            }
                            lemma_find_none_beyond(r, f, key);
                        },
                    }
                },
                None => match u.reporter_name {
                    Some(name) => {
                        let external = u.reporter_category_id == EXTERNAL_CATEGORY;
                        let key = Lookup::Name(name@, external);
                        match find(r, key) {
                            Some(j) => {
                                lemma_find_prefix(r, f, key);
                            },
                            None => {
                                if external {
                                    assert(db0p.reporters == r.push(
                                        ReporterRecord { name: name@, ref_code: seq![], category: u.reporter_category_id },
                                    ));
                                    assert(f[r.len() as int] == g.reporters.subrange(0, db0p.reporters.len() as int)[r.len() as int]);
                                    assert(answers(f[r.len() as int], key));
                                    lemma_find_first_added(r, f, key);
                                } else {
                                    assert forall|j: int| r.len() <= j < f.len() implies !answers(#[trigger] f[j], key) by {
                                        assert(f[j].category == EXTERNAL_CATEGORY);
                                    }
                                    lemma_find_none_beyond(r, f, key);
                                }
                            },
                        }
                    },
                    None => {},
                },
            },
        }
        assert(db1p.scores == db0p.scores);
        assert(db1p.article_scores == db0p.article_scores);
        assert(db1p.reporters == g.reporters);
        lemma_rescore(req, i + 1, db0p, db1p);
    }
}

proof fn lemma_without_article_idem(ss: Seq<ScoreRecord>, a: u32)
    ensures
        without_article(without_article(ss, a), a) == without_article(ss, a),
    decreases ss.len(),
{
    if ss.len() > 0 {
        lemma_without_article_idem(ss.drop_last(), a);
        if ss.last().article_id != a {
            let w = without_article(ss.drop_last(), a).push(ss.last());
            assert(w.drop_last() =~= without_article(ss.drop_last(), a));
        }
    }
}

proof fn lemma_without_article_appended(ss: Seq<ScoreRecord>, base: nat, a: u32)
    requires
        base <= ss.len(),
        forall|j: int| base <= j < ss.len() ==> (#[trigger] ss[j]).article_id == a,
    ensures
        without_article(ss, a) == without_article(ss.subrange(0, base as int), a),
    decreases ss.len(),
{
    if ss.len() > base {
        assert(ss.drop_last().subrange(0, base as int) =~= ss.subrange(0, base as int));
        lemma_without_article_appended(ss.drop_last(), base, a);
    } else {
        assert(ss.subrange(0, base as int) =~= ss);
    }
}

/// Scoring a request a second time changes nothing: once a scoring has run
/// to its end with every statement succeeding, running it again on the
/// tables it left gives the same tables. The article's score rows are
/// deleted and written again alike, its two scores are set alike, and every
/// reporter the first scoring used is found again, so no external
/// contributor is added twice. A score that names its reporter by an empty
/// reference code is left out: it would find the contributors that the
/// first scoring added, whose reference codes are empty.
pub proof fn law_scoring_twice_is_scoring_once(
    req: ScoreRequest,
    db: ScoringDb,
    first: Result<i64, String>,
    second: Result<i64, String>,
)
    requires
        req.reporter_scores@.len() <= usize::MAX,
        forall|k: int| 0 <= k < req.reporter_scores@.len() && (#[trigger] req.reporter_scores@[k]).reporter_id is None
            ==> (req.reporter_scores@[k].ref_code matches Some(c) ==> c@.len() > 0),
    ensures
        ({
            let once = scoring_run(req, ScoreStep::Start, first, db);
            scoring_run(req, ScoreStep::Start, second, once) == once
        }),
{
    let a = req.article_id;
    let v = (req.score_basic, req.score_action);
    lemma_run_unfold(req, ScoreStep::Start, first, db);
    let d1 = ScoringDb { scores: without_article(db.scores, a), ..db };
    lemma_run_unfold(req, ScoreStep::AfterDelete, Ok(0), d1);
    let d2 = ScoringDb { article_scores: d1.article_scores.insert(a, v), ..d1 };
    lemma_run_unfold(req, ScoreStep::AfterUpdate, Ok(0), d2);
    lemma_handle_is_score_all(req, 0, d2);
    let once = scoring_run(req, ScoreStep::Start, first, db);
    assert(once == score_all(req, 0, d2));

    lemma_run_unfold(req, ScoreStep::Start, second, once);
    let e1 = ScoringDb { scores: without_article(once.scores, a), ..once };
    lemma_run_unfold(req, ScoreStep::AfterDelete, Ok(0), e1);
    let e2 = ScoringDb { article_scores: e1.article_scores.insert(a, v), ..e1 };
    lemma_run_unfold(req, ScoreStep::AfterUpdate, Ok(0), e2);
    lemma_handle_is_score_all(req, 0, e2);
    assert(scoring_run(req, ScoreStep::Start, second, once) == score_all(req, 0, e2));

    lemma_score_all_grows(req, 0, d2);
    lemma_without_article_appended(once.scores, d2.scores.len(), a);
    lemma_without_article_idem(db.scores, a);
    assert(e2.scores == d2.scores);
    assert(e2.article_scores =~= d2.article_scores);
    lemma_rescore(req, 0, d2, e2);
}

} // verus!
