//! Properties of the library that span its functions.

use vstd::prelude::*;
use crate::text::{all_digits, decimal, digit_char, digits_value, is_digit, parse_i32_spec, signed_decimal, unsigned_part};
use crate::stop_words::{is_stop_char, is_stop_pair, is_stop_word};
use crate::handler::search_similar_combined::{tokens_from, is_word_char};
use crate::handler::vectorize_titles::{title_tokens_from, is_skipped};
use crate::handler::score::{
    handle_from, lemma_next_named, names_reporter, spec_score_step, step_fits, ScoreAction, ScoreRequest,
    ScoreStep,
};
use crate::web::{Reason, WebErr};
use crate::handler::login::{hex_lower, is_hex_digit, lemma_hex_lower_shape, spec_session_key};
use crate::handler::auth::{header_str, spec_session_claim, spec_session_valid};
use crate::handler::account::ascii_chars;
use crate::handler::get_paper_abnormal_articles::{
    abnormal_rows, abnormal_scores_of, is_abnormal, is_news_desk, is_outside, PaperAbnormalArticleRow,
    PaperAbnormalScoreRow,
};
use crate::handler::get_articles::{spec_count_sql, GetArticlesReq};
use crate::embedding::{is_weights, VocabEntry, Weights};
use crate::counting::{lemma_occurs_somewhere, occurrences};

verus! {

proof fn lemma_decimal_digits(n: nat)
    ensures
        decimal(n).len() > 0,
        all_digits(decimal(n)),
        digits_value(decimal(n)) == n,
        decimal(n)[0] != '-' && decimal(n)[0] != '+',
    decreases n,
{
    let d = n % 10;
    assert((digit_char(d) as u32) == 48 + d);
    if n < 10 {
        let s = decimal(n);
        assert(s.drop_last() =~= Seq::<char>::empty());
        assert(s.last() == digit_char(d));
        assert(digits_value(s) == digits_value(s.drop_last()) * 10 + ((s.last() as u32) - 48) as nat);
        assert(digits_value(s.drop_last()) == 0);
    } else {
        lemma_decimal_digits(n / 10);
        let s = decimal(n);
        assert(s.drop_last() =~= decimal(n / 10));
        assert(s.last() == digit_char(d));
        assert forall|i: int| 0 <= i < s.len() implies is_digit(#[trigger] s[i]) by {
            if i < s.len() - 1 {
                assert(s[i] == decimal(n / 10)[i]);
            }
        }
        assert(s[0] == decimal(n / 10)[0]);
    }
}

/// Reading back a written number gives the number: `str::parse::<i32>` of
/// the decimal numeral of any `i32` is that `i32`.
pub proof fn law_parse_reads_decimal(v: i32)
    ensures
        parse_i32_spec(signed_decimal(v as int)) == Some(v),
{
    if v < 0 {
        let m = (-(v as int)) as nat;
        lemma_decimal_digits(m);
        let s = signed_decimal(v as int);
        assert(s == seq!['-'] + decimal(m));
        assert(s[0] == '-');
        assert(unsigned_part(s) =~= decimal(m));
    } else {
        lemma_decimal_digits(v as nat);
    }
}

/// Every token of the search tokenizer is one character that is
/// alphanumeric or CJK and is not a stop word.
pub proof fn law_search_tokens_are_single_words(text: Seq<char>)
    ensures
        forall|k: int| 0 <= k < crate::handler::search_similar_combined::spec_tokenize(text).len() ==> {
            let t = #[trigger] crate::handler::search_similar_combined::spec_tokenize(text)[k];
            &&& t.len() == 1
            &&& crate::handler::search_similar_combined::is_word_char(t[0])
            &&& !is_stop_char(t[0])
            &&& text.contains(t[0])
        },
{
    lemma_search_tokens_from(text, 0);
}

proof fn lemma_search_tokens_from(cs: Seq<char>, i: nat)
    ensures
        forall|k: int| 0 <= k < crate::handler::search_similar_combined::tokens_from(cs, i).len() ==> {
            let t = #[trigger] crate::handler::search_similar_combined::tokens_from(cs, i)[k];
            &&& t.len() == 1
            &&& crate::handler::search_similar_combined::is_word_char(t[0])
            &&& !is_stop_char(t[0])
            &&& cs.contains(t[0])
        },
    decreases cs.len() - i,
{
    if i < cs.len() {
        if !is_word_char(cs[i as int]) {
            lemma_search_tokens_from(cs, i + 1);
            assert(tokens_from(cs, i) == tokens_from(cs, i + 1));
        } else if i + 1 < cs.len() && is_stop_pair(cs[i as int], cs[(i + 1) as int]) {
            lemma_search_tokens_from(cs, i + 2);
            assert(tokens_from(cs, i) == tokens_from(cs, i + 2));
        } else if is_stop_char(cs[i as int]) {
            lemma_search_tokens_from(cs, i + 1);
            assert(tokens_from(cs, i) == tokens_from(cs, i + 1));
        } else {
            lemma_search_tokens_from(cs, i + 1);
            let rest = tokens_from(cs, i + 1);
            let all = tokens_from(cs, i);
            assert(all == seq![seq![cs[i as int]]] + rest);
            assert forall|k: int| 0 <= k < all.len() implies {
                let t = #[trigger] all[k];
                &&& t.len() == 1
                &&& is_word_char(t[0])
                &&& !is_stop_char(t[0])
                &&& cs.contains(t[0])
            } by {
                if k == 0 {
                    assert(all[0] == seq![cs[i as int]]);
                    assert(all[0][0] == cs[i as int]);
                } else {
                    assert(all[k] == rest[k - 1]);
                }
            }
        }
    }
}

/// Every token of the title tokenizer is a single character that is not
/// skipped, or a two-character stop word.
pub proof fn law_title_tokens_are_words(text: Seq<char>)
    ensures
        forall|k: int| 0 <= k < crate::handler::vectorize_titles::spec_tokenize(text).len() ==> {
            let t = #[trigger] crate::handler::vectorize_titles::spec_tokenize(text)[k];
            ||| (t.len() == 1 && !crate::handler::vectorize_titles::is_skipped(t[0]))
            ||| (t.len() == 2 && is_stop_pair(t[0], t[1]))
        },
{
    lemma_title_tokens_from(text, 0);
}

proof fn lemma_title_tokens_from(cs: Seq<char>, i: nat)
    ensures
        forall|k: int| 0 <= k < crate::handler::vectorize_titles::title_tokens_from(cs, i).len() ==> {
            let t = #[trigger] crate::handler::vectorize_titles::title_tokens_from(cs, i)[k];
            ||| (t.len() == 1 && !crate::handler::vectorize_titles::is_skipped(t[0]))
            ||| (t.len() == 2 && is_stop_pair(t[0], t[1]))
        },
    decreases cs.len() - i,
{
    if i < cs.len() {
        if is_skipped(cs[i as int]) {
            lemma_title_tokens_from(cs, i + 1);
            assert(title_tokens_from(cs, i) == title_tokens_from(cs, i + 1));
        } else {
            let two = i + 1 < cs.len() && is_stop_pair(cs[i as int], cs[(i + 1) as int]);
            let next: nat = if two { i + 2 } else { i + 1 };
            lemma_title_tokens_from(cs, next);
            let rest = title_tokens_from(cs, next);
            let all = title_tokens_from(cs, i);
            let head = if two { seq![cs[i as int], cs[(i + 1) as int]] } else { seq![cs[i as int]] };
            assert(all == seq![head] + rest);
            assert forall|k: int| 0 <= k < all.len() implies {
                let t = #[trigger] all[k];
                ||| (t.len() == 1 && !is_skipped(t[0]))
                ||| (t.len() == 2 && is_stop_pair(t[0], t[1]))
            } by {
                if k > 0 {
                    assert(all[k] == rest[k - 1]);
                } else {
                    assert(all[0] == head);
                }
            }
        }
    }
}

} // verus!

verus! {

/// A measure of how much of a scoring is left.
pub open spec fn score_rank(req: ScoreRequest, step: ScoreStep) -> nat {
    let n = req.reporter_scores@.len();
    match step {
        ScoreStep::Start => 4 * n + 7,
        ScoreStep::AfterDelete => 4 * n + 6,
        ScoreStep::AfterUpdate => 4 * n + 5,
        ScoreStep::AfterInsert(i) => (4 * (n - i)) as nat,
        ScoreStep::AfterNewReporter(i) => (4 * (n - i) + 1) as nat,
        ScoreStep::AfterRefLookup(i) => (4 * (n - i) + 2) as nat,
        ScoreStep::AfterNameLookup(i) => (4 * (n - i) + 2) as nat,
        ScoreStep::Finished => 0,
    }
}

proof fn lemma_handle_rank(req: ScoreRequest, j: nat)
    requires
        j <= req.reporter_scores@.len(),
        req.reporter_scores@.len() <= usize::MAX,
    ensures
        score_rank(req, handle_from(req, j).0) <= 4 * (req.reporter_scores@.len() - j) + 2,
        handle_from(req, j).0 is Finished || score_rank(req, handle_from(req, j).0) >= 4,
{
    lemma_next_named(req.reporter_scores@, j);
}

/// Scoring ends: whatever a statement's outcome, each step before the end
/// leaves less to do, and the end is final.
pub proof fn law_score_steps_terminate(req: ScoreRequest, step: ScoreStep, outcome: Result<i64, String>)
    requires
        step_fits(req, step),
        req.reporter_scores@.len() <= usize::MAX,
    ensures
        step !is Finished ==> score_rank(req, spec_score_step(req, step, outcome).0) < score_rank(req, step),
        step is Finished ==> spec_score_step(req, step, outcome) == (ScoreStep::Finished, ScoreAction::Stop),
{
    let n = req.reporter_scores@.len();
    match step {
        ScoreStep::AfterUpdate => {
            lemma_handle_rank(req, 0);
        },
        ScoreStep::AfterInsert(i) => {
            lemma_handle_rank(req, (i + 1) as nat);
        },
        ScoreStep::AfterRefLookup(i) => {
            lemma_handle_rank(req, (i + 1) as nat);
        },
        ScoreStep::AfterNameLookup(i) => {
            lemma_handle_rank(req, (i + 1) as nat);
        },
        _ => {},
    }
}

/// A reporter score is inserted for the request's article only, with the
/// category and score that the request gives the reporter at the position
/// being handled, and by the id the request gives when it gives one.
pub proof fn law_score_inserts_follow_request(req: ScoreRequest, step: ScoreStep, outcome: Result<i64, String>)
    requires
        step_fits(req, step),
        req.reporter_scores@.len() <= usize::MAX,
    ensures
        ({
            let (next, action) = spec_score_step(req, step, outcome);
            action matches ScoreAction::InsertScore { article_id, reporter_id, category_id, score } ==> {
                &&& next matches ScoreStep::AfterInsert(i) && {
                    let u = req.reporter_scores@[i as int];
                    &&& i < req.reporter_scores@.len()
                    &&& category_id == u.reporter_category_id
                    &&& score == u.score
                    &&& (u.reporter_id matches Some(r) ==> reporter_id == r as i64)
                }
                &&& article_id == req.article_id
            }
        }),
{
    match step {
        ScoreStep::AfterUpdate => {
            lemma_next_named(req.reporter_scores@, 0);
        },
        ScoreStep::AfterInsert(i) => {
            lemma_next_named(req.reporter_scores@, (i + 1) as nat);
        },
        ScoreStep::AfterRefLookup(i) => {
            lemma_next_named(req.reporter_scores@, (i + 1) as nat);
        },
        ScoreStep::AfterNameLookup(i) => {
            lemma_next_named(req.reporter_scores@, (i + 1) as nat);
        },
        _ => {},
    }
}

/// A failed write ends the scoring, and the client is told the failure.
pub proof fn law_score_write_failure_ends(req: ScoreRequest, step: ScoreStep, message: String)
    requires
        step is AfterDelete || step is AfterUpdate || step is AfterInsert || step is AfterNewReporter,
    ensures
        spec_score_step(req, step, Err(message)) == (
            ScoreStep::Finished,
            ScoreAction::Fail(WebErr { reason: Reason::Backend(message) }),
        ),
{
}

/// A score that names no reporter is passed over: every position that a
/// step awaits names its reporter.
pub proof fn law_score_skips_unnamed(req: ScoreRequest, step: ScoreStep, outcome: Result<i64, String>)
    requires
        step_fits(req, step),
        req.reporter_scores@.len() <= usize::MAX,
    ensures
        ({
            let next = spec_score_step(req, step, outcome).0;
            let scores = req.reporter_scores@;
            &&& next matches ScoreStep::AfterRefLookup(i) ==> names_reporter(scores[i as int])
            &&& next matches ScoreStep::AfterNameLookup(i) ==> names_reporter(scores[i as int])
            &&& next matches ScoreStep::AfterNewReporter(i) ==> names_reporter(scores[i as int])
            &&& next matches ScoreStep::AfterInsert(i) ==> names_reporter(scores[i as int])
        }),
{
    match step {
        ScoreStep::AfterUpdate => {
            lemma_next_named(req.reporter_scores@, 0);
        },
        ScoreStep::AfterInsert(i) => {
            lemma_next_named(req.reporter_scores@, (i + 1) as nat);
        },
        ScoreStep::AfterRefLookup(i) => {
            lemma_next_named(req.reporter_scores@, (i + 1) as nat);
        },
        ScoreStep::AfterNameLookup(i) => {
            lemma_next_named(req.reporter_scores@, (i + 1) as nat);
        },
        _ => {},
    }
}

} // verus!

verus! {

/// A stored password and a session id are written in lowercase hex: two
/// digits `0`-`9`, `a`-`f` for each byte, and no dash.
pub proof fn law_hex_text_is_lower_hex(bytes: Seq<u8>)
    ensures
        hex_lower(bytes).len() == 2 * bytes.len(),
        forall|i: int| 0 <= i < hex_lower(bytes).len() ==> is_hex_digit(#[trigger] hex_lower(bytes)[i]),
        !hex_lower(bytes).contains('-'),
{
    lemma_hex_lower_shape(bytes);
    if hex_lower(bytes).contains('-') {
        let i = choose|i: int| 0 <= i < hex_lower(bytes).len() && hex_lower(bytes)[i] == '-';
        assert(is_hex_digit(hex_lower(bytes)[i]));
    }
}

/// The guard looks a session up under the key that sign-in stored it under:
/// for readable headers, the key is that of the account they name, and the
/// session id is the one they carry.
pub proof fn law_guard_reads_sign_in_key(account: Seq<u8>, session: Seq<u8>)
    requires
        header_str(account) is Some,
        header_str(session) is Some,
    ensures
        spec_session_claim(Some(account), Some(session)) == Some(
            (spec_session_key(ascii_chars(account)), ascii_chars(session)),
        ),
{
}

/// A session id that sign-in issued is accepted when it is presented back:
/// it is never empty.
pub proof fn law_issued_session_is_accepted(bytes: Seq<u8>)
    requires
        bytes.len() == 16,
    ensures
        spec_session_valid(hex_lower(bytes), hex_lower(bytes)),
{
    lemma_hex_lower_shape(bytes);
}

/// Without a session kept for the account, no session id is accepted.
pub proof fn law_no_kept_session_refuses(claimed: Seq<char>)
    ensures
        !spec_session_valid(claimed, seq![]),
{
}

} // verus!

verus! {

/// The abnormal listing holds exactly the candidates whose scores are
/// abnormal: each listed article has scores, and none of its scored
/// reporters is of a news desk or from outside; every candidate whose scores
/// are so is listed.
pub proof fn law_abnormal_listing(rows: Seq<PaperAbnormalArticleRow>, scores: Seq<PaperAbnormalScoreRow>)
    ensures
        forall|k: int| 0 <= k < abnormal_rows(rows, scores).len() ==> {
            let s = abnormal_scores_of(scores, #[trigger] abnormal_rows(rows, scores)[k].id);
            &&& s.len() > 0
            &&& forall|j: int| 0 <= j < s.len() ==> !is_news_desk(#[trigger] s[j].department@)
            &&& forall|j: int| 0 <= j < s.len() ==> !is_outside(#[trigger] s[j].department@)
        },
        forall|k: int| 0 <= k < rows.len() && is_abnormal(abnormal_scores_of(scores, #[trigger] rows[k].id))
            ==> abnormal_rows(rows, scores).contains(rows[k]),
    decreases rows.len(),
{
    if rows.len() > 0 {
        let init = rows.drop_last();
        law_abnormal_listing(init, scores);
        let kept = abnormal_rows(rows, scores);
        let prev = abnormal_rows(init, scores);
        assert forall|k: int| 0 <= k < kept.len() implies is_abnormal(abnormal_scores_of(scores, #[trigger] kept[k].id)) by {
            if k < prev.len() {
                assert(kept[k] == prev[k]);
            }
        }
        assert forall|k: int| 0 <= k < rows.len() && is_abnormal(abnormal_scores_of(scores, #[trigger] rows[k].id))
            implies kept.contains(rows[k]) by {
            if k < init.len() {
                assert(init[k] == rows[k]);
                let j = choose|j: int| 0 <= j < prev.len() && prev[j] == init[k];
                assert(kept[j] == prev[j]);
            } else {
                assert(kept[kept.len() - 1] == rows.last());
            }
        }
    }
}

/// The count of a listing depends on its reporter, keyword and media only:
/// not on the day, the video address or the page.
pub proof fn law_count_ignores_day_and_page(a: GetArticlesReq, b: GetArticlesReq)
    requires
        a.reporter_id == b.reporter_id,
        a.keyword == b.keyword,
        a.tv_or_paper == b.tv_or_paper,
    ensures
        spec_count_sql(a) == spec_count_sql(b),
{
}

/// Every count in an embedding is at least 1 and at most the highest count,
/// so every weight is in (0, 1].
pub proof fn law_weights_within_max(wt: Weights, ws: Seq<Seq<char>>, v: Seq<VocabEntry>, bounded: bool)
    requires
        is_weights(wt, ws, v, bounded),
    ensures
        forall|i: int| 0 <= i < wt.entries@.len() ==> 1 <= #[trigger] wt.entries@[i].count <= wt.max_count,
{
    assert forall|i: int| 0 <= i < wt.entries@.len() implies 1 <= #[trigger] wt.entries@[i].count <= wt.max_count by {
        let w = wt.entries@[i].word@;
        lemma_occurs_somewhere(ws, w);
        let k = choose|k: int| 0 <= k < ws.len() && ws[k] == w;
        assert(occurrences(ws, ws[k]) <= wt.max_count);
    }
}

} // verus!

verus! {

proof fn lemma_title_tokens_shift(p: Seq<char>, b: Seq<char>, j: nat)
    requires
        j <= b.len(),
    ensures
        title_tokens_from(p + b, p.len() + j) == title_tokens_from(b, j),
    decreases b.len() - j,
{
    let cs = p + b;
    if j < b.len() {
        assert(cs[(p.len() + j) as int] == b[j as int]);
        if j + 1 < b.len() {
            assert(cs[(p.len() + j + 1) as int] == b[(j + 1) as int]);
            lemma_title_tokens_shift(p, b, j + 2);
        }
        lemma_title_tokens_shift(p, b, j + 1);
    }
}

proof fn lemma_title_tokens_join(a: Seq<char>, b: Seq<char>, i: nat)
    requires
        i <= a.len(),
    ensures
        title_tokens_from(a + seq![' '] + b, i) == title_tokens_from(a, i) + title_tokens_from(b, 0),
    decreases a.len() - i,
{
    let cs = a + seq![' '] + b;
    if i == a.len() {
        assert(cs[i as int] == ' ');
        assert(crate::text::char_is_whitespace(' '));
        assert(cs =~= (a + seq![' ']) + b);
        lemma_title_tokens_shift(a + seq![' '], b, 0);
        assert(title_tokens_from(a, i) + title_tokens_from(b, 0) =~= title_tokens_from(b, 0));
    } else {
        assert(cs[i as int] == a[i as int]);
        if i + 1 < a.len() {
            assert(cs[(i + 1) as int] == a[(i + 1) as int]);
            lemma_title_tokens_join(a, b, i + 2);
        } else {
            assert(cs[(i + 1) as int] == ' ');
            assert(!is_stop_pair(cs[i as int], ' '));
        }
        lemma_title_tokens_join(a, b, i + 1);
        let x = title_tokens_from(a, i);
        if !is_skipped(a[i as int]) {
            let two = i + 1 < a.len() && is_stop_pair(a[i as int], a[(i + 1) as int]);
            let next: nat = if two { i + 2 } else { i + 1 };
            assert(title_tokens_from(cs, i) == seq![x[0]] + title_tokens_from(cs, next));
            assert(x == seq![x[0]] + title_tokens_from(a, next));
            assert(seq![x[0]] + (title_tokens_from(a, next) + title_tokens_from(b, 0))
                =~= (seq![x[0]] + title_tokens_from(a, next)) + title_tokens_from(b, 0));
        }
    }
}

/// A space separates the title tokens of the text on either side of it:
/// the tokens of `a`, a space and `b` are those of `a` followed by those of
/// `b`; no token spans the space.
pub proof fn law_title_tokens_split_at_space(a: Seq<char>, b: Seq<char>)
    ensures
        crate::handler::vectorize_titles::spec_tokenize(a + seq![' '] + b)
            == crate::handler::vectorize_titles::spec_tokenize(a) + crate::handler::vectorize_titles::spec_tokenize(b),
{
    lemma_title_tokens_join(a, b, 0);
}

/// The tokens of `ws` that are not stop words, in order.
pub open spec fn without_stop_words(ws: Seq<Seq<char>>) -> Seq<Seq<char>>
    decreases ws.len(),
{
    if ws.len() == 0 {
        seq![]
    } else if is_stop_word(ws[0]) {
        without_stop_words(ws.drop_first())
    } else {
        seq![ws[0]] + without_stop_words(ws.drop_first())
    }
}

proof fn lemma_without_stop_words_cons(w: Seq<char>, rest: Seq<Seq<char>>)
    ensures
        without_stop_words(seq![w] + rest)
            == if is_stop_word(w) { without_stop_words(rest) } else { seq![w] + without_stop_words(rest) },
{
    let ws = seq![w] + rest;
    assert(ws[0] == w);
    assert(ws.drop_first() =~= rest);
}

proof fn lemma_search_is_filtered_titles(cs: Seq<char>, i: nat)
    ensures
        tokens_from(cs, i) == without_stop_words(title_tokens_from(cs, i)),
    decreases cs.len() - i,
{
    if i < cs.len() {
        let c = cs[i as int];
        assert(is_skipped(c) == !is_word_char(c));
        if is_skipped(c) {
            lemma_search_is_filtered_titles(cs, i + 1);
        } else if i + 1 < cs.len() && is_stop_pair(c, cs[(i + 1) as int]) {
            lemma_search_is_filtered_titles(cs, i + 2);
            let pair = seq![c, cs[(i + 1) as int]];
            lemma_without_stop_words_cons(pair, title_tokens_from(cs, i + 2));
            assert(is_stop_word(pair));
        } else {
            lemma_search_is_filtered_titles(cs, i + 1);
            let one = seq![c];
            lemma_without_stop_words_cons(one, title_tokens_from(cs, i + 1));
            assert(is_stop_word(one) == is_stop_char(c));
        }
    } else {
        assert(without_stop_words(seq![]) == Seq::<Seq<char>>::empty());
    }
}

/// The search tokens of a text are its title tokens without the stop words:
/// both tokenizers split the text alike, and the search keeps only the
/// tokens that are not stop words.
pub proof fn law_search_tokens_are_title_tokens_without_stop_words(text: Seq<char>)
    ensures
        crate::handler::search_similar_combined::spec_tokenize(text)
            == without_stop_words(crate::handler::vectorize_titles::spec_tokenize(text)),
{
    lemma_search_is_filtered_titles(text, 0);
}

} // verus!

verus! {

/// The id a session store keeps under a key; empty when it keeps none, as
/// the guard reads a missing key.
pub open spec fn kept_id(store: Map<Seq<char>, Seq<char>>, key: Seq<char>) -> Seq<char> {
    if store.dom().contains(key) { store[key] } else { seq![] }
}

/// Whether the guard lets a request through, given what the session store
/// keeps and the bytes of the request's `account` and `sessionid` headers.
pub open spec fn guard_admits(store: Map<Seq<char>, Seq<char>>, account: Option<Seq<u8>>, session: Option<Seq<u8>>) -> bool {
    match spec_session_claim(account, session) {
        Some((key, id)) => spec_session_valid(id, kept_id(store, key)),
        None => false,
    }
}

/// A signed-in session is honoured until the next sign-in of the account:
/// once sign-in keeps the hex of its id bytes under the account's key, a
/// request naming the account and carrying that id is let through; once a
/// later sign-in keeps a different id there, the same request is refused.
pub proof fn law_latest_sign_in_admits(
    store: Map<Seq<char>, Seq<char>>,
    account: Seq<u8>,
    session: Seq<u8>,
    first: Seq<u8>,
    later: Seq<u8>,
)
    requires
        header_str(account) is Some,
        first.len() == 16,
        header_str(session) == Some(hex_lower(first)),
        hex_lower(later) != hex_lower(first),
    ensures
        ({
            let key = spec_session_key(ascii_chars(account));
            let after_first = store.insert(key, hex_lower(first));
            &&& guard_admits(after_first, Some(account), Some(session))
            &&& !guard_admits(after_first.insert(key, hex_lower(later)), Some(account), Some(session))
        }),
{
    lemma_hex_lower_shape(first);
    let key = spec_session_key(ascii_chars(account));
    let after_first = store.insert(key, hex_lower(first));
    assert(kept_id(after_first, key) == hex_lower(first));
    assert(kept_id(after_first.insert(key, hex_lower(later)), key) == hex_lower(later));
}

/// A scoring first clears the article's reporter scores, then sets its two
/// scores: whatever scores were stored before, only those of the request
/// are written afterwards.
pub proof fn law_score_starts_by_clearing(req: ScoreRequest, first: Result<i64, String>, cleared: i64)
    ensures
        spec_score_step(req, ScoreStep::Start, first)
            == (ScoreStep::AfterDelete, ScoreAction::DeleteArticleScores { article_id: req.article_id }),
        spec_score_step(req, ScoreStep::AfterDelete, Ok(cleared)) == (
            ScoreStep::AfterUpdate,
            ScoreAction::UpdateArticle {
                article_id: req.article_id,
                score_basic: req.score_basic,
                score_action: req.score_action,
            },
        ),
{
}

/// A reporter found by name is not added again: the score is inserted for
/// the reporter found, so a second scoring of the same request creates no
/// reporter for an external contributor that the first one added.
pub proof fn law_found_reporter_is_not_added(req: ScoreRequest, i: usize, id: i64)
    requires
        step_fits(req, ScoreStep::AfterNameLookup(i)),
    ensures
        spec_score_step(req, ScoreStep::AfterNameLookup(i), Ok(id)) == (
            ScoreStep::AfterInsert(i),
            ScoreAction::InsertScore {
                article_id: req.article_id,
                reporter_id: id,
                category_id: req.reporter_scores@[i as int].reporter_category_id,
                score: req.reporter_scores@[i as int].score,
            },
        ),
{
}

} // verus!
