//! Title vectorization: the title tokenizer, the vocabulary, and the
//! integer side of the embedding.

use vstd::prelude::*;
use vstd::string::StringExecFns;
use crate::handler::statement::{bind_values, statement, text_bind, Bind, BindValue, Statement};
use crate::counting::{empty_tally, is_top_words, lemma_ranked_tally, ranked_words, rank_by_count, tally_add};
use crate::embedding::{is_weights, weights, VocabEntry, Weights};
use crate::text::{decimal, push_decimal};
use crate::stop_words::{is_stop_pair, stop_pair};
use crate::text::{
    char_is_alphanumeric, char_is_whitespace, chars_of, cjk, is_alphanumeric, is_cjk,
    is_whitespace, string_of_char, string_of_pair, views,
};

verus! {

/// A character that the title tokenizer skips: whitespace, or neither
/// alphanumeric nor a CJK ideograph.
pub open spec fn is_skipped(c: char) -> bool {
    char_is_whitespace(c) || (!char_is_alphanumeric(c) && !is_cjk(c))
}

/// The title tokens of `cs` from position `i` on: skipped characters are
/// dropped, a two-character stop word is one token, and every other character
/// is a token of its own.
pub open spec fn title_tokens_from(cs: Seq<char>, i: nat) -> Seq<Seq<char>>
    decreases cs.len() - i,
{
    if i >= cs.len() {
        seq![]
    } else if is_skipped(cs[i as int]) {
        title_tokens_from(cs, i + 1)
    } else if i + 1 < cs.len() && is_stop_pair(cs[i as int], cs[(i + 1) as int]) {
        seq![seq![cs[i as int], cs[(i + 1) as int]]] + title_tokens_from(cs, i + 2)
    } else {
        seq![seq![cs[i as int]]] + title_tokens_from(cs, i + 1)
    }
}

/// The title tokens of a whole text.
pub open spec fn spec_tokenize(text: Seq<char>) -> Seq<Seq<char>> {
    title_tokens_from(text, 0)
}

/// Splits a title into tokens: two-character stop words stay whole, every
/// other alphanumeric or CJK character is a token of its own.
pub fn tokenize(text: &str) -> (tokens: Vec<String>)
    ensures
        views(tokens@) == spec_tokenize(text@),
{
    let chars = chars_of(text);
    let n = chars.len();
    let mut tokens: Vec<String> = Vec::new();
    let mut i: usize = 0;
    while i < n
        invariant
            n == chars@.len(),
            chars@ == text@,
            i <= n,
            views(tokens@) + title_tokens_from(chars@, i as nat) == spec_tokenize(text@),
        decreases n - i,
    {
        let c = chars[i];
        if is_whitespace(c) || !is_alphanumeric(c) && !cjk(c) {
            i += 1;
            continue;
        }
        let ghost before = tokens@;
        if i + 1 < n && stop_pair(c, chars[i + 1]) {
            let d = chars[i + 1];
            tokens.push(string_of_pair(c, d));
            proof {
                assert(views(tokens@) == views(before) + seq![seq![c, d]]);
                assert(views(before) + title_tokens_from(chars@, i as nat) == views(before) + (
                seq![seq![c, d]] + title_tokens_from(chars@, (i + 2) as nat)));
            }
            i += 2;
        } else {
            tokens.push(string_of_char(c));
            proof {
                assert(views(tokens@) == views(before) + seq![seq![c]]);
                assert(views(before) + title_tokens_from(chars@, i as nat) == views(before) + (
                seq![seq![c]] + title_tokens_from(chars@, (i + 1) as nat)));
            }
            i += 1;
        }
    }
    proof {
        assert(views(tokens@) + seq![] =~= views(tokens@));
    }
    tokens
}

/// The vectorizing endpoint.
pub struct VectorizeTitles;

/// Whether to vectorize every title again, and whether to rebuild the
/// vocabulary first.
#[derive(Debug)]
pub struct VectorizeTitlesReq {
    pub force: Option<bool>,
    pub rebuild_vocab: Option<bool>,
}

/// The flags of a request, `(force, rebuild_vocab)`: each absent flag, and
/// every flag of an absent request, is false.
pub fn vectorize_flags(req: Option<VectorizeTitlesReq>) -> (f: (bool, bool))
    ensures
        f.0 == (req matches Some(r) && r.force == Some(true)),
        f.1 == (req matches Some(r) && r.rebuild_vocab == Some(true)),
{
    match req {
        Some(r) => (
            match r.force {
                Some(b) => b,
                None => false,
            },
            match r.rebuild_vocab {
                Some(b) => b,
                None => false,
            },
        ),
        None => (false, false),
    }
}

/// The most words a vocabulary holds.
pub const VOCAB_LIMIT: usize = 10000;

/// The tokens of all titles, title after title.
pub open spec fn all_title_tokens(titles: Seq<Seq<char>>) -> Seq<Seq<char>>
    decreases titles.len(),
{
    if titles.len() == 0 {
        seq![]
    } else {
        all_title_tokens(titles.drop_last()) + spec_tokenize(titles.last())
    }
}

/// `v` is a vocabulary built from tokens `ws`: the most frequent words, most
/// frequent first, each at its own position.
pub open spec fn is_vocabulary(v: Seq<VocabEntry>, ws: Seq<Seq<char>>) -> bool {
    &&& is_top_words(v.map_values(|e: VocabEntry| e.word@), ws, VOCAB_LIMIT as nat)
    &&& forall|k: int| 0 <= k < v.len() ==> #[trigger] v[k].idx == k
}

/// Builds the vocabulary of a set of titles: their at most 10000 most
/// frequent tokens, most frequent first, numbered from 0.
pub fn build_vocab_entries(titles: &Vec<String>) -> (v: Vec<VocabEntry>)
    requires
        all_title_tokens(views(titles@)).len() <= u64::MAX,
    ensures
        is_vocabulary(v@, all_title_tokens(views(titles@))),
{
    let ghost all = all_title_tokens(views(titles@));
    let mut t = empty_tally();
    let n = titles.len();
    let mut i: usize = 0;
    while i < n
        invariant
            n == titles@.len(),
            i <= n,
            all == all_title_tokens(views(titles@)),
            all.len() <= u64::MAX,
            crate::counting::tally_of(t, all_title_tokens(views(titles@.take(i as int)))),
        decreases n - i,
    {
        let ghost before = all_title_tokens(views(titles@.take(i as int)));
        let tokens = tokenize(titles[i].as_str());
        proof {
            assert(views(titles@.take((i + 1) as int)).drop_last() =~= views(titles@.take(i as int)));
            assert(views(titles@.take((i + 1) as int)).last() == titles@[i as int]@);
            lemma_title_tokens_prefix(views(titles@), i as int + 1);
            assert(views(titles@.take((i + 1) as int)) =~= views(titles@).take(i as int + 1));
            assert(views(titles@.take(i as int)) =~= views(titles@).take(i as int));
            lemma_title_tokens_grow(views(titles@), i as int + 1);
            assert(views(titles@) =~= views(titles@).take(titles@.len() as int));
            assert(views(tokens@).len() == tokens@.len());
        }
        tally_add(&mut t, &tokens, Ghost(before));
        i += 1;
    }
    proof {
        assert(titles@.take(n as int) =~= titles@);
    }
    let _m = t.words.len();
    let r = rank_by_count(&t.counts, VOCAB_LIMIT);
    proof {
        lemma_ranked_tally(t, all, r@, VOCAB_LIMIT as nat);
    }
    let mut v: Vec<VocabEntry> = Vec::new();
    let m = r.len();
    let mut k: usize = 0;
    while k < m
        invariant
            m == r@.len(),
            m <= VOCAB_LIMIT,
            k <= m,
            forall|j: int| 0 <= j < m ==> #[trigger] r@[j] < t.words@.len(),
            v@.len() == k,
            forall|j: int| 0 <= j < k ==> #[trigger] v@[j].word@ == ranked_words(t.words@, r@)[j],
            forall|j: int| 0 <= j < k ==> #[trigger] v@[j].idx == j,
        decreases m - k,
    {
        v.push(VocabEntry { word: t.words[r[k]].clone(), idx: k as i64 });
        k += 1;
    }
    proof {
        assert(v@.map_values(|e: VocabEntry| e.word@) =~= ranked_words(t.words@, r@));
    }
    v
}

proof fn lemma_title_tokens_grow(titles: Seq<Seq<char>>, k: int)
    requires
        0 <= k <= titles.len(),
    ensures
        all_title_tokens(titles.take(k)).len() <= all_title_tokens(titles.take(titles.len() as int)).len(),
    decreases titles.len() - k,
{
    if k < titles.len() {
        lemma_title_tokens_prefix(titles, k + 1);
        lemma_title_tokens_grow(titles, k + 1);
    }
}

proof fn lemma_title_tokens_prefix(titles: Seq<Seq<char>>, k: int)
    requires
        0 < k <= titles.len(),
    ensures
        all_title_tokens(titles.take(k)) == all_title_tokens(titles.take(k - 1)) + spec_tokenize(titles[k - 1]),
{
    assert(titles.take(k).drop_last() =~= titles.take(k - 1));
}

/// Where the vocabulary comes from.
#[derive(Debug, Clone, Copy, PartialEq, Eq)]
pub enum VocabSource {
    /// Clear the stored vocabulary and build a new one.
    Rebuild,
    /// Use the stored vocabulary.
    Load,
    /// Build one, as none is stored.
    Build,
}

/// Where the vocabulary comes from: rebuilt when asked, else the stored one
/// if it has any word (`stored_words`, counted only when no rebuild is
/// asked), else a new one.
pub fn vocab_source(rebuild: bool, stored_words: i64) -> (s: VocabSource)
    ensures
        rebuild ==> s == VocabSource::Rebuild,
        !rebuild && stored_words > 0 ==> s == VocabSource::Load,
        !rebuild && stored_words <= 0 ==> s == VocabSource::Build,
{
    if rebuild {
        VocabSource::Rebuild
    } else if stored_words > 0 {
        VocabSource::Load
    } else {
        VocabSource::Build
    }
}

/// The query of the titles to vectorize: every newspaper and web article's
/// title, or, unless forced, only those without a vector yet; by id.
pub open spec fn spec_pending_titles_sql(force: bool) -> Seq<char> {
    "SELECT a.id, a.title FROM article a WHERE a.tv_or_paper != 0 AND a.tv_or_paper != 2"@
        + (if force { seq![] } else { " AND a.id NOT IN (SELECT article_id FROM title_vector)"@ })
        + " ORDER BY a.id"@
}

/// Builds the query of the titles to vectorize.
pub fn pending_titles_sql(force: bool) -> (sql: String)
    ensures
        sql@ == spec_pending_titles_sql(force),
{
    let mut s = String::new();
    s.append("SELECT a.id, a.title FROM article a WHERE a.tv_or_paper != 0 AND a.tv_or_paper != 2");
    if !force {
        s.append(" AND a.id NOT IN (SELECT article_id FROM title_vector)");
    }
    s.append(" ORDER BY a.id");
    proof {
        assert(s@ =~= spec_pending_titles_sql(force));
    }
    s
}

/// The message once `count` titles are vectorized.
pub open spec fn spec_done_message(count: nat) -> Seq<char> {
    "向量化完成，共处理 "@ + decimal(count) + " 条"@
}

/// The message once `count` titles are vectorized.
pub fn done_message(count: usize) -> (m: String)
    ensures
        m@ == spec_done_message(count as nat),
{
    let mut m = String::new();
    m.append("向量化完成，共处理 ");
    push_decimal(&mut m, count as u64);
    m.append(" 条");
    proof {
        assert(m@ =~= spec_done_message(count as nat));
    }
    m
}

/// The embedding weights of a title over the vocabulary; a vocabulary
/// position beyond the vector leaves its token out.
pub fn title_weights(title: &str, vocab: &Vec<VocabEntry>) -> (wt: Weights)
    ensures
        is_weights(wt, spec_tokenize(title@), vocab@, true),
{
    let tokens = tokenize(title);
    weights(&tokens, vocab, true)
}

/// The titles a vocabulary is built from: those of newspaper and web
/// articles (media other than 0 and 2).
pub const VOCAB_TITLES_SQL: &'static str = "SELECT id, title FROM article WHERE tv_or_paper != 0 AND tv_or_paper != 2";

/// The query of the titles a vocabulary is built from; it binds nothing.
pub fn vocab_titles_query() -> (s: Statement)
    ensures
        s@ == (VOCAB_TITLES_SQL@, Seq::<BindValue>::empty()),
{
    let binds: Vec<Bind> = Vec::new();
    proof {
        assert(bind_values(binds@) =~= Seq::<BindValue>::empty());
    }
    statement(VOCAB_TITLES_SQL, binds)
}

/// Storing one vocabulary word at its position.
pub const VOCAB_INSERT_SQL: &'static str = "INSERT INTO vector_vocab (word, idx) VALUES (?, ?)";

/// The statement that stores a vocabulary entry: its word, then its position.
pub fn vocab_insert(e: &VocabEntry) -> (s: Statement)
    ensures
        s@ == (VOCAB_INSERT_SQL@, seq![BindValue::Text(e.word@), BindValue::Int(e.idx as int)]),
{
    let binds = vec![text_bind(&e.word), Bind::Int(e.idx)];
    proof {
        assert(bind_values(binds@) =~= seq![BindValue::Text(e.word@), BindValue::Int(e.idx as int)]);
    }
    statement(VOCAB_INSERT_SQL, binds)
}

/// Clearing the stored vocabulary.
pub const VOCAB_CLEAR_SQL: &'static str = "DELETE FROM vector_vocab";
/// Counting the stored vocabulary's words.
pub const VOCAB_COUNT_SQL: &'static str = "SELECT COUNT(*) as cnt FROM vector_vocab";
/// The stored vocabulary, by position.
pub const VOCAB_LOAD_SQL: &'static str = "SELECT word, idx FROM vector_vocab ORDER BY idx";

/// A step of getting the stored vocabulary.
#[derive(Debug, Clone, Copy, PartialEq, Eq)]
pub enum VocabStep {
    /// Clear it before a rebuild.
    Clear,
    /// Count its words.
    Count,
    /// Load it, by position.
    Load,
}

/// The text of each step's statement.
pub open spec fn vocab_step_sql(step: VocabStep) -> Seq<char> {
    match step {
        VocabStep::Clear => VOCAB_CLEAR_SQL@,
        VocabStep::Count => VOCAB_COUNT_SQL@,
        VocabStep::Load => VOCAB_LOAD_SQL@,
    }
}

/// The statement of a step; none of them binds anything.
pub fn vocab_statement(step: VocabStep) -> (s: Statement)
    ensures
        s@ == (vocab_step_sql(step), Seq::<BindValue>::empty()),
{
    let binds: Vec<Bind> = Vec::new();
    proof {
        assert(bind_values(binds@) =~= Seq::<BindValue>::empty());
    }
    let sql = match step {
        VocabStep::Clear => VOCAB_CLEAR_SQL,
        VocabStep::Count => VOCAB_COUNT_SQL,
        VocabStep::Load => VOCAB_LOAD_SQL,
    };
    statement(sql, binds)
}

} // verus!
