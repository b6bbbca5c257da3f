//! Similar-article search: the query tokenizer and the integer side of the
//! bag-of-words embedding.

use vstd::prelude::*;
use crate::counting::occurrences;
use crate::handler::statement::{bind_values, statement, Bind, BindValue, Statement};
use crate::embedding::{is_weights, placed, vocab_index, weights, VocabEntry, Weights};
use crate::web::{Reason, WebErr};
use crate::stop_words::{is_stop_char, is_stop_pair, stop_char, stop_pair};
use crate::text::{
    char_is_alphanumeric, chars_of, cjk, is_alphanumeric, is_cjk, string_of_char, views,
};

verus! {

/// A character that can start a token: alphanumeric or a CJK ideograph.
pub open spec fn is_word_char(c: char) -> bool {
    char_is_alphanumeric(c) || is_cjk(c)
}

/// The tokens of `cs` from position `i` on. Characters that cannot start a
/// token are skipped; a two-character stop word is skipped whole; every other
/// word character is a token of its own unless it is a one-character stop word.
pub open spec fn tokens_from(cs: Seq<char>, i: nat) -> Seq<Seq<char>>
    decreases cs.len() - i,
{
    if i >= cs.len() {
        seq![]
    } else if !is_word_char(cs[i as int]) {
        tokens_from(cs, i + 1)
    } else if i + 1 < cs.len() && is_stop_pair(cs[i as int], cs[(i + 1) as int]) {
        tokens_from(cs, i + 2)
    } else if is_stop_char(cs[i as int]) {
        tokens_from(cs, i + 1)
    } else {
        seq![seq![cs[i as int]]] + tokens_from(cs, i + 1)
    }
}

/// The tokens of a whole text.
pub open spec fn spec_tokenize(text: Seq<char>) -> Seq<Seq<char>> {
    tokens_from(text, 0)
}

/// Splits `text` into the single-character tokens that the search compares,
/// leaving out stop words and characters that are neither alphanumeric nor CJK.
pub fn tokenize(text: &str) -> (tokens: Vec<String>)
    ensures
        views(tokens@) == spec_tokenize(text@),
{
    let chars = chars_of(text);
    let n = chars.len();
    let mut tokens: Vec<String> = Vec::new();
    let mut i: usize = 0;
    while i < n
        invariant
            n == chars@.len(),
            chars@ == text@,
            i <= n,
            views(tokens@) + tokens_from(chars@, i as nat) == spec_tokenize(text@),
        decreases n - i,
    {
        let c = chars[i];
        if !is_alphanumeric(c) && !cjk(c) {
            i += 1;
            continue;
        }
        if i + 1 < n && stop_pair(c, chars[i + 1]) {
            i += 2;
            continue;
        }
        if !stop_char(c) {
            let ghost before = tokens@;
            tokens.push(string_of_char(c));
            proof {
                assert(views(tokens@) == views(before) + seq![seq![c]]);
                assert(views(before) + tokens_from(chars@, i as nat) == views(before) + (seq![seq![c]] + tokens_from(chars@, (i + 1) as nat)));
            }
        }
        i += 1;
    }
    proof {
        assert(views(tokens@) + seq![] =~= views(tokens@));
    }
    tokens
}

/// The similar-article search endpoint.
pub struct SearchSimilarCombined;

/// A vocabulary row: a word and its position in the vector.
#[derive(Debug)]
pub struct VectorVocab {
    pub word: String,
    pub idx: i32,
}

/// The text of an optional string, empty when absent.
pub open spec fn text_or_empty(o: Option<String>) -> Seq<char> {
    match o {
        Some(s) => s@,
        None => seq![],
    }
}

/// The title and content to search by, absent ones empty; refused when both
/// are empty.
pub fn search_texts(title: Option<String>, content: Option<String>) -> (r: Result<(String, String), WebErr>)
    ensures
        text_or_empty(title).len() == 0 && text_or_empty(content).len() == 0
            ==> r == Err::<(String, String), WebErr>(WebErr { reason: Reason::TitleOrContentRequired }),
        !(text_or_empty(title).len() == 0 && text_or_empty(content).len() == 0) ==> (r matches Ok(p)
            && p.0@ == text_or_empty(title) && p.1@ == text_or_empty(content)),
{
    let t = match title {
        Some(s) => s,
        None => String::new(),
    };
    let c = match content {
        Some(s) => s,
        None => String::new(),
    };
    if t.as_str().is_empty() && c.as_str().is_empty() {
        Err(WebErr::new(Reason::TitleOrContentRequired))
    } else {
        Ok((t, c))
    }
}

/// How many results a search keeps: `limit`, 10 when absent, taken as an
/// unsigned size (so a negative limit keeps all).
pub fn result_limit(limit: Option<i32>) -> (n: usize)
    ensures
        n == (match limit {
            Some(l) => l,
            None => 10i32,
        }) as usize,
{
    let l = match limit {
        Some(l) => l,
        None => 10,
    };
    #[verifier::truncate] (l as usize)
}

/// A vocabulary row as an entry.
pub open spec fn entry_of(v: VectorVocab) -> (Seq<char>, i64) {
    (v.word@, v.idx as i64)
}

/// The vocabulary entries of the rows, in order.
pub fn vocab_entries(rows: &Vec<VectorVocab>) -> (v: Vec<VocabEntry>)
    ensures
        v@.len() == rows@.len(),
        forall|k: int| 0 <= k < rows@.len() ==> (#[trigger] v@[k]).word@ == rows@[k].word@ && v@[k].idx == rows@[k].idx as i64,
{
    let mut v: Vec<VocabEntry> = Vec::new();
    let n = rows.len();
    let mut i: usize = 0;
    while i < n
        invariant
            n == rows@.len(),
            i <= n,
            v@.len() == i,
            forall|k: int| 0 <= k < i ==> (#[trigger] v@[k]).word@ == rows@[k].word@ && v@[k].idx == rows@[k].idx as i64,
        decreases n - i,
    {
        v.push(VocabEntry { word: rows[i].word.clone(), idx: rows[i].idx as i64 });
        i += 1;
    }
    v
}

/// Every position the vocabulary gives a token of `ws` lies within the
/// vector, whose length is the number of distinct vocabulary words.
pub open spec fn positions_fit(ws: Seq<Seq<char>>, v: Seq<VocabEntry>) -> bool {
    forall|w: Seq<char>| #[trigger] occurrences(ws, w) > 0 && vocab_index(v, w) is Some ==> placed(v, w, true)
}

/// The embedding weights of a search text over a vocabulary. Every position
/// the vocabulary gives a token of the text must lie within the vector: the
/// vector is filled at those positions.
pub fn search_weights(text: &str, vocab: &Vec<VocabEntry>) -> (wt: Weights)
    requires
        positions_fit(spec_tokenize(text@), vocab@),
    ensures
        is_weights(wt, spec_tokenize(text@), vocab@, false),
        forall|i: int| 0 <= i < wt.entries@.len() ==> #[trigger] wt.entries@[i].index < wt.dim,
{
    let tokens = tokenize(text);
    let wt = weights(&tokens, vocab, false);
    proof {
        assert forall|i: int| 0 <= i < wt.entries@.len() implies #[trigger] wt.entries@[i].index < wt.dim by {
            assert(occurrences(spec_tokenize(text@), wt.entries@[i].word@) > 0);
        }
    }
    wt
}

/// Whether every position the vocabulary gives a token of the text lies
/// within the vector.
fn fits(text: &str, vocab: &Vec<VocabEntry>) -> (b: bool)
    ensures
        b == positions_fit(spec_tokenize(text@), vocab@),
{
    let ghost ws = spec_tokenize(text@);
    let tokens = tokenize(text);
    let wt = weights(&tokens, vocab, false);
    let n = wt.entries.len();
    let mut i: usize = 0;
    while i < n
        invariant
            n == wt.entries@.len(),
            i <= n,
            ws == spec_tokenize(text@),
            is_weights(wt, ws, vocab@, false),
            forall|a: int| 0 <= a < i ==> #[trigger] wt.entries@[a].index < wt.dim,
        decreases n - i,
    {
        if wt.entries[i].index >= wt.dim {
            proof {
                let w = wt.entries@[i as int].word@;
                assert(occurrences(ws, w) > 0);
                assert(!placed(vocab@, w, true));
            }
            return false;
        }
        i += 1;
    }
    proof {
        assert forall|w: Seq<char>| #[trigger] occurrences(ws, w) > 0 && vocab_index(vocab@, w) is Some implies placed(vocab@, w, true) by {
            assert(placed(vocab@, w, false));
            let a = choose|a: int| 0 <= a < wt.entries@.len() && wt.entries@[a].word@ == w;
            assert(occurrences(ws, wt.entries@[a].word@) > 0);
            assert(wt.entries@[a].index < wt.dim);
        }
    }
    true
}

/// The embedding weights of a search text, when every position the
/// vocabulary gives its tokens lies within the vector; `None` otherwise.
pub fn checked_search_weights(text: &str, vocab: &Vec<VocabEntry>) -> (r: Option<Weights>)
    ensures
        r is Some <==> positions_fit(spec_tokenize(text@), vocab@),
        r matches Some(wt) ==> is_weights(wt, spec_tokenize(text@), vocab@, false),
        r matches Some(wt) ==> forall|i: int| 0 <= i < wt.entries@.len() ==> #[trigger] wt.entries@[i].index < wt.dim,
{
    if fits(text, vocab) {
        Some(search_weights(text, vocab))
    } else {
        None
    }
}

/// The title vocabulary of a newspaper database, by position.
pub const TITLE_VOCAB_SQL: &'static str = "SELECT word, idx FROM newspaper_vector_vocab ORDER BY idx";
/// The content vocabulary of a newspaper database, by position.
pub const CONTENT_VOCAB_SQL: &'static str = "SELECT word, idx FROM newspaper_content_vocab ORDER BY idx";
/// The stored title vectors with their articles' issue and page.
pub const TITLE_VECTORS_SQL: &'static str = r#"
                SELECT 
                    ntv.id, ntv.article_id, ntv.title as text, ntv.vector,
                    ni.publication_date,
                    np.page_number, np.page_info, np.url
                FROM newspaper_title_vector ntv
                JOIN newspaper_articles na ON ntv.article_id = na.id
                JOIN newspaper_pages np ON na.page_id = np.id
                JOIN newspaper_issues ni ON np.issue_id = ni.id
                "#;
/// The stored content vectors with their articles' issue and page.
pub const CONTENT_VECTORS_SQL: &'static str = r#"
                SELECT 
                    ncv.id, ncv.article_id, ncv.content as text, ncv.vector,
                    ni.publication_date,
                    np.page_number, np.page_info, np.url
                FROM newspaper_content_vector ncv
                JOIN newspaper_articles na ON ncv.article_id = na.id
                JOIN newspaper_pages np ON na.page_id = np.id
                JOIN newspaper_issues ni ON np.issue_id = ni.id
                "#;

/// The two queries of a search by title or by content: its vocabulary, then
/// the stored vectors it is compared with; neither binds anything.
pub open spec fn spec_search_queries(by_title: bool) -> (Seq<char>, Seq<char>) {
    if by_title { (TITLE_VOCAB_SQL@, TITLE_VECTORS_SQL@) } else { (CONTENT_VOCAB_SQL@, CONTENT_VECTORS_SQL@) }
}

/// Builds the two queries of a search by title or by content.
pub fn search_queries(by_title: bool) -> (q: (Statement, Statement))
    ensures
        q.0@ == (spec_search_queries(by_title).0, Seq::<BindValue>::empty()),
        q.1@ == (spec_search_queries(by_title).1, Seq::<BindValue>::empty()),
{
    let b0: Vec<Bind> = Vec::new();
    let b1: Vec<Bind> = Vec::new();
    proof {
        assert(bind_values(b0@) =~= Seq::<BindValue>::empty());
        assert(bind_values(b1@) =~= Seq::<BindValue>::empty());
    }
    if by_title {
        (statement(TITLE_VOCAB_SQL, b0), statement(TITLE_VECTORS_SQL, b1))
    } else {
        (statement(CONTENT_VOCAB_SQL, b0), statement(CONTENT_VECTORS_SQL, b1))
    }
}

} // verus!
