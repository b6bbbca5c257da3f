use zscm::embedding::VocabEntry;
use zscm::handler::search_similar_combined::{
    checked_search_weights, result_limit, search_texts, search_weights, vocab_entries, VectorVocab,
};
use zscm::handler::vectorize_titles::{
    build_vocab_entries, done_message, pending_titles_sql, title_weights, vectorize_flags, vocab_source,
    VectorizeTitlesReq, VocabSource,
};
use zscm::web::Reason;

fn entry(word: &str, idx: i64) -> VocabEntry {
    VocabEntry { word: word.to_string(), idx }
}

#[test]
fn vocabulary_ranks_words_by_count() {
    let titles = vec!["港口港口".to_string(), "新港".to_string(), "口".to_string()];
    let v = build_vocab_entries(&titles);
    let words: Vec<&str> = v.iter().map(|e| e.word.as_str()).collect();
    assert_eq!(words, vec!["港", "口", "新"]);
    let idx: Vec<i64> = v.iter().map(|e| e.idx).collect();
    assert_eq!(idx, vec![0, 1, 2]);
}

#[test]
fn vocabulary_ties_keep_first_appearance() {
    let titles = vec!["甲乙丙".to_string()];
    let v = build_vocab_entries(&titles);
    let words: Vec<&str> = v.iter().map(|e| e.word.as_str()).collect();
    assert_eq!(words, vec!["甲", "乙", "丙"]);
    assert!(build_vocab_entries(&vec![]).is_empty());
}

#[test]
fn title_weights_count_known_tokens() {
    let vocab = vec![entry("港", 0), entry("口", 1), entry("城", 5)];
    let w = title_weights("港口港城海", &vocab);
    assert_eq!(w.dim, 3);
    assert_eq!(w.max_count, 2);
    let mut e: Vec<(String, usize, u64)> = w.entries.iter().map(|e| (e.word.clone(), e.index, e.count)).collect();
    e.sort();
    // 城 sits beyond the vector and 海 is unknown: both are left out
    assert_eq!(e, vec![("口".to_string(), 1, 1), ("港".to_string(), 0, 2)]);
}

#[test]
fn later_vocabulary_rows_win() {
    let vocab = vec![entry("港", 0), entry("港", 1)];
    let w = title_weights("港", &vocab);
    assert_eq!(w.dim, 1);
    assert!(w.entries.is_empty());
    // the search fills the vector at position 1, beyond its length 1
    assert!(checked_search_weights("港", &vocab).is_none());
    let vocab = vec![entry("港", 1), entry("口", 0)];
    let w = search_weights("港", &vocab);
    assert_eq!(w.entries.len(), 1);
    assert_eq!(w.entries[0].index, 1);
}

#[test]
fn weights_of_text_without_tokens() {
    let w = search_weights("。。", &vec![]);
    assert_eq!(w.max_count, 1);
    assert_eq!(w.dim, 0);
    assert!(w.entries.is_empty());
}

#[test]
fn search_rows_become_entries() {
    let rows = vec![VectorVocab { word: "港".to_string(), idx: 3 }, VectorVocab { word: "口".to_string(), idx: -1 }];
    let v = vocab_entries(&rows);
    assert_eq!(v.len(), 2);
    assert_eq!(v[1].idx, -1);
    // positions 3 and -1 lie outside a vector of two
    assert!(checked_search_weights("港口", &v).is_none());
    assert!(checked_search_weights("海", &v).is_some());
    let rows = vec![VectorVocab { word: "港".to_string(), idx: 1 }, VectorVocab { word: "口".to_string(), idx: 0 }];
    let w = checked_search_weights("港口港", &vocab_entries(&rows)).unwrap();
    let mut e: Vec<(usize, u64)> = w.entries.iter().map(|e| (e.index, e.count)).collect();
    e.sort();
    assert_eq!(e, vec![(0, 1), (1, 2)]);
    assert_eq!(w.max_count, 2);
}

#[test]
fn search_needs_a_title_or_content() {
    assert!(matches!(search_texts(None, Some(String::new())).unwrap_err().reason, Reason::TitleOrContentRequired));
    assert_eq!(search_texts(None, None).unwrap_err().message(), "Either title or content must be provided");
    let (t, c) = search_texts(Some("桥".to_string()), None).unwrap();
    assert_eq!((t.as_str(), c.as_str()), ("桥", ""));
}

#[test]
fn search_limit_defaults_to_ten() {
    assert_eq!(result_limit(None), 10);
    assert_eq!(result_limit(Some(3)), 3);
    assert_eq!(result_limit(Some(-1)), usize::MAX);
}

#[test]
fn vectorizing_queries_and_messages() {
    assert_eq!(
        pending_titles_sql(false),
        "SELECT a.id, a.title FROM article a WHERE a.tv_or_paper != 0 AND a.tv_or_paper != 2 AND a.id NOT IN (SELECT article_id FROM title_vector) ORDER BY a.id"
    );
    assert_eq!(
        pending_titles_sql(true),
        "SELECT a.id, a.title FROM article a WHERE a.tv_or_paper != 0 AND a.tv_or_paper != 2 ORDER BY a.id"
    );
    assert_eq!(done_message(12), "向量化完成，共处理 12 条");
    assert_eq!(vocab_source(true, 5), VocabSource::Rebuild);
    assert_eq!(vocab_source(false, 5), VocabSource::Load);
    assert_eq!(vocab_source(false, 0), VocabSource::Build);
    assert_eq!(vectorize_flags(None), (false, false));
    assert_eq!(vectorize_flags(Some(VectorizeTitlesReq { force: Some(true), rebuild_vocab: None })), (true, false));
}
