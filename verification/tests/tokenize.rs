use zscm::handler::search_similar_combined;
use zscm::handler::vectorize_titles;

fn strings(v: &[&str]) -> Vec<String> {
    v.iter().map(|s| s.to_string()).collect()
}

#[test]
fn search_tokens_drop_stop_words() {
    assert_eq!(
        search_similar_combined::tokenize("今天的天气很好"),
        strings(&["今", "天", "天", "气", "很", "好"])
    );
}

#[test]
fn search_tokens_skip_two_character_stop_words() {
    assert_eq!(
        search_similar_combined::tokenize("我们可以走"),
        strings(&["我", "们", "走"])
    );
}

#[test]
fn search_tokens_keep_alphanumerics_and_drop_punctuation() {
    assert_eq!(
        search_similar_combined::tokenize("AI，5G!"),
        strings(&["A", "I", "5", "G"])
    );
}

#[test]
fn search_tokens_of_empty_text() {
    assert!(search_similar_combined::tokenize("").is_empty());
}

#[test]
fn title_tokens_keep_two_character_stop_words() {
    assert_eq!(
        vectorize_titles::tokenize("我们可以 go!"),
        strings(&["我", "们", "可以", "g", "o"])
    );
}

#[test]
fn title_tokens_keep_single_stop_words() {
    assert_eq!(
        vectorize_titles::tokenize("城市的发展"),
        strings(&["城", "市", "的", "发", "展"])
    );
}

#[test]
fn title_tokens_skip_whitespace_and_symbols() {
    assert_eq!(
        vectorize_titles::tokenize(" \t-《新》\n"),
        strings(&["新"])
    );
}

#[test]
fn whitespace_matches_the_standard_library() {
    for n in 0u32..=0x10ffff {
        if let Some(c) = char::from_u32(n) {
            assert_eq!(zscm::text::is_whitespace(c), c.is_whitespace(), "{:x}", n);
        }
    }
}

#[test]
fn a_space_splits_title_tokens() {
    let a = "可以看港";
    let b = "口，也";
    let joined = format!("{} {}", a, b);
    let mut both = zscm::handler::vectorize_titles::tokenize(a);
    both.extend(zscm::handler::vectorize_titles::tokenize(b));
    assert_eq!(zscm::handler::vectorize_titles::tokenize(&joined), both);
    // no two-character stop word spans the space
    assert_eq!(zscm::handler::vectorize_titles::tokenize("可 以"), vec!["可".to_string(), "以".to_string()]);
}

#[test]
fn search_tokens_are_title_tokens_without_stop_words() {
    let text = "我们可以在港口看到很多船 and 3 boats";
    let stop = |w: &String| {
        zscm::handler::search_similar_combined::tokenize(w).is_empty() && !w.is_empty()
    };
    let kept: Vec<String> =
        zscm::handler::vectorize_titles::tokenize(text).into_iter().filter(|w| !stop(w)).collect();
    assert_eq!(zscm::handler::search_similar_combined::tokenize(text), kept);
}

#[test]
fn alphanumeric_facts_hold_of_the_standard_library() {
    for n in 0u32..128 {
        let c = char::from_u32(n).unwrap();
        assert_eq!(c.is_alphanumeric(), c.is_ascii_alphanumeric(), "{:x}", n);
    }
    for n in 0u32..=0x10ffff {
        if let Some(c) = char::from_u32(n) {
            if c.is_whitespace() {
                assert!(!c.is_alphanumeric(), "{:x}", n);
            }
        }
    }
}

#[test]
fn a_latin_letter_is_one_search_token() {
    assert_eq!(zscm::handler::search_similar_combined::tokenize("a"), vec!["a".to_string()]);
    assert_eq!(zscm::handler::search_similar_combined::tokenize("a\u{3000}b"), vec!["a".to_string(), "b".to_string()]);
}
