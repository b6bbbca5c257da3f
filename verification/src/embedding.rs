//! The integer side of the bag-of-words embedding: for each distinct token
//! that the vocabulary knows, its position in the vector and its count; and
//! the highest count, by which the counts are divided.

use vstd::prelude::*;
use crate::counting::{distinct_count, occurrences, tally, tally_of, Tally};
use crate::text::views;

verus! {

/// A vocabulary word and its position in the vector.
#[derive(Debug)]
pub struct VocabEntry {
    pub word: String,
    pub idx: i64,
}

/// The words of a vocabulary, in order.
pub open spec fn vocab_words(v: Seq<VocabEntry>) -> Seq<Seq<char>> {
    v.map_values(|e: VocabEntry| e.word@)
}

/// The position a vocabulary gives a word: that of its last entry, as later
/// entries replace earlier ones.
pub open spec fn vocab_index(v: Seq<VocabEntry>, w: Seq<char>) -> Option<i64>
    decreases v.len(),
{
    if v.len() == 0 {
        None
    } else if v.last().word@ == w {
        Some(v.last().idx)
    } else {
        vocab_index(v.drop_last(), w)
    }
}

/// One token's place and count in the embedding.
#[derive(Debug)]
pub struct WeightEntry {
    pub word: String,
    pub index: usize,
    pub count: u64,
}

/// The integer side of an embedding: the vector's length, the highest token
/// count, and the tokens the vocabulary places.
#[derive(Debug)]
pub struct Weights {
    pub dim: usize,
    pub max_count: u64,
    pub entries: Vec<WeightEntry>,
}

/// `max` is the highest count of a token of `ws`, or 1 when there are none.
pub open spec fn is_max_count(max: u64, ws: Seq<Seq<char>>) -> bool {
    &&& ws.len() == 0 ==> max == 1
    &&& ws.len() > 0 ==> exists|k: int| 0 <= k < ws.len() && occurrences(ws, #[trigger] ws[k]) == max
    &&& forall|k: int| 0 <= k < ws.len() ==> occurrences(ws, #[trigger] ws[k]) <= max
}

/// Whether the vocabulary places a word: it knows the word and, when
/// `bounded`, its position is within the vector.
pub open spec fn placed(v: Seq<VocabEntry>, w: Seq<char>, bounded: bool) -> bool {
    match vocab_index(v, w) {
        Some(i) => !bounded || (i as usize) < distinct_count(vocab_words(v)),
        None => false,
    }
}

/// `wt` is the embedding of tokens `ws` over vocabulary `v`: each distinct
/// token that `v` places is listed once, at the position `v` gives it and
/// with its count; nothing else is listed.
pub open spec fn is_weights(wt: Weights, ws: Seq<Seq<char>>, v: Seq<VocabEntry>, bounded: bool) -> bool {
    let es = wt.entries@;
    &&& wt.dim == distinct_count(vocab_words(v))
    &&& is_max_count(wt.max_count, ws)
    &&& forall|i: int, j: int| 0 <= i < j < es.len() ==> es[i].word@ != es[j].word@
    &&& forall|i: int| 0 <= i < es.len() ==> {
        &&& occurrences(ws, #[trigger] es[i].word@) > 0
        &&& placed(v, es[i].word@, bounded)
        &&& es[i].index == vocab_index(v, es[i].word@)->0 as usize
        &&& es[i].count == occurrences(ws, es[i].word@)
    }
    &&& forall|w: Seq<char>| #[trigger] occurrences(ws, w) > 0 && placed(v, w, bounded)
        ==> exists|i: int| 0 <= i < es.len() && es[i].word@ == w
}

/// Looks a word up in a vocabulary; the last entry of the word counts.
pub fn lookup(v: &Vec<VocabEntry>, w: &String) -> (r: Option<i64>)
    ensures
        r == vocab_index(v@, w@),
{
    let mut i = v.len();
    proof {
        assert(v@.take(i as int) =~= v@);
    }
    while i > 0
        invariant
            i <= v@.len(),
            vocab_index(v@, w@) == vocab_index(v@.take(i as int), w@),
        decreases i,
    {
        proof {
            assert(v@.take(i as int).drop_last() =~= v@.take(i - 1));
        }
        if v[i - 1].word == *w {
            return Some(v[i - 1].idx);
        }
        i -= 1;
    }
    proof {
        assert(v@.take(0) =~= Seq::<VocabEntry>::empty());
    }
    None
}

/// The number of distinct words of a vocabulary.
pub fn vocab_size(v: &Vec<VocabEntry>) -> (n: usize)
    ensures
        n == distinct_count(vocab_words(v@)),
{
    let mut words: Vec<String> = Vec::new();
    let n = v.len();
    let mut i: usize = 0;
    while i < n
        invariant
            n == v@.len(),
            i <= n,
            views(words@) == vocab_words(v@.take(i as int)),
        decreases n - i,
    {
        words.push(v[i].word.clone());
        proof {
            assert(vocab_words(v@.take((i + 1) as int)) =~= vocab_words(v@.take(i as int)).push(v@[i as int].word@));
            assert(views(words@) =~= vocab_words(v@.take((i + 1) as int)));
        }
        i += 1;
    }
    proof {
        assert(v@.take(n as int) =~= v@);
    }
    let t = tally(&words);
    let _m = t.words.len();
    t.words.len()
}

/// The highest count of a tally, or 1 when it is empty.
fn max_count(t: &Tally, Ghost(ws): Ghost<Seq<Seq<char>>>) -> (m: u64)
    requires
        tally_of(*t, ws),
    ensures
        is_max_count(m, ws),
{
    let n = t.counts.len();
    if n == 0 {
        proof {
            if ws.len() > 0 {
                assert(crate::counting::has_word(t.words@, ws[0]));
            }
        }
        return 1;
    }
    let mut m = t.counts[0];
    let mut best: usize = 0;
    let mut i: usize = 1;
    while i < n
        invariant
            n == t.counts@.len(),
            n == t.words@.len(),
            1 <= i <= n,
            best < i,
            m == t.counts@[best as int],
            forall|j: int| 0 <= j < i ==> t.counts@[j] <= m,
        decreases n - i,
    {
        if t.counts[i] > m {
            m = t.counts[i];
            best = i;
        }
        i += 1;
    }
    proof {
        assert(occurrences(ws, t.words@[best as int]@) > 0);
        crate::counting::lemma_occurs_somewhere(ws, t.words@[best as int]@);
        assert forall|k: int| 0 <= k < ws.len() implies occurrences(ws, #[trigger] ws[k]) <= m by {
            assert(crate::counting::has_word(t.words@, ws[k]));
            let j = choose|j: int| 0 <= j < t.words@.len() && #[trigger] t.words@[j]@ == ws[k];
            assert(t.counts@[j] == occurrences(ws, t.words@[j]@));
        }
    }
    m
}

/// The embedding weights of `tokens` over vocabulary `v`; when `bounded`,
/// a position beyond the vector leaves its token out.
pub fn weights(tokens: &Vec<String>, v: &Vec<VocabEntry>, bounded: bool) -> (wt: Weights)
    ensures
        is_weights(wt, views(tokens@), v@, bounded),
{
    let ghost ws = views(tokens@);
    let t = tally(tokens);
    let max_count = max_count(&t, Ghost(ws));
    let dim = vocab_size(v);
    let mut entries: Vec<WeightEntry> = Vec::new();
    let n = t.words.len();
    let mut i: usize = 0;
    while i < n
        invariant
            n == t.words@.len(),
            tally_of(t, ws),
            dim == distinct_count(vocab_words(v@)),
            i <= n,
            forall|a: int| 0 <= a < entries@.len() ==> exists|b: int| 0 <= b < i && #[trigger] entries@[a].word@ == #[trigger] t.words@[b]@,
            forall|a: int, b: int| 0 <= a < b < entries@.len() ==> entries@[a].word@ != entries@[b].word@,
            forall|a: int| 0 <= a < entries@.len() ==> {
                &&& occurrences(ws, #[trigger] entries@[a].word@) > 0
                &&& placed(v@, entries@[a].word@, bounded)
                &&& entries@[a].index == vocab_index(v@, entries@[a].word@)->0 as usize
                &&& entries@[a].count == occurrences(ws, entries@[a].word@)
            },
            forall|b: int| 0 <= b < i && placed(v@, #[trigger] t.words@[b]@, bounded)
                ==> exists|a: int| 0 <= a < entries@.len() && entries@[a].word@ == t.words@[b]@,
        decreases n - i,
    {
        let w = &t.words[i];
        match lookup(v, w) {
            Some(idx) => {
                let index = idx as usize;
                if !bounded || index < dim {
                    let ghost old_entries = entries@;
                    entries.push(WeightEntry { word: w.clone(), index, count: t.counts[i] });
                    proof {
                        let e = entries@.len() - 1;
                        assert forall|a: int| 0 <= a < entries@.len() implies exists|b: int| 0 <= b < i + 1 && #[trigger] entries@[a].word@ == #[trigger] t.words@[b]@ by {
                            if a == e {
                                assert(entries@[a].word@ == t.words@[i as int]@);
                            } else {
                                assert(entries@[a] == old_entries[a]);
                            }
                        }
                        assert forall|a: int, b: int| 0 <= a < b < entries@.len() implies entries@[a].word@ != entries@[b].word@ by {
                            if b == e {
                                assert(entries@[a] == old_entries[a]);
                                let bb = choose|bb: int| 0 <= bb < i && #[trigger] old_entries[a].word@ == #[trigger] t.words@[bb]@;
                                assert(t.words@[bb]@ != t.words@[i as int]@);
                            }
                        }
                        assert forall|b: int| 0 <= b < i + 1 && placed(v@, #[trigger] t.words@[b]@, bounded)
                            implies exists|a: int| 0 <= a < entries@.len() && entries@[a].word@ == t.words@[b]@ by {
                            if b == i {
                                assert(entries@[e].word@ == t.words@[b]@);
                            } else {
                                let a = choose|a: int| 0 <= a < old_entries.len() && old_entries[a].word@ == t.words@[b]@;
                                assert(entries@[a] == old_entries[a]);
                            }
                        }
                    }
                }
            },
            None => {},
        }
        i += 1;
    }
    proof {
        let es = entries@;
        assert forall|x: Seq<char>| #[trigger] occurrences(ws, x) > 0 && placed(v@, x, bounded)
            implies exists|a: int| 0 <= a < es.len() && es[a].word@ == x by {
            crate::counting::lemma_occurs_somewhere(ws, x);
            let k = choose|k: int| 0 <= k < ws.len() && ws[k] == x;
            assert(crate::counting::has_word(t.words@, ws[k]));
            let b = choose|b: int| 0 <= b < t.words@.len() && #[trigger] t.words@[b]@ == ws[k];
            assert(placed(v@, t.words@[b]@, bounded));
        }
    }
    Weights { dim, max_count, entries }
}

} // verus!
