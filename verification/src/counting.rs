//! Counting the words of a token list, and ranking them by count.

use vstd::prelude::*;

verus! {

/// How often `w` occurs in `ws`.
pub open spec fn occurrences(ws: Seq<Seq<char>>, w: Seq<char>) -> nat
    decreases ws.len(),
{
    if ws.len() == 0 {
        0
    } else {
        occurrences(ws.drop_last(), w) + if ws.last() == w { 1nat } else { 0nat }
    }
}

/// The distinct words of a token list with their counts.
pub struct Tally {
    pub words: Vec<String>,
    pub counts: Vec<u64>,
}

/// The number of distinct words in `ws`.
pub open spec fn distinct_count(ws: Seq<Seq<char>>) -> nat
    decreases ws.len(),
{
    if ws.len() == 0 {
        0
    } else {
        distinct_count(ws.drop_last()) + if ws.drop_last().contains(ws.last()) { 0nat } else { 1nat }
    }
}

/// Whether `w` is among `words`.
pub open spec fn has_word(words: Seq<String>, w: Seq<char>) -> bool {
    exists|i: int| 0 <= i < words.len() && #[trigger] words[i]@ == w
}

/// `t` lists each word of `ws` once, with its number of occurrences.
pub open spec fn tally_of(t: Tally, ws: Seq<Seq<char>>) -> bool {
    &&& t.words@.len() == t.counts@.len()
    &&& t.words@.len() == distinct_count(ws)
    &&& forall|i: int, j: int| 0 <= i < j < t.words@.len() ==> t.words@[i]@ != t.words@[j]@
    &&& forall|i: int| 0 <= i < t.words@.len() ==> #[trigger] t.counts@[i] == occurrences(ws, t.words@[i]@)
    &&& forall|i: int| 0 <= i < t.words@.len() ==> occurrences(ws, #[trigger] t.words@[i]@) > 0
    &&& forall|k: int| 0 <= k < ws.len() ==> has_word(t.words@, #[trigger] ws[k])
}

proof fn lemma_occurrences_push(ws: Seq<Seq<char>>, x: Seq<char>, w: Seq<char>)
    ensures
        occurrences(ws.push(x), w) == occurrences(ws, w) + if x == w { 1nat } else { 0nat },
{
    assert(ws.push(x).drop_last() =~= ws);
}

/// The position of `w` among `words`, if it is there.
fn find_word(words: &Vec<String>, w: &String) -> (r: Option<usize>)
    ensures
        r matches Some(i) ==> i < words@.len() && words@[i as int]@ == w@,
        r is None ==> forall|i: int| 0 <= i < words@.len() ==> #[trigger] words@[i]@ != w@,
{
    let n = words.len();
    let mut i: usize = 0;
    while i < n
        invariant
            n == words@.len(),
            i <= n,
            forall|j: int| 0 <= j < i ==> #[trigger] words@[j]@ != w@,
        decreases n - i,
    {
        if words[i] == *w {
            return Some(i);
        }
        i += 1;
    }
    None
}

/// Adds the words of `tokens` to a tally of the words before them.
pub(crate) fn tally_add(t: &mut Tally, tokens: &Vec<String>, Ghost(before): Ghost<Seq<Seq<char>>>)
    requires
        tally_of(*old(t), before),
        before.len() + tokens@.len() <= u64::MAX,
    ensures
        tally_of(*final(t), before + crate::text::views(tokens@)),
{
    let n = tokens.len();
    let ghost toks = crate::text::views(tokens@);
    let mut k: usize = 0;
    while k < n
        invariant
            n == tokens@.len(),
            toks == crate::text::views(tokens@),
            k <= n,
            before.len() + n <= u64::MAX,
            tally_of(*t, before + toks.take(k as int)),
        decreases n - k,
    {
        let ghost prev = before + toks.take(k as int);
        let ghost x = tokens@[k as int]@;
        proof {
            assert(before + toks.take((k + 1) as int) =~= prev.push(x));
            assert forall|w: Seq<char>| #[trigger] occurrences(prev.push(x), w) == occurrences(prev, w) + if x == w { 1nat } else { 0nat } by {
                lemma_occurrences_push(prev, x, w);
            }
            assert(prev.push(x).drop_last() =~= prev);
            lemma_occurrences_contains(prev, x);
        }
        let ghost old_words = t.words@;
        proof {
            assert(tally_of(*t, prev));
            assert forall|kk: int| 0 <= kk < prev.len() implies has_word(old_words, #[trigger] prev[kk]) by {
                assert(has_word(t.words@, prev[kk]));
            }
        }
        match find_word(&t.words, &tokens[k]) {
            Some(i) => {
                proof {
                    lemma_occurrences_bound(prev, t.words@[i as int]@);
                }
                let c = t.counts[i];
                t.counts.set(i, c + 1);
                proof {
                    let cur = prev.push(x);
                    assert forall|kk: int| 0 <= kk < cur.len() implies has_word(t.words@, #[trigger] cur[kk]) by {
                        if kk == prev.len() {
                            assert(t.words@[i as int]@ == cur[kk]);
                        } else {
                            assert(cur[kk] == prev[kk]);
                            assert(has_word(old_words, prev[kk]));
                            let j = choose|j: int| 0 <= j < old_words.len() && #[trigger] old_words[j]@ == prev[kk];
                            assert(t.words@[j]@ == cur[kk]);
                        }
                    }
                }
            },
            None => {
                t.words.push(tokens[k].clone());
                t.counts.push(1);
                proof {
                    let cur = prev.push(x);
                    let m = t.words@.len() - 1;
                    assert(occurrences(prev, x) == 0) by {
                        if occurrences(prev, x) > 0 {
                            lemma_occurs_somewhere(prev, x);
                        }
                    }
                    assert forall|kk: int| 0 <= kk < cur.len() implies has_word(t.words@, #[trigger] cur[kk]) by {
                        if kk == prev.len() {
                            assert(t.words@[m]@ == cur[kk]);
                        } else {
                            assert(cur[kk] == prev[kk]);
                            assert(has_word(old_words, prev[kk]));
                            let j = choose|j: int| 0 <= j < old_words.len() && #[trigger] old_words[j]@ == prev[kk];
                            assert(t.words@[j] == old_words[j]);
                            assert(t.words@[j]@ == cur[kk]);
                        }
                    }
                }
            },
        }
        proof {
            assert(tally_of(*t, prev.push(x)));
        }
        k += 1;
    }
    proof {
        assert(toks.take(n as int) =~= toks);
    }
}

proof fn lemma_occurrences_contains(ws: Seq<Seq<char>>, w: Seq<char>)
    ensures
        occurrences(ws, w) > 0 <==> ws.contains(w),
    decreases ws.len(),
{
    if ws.len() > 0 {
        lemma_occurrences_contains(ws.drop_last(), w);
        if ws.drop_last().contains(w) {
            let k = choose|k: int| 0 <= k < ws.drop_last().len() && ws.drop_last()[k] == w;
            assert(ws[k] == w);
        }
        if ws.contains(w) && ws.last() != w {
            let k = choose|k: int| 0 <= k < ws.len() && ws[k] == w;
            assert(ws.drop_last()[k] == w);
        }
    }
}

proof fn lemma_occurrences_bound(ws: Seq<Seq<char>>, w: Seq<char>)
    ensures
        occurrences(ws, w) <= ws.len(),
    decreases ws.len(),
{
    if ws.len() > 0 {
        lemma_occurrences_bound(ws.drop_last(), w);
    }
}

/// A word that occurs in a token list stands at some position of it.
pub proof fn lemma_occurs_somewhere(ws: Seq<Seq<char>>, w: Seq<char>)
    requires
        occurrences(ws, w) > 0,
    ensures
        exists|k: int| 0 <= k < ws.len() && ws[k] == w,
    decreases ws.len(),
{
    if ws.last() != w {
        lemma_occurs_somewhere(ws.drop_last(), w);
        let k = choose|k: int| 0 <= k < ws.len() - 1 && ws.drop_last()[k] == w;
        assert(ws[k] == w);
    } else {
        assert(ws[ws.len() - 1] == w);
    }
}

/// An empty tally.
pub fn empty_tally() -> (t: Tally)
    ensures
        tally_of(t, seq![]),
{
    Tally { words: Vec::new(), counts: Vec::new() }
}

/// The words of `tokens`, each once, with its count.
pub fn tally(tokens: &Vec<String>) -> (t: Tally)
    ensures
        tally_of(t, crate::text::views(tokens@)),
{
    let mut t = empty_tally();
    let _n = tokens.len();
    proof {
        assert(seq![] + crate::text::views(tokens@) =~= crate::text::views(tokens@));
    }
    tally_add(&mut t, tokens, Ghost(Seq::<Seq<char>>::empty()));
    t
}

/// `r` ranks positions of `counts` from the highest count down: at most
/// `limit` distinct positions, counts never rising along `r`, every position
/// left out counting no more than any ranked one, and all positions ranked
/// when fewer than `limit` are.
pub open spec fn is_ranking(r: Seq<usize>, counts: Seq<u64>, limit: nat) -> bool {
    &&& r.len() <= limit
    &&& forall|k: int| 0 <= k < r.len() ==> #[trigger] r[k] < counts.len()
    &&& forall|i: int, j: int| 0 <= i < j < r.len() ==> r[i] != r[j]
    &&& forall|i: int, j: int| 0 <= i < j < r.len() ==> counts[r[i] as int] >= counts[r[j] as int]
    &&& forall|p: int, k: int| 0 <= p < counts.len() && !r.contains(p as usize) && 0 <= k < r.len()
        ==> #[trigger] counts[p] <= counts[#[trigger] r[k] as int]
    &&& r.len() < limit ==> forall|p: usize| p < counts.len() ==> #[trigger] r.contains(p)
}

/// Ranks the positions of `counts` by count, highest first, keeping at most
/// `limit`; among equal counts the earlier position comes first.
pub fn rank_by_count(counts: &Vec<u64>, limit: usize) -> (r: Vec<usize>)
    ensures
        is_ranking(r@, counts@, limit as nat),
{
    let n = counts.len();
    let mut taken: Vec<bool> = vec![false; n];
    let mut out: Vec<usize> = Vec::new();
    let mut done = false;
    while out.len() < limit && !done
        invariant
            n == counts@.len(),
            taken@.len() == n,
            out@.len() <= limit,
            forall|p: int| 0 <= p < n ==> (#[trigger] taken@[p] <==> out@.contains(p as usize)),
            forall|k: int| 0 <= k < out@.len() ==> #[trigger] out@[k] < n,
            forall|i: int, j: int| 0 <= i < j < out@.len() ==> out@[i] != out@[j],
            forall|i: int, j: int| 0 <= i < j < out@.len() ==> counts@[out@[i] as int] >= counts@[out@[j] as int],
            forall|p: int, k: int| 0 <= p < n && !taken@[p] && 0 <= k < out@.len()
                ==> #[trigger] counts@[p] <= counts@[#[trigger] out@[k] as int],
            done ==> forall|p: int| 0 <= p < n ==> taken@[p],
        decreases limit - out@.len(), if done { 0int } else { 1int },
    {
        let mut best: Option<usize> = None;
        let mut j: usize = 0;
        while j < n
            invariant
                n == counts@.len(),
                taken@.len() == n,
                j <= n,
                best matches Some(b) ==> b < j && !taken@[b as int],
                best matches Some(b) ==> forall|p: int| 0 <= p < j && !taken@[p] ==> counts@[p] <= counts@[b as int],
                best is None ==> forall|p: int| 0 <= p < j ==> taken@[p],
            decreases n - j,
        {
            if !taken[j] {
                match best {
                    None => best = Some(j),
                    Some(b) => if counts[j] > counts[b] {
                        best = Some(j);
                    },
                }
            }
            j += 1;
        }
        match best {
            None => {
                done = true;
            },
            Some(b) => {
                let ghost old_out = out@;
                let ghost old_taken = taken@;
                taken.set(b, true);
                out.push(b);
                proof {
                    assert forall|p: int| 0 <= p < n implies (#[trigger] taken@[p] <==> out@.contains(p as usize)) by {
                        if p == b as int {
                            assert(out@[out@.len() - 1] == b);
                        } else {
                            assert(taken@[p] == old_taken[p]);
                            if old_out.contains(p as usize) {
                                let k = choose|k: int| 0 <= k < old_out.len() && old_out[k] == p as usize;
                                assert(out@[k] == p as usize);
                            }
                            if out@.contains(p as usize) {
                                let k = choose|k: int| 0 <= k < out@.len() && out@[k] == p as usize;
                                assert(k < old_out.len());
                                assert(old_out[k] == p as usize);
                            }
                        }
                    }
                    assert forall|i: int, jj: int| 0 <= i < jj < out@.len() implies out@[i] != out@[jj] by {
                        if jj == out@.len() - 1 {
                            assert(old_taken[b as int] == false);
                            assert(!old_out.contains(b));
                            assert(old_out[i] == out@[i]);
                        }
                    }
                }
            },
        }
    }
    proof {
        assert forall|p: int, k: int| 0 <= p < counts@.len() && !out@.contains(p as usize) && 0 <= k < out@.len()
            implies #[trigger] counts@[p] <= counts@[#[trigger] out@[k] as int] by {
            assert(!taken@[p]);
        }
        if out@.len() < limit {
            assert forall|p: usize| p < counts@.len() implies #[trigger] out@.contains(p) by {
                assert(taken@[p as int]);
            }
        }
    }
    out
}

/// `top` holds the most frequent words of `ws`, most frequent first: at most
/// `limit` distinct words that occur, counts never rising along `top`, every
/// word left out occurring no more often than any word kept, and every word
/// kept when fewer than `limit` are.
pub open spec fn is_top_words(top: Seq<Seq<char>>, ws: Seq<Seq<char>>, limit: nat) -> bool {
    &&& top.len() <= limit
    &&& forall|i: int, j: int| 0 <= i < j < top.len() ==> top[i] != top[j]
    &&& forall|k: int| 0 <= k < top.len() ==> occurrences(ws, #[trigger] top[k]) > 0
    &&& forall|i: int, j: int| 0 <= i < j < top.len() ==> occurrences(ws, #[trigger] top[i]) >= occurrences(ws, #[trigger] top[j])
    &&& forall|w: Seq<char>, k: int| occurrences(ws, w) > 0 && !top.contains(w) && 0 <= k < top.len()
        ==> #[trigger] occurrences(ws, w) <= occurrences(ws, #[trigger] top[k])
    &&& top.len() < limit ==> forall|w: Seq<char>| #[trigger] occurrences(ws, w) > 0 ==> top.contains(w)
}

/// The words of a tally at the ranked positions.
pub open spec fn ranked_words(words: Seq<String>, r: Seq<usize>) -> Seq<Seq<char>> {
    r.map_values(|i: usize| words[i as int]@)
}

/// A ranking of a tally's counts gives the most frequent words.
pub proof fn lemma_ranked_tally(t: Tally, ws: Seq<Seq<char>>, r: Seq<usize>, limit: nat)
    requires
        tally_of(t, ws),
        is_ranking(r, t.counts@, limit),
        t.words@.len() <= usize::MAX,
    ensures
        is_top_words(ranked_words(t.words@, r), ws, limit),
{
    let top = ranked_words(t.words@, r);
    let words = t.words@;
    assert forall|i: int, j: int| 0 <= i < j < top.len() implies top[i] != top[j] by {
        assert(r[i] != r[j]);
    }
    assert forall|i: int, j: int| 0 <= i < j < top.len() implies occurrences(ws, #[trigger] top[i]) >= occurrences(ws, #[trigger] top[j]) by {
        assert(t.counts@[r[i] as int] == occurrences(ws, words[r[i] as int]@));
        assert(t.counts@[r[j] as int] == occurrences(ws, words[r[j] as int]@));
    }
    assert forall|k: int| 0 <= k < top.len() implies occurrences(ws, #[trigger] top[k]) > 0 by {
        assert(r[k] < words.len());
    }
    assert forall|w: Seq<char>| #[trigger] occurrences(ws, w) > 0 implies exists|p: int| 0 <= p < words.len() && words[p]@ == w by {
        lemma_occurs_somewhere(ws, w);
        let k = choose|k: int| 0 <= k < ws.len() && ws[k] == w;
        assert(has_word(words, ws[k]));
    }
    assert forall|w: Seq<char>, k: int| occurrences(ws, w) > 0 && !top.contains(w) && 0 <= k < top.len()
        implies #[trigger] occurrences(ws, w) <= occurrences(ws, #[trigger] top[k]) by {
        let p = choose|p: int| 0 <= p < words.len() && words[p]@ == w;
        if r.contains(p as usize) {
            let q = choose|q: int| 0 <= q < r.len() && r[q] == p as usize;
            assert(top[q] == w);
        }
        assert(t.counts@[p] == occurrences(ws, w));
        assert(t.counts@[r[k] as int] == occurrences(ws, top[k]));
        assert(t.counts@[p] <= t.counts@[r[k] as int]);
    }
    if top.len() < limit {
        assert forall|w: Seq<char>| #[trigger] occurrences(ws, w) > 0 implies top.contains(w) by {
            let p = choose|p: int| 0 <= p < words.len() && words[p]@ == w;
            assert(r.contains((p as usize)));
            let q = choose|q: int| 0 <= q < r.len() && r[q] == p as usize;
            assert(top[q] == w);
        }
    }
}

} // verus!
