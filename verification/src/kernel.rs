//! The search kernel: it owns the plugins, forwards selection and shutdown
//! notices to them, and merges their answers into one ranked list.
//!
//! Collecting the answers is asynchronous and happens outside this crate; the
//! kernel receives one outcome per plugin (`None` for a plugin that failed)
//! and ranks them: all results, highest score first, ties kept in plugin
//! order and then in the order each plugin gave them, cut at `max_results`.

use vstd::prelude::*;

use crate::domain::{ResultId, SearchResult};

verus! {

/// The score of a result, as a number.
pub open spec fn score_of(r: SearchResult) -> u32 {
    r.score@
}

/// What one plugin contributes: its results, or nothing if it failed.
pub open spec fn contribution(outcome: Option<Vec<SearchResult>>) -> Seq<SearchResult> {
    match outcome {
        Some(v) => v@,
        None => Seq::empty(),
    }
}

/// All results of all plugins, in plugin order.
pub open spec fn flatten(outcomes: Seq<Option<Vec<SearchResult>>>) -> Seq<SearchResult>
    decreases outcomes.len(),
{
    if outcomes.len() == 0 {
        Seq::empty()
    } else {
        contribution(outcomes[0]) + flatten(outcomes.drop_first())
    }
}

/// Scores never increase along `s`.
pub open spec fn sorted_desc(s: Seq<SearchResult>) -> bool {
    forall|i: int, j: int| 0 <= i < j < s.len() ==> score_of(#[trigger] s[i]) >= score_of(#[trigger] s[j])
}

/// Where `x` goes in `s`: after every leading result that scores at least as high.
pub open spec fn insert_pos(s: Seq<SearchResult>, x: SearchResult) -> nat
    decreases s.len(),
{
    if s.len() == 0 {
        0
    } else if score_of(s[0]) < score_of(x) {
        0
    } else {
        1 + insert_pos(s.drop_first(), x)
    }
}

/// Stable sort by descending score: each result, in input order, is placed
/// after all earlier results that score at least as high.
pub open spec fn sort_desc(s: Seq<SearchResult>) -> Seq<SearchResult>
    decreases s.len(),
{
    if s.len() == 0 {
        Seq::empty()
    } else {
        let t = sort_desc(s.drop_last());
        t.insert(insert_pos(t, s.last()) as int, s.last())
    }
}

/// The first `max` results of the stable descending order of `s`.
pub open spec fn ranked(s: Seq<SearchResult>, max: usize) -> Seq<SearchResult> {
    let t = sort_desc(s);
    if t.len() <= max {
        t
    } else {
        t.take(max as int)
    }
}

/// The results of a given score, in order.
pub open spec fn with_score(s: Seq<SearchResult>, k: u32) -> Seq<SearchResult> {
    s.filter(|r: SearchResult| score_of(r) == k)
}

proof fn lemma_insert_pos(s: Seq<SearchResult>, x: SearchResult)
    ensures
        insert_pos(s, x) <= s.len(),
        forall|j: int| 0 <= j < insert_pos(s, x) ==> score_of(#[trigger] s[j]) >= score_of(x),
        insert_pos(s, x) < s.len() ==> score_of(s[insert_pos(s, x) as int]) < score_of(x),
    decreases s.len(),
{
    if s.len() > 0 && score_of(s[0]) >= score_of(x) {
        lemma_insert_pos(s.drop_first(), x);
        assert forall|j: int| 0 <= j < insert_pos(s, x) implies score_of(#[trigger] s[j]) >= score_of(x) by {
            if j > 0 {
                assert(s[j] == s.drop_first()[j - 1]);
            }
        }
    }
}

proof fn lemma_insert_sorted(t: Seq<SearchResult>, x: SearchResult)
    requires
        sorted_desc(t),
    ensures
        sorted_desc(t.insert(insert_pos(t, x) as int, x)),
        forall|j: int| insert_pos(t, x) <= j < t.len() ==> score_of(#[trigger] t[j]) < score_of(x),
{
    lemma_insert_pos(t, x);
    let p = insert_pos(t, x) as int;
    let u = t.insert(p, x);
    t.insert_ensures(p, x);
    assert forall|j: int| p <= j < t.len() implies score_of(#[trigger] t[j]) < score_of(x) by {
        if j > p {
            assert(score_of(t[p]) >= score_of(t[j]));
        }
    }
    assert forall|i: int, j: int| 0 <= i < j < u.len() implies score_of(#[trigger] u[i]) >= score_of(#[trigger] u[j]) by {
        if j < p {
            assert(u[i] == t[i] && u[j] == t[j]);
        } else if j == p {
            assert(u[i] == t[i]);
        } else if i < p {
            assert(u[i] == t[i] && u[j] == t[j - 1]);
        } else if i == p {
            assert(u[j] == t[j - 1]);
        } else {
            assert(u[i] == t[i - 1] && u[j] == t[j - 1]);
        }
    }
}

/// The stable descending order is sorted by descending score.
pub proof fn lemma_sort_desc_sorted(s: Seq<SearchResult>)
    ensures
        sorted_desc(sort_desc(s)),
        sort_desc(s).len() == s.len(),
    decreases s.len(),
{
    if s.len() > 0 {
        let t = sort_desc(s.drop_last());
        lemma_sort_desc_sorted(s.drop_last());
        lemma_insert_sorted(t, s.last());
        lemma_insert_pos(t, s.last());
        t.insert_ensures(insert_pos(t, s.last()) as int, s.last());
    }
}

/// The stable descending order holds exactly the results it was given.
pub proof fn lemma_sort_desc_permutation(s: Seq<SearchResult>)
    ensures
        sort_desc(s).to_multiset() == s.to_multiset(),
    decreases s.len(),
{
    broadcast use vstd::seq_lib::to_multiset_insert;
    broadcast use vstd::seq_lib::to_multiset_build;
    if s.len() > 0 {
        let t = sort_desc(s.drop_last());
        lemma_sort_desc_permutation(s.drop_last());
        lemma_insert_pos(t, s.last());
        assert(s.drop_last().push(s.last()) == s);
        assert(t.insert(insert_pos(t, s.last()) as int, s.last()).to_multiset() == t.to_multiset().insert(s.last()));
        assert(s.drop_last().push(s.last()).to_multiset() == s.drop_last().to_multiset().insert(s.last()));
    } else {
        assert(sort_desc(s) == s);
    }
}

/// Results of equal score keep the order in which they were given.
pub proof fn lemma_sort_desc_stable(s: Seq<SearchResult>, k: u32)
    ensures
        with_score(sort_desc(s), k) == with_score(s, k),
    decreases s.len(),
{
    let pred = |r: SearchResult| score_of(r) == k;
    if s.len() == 0 {
        reveal(Seq::filter);
    } else {
        let x = s.last();
        let t = sort_desc(s.drop_last());
        lemma_sort_desc_stable(s.drop_last(), k);
        lemma_sort_desc_sorted(s.drop_last());
        lemma_insert_sorted(t, x);
        lemma_insert_pos(t, x);
        let p = insert_pos(t, x) as int;
        let a = t.take(p);
        let b = t.skip(p);
        assert(t =~= a + b);
        assert(t.insert(p, x) =~= a.push(x) + b);
        Seq::filter_distributes_over_add(a.push(x), b, pred);
        Seq::filter_distributes_over_add(a, b, pred);
        a.lemma_filter_push(x, pred);
        s.drop_last().lemma_filter_push(x, pred);
        assert(s.drop_last().push(x) == s);
        if score_of(x) == k {
            assert forall|j: int| 0 <= j < b.len() implies !pred(#[trigger] b[j]) by {
                assert(b[j] == t[p + j]);
            }
            b.lemma_all_neg_filter_empty(pred);
            assert(b.filter(pred) == Seq::<SearchResult>::empty());
            assert(a.filter(pred) + b.filter(pred) == a.filter(pred));
            assert(a.filter(pred).push(x) + b.filter(pred) == a.filter(pred).push(x));
        }
    }
}

/// The ranked list is the head of the stable descending order, it holds
/// only results it was given, and nothing left out scores higher than
/// anything kept.
pub proof fn lemma_ranked_keeps_best(s: Seq<SearchResult>, max: usize)
    ensures
        ranked(s, max).to_multiset().subset_of(s.to_multiset()),
        ranked(s, max).len() <= max,
        ranked(s, max).len() <= s.len(),
        ranked(s, max) == sort_desc(s).take(ranked(s, max).len() as int),
        forall|i: int, j: int|
            0 <= i < ranked(s, max).len() <= j < s.len() ==> score_of(#[trigger] ranked(s, max)[i])
                >= score_of(#[trigger] sort_desc(s)[j]),
{
    lemma_sort_desc_sorted(s);
    lemma_sort_desc_permutation(s);
    let t = sort_desc(s);
    if t.len() <= max {
        assert(t.take(t.len() as int) =~= t);
    }
    let k = ranked(s, max).len() as int;
    assert(t =~= t.take(k) + t.skip(k));
    vstd::seq_lib::lemma_multiset_commutative(t.take(k), t.skip(k));
    broadcast use vstd::multiset::group_multiset_axioms;
    assert forall|i: int, j: int| 0 <= i < ranked(s, max).len() <= j < s.len() implies score_of(
        #[trigger] ranked(s, max)[i],
    ) >= score_of(#[trigger] sort_desc(s)[j]) by {
        assert(ranked(s, max)[i] == t[i]);
    }
}

/// A plugin that failed changes nothing: the merged results are those of the
/// other plugins.
pub proof fn lemma_failed_plugin_contributes_nothing(
    outcomes: Seq<Option<Vec<SearchResult>>>,
    i: int,
)
    requires
        0 <= i < outcomes.len(),
        outcomes[i] is None,
    ensures
        flatten(outcomes) == flatten(outcomes.remove(i)),
    decreases outcomes.len(),
{
    if i == 0 {
        assert(outcomes.remove(0) =~= outcomes.drop_first());
        assert(contribution(outcomes[0]) + flatten(outcomes.drop_first()) =~= flatten(outcomes.drop_first()));
    } else {
        let rest = outcomes.drop_first();
        lemma_failed_plugin_contributes_nothing(rest, i - 1);
        assert(outcomes.remove(i).drop_first() =~= rest.remove(i - 1));
        assert(outcomes.remove(i)[0] == outcomes[0]);
    }
}

/// How many results the plugins reported in all, counting nothing for a
/// failed plugin.
pub open spec fn total_reported(outcomes: Seq<Option<Vec<SearchResult>>>) -> nat
    decreases outcomes.len(),
{
    if outcomes.len() == 0 {
        0
    } else {
        (match outcomes.last() {
            Some(v) => v@.len(),
            None => 0,
        }) + total_reported(outcomes.drop_last())
    }
}

/// A single plugin's results are merged whole and unchanged.
pub proof fn lemma_merge_single(v: Vec<SearchResult>)
    ensures
        flatten(seq![Some(v)]) == v@,
{
    let o = seq![Some(v)];
    assert(o.drop_first() =~= Seq::<Option<Vec<SearchResult>>>::empty());
    assert(flatten(o.drop_first()) == Seq::<SearchResult>::empty());
    assert(o[0] == Some(v));
    assert(flatten(o) == contribution(o[0]) + flatten(o.drop_first()));
    assert(v@ + Seq::<SearchResult>::empty() =~= v@);
}

/// A failed plugin adds nothing.
pub proof fn lemma_merge_failed()
    ensures
        flatten(seq![None::<Vec<SearchResult>>]) == Seq::<SearchResult>::empty(),
{
    let o = seq![None::<Vec<SearchResult>>];
    assert(o.drop_first() =~= Seq::<Option<Vec<SearchResult>>>::empty());
    assert(flatten(o.drop_first()) == Seq::<SearchResult>::empty());
    assert(o[0] == None::<Vec<SearchResult>>);
    assert(flatten(o) == contribution(o[0]) + flatten(o.drop_first()));
    assert(Seq::<SearchResult>::empty() + Seq::<SearchResult>::empty() =~= Seq::<SearchResult>::empty());
}

/// Merging the outcomes of two groups of plugins gives the first group's
/// results followed by the second's.
pub proof fn lemma_merge_concat(a: Seq<Option<Vec<SearchResult>>>, b: Seq<Option<Vec<SearchResult>>>)
    ensures
        flatten(a + b) == flatten(a) + flatten(b),
    decreases a.len(),
{
    if a.len() == 0 {
        assert(a + b =~= b);
        assert(flatten(a) + flatten(b) =~= flatten(b));
    } else {
        lemma_merge_concat(a.drop_first(), b);
        assert((a + b).drop_first() =~= a.drop_first() + b);
        assert((a + b)[0] == a[0]);
        assert(contribution(a[0]) + (flatten(a.drop_first()) + flatten(b)) =~= (contribution(a[0])
            + flatten(a.drop_first())) + flatten(b));
    }
}

/// The merged list holds exactly as many results as the plugins reported.
pub proof fn lemma_merge_length(outcomes: Seq<Option<Vec<SearchResult>>>)
    ensures
        flatten(outcomes).len() == total_reported(outcomes),
    decreases outcomes.len(),
{
    if outcomes.len() > 0 {
        let init = outcomes.drop_last();
        let last = seq![outcomes.last()];
        lemma_merge_length(init);
        lemma_merge_concat(init, last);
        assert(init + last =~= outcomes);
        match outcomes.last() {
            Some(v) => {
                lemma_merge_single(v);
            },
            None => {
                lemma_merge_failed();
            },
        }
    }
}

/// Ranking returns min(reported, max_results) results; when everything fits,
/// it returns every reported result, each exactly as often as reported.
pub proof fn lemma_ranking_returns_all_that_fit(outcomes: Seq<Option<Vec<SearchResult>>>, max: usize)
    ensures
        ranked(flatten(outcomes), max).len() == if total_reported(outcomes) <= max {
            total_reported(outcomes) as int
        } else {
            max as int
        },
        total_reported(outcomes) <= max ==> ranked(flatten(outcomes), max).to_multiset()
            == flatten(outcomes).to_multiset(),
{
    lemma_merge_length(outcomes);
    lemma_sort_desc_sorted(flatten(outcomes));
    lemma_sort_desc_permutation(flatten(outcomes));
}

/// One plugin whose results fit under the cap: all of them come back,
/// highest score first.
pub proof fn lemma_single_plugin_ranked(v: Vec<SearchResult>, max: usize)
    requires
        v@.len() <= max,
    ensures
        ranked(flatten(seq![Some(v)]), max).len() == v@.len(),
        ranked(flatten(seq![Some(v)]), max).to_multiset() == v@.to_multiset(),
        sorted_desc(ranked(flatten(seq![Some(v)]), max)),
{
    lemma_merge_single(v);
    lemma_sort_desc_sorted(v@);
    lemma_sort_desc_permutation(v@);
}

/// A search plugin, as the kernel sees it. Searching itself is asynchronous
/// and is driven outside this crate; the kernel forwards selection and
/// shutdown notices through this trait.
pub trait Plugin {
    fn name(&self) -> &str;

    /// Told which result the user launched.
    fn on_selected(&self, id: &ResultId) {
    }

    /// Told that the launcher is closing.
    fn shutdown(&self) {
    }
}

/// A search engine with no plugins; it never finds anything.
pub struct NullSearchEngine;

/// Owns the plugins and the cap on the number of results.
pub struct Kernel<P> {
    plugins: Vec<P>,
    max_results: usize,
}

impl<P> Kernel<P> {
    pub closed spec fn plugin_list(&self) -> Seq<P> {
        self.plugins@
    }

    pub closed spec fn result_cap(&self) -> usize {
        self.max_results
    }

    pub fn new(plugins: Vec<P>, max_results: usize) -> (k: Kernel<P>)
        ensures
            k.plugin_list() == plugins@,
            k.result_cap() == max_results,
    {
        Kernel { plugins, max_results }
    }

    /// The plugins, in the order they were given.
    pub fn plugins(&self) -> (ps: &[P])
        ensures
            ps@ == self.plugin_list(),
    {
        self.plugins.as_slice()
    }

    pub fn max_results(&self) -> (m: usize)
        ensures
            m == self.result_cap(),
    {
        self.max_results
    }

    /// Merges one outcome per plugin (`None` for a plugin that failed) into the
    /// ranked result list: highest score first, ties in the order given, at
    /// most `max_results` entries.
    pub fn rank_outcomes(&self, outcomes: Vec<Option<Vec<SearchResult>>>) -> (out: Vec<SearchResult>)
        ensures
            out@ == ranked(flatten(outcomes@), self.result_cap()),
            sorted_desc(out@),
            out@.len() == if flatten(outcomes@).len() <= self.result_cap() {
                flatten(outcomes@).len() as int
            } else {
                self.result_cap() as int
            },
            flatten(outcomes@).len() == total_reported(outcomes@),
    {
        proof {
            lemma_merge_length(outcomes@);
        }
        let mut flat = collect_outcomes(outcomes);
        let ghost all = flat@;
        let mut sorted: Vec<SearchResult> = Vec::new();
        let ghost mut k: int = 0;
        while flat.len() > 0
            invariant
                0 <= k <= all.len(),
                flat@ == all.skip(k),
                sorted@ == sort_desc(all.take(k)),
            decreases flat.len(),
        {
            let x = flat.remove(0);
            let p = insertion_index(&sorted, &x);
            proof {
                assert(all.take(k + 1).drop_last() =~= all.take(k));
                assert(all.take(k + 1).last() == x);
                assert(flat@ =~= all.skip(k + 1));
            }
            sorted.insert(p, x);
            proof {
                k = k + 1;
            }
        }
        proof {
            assert(all.take(k) =~= all);
            lemma_sort_desc_sorted(all);
        }
        sorted.truncate(self.max_results);
        sorted
    }
}

impl<P: Plugin> Kernel<P> {
    /// Tells every plugin, in order, which result was launched.
    pub fn on_selected(&self, id: &ResultId) {
        let n = self.plugins.len();
        for i in 0..n
            invariant
                n == self.plugins@.len(),
        {
            self.plugins[i].on_selected(id);
        }
    }

    /// Tells every plugin, in order, that the launcher is closing.
    pub fn shutdown(&self) {
        let n = self.plugins.len();
        for i in 0..n
            invariant
                n == self.plugins@.len(),
        {
            self.plugins[i].shutdown();
        }
    }
}

/// Concatenates the contributions of all plugins, in order.
fn collect_outcomes(outcomes: Vec<Option<Vec<SearchResult>>>) -> (flat: Vec<SearchResult>)
    ensures
        flat@ == flatten(outcomes@),
{
    let mut rest = outcomes;
    let mut flat: Vec<SearchResult> = Vec::new();
    while rest.len() > 0
        invariant
            flat@ + flatten(rest@) == flatten(outcomes@),
        decreases rest.len(),
    {
        let ghost before = rest@;
        let o = rest.remove(0);
        proof {
            assert(rest@ =~= before.drop_first());
            assert(flatten(before) == contribution(o) + flatten(rest@));
            assert(flat@ + (contribution(o) + flatten(rest@)) =~= (flat@ + contribution(o)) + flatten(rest@));
        }
        match o {
            Some(mut v) => {
                flat.append(&mut v);
            },
            None => {
                assert(flat@ + contribution(o) =~= flat@);
            },
        }
    }
    assert(flat@ + flatten(rest@) =~= flat@);
    flat
}

/// The index at which `x` enters `sorted` so that the order stays stable.
fn insertion_index(sorted: &Vec<SearchResult>, x: &SearchResult) -> (p: usize)
    ensures
        p as int == insert_pos(sorted@, *x) as int,
        p <= sorted@.len(),
{
    let mut i: usize = 0;
    assert(sorted@.skip(0) =~= sorted@);
    while i < sorted.len() && sorted[i].score.value() >= x.score.value()
        invariant
            i <= sorted@.len(),
            insert_pos(sorted@, *x) == i + insert_pos(sorted@.skip(i as int), *x),
        decreases sorted@.len() - i,
    {
        proof {
            assert(sorted@.skip(i as int).drop_first() =~= sorted@.skip(i + 1));
            assert(sorted@.skip(i as int)[0] == sorted@[i as int]);
        }
        i = i + 1;
    }
    proof {
        if i < sorted@.len() {
            assert(sorted@.skip(i as int)[0] == sorted@[i as int]);
        }
    }
    i
}

} // verus!
