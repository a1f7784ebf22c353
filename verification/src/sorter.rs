//! The incremental result aggregator: one globally ordered result list,
//! most recently modified first, kept ordered as batches stream in.
//!
//! A new batch is keyed through the recency oracle once, ranked internally
//! by a stable descending insertion, and merged into the global order in a
//! single linear pass.  When ranking is disabled, or the batch is empty,
//! the batch is appended unchanged (pass-through mode).

use vstd::prelude::*;

use vstd::multiset::Multiset;
use vstd::seq_lib::group_to_multiset_ensures;
use vstd::seq_lib::lemma_multiset_commutative;

use crate::recency::RecencyOracle;
use crate::result::{duplicate, SearchResult};

verus! {

/// The memo key under which a result's recency is cached.
pub open spec fn result_key(r: SearchResult) -> (Seq<char>, int) {
    (r.file_path@, r.line_number as int)
}

/// The recency key of a result under a cache: its memoized time, or the
/// epoch when the key was never memoized.
pub open spec fn key_of(m: Map<(Seq<char>, int), i64>, r: SearchResult) -> int {
    if m.contains_key(result_key(r)) {
        m[result_key(r)] as int
    } else {
        0
    }
}

/// Sorted by recency key, most recent first.
pub open spec fn sorted_desc(m: Map<(Seq<char>, int), i64>, s: Seq<SearchResult>) -> bool {
    forall|i: int, j: int| 0 <= i < j < s.len() ==> key_of(m, s[i]) >= key_of(m, s[j])
}

/// Every element's key is memoized.
pub open spec fn keyed(m: Map<(Seq<char>, int), i64>, s: Seq<SearchResult>) -> bool {
    forall|i: int| 0 <= i < s.len() ==> m.contains_key(result_key(s[i]))
}

/// Inserts `x` after every element whose key is at least as recent, so that
/// ties keep their encounter order.
pub open spec fn insert_desc(
    m: Map<(Seq<char>, int), i64>,
    x: SearchResult,
    s: Seq<SearchResult>,
) -> Seq<SearchResult>
    decreases s.len(),
{
    if s.len() == 0 {
        seq![x]
    } else if key_of(m, s[0]) >= key_of(m, x) {
        seq![s[0]] + insert_desc(m, x, s.drop_first())
    } else {
        seq![x] + s
    }
}

/// The stable descending ranking of a batch: each element inserted in turn.
pub open spec fn rank_desc(
    m: Map<(Seq<char>, int), i64>,
    s: Seq<SearchResult>,
) -> Seq<SearchResult>
    decreases s.len(),
{
    if s.len() == 0 {
        Seq::empty()
    } else {
        insert_desc(m, s.last(), rank_desc(m, s.drop_last()))
    }
}

/// The two-way descending merge; on equal keys the global side goes first.
pub open spec fn merge_desc(
    m: Map<(Seq<char>, int), i64>,
    g: Seq<SearchResult>,
    b: Seq<SearchResult>,
) -> Seq<SearchResult>
    decreases g.len() + b.len(),
{
    if g.len() == 0 {
        b
    } else if b.len() == 0 {
        g
    } else if key_of(m, g[0]) >= key_of(m, b[0]) {
        seq![g[0]] + merge_desc(m, g.drop_first(), b)
    } else {
        seq![b[0]] + merge_desc(m, g, b.drop_first())
    }
}

/// No two distinct results in the collection share a recency key.
pub open spec fn keys_injective(
    m: Map<(Seq<char>, int), i64>,
    ms: Multiset<SearchResult>,
) -> bool {
    forall|x: SearchResult, y: SearchResult|
        ms.contains(x) && ms.contains(y) && x != y ==> key_of(m, x) != key_of(m, y)
}

/// Inserting preserves the contents and, into a sorted sequence, sortedness.
pub proof fn lemma_insert_desc_props(
    m: Map<(Seq<char>, int), i64>,
    x: SearchResult,
    s: Seq<SearchResult>,
)
    ensures
        insert_desc(m, x, s).len() == s.len() + 1,
        insert_desc(m, x, s).to_multiset() == s.to_multiset().insert(x),
        sorted_desc(m, s) ==> sorted_desc(m, insert_desc(m, x, s)),
    decreases s.len(),
{
    broadcast use group_to_multiset_ensures;

    let res = insert_desc(m, x, s);
    if s.len() == 0 {
        assert(res =~= Seq::empty().push(x));
        assert(res.to_multiset() =~= s.to_multiset().insert(x));
    } else if key_of(m, s[0]) >= key_of(m, x) {
        let rest = insert_desc(m, x, s.drop_first());
        lemma_insert_desc_props(m, x, s.drop_first());
        assert(res == seq![s[0]] + rest);
        lemma_multiset_commutative(seq![s[0]], rest);
        assert(seq![s[0]].to_multiset() =~= Multiset::empty().insert(s[0])) by {
            assert(seq![s[0]] =~= Seq::empty().push(s[0]));
        }
        assert(s =~= seq![s[0]] + s.drop_first());
        lemma_multiset_commutative(seq![s[0]], s.drop_first());
        assert(res.to_multiset() =~= s.to_multiset().insert(x));
        if sorted_desc(m, s) {
            assert(sorted_desc(m, s.drop_first())) by {
                assert(forall|i: int, j: int|
                    0 <= i < j < s.drop_first().len() ==> key_of(m, #[trigger] s.drop_first()[i])
                        >= key_of(m, #[trigger] s.drop_first()[j]));
            }
            assert(sorted_desc(m, rest));
            assert forall|i: int, j: int| 0 <= i < j < res.len() implies key_of(m, res[i])
                >= key_of(m, res[j]) by {
                if i == 0 {
                    let y = res[j];
                    assert(rest.contains(y)) by {
                        assert(rest[j - 1] == y);
                    }
                    assert(rest.to_multiset().contains(y));
                    assert(s.drop_first().to_multiset().insert(x).contains(y));
                    if y == x {
                        assert(key_of(m, res[0]) >= key_of(m, y));
                    } else {
                        assert(s.drop_first().to_multiset().contains(y));
                        assert(s.drop_first().contains(y));
                        let idx = choose|idx: int|
                            0 <= idx < s.drop_first().len() && s.drop_first()[idx] == y;
                        assert(s[idx + 1] == y);
                        assert(key_of(m, s[0]) >= key_of(m, y));
                    }
                } else {
                    assert(res[i] == rest[i - 1] && res[j] == rest[j - 1]);
                }
            }
        }
    } else {
        assert(res == seq![x] + s);
        lemma_multiset_commutative(seq![x], s);
        assert(seq![x].to_multiset() =~= Multiset::empty().insert(x)) by {
            assert(seq![x] =~= Seq::empty().push(x));
        }
        assert(res.to_multiset() =~= s.to_multiset().insert(x));
        if sorted_desc(m, s) {
            assert forall|i: int, j: int| 0 <= i < j < res.len() implies key_of(m, res[i])
                >= key_of(m, res[j]) by {
                if i == 0 {
                    if j == 1 {
                        assert(res[j] == s[0]);
                    } else {
                        assert(res[j] == s[j - 1]);
                        assert(key_of(m, s[0]) >= key_of(m, s[j - 1]));
                    }
                } else {
                    assert(res[i] == s[i - 1] && res[j] == s[j - 1]);
                }
            }
        }
    }
}

/// Ranking a batch keeps its contents and sorts it by descending key.
pub proof fn lemma_rank_desc_props(m: Map<(Seq<char>, int), i64>, s: Seq<SearchResult>)
    ensures
        rank_desc(m, s).len() == s.len(),
        rank_desc(m, s).to_multiset() == s.to_multiset(),
        sorted_desc(m, rank_desc(m, s)),
    decreases s.len(),
{
    broadcast use group_to_multiset_ensures;

    if s.len() > 0 {
        lemma_rank_desc_props(m, s.drop_last());
        lemma_insert_desc_props(m, s.last(), rank_desc(m, s.drop_last()));
        assert(s =~= s.drop_last().push(s.last()));
        assert(s.drop_last().push(s.last()).to_multiset() == s.drop_last().to_multiset().insert(
            s.last(),
        ));
    }
}

/// Merging keeps the contents of both sides and, when both are sorted,
/// yields a sorted sequence.
pub proof fn lemma_merge_desc_props(
    m: Map<(Seq<char>, int), i64>,
    g: Seq<SearchResult>,
    b: Seq<SearchResult>,
)
    ensures
        merge_desc(m, g, b).len() == g.len() + b.len(),
        merge_desc(m, g, b).to_multiset() == (g + b).to_multiset(),
        sorted_desc(m, g) && sorted_desc(m, b) ==> sorted_desc(m, merge_desc(m, g, b)),
    decreases g.len() + b.len(),
{
    broadcast use group_to_multiset_ensures;

    let res = merge_desc(m, g, b);
    if g.len() == 0 {
        assert(g + b =~= b);
    } else if b.len() == 0 {
        assert(g + b =~= g);
    } else {
        lemma_multiset_commutative(g, b);
        if key_of(m, g[0]) >= key_of(m, b[0]) {
            let rest = merge_desc(m, g.drop_first(), b);
            lemma_merge_desc_props(m, g.drop_first(), b);
            assert(res == seq![g[0]] + rest);
            lemma_multiset_commutative(seq![g[0]], rest);
            lemma_multiset_commutative(g.drop_first(), b);
            assert(seq![g[0]].to_multiset() =~= Multiset::empty().insert(g[0])) by {
                assert(seq![g[0]] =~= Seq::empty().push(g[0]));
            }
            assert(g =~= seq![g[0]] + g.drop_first());
            lemma_multiset_commutative(seq![g[0]], g.drop_first());
            assert(res.to_multiset() =~= (g + b).to_multiset());
            if sorted_desc(m, g) && sorted_desc(m, b) {
                assert(sorted_desc(m, g.drop_first())) by {
                    assert(forall|i: int, j: int|
                        0 <= i < j < g.drop_first().len() ==> key_of(
                            m,
                            #[trigger] g.drop_first()[i],
                        ) >= key_of(m, #[trigger] g.drop_first()[j]));
                }
                assert(sorted_desc(m, rest));
                assert forall|i: int, j: int| 0 <= i < j < res.len() implies key_of(m, res[i])
                    >= key_of(m, res[j]) by {
                    if i == 0 {
                        let y = res[j];
                        assert(rest.contains(y)) by {
                            assert(rest[j - 1] == y);
                        }
                        assert(rest.to_multiset().contains(y));
                        assert((g.drop_first() + b).to_multiset().contains(y));
                        assert((g.drop_first() + b).contains(y));
                        let idx = choose|idx: int|
                            0 <= idx < (g.drop_first() + b).len() && (g.drop_first() + b)[idx]
                                == y;
                        if idx < g.drop_first().len() {
                            assert(g[idx + 1] == y);
                            assert(key_of(m, g[0]) >= key_of(m, y));
                        } else {
                            assert(b[idx - g.drop_first().len()] == y);
                            assert(key_of(m, b[0]) >= key_of(m, y));
                        }
                    } else {
                        assert(res[i] == rest[i - 1] && res[j] == rest[j - 1]);
                    }
                }
            }
        } else {
            let rest = merge_desc(m, g, b.drop_first());
            lemma_merge_desc_props(m, g, b.drop_first());
            assert(res == seq![b[0]] + rest);
            lemma_multiset_commutative(seq![b[0]], rest);
            lemma_multiset_commutative(g, b.drop_first());
            assert(seq![b[0]].to_multiset() =~= Multiset::empty().insert(b[0])) by {
                assert(seq![b[0]] =~= Seq::empty().push(b[0]));
            }
            assert(b =~= seq![b[0]] + b.drop_first());
            lemma_multiset_commutative(seq![b[0]], b.drop_first());
            assert(res.to_multiset() =~= (g + b).to_multiset());
            if sorted_desc(m, g) && sorted_desc(m, b) {
                assert(sorted_desc(m, b.drop_first())) by {
                    assert(forall|i: int, j: int|
                        0 <= i < j < b.drop_first().len() ==> key_of(
                            m,
                            #[trigger] b.drop_first()[i],
                        ) >= key_of(m, #[trigger] b.drop_first()[j]));
                }
                assert(sorted_desc(m, rest));
                assert forall|i: int, j: int| 0 <= i < j < res.len() implies key_of(m, res[i])
                    >= key_of(m, res[j]) by {
                    if i == 0 {
                        let y = res[j];
                        assert(rest.contains(y)) by {
                            assert(rest[j - 1] == y);
                        }
                        assert(rest.to_multiset().contains(y));
                        assert((g + b.drop_first()).to_multiset().contains(y));
                        assert((g + b.drop_first()).contains(y));
                        let idx = choose|idx: int|
                            0 <= idx < (g + b.drop_first()).len() && (g + b.drop_first())[idx]
                                == y;
                        if idx < g.len() {
                            assert(g[idx] == y);
                            assert(key_of(m, g[0]) >= key_of(m, y));
                            assert(key_of(m, b[0]) > key_of(m, g[0]));
                        } else {
                            assert(b[idx - g.len() + 1] == y);
                            assert(key_of(m, b[0]) >= key_of(m, y));
                        }
                    } else {
                        assert(res[i] == rest[i - 1] && res[j] == rest[j - 1]);
                    }
                }
            }
        }
    }
}

/// Two sequences sorted by descending key with the same contents are equal,
/// provided no two distinct results share a key.
pub proof fn lemma_sorted_permutation_unique(
    m: Map<(Seq<char>, int), i64>,
    s: Seq<SearchResult>,
    t: Seq<SearchResult>,
)
    requires
        sorted_desc(m, s),
        sorted_desc(m, t),
        s.to_multiset() == t.to_multiset(),
        keys_injective(m, s.to_multiset()),
    ensures
        s == t,
    decreases s.len(),
{
    broadcast use group_to_multiset_ensures;

    assert(s.to_multiset().len() == s.len());
    assert(t.to_multiset().len() == t.len());
    if s.len() == 0 {
        assert(s =~= t);
    } else {
        assert(t.len() == s.len());
        assert(t.contains(t[0])) by {
            assert(t[0] == t[0]);
        }
        assert(s.to_multiset().contains(t[0]));
        assert(s.contains(t[0]));
        let i = choose|i: int| 0 <= i < s.len() && s[i] == t[0];
        assert(key_of(m, s[0]) >= key_of(m, t[0]));
        assert(s.contains(s[0]));
        assert(t.to_multiset().contains(s[0]));
        assert(t.contains(s[0]));
        let j = choose|j: int| 0 <= j < t.len() && t[j] == s[0];
        assert(key_of(m, t[0]) >= key_of(m, s[0]));
        assert(s[0] == t[0]) by {
            if s[0] != t[0] {
                assert(s.to_multiset().contains(s[0]));
                assert(s.to_multiset().contains(t[0]));
                assert(key_of(m, s[0]) != key_of(m, t[0]));
            }
        }
        assert(s.remove(0).to_multiset() == s.to_multiset().remove(s[0]));
        assert(t.remove(0).to_multiset() == t.to_multiset().remove(t[0]));
        assert(s.remove(0) =~= s.drop_first());
        assert(t.remove(0) =~= t.drop_first());
        assert(sorted_desc(m, s.drop_first())) by {
            assert(forall|p: int, q: int|
                0 <= p < q < s.drop_first().len() ==> key_of(m, #[trigger] s.drop_first()[p])
                    >= key_of(m, #[trigger] s.drop_first()[q]));
        }
        assert(sorted_desc(m, t.drop_first())) by {
            assert(forall|p: int, q: int|
                0 <= p < q < t.drop_first().len() ==> key_of(m, #[trigger] t.drop_first()[p])
                    >= key_of(m, #[trigger] t.drop_first()[q]));
        }
        assert(keys_injective(m, s.drop_first().to_multiset())) by {
            assert forall|x: SearchResult, y: SearchResult|
                s.drop_first().to_multiset().contains(x) && s.drop_first().to_multiset().contains(
                    y,
                ) && x != y implies key_of(m, x) != key_of(m, y) by {
                assert(s.to_multiset().remove(s[0]).count(x) > 0);
                assert(s.to_multiset().count(x) > 0);
                assert(s.to_multiset().remove(s[0]).count(y) > 0);
                assert(s.to_multiset().count(y) > 0);
            }
        }
        lemma_sorted_permutation_unique(m, s.drop_first(), t.drop_first());
        assert(s =~= seq![s[0]] + s.drop_first());
        assert(t =~= seq![t[0]] + t.drop_first());
    }
}

/// Merge totality: two batches ranked and merged under one set of oracle
/// answers give exactly their union, sorted by descending recency key.
pub proof fn lemma_merge_totality(
    m: Map<(Seq<char>, int), i64>,
    a: Seq<SearchResult>,
    b: Seq<SearchResult>,
)
    ensures
        merge_desc(m, rank_desc(m, a), rank_desc(m, b)).len() == a.len() + b.len(),
        merge_desc(m, rank_desc(m, a), rank_desc(m, b)).to_multiset() == (a + b).to_multiset(),
        sorted_desc(m, merge_desc(m, rank_desc(m, a), rank_desc(m, b))),
{
    lemma_rank_desc_props(m, a);
    lemma_rank_desc_props(m, b);
    lemma_merge_desc_props(m, rank_desc(m, a), rank_desc(m, b));
    lemma_multiset_commutative(rank_desc(m, a), rank_desc(m, b));
    lemma_multiset_commutative(a, b);
}

/// Order independence: adding two batches in either order yields the same
/// global order, given the same oracle answers, as long as no two distinct
/// results share a recency key.
pub proof fn lemma_order_independence(
    m: Map<(Seq<char>, int), i64>,
    a: Seq<SearchResult>,
    b: Seq<SearchResult>,
)
    requires
        keys_injective(m, (a + b).to_multiset()),
    ensures
        merge_desc(m, rank_desc(m, a), rank_desc(m, b)) == merge_desc(
            m,
            rank_desc(m, b),
            rank_desc(m, a),
        ),
{
    lemma_merge_totality(m, a, b);
    lemma_merge_totality(m, b, a);
    lemma_multiset_commutative(a, b);
    lemma_multiset_commutative(b, a);
    assert((a + b).to_multiset() == (b + a).to_multiset()) by {
        assert((a + b).to_multiset() =~= (b + a).to_multiset());
    }
    lemma_sorted_permutation_unique(
        m,
        merge_desc(m, rank_desc(m, a), rank_desc(m, b)),
        merge_desc(m, rank_desc(m, b), rank_desc(m, a)),
    );
}

/// The memoized recency key of a result; the epoch when none is memoized.
fn recency_key(oracle: &RecencyOracle, r: &SearchResult) -> (k: i64)
    requires
        oracle.wf(),
    ensures
        k as int == key_of(oracle.cache(), *r),
{
    match oracle.lookup(&r.file_path, r.line_number) {
        Some(t) => t,
        None => 0,
    }
}

/// Ranks a batch by descending recency key; ties keep encounter order.
fn rank_batch(oracle: &RecencyOracle, batch: &Vec<SearchResult>) -> (out: Vec<SearchResult>)
    requires
        oracle.wf(),
    ensures
        out@ == rank_desc(oracle.cache(), batch@),
{
    let ghost m = oracle.cache();
    let mut out: Vec<SearchResult> = Vec::new();
    let mut idx: usize = 0;
    proof {
        assert(batch@.subrange(0, 0) =~= Seq::<SearchResult>::empty());
    }
    while idx < batch.len()
        invariant
            oracle.wf(),
            m == oracle.cache(),
            idx <= batch@.len(),
            out@ == rank_desc(m, batch@.subrange(0, idx as int)),
        decreases batch@.len() - idx,
    {
        let x = duplicate(&batch[idx]);
        let kx = recency_key(oracle, &x);
        let mut pos: usize = 0;
        while pos < out.len() && recency_key(oracle, &out[pos]) >= kx
            invariant
                oracle.wf(),
                m == oracle.cache(),
                pos <= out@.len(),
                kx as int == key_of(m, x),
                forall|k: int| 0 <= k < pos ==> key_of(m, out@[k]) >= key_of(m, x),
            decreases out@.len() - pos,
        {
            pos += 1;
        }
        let ghost prev = out@;
        out.insert(pos, x);
        proof {
            lemma_insert_desc_split(m, x, prev, pos as int);
            assert(out@ =~= prev.subrange(0, pos as int) + seq![x] + prev.subrange(
                pos as int,
                prev.len() as int,
            ));
            assert(batch@.subrange(0, idx + 1).drop_last() =~= batch@.subrange(0, idx as int));
            assert(batch@.subrange(0, idx + 1).last() == batch@[idx as int]);
        }
        idx += 1;
    }
    proof {
        assert(batch@.subrange(0, batch@.len() as int) =~= batch@);
    }
    out
}

/// Inserting at the first position whose key is strictly older matches the
/// specification's insertion.
proof fn lemma_insert_desc_split(
    m: Map<(Seq<char>, int), i64>,
    x: SearchResult,
    s: Seq<SearchResult>,
    pos: int,
)
    requires
        0 <= pos <= s.len(),
        forall|k: int| 0 <= k < pos ==> key_of(m, s[k]) >= key_of(m, x),
        pos < s.len() ==> key_of(m, s[pos]) < key_of(m, x),
    ensures
        insert_desc(m, x, s) == s.subrange(0, pos) + seq![x] + s.subrange(pos, s.len() as int),
    decreases s.len(),
{
    if pos == 0 {
        if s.len() == 0 {
            assert(insert_desc(m, x, s) =~= s.subrange(0, 0) + seq![x] + s.subrange(
                0,
                s.len() as int,
            ));
        } else {
            assert(key_of(m, s[0]) < key_of(m, x));
            assert(insert_desc(m, x, s) == seq![x] + s);
            assert(seq![x] + s =~= s.subrange(0, 0) + seq![x] + s.subrange(0, s.len() as int));
        }
    } else {
        assert(key_of(m, s[0]) >= key_of(m, x));
        assert(insert_desc(m, x, s) == seq![s[0]] + insert_desc(m, x, s.drop_first()));
        assert(forall|k: int|
            0 <= k < pos - 1 ==> key_of(m, #[trigger] s.drop_first()[k]) >= key_of(m, x));
        assert(pos - 1 < s.drop_first().len() ==> key_of(m, s.drop_first()[pos - 1]) < key_of(
            m,
            x,
        ));
        lemma_insert_desc_split(m, x, s.drop_first(), pos - 1);
        assert(seq![s[0]] + (s.drop_first().subrange(0, pos - 1) + seq![x]
            + s.drop_first().subrange(pos - 1, s.drop_first().len() as int)) =~= s.subrange(
            0,
            pos,
        ) + seq![x] + s.subrange(pos, s.len() as int));
    }
}

/// Merges two batches in one linear pass, taking at each step the side whose
/// head is not behind in descending key order.
fn merge_ranked(
    oracle: &RecencyOracle,
    g: &Vec<SearchResult>,
    b: &Vec<SearchResult>,
) -> (out: Vec<SearchResult>)
    requires
        oracle.wf(),
    ensures
        out@ == merge_desc(oracle.cache(), g@, b@),
{
    let ghost m = oracle.cache();
    let mut out: Vec<SearchResult> = Vec::new();
    let mut i: usize = 0;
    let mut j: usize = 0;
    proof {
        assert(g@.subrange(0, g@.len() as int) =~= g@);
        assert(b@.subrange(0, b@.len() as int) =~= b@);
        assert(Seq::<SearchResult>::empty() + merge_desc(m, g@, b@) =~= merge_desc(m, g@, b@));
    }
    while i < g.len() || j < b.len()
        invariant
            oracle.wf(),
            m == oracle.cache(),
            i <= g@.len(),
            j <= b@.len(),
            merge_desc(m, g@, b@) == out@ + merge_desc(
                m,
                g@.subrange(i as int, g@.len() as int),
                b@.subrange(j as int, b@.len() as int),
            ),
        decreases g@.len() - i + b@.len() - j,
    {
        let ghost gs = g@.subrange(i as int, g@.len() as int);
        let ghost bs = b@.subrange(j as int, b@.len() as int);
        let take_global = if i < g.len() {
            if j >= b.len() {
                true
            } else {
                recency_key(oracle, &g[i]) >= recency_key(oracle, &b[j])
            }
        } else {
            false
        };
        if take_global {
            out.push(duplicate(&g[i]));
            proof {
                assert(gs[0] == g@[i as int]);
                if bs.len() == 0 {
                    assert(merge_desc(m, gs, bs) == gs);
                    assert(gs =~= seq![gs[0]] + g@.subrange(i + 1, g@.len() as int));
                    assert(merge_desc(m, g@.subrange(i + 1, g@.len() as int), bs) == g@.subrange(
                        i + 1,
                        g@.len() as int,
                    ));
                } else {
                    assert(key_of(m, gs[0]) >= key_of(m, bs[0]));
                    assert(merge_desc(m, gs, bs) == seq![gs[0]] + merge_desc(
                        m,
                        gs.drop_first(),
                        bs,
                    ));
                    assert(gs.drop_first() =~= g@.subrange(i + 1, g@.len() as int));
                }
                assert(out@ + merge_desc(m, g@.subrange(i + 1, g@.len() as int), bs)
                    == merge_desc(m, g@, b@));
            }
            i += 1;
        } else {
            out.push(duplicate(&b[j]));
            proof {
                assert(bs[0] == b@[j as int]);
                if gs.len() == 0 {
                    assert(merge_desc(m, gs, bs) == bs);
                    assert(bs =~= seq![bs[0]] + b@.subrange(j + 1, b@.len() as int));
                    assert(merge_desc(m, gs, b@.subrange(j + 1, b@.len() as int)) == b@.subrange(
                        j + 1,
                        b@.len() as int,
                    ));
                } else {
                    assert(key_of(m, gs[0]) < key_of(m, bs[0]));
                    assert(merge_desc(m, gs, bs) == seq![bs[0]] + merge_desc(
                        m,
                        gs,
                        bs.drop_first(),
                    ));
                    assert(bs.drop_first() =~= b@.subrange(j + 1, b@.len() as int));
                }
                assert(out@ + merge_desc(m, gs, b@.subrange(j + 1, b@.len() as int))
                    == merge_desc(m, g@, b@));
            }
            j += 1;
        }
    }
    proof {
        assert(g@.subrange(i as int, g@.len() as int).len() == 0);
        assert(b@.subrange(j as int, b@.len() as int).len() == 0);
        assert(merge_desc(
            m,
            g@.subrange(i as int, g@.len() as int),
            b@.subrange(j as int, b@.len() as int),
        ).len() == 0);
        assert(out@ =~= out@ + merge_desc(
            m,
            g@.subrange(i as int, g@.len() as int),
            b@.subrange(j as int, b@.len() as int),
        ));
    }
    out
}

/// Owns the single authoritative, globally sorted result list, and the
/// recency oracle that ranks it.
pub struct FileSorter {
    enabled: bool,
    global_results: Vec<SearchResult>,
    oracle: RecencyOracle,
}

impl FileSorter {
    /// The global order, most recently modified first.
    pub closed spec fn results(self) -> Seq<SearchResult> {
        self.global_results@
    }

    /// The oracle's memo table.
    pub closed spec fn times(self) -> Map<(Seq<char>, int), i64> {
        self.oracle.cache()
    }

    /// Whether ranking is enabled; disabled means pass-through appends.
    pub closed spec fn enabled_(self) -> bool {
        self.enabled
    }

    /// The oracle's memo table holds each key at most once.
    pub closed spec fn wf(self) -> bool {
        self.oracle.wf()
    }

    /// When ranking is on, the global order is keyed and sorted.
    pub open spec fn ranked_ok(self) -> bool {
        self.enabled_() ==> keyed(self.times(), self.results()) && sorted_desc(
            self.times(),
            self.results(),
        )
    }

    /// Creates a new sorter with ranking off and nothing collected.
    pub fn new() -> (s: FileSorter)
        ensures
            s.wf(),
            !s.enabled_(),
            s.results() == Seq::<SearchResult>::empty(),
            s.times() == Map::<(Seq<char>, int), i64>::empty(),
            s.ranked_ok(),
    {
        FileSorter { enabled: false, global_results: Vec::new(), oracle: RecencyOracle::new() }
    }

    /// Turns ranking on or off; the collected results are untouched.
    pub fn set_enabled(&mut self, enabled: bool)
        requires
            old(self).wf(),
        ensures
            final(self).wf(),
            final(self).enabled_() == enabled,
            final(self).results() == old(self).results(),
            final(self).times() == old(self).times(),
    {
        self.enabled = enabled;
    }

    /// Whether ranking is enabled.
    pub fn is_enabled(&self) -> (r: bool)
        ensures
            r == self.enabled_(),
    {
        self.enabled
    }

    /// Clears the global order and every memoized recency key; both are
    /// scoped to one search pattern, not to the process.
    pub fn clear(&mut self)
        requires
            old(self).wf(),
        ensures
            final(self).wf(),
            final(self).enabled_() == old(self).enabled_(),
            final(self).results() == Seq::<SearchResult>::empty(),
            final(self).times() == Map::<(Seq<char>, int), i64>::empty(),
            final(self).ranked_ok(),
    {
        self.global_results.clear();
        self.oracle.clear();
    }

    /// The number of collected results.
    pub fn len(&self) -> (n: usize)
        ensures
            n == self.results().len(),
    {
        self.global_results.len()
    }

    /// Whether nothing has been collected.
    pub fn is_empty(&self) -> (r: bool)
        ensures
            r == (self.results().len() == 0),
    {
        self.global_results.is_empty()
    }

    /// The global order, by reference.
    pub fn get_all_results(&self) -> (r: &Vec<SearchResult>)
        ensures
            r@ == self.results(),
    {
        &self.global_results
    }

    /// Memoizes a recency key directly, as a controller that keys batches
    /// ahead of the aggregator does.  A key already memoized keeps its value.
    pub fn memoize_time(&mut self, path: &String, line: usize, time: i64)
        requires
            old(self).wf(),
        ensures
            final(self).wf(),
            final(self).enabled_() == old(self).enabled_(),
            final(self).results() == old(self).results(),
            old(self).times().contains_key((path@, line as int)) ==> final(self).times() == old(
                self,
            ).times(),
            !old(self).times().contains_key((path@, line as int)) ==> final(self).times() == old(
                self,
            ).times().insert((path@, line as int), time),
    {
        self.oracle.record(path, line, time);
    }

    /// The oracle's contract, routed through the sorter: the memoized time
    /// for this result's line, probed and memoized on the first call.
    pub fn get_modification_time(&mut self, result: &SearchResult) -> (t: i64)
        requires
            old(self).wf(),
        ensures
            final(self).wf(),
            final(self).enabled_() == old(self).enabled_(),
            final(self).results() == old(self).results(),
            old(self).times().contains_key(result_key(*result)) ==> t == old(self).times()[
                result_key(*result)
            ] && final(self).times() == old(self).times(),
            !old(self).times().contains_key(result_key(*result)) ==> final(self).times() == old(
                self,
            ).times().insert(result_key(*result), t),
            final(self).times().contains_key(result_key(*result)),
            final(self).times()[result_key(*result)] == t,
            old(self).times().submap_of(final(self).times()),
    {
        self.oracle.modification_time(&result.file_path, result.line_number)
    }

    /// Adds a batch to the global order and returns the batch, ranked.
    ///
    /// Disabled, or handed an empty batch, it appends the batch unchanged.
    /// Enabled, it memoizes every key once up front, ranks the batch by
    /// descending recency, and merges it into the global order in one
    /// linear pass; the result is the sorted union of old and new.
    pub fn add_results(&mut self, new_results: Vec<SearchResult>) -> (ranked: Vec<SearchResult>)
        requires
            old(self).wf(),
        ensures
            final(self).wf(),
            final(self).enabled_() == old(self).enabled_(),
            old(self).times().submap_of(final(self).times()),
            !old(self).enabled_() || new_results@.len() == 0 ==> {
                &&& final(self).results() == old(self).results() + new_results@
                &&& ranked@ == new_results@
                &&& final(self).times() == old(self).times()
            },
            old(self).enabled_() && new_results@.len() > 0 ==> {
                &&& keyed(final(self).times(), new_results@)
                &&& ranked@ == rank_desc(final(self).times(), new_results@)
                &&& final(self).results() == merge_desc(
                    final(self).times(),
                    old(self).results(),
                    ranked@,
                )
            },
            final(self).results().to_multiset() == old(self).results().to_multiset().add(
                new_results@.to_multiset(),
            ),
            final(self).results().len() == old(self).results().len() + new_results@.len(),
            old(self).ranked_ok() ==> final(self).ranked_ok(),
    {
        broadcast use group_to_multiset_ensures;

        if !self.enabled || new_results.len() == 0 {
            let mut i: usize = 0;
            while i < new_results.len()
                invariant
                    i <= new_results@.len(),
                    self.wf(),
                    self.enabled == old(self).enabled,
                    self.oracle == old(self).oracle,
                    self.global_results@ == old(self).global_results@ + new_results@.subrange(
                        0,
                        i as int,
                    ),
                decreases new_results@.len() - i,
            {
                self.global_results.push(duplicate(&new_results[i]));
                proof {
                    assert(old(self).global_results@ + new_results@.subrange(0, i as int)
                        + seq![new_results@[i as int]] =~= old(self).global_results@
                        + new_results@.subrange(0, i + 1));
                }
                i += 1;
            }
            proof {
                assert(new_results@.subrange(0, new_results@.len() as int) =~= new_results@);
                lemma_multiset_commutative(old(self).global_results@, new_results@);
            }
            return new_results;
        }
        let ghost m0 = self.oracle.cache();
        let mut i: usize = 0;
        while i < new_results.len()
            invariant
                i <= new_results@.len(),
                self.wf(),
                self.enabled == old(self).enabled,
                self.global_results == old(self).global_results,
                m0.submap_of(self.oracle.cache()),
                forall|k: int|
                    0 <= k < i ==> self.oracle.cache().contains_key(
                        result_key(#[trigger] new_results@[k]),
                    ),
            decreases new_results@.len() - i,
        {
            let r = &new_results[i];
            let _ = self.oracle.modification_time(&r.file_path, r.line_number);
            i += 1;
        }
        let ghost m = self.oracle.cache();
        let ranked = rank_batch(&self.oracle, &new_results);
        let merged = merge_ranked(&self.oracle, &self.global_results, &ranked);
        self.global_results = merged;
        proof {
            lemma_rank_desc_props(m, new_results@);
            lemma_merge_desc_props(m, old(self).global_results@, ranked@);
            lemma_multiset_commutative(old(self).global_results@, ranked@);
            if old(self).ranked_ok() {
                assert(keyed(m0, old(self).global_results@));
                assert(sorted_desc(m, old(self).global_results@)) by {
                    assert forall|p: int, q: int|
                        0 <= p < q < old(self).global_results@.len() implies key_of(
                        m,
                        old(self).global_results@[p],
                    ) >= key_of(m, old(self).global_results@[q]) by {
                        assert(m0.contains_key(result_key(old(self).global_results@[p])));
                        assert(m0.contains_key(result_key(old(self).global_results@[q])));
                        assert(key_of(m, old(self).global_results@[p]) == key_of(
                            m0,
                            old(self).global_results@[p],
                        ));
                        assert(key_of(m, old(self).global_results@[q]) == key_of(
                            m0,
                            old(self).global_results@[q],
                        ));
                    }
                }
                assert(keyed(m, old(self).global_results@));
                assert(keyed(m, ranked@)) by {
                    assert forall|p: int| 0 <= p < ranked@.len() implies m.contains_key(
                        result_key(ranked@[p]),
                    ) by {
                        assert(ranked@.contains(ranked@[p]));
                        assert(ranked@.to_multiset().contains(ranked@[p]));
                        assert(new_results@.to_multiset().contains(ranked@[p]));
                        assert(new_results@.contains(ranked@[p]));
                        let q = choose|q: int|
                            0 <= q < new_results@.len() && new_results@[q] == ranked@[p];
                        assert(m.contains_key(result_key(new_results@[q])));
                    }
                }
                assert(keyed(m, merged@)) by {
                    assert forall|p: int| 0 <= p < merged@.len() implies m.contains_key(
                        result_key(merged@[p]),
                    ) by {
                        assert(merged@.contains(merged@[p]));
                        assert(merged@.to_multiset().contains(merged@[p]));
                        assert((old(self).global_results@ + ranked@).to_multiset().contains(
                            merged@[p],
                        ));
                        assert((old(self).global_results@ + ranked@).contains(merged@[p]));
                        let q = choose|q: int|
                            0 <= q < (old(self).global_results@ + ranked@).len() && (old(
                                self,
                            ).global_results@ + ranked@)[q] == merged@[p];
                        if q < old(self).global_results@.len() {
                            assert((old(self).global_results@ + ranked@)[q] == old(
                                self,
                            ).global_results@[q]);
                        } else {
                            assert((old(self).global_results@ + ranked@)[q] == ranked@[q - old(
                                self,
                            ).global_results@.len()]);
                        }
                    }
                }
            }
        }
        ranked
    }
}

} // verus!
