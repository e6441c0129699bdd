//! Ordering of scored candidates: candidates with a score, best score first,
//! ties in table order.
use vstd::prelude::*;

verus! {

/// Candidate `a` comes before candidate `b`: a higher score, or the same score
/// and an earlier position in the table.
pub open spec fn ranked_before(scores: Seq<Option<i128>>, a: int, b: int) -> bool {
    scores[a].unwrap() > scores[b].unwrap() || (scores[a].unwrap() == scores[b].unwrap() && a < b)
}

/// `r` lists exactly the candidates that have a score, in ranked order.
pub open spec fn is_ranking(scores: Seq<Option<i128>>, r: Seq<usize>) -> bool {
    &&& forall|k: int| 0 <= k < r.len() ==> (#[trigger] r[k]) < scores.len() && scores[r[k] as int] is Some
    &&& forall|i: int| 0 <= i < scores.len() && (#[trigger] scores[i]) is Some ==> r.contains(i as usize)
    &&& forall|k1: int, k2: int| 0 <= k1 < k2 < r.len() ==> ranked_before(scores, #[trigger] r[k1] as int, #[trigger] r[k2] as int)
}

/// In a ranking a candidate with a strictly higher score always comes
/// before one with a lower score, and among equal scores the earlier table
/// position comes first.
pub proof fn lemma_better_scores_come_first(scores: Seq<Option<i128>>, r: Seq<usize>, k1: int, k2: int)
    requires
        is_ranking(scores, r),
        0 <= k1 < r.len(),
        0 <= k2 < r.len(),
    ensures
        scores[r[k1] as int].unwrap() > scores[r[k2] as int].unwrap() ==> k1 < k2,
        scores[r[k1] as int].unwrap() == scores[r[k2] as int].unwrap() && r[k1] < r[k2] ==> k1 < k2,
{
    if k2 < k1 {
        assert(ranked_before(scores, r[k2] as int, r[k1] as int));
    }
}

/// A ranking is unique: two rankings of the same scores are equal.
pub proof fn lemma_ranking_unique(scores: Seq<Option<i128>>, r1: Seq<usize>, r2: Seq<usize>)
    requires
        scores.len() <= usize::MAX,
        is_ranking(scores, r1),
        is_ranking(scores, r2),
    ensures
        r1 == r2,
    decreases r1.len() + r2.len(),
{
    if r1.len() == 0 || r2.len() == 0 {
        if r1.len() > 0 {
            let x = r1[0];
            assert(scores[x as int] is Some);
            assert(r2.contains(x));
        }
        if r2.len() > 0 {
            let x = r2[0];
            assert(scores[x as int] is Some);
            assert(r1.contains(x));
        }
        assert(r1 =~= r2);
    } else {
        let a = r1[0];
        let b = r2[0];
        assert(scores[a as int] is Some);
        assert(scores[b as int] is Some);
        assert(r2.contains(a));
        assert(r1.contains(b));
        let ia = choose|k: int| 0 <= k < r2.len() && r2[k] == a;
        let ib = choose|k: int| 0 <= k < r1.len() && r1[k] == b;
        if a != b {
            if ib > 0 {
                assert(ranked_before(scores, r1[0] as int, r1[ib] as int));
            }
            if ia > 0 {
                assert(ranked_before(scores, r2[0] as int, r2[ia] as int));
            }
            assert(false);
        }
        // Both start with the same candidate; compare the rest with that
        // candidate's score removed.
        let s2 = scores.update(a as int, None);
        let t1 = r1.drop_first();
        let t2 = r2.drop_first();
        assert forall|k1: int, k2: int| 0 <= k1 < k2 < t1.len() implies ranked_before(s2, #[trigger] t1[k1] as int, #[trigger] t1[k2] as int) by {
            assert(ranked_before(scores, r1[k1 + 1] as int, r1[k2 + 1] as int));
            assert(ranked_before(scores, r1[0] as int, r1[k1 + 1] as int));
            assert(ranked_before(scores, r1[0] as int, r1[k2 + 1] as int));
        }
        assert forall|k1: int, k2: int| 0 <= k1 < k2 < t2.len() implies ranked_before(s2, #[trigger] t2[k1] as int, #[trigger] t2[k2] as int) by {
            assert(ranked_before(scores, r2[k1 + 1] as int, r2[k2 + 1] as int));
            assert(ranked_before(scores, r2[0] as int, r2[k1 + 1] as int));
            assert(ranked_before(scores, r2[0] as int, r2[k2 + 1] as int));
        }
        assert forall|k: int| 0 <= k < t1.len() implies (#[trigger] t1[k]) < s2.len() && s2[t1[k] as int] is Some by {
            assert(ranked_before(scores, r1[0] as int, r1[k + 1] as int));
        }
        assert forall|k: int| 0 <= k < t2.len() implies (#[trigger] t2[k]) < s2.len() && s2[t2[k] as int] is Some by {
            assert(ranked_before(scores, r2[0] as int, r2[k + 1] as int));
        }
        assert forall|i: int| 0 <= i < s2.len() && (#[trigger] s2[i]) is Some implies t1.contains(i as usize) by {
            assert(scores[i] is Some);
            assert(r1.contains(i as usize));
            let k = choose|k: int| 0 <= k < r1.len() && r1[k] == i as usize;
            assert(k != 0);
            assert(t1[k - 1] == i as usize);
        }
        assert forall|i: int| 0 <= i < s2.len() && (#[trigger] s2[i]) is Some implies t2.contains(i as usize) by {
            assert(scores[i] is Some);
            assert(r2.contains(i as usize));
            let k = choose|k: int| 0 <= k < r2.len() && r2[k] == i as usize;
            assert(k != 0);
            assert(t2[k - 1] == i as usize);
        }
        lemma_ranking_unique(s2, t1, t2);
        assert(r1 =~= seq![a] + t1);
        assert(r2 =~= seq![b] + t2);
    }
}

/// The candidates up to (not including) `i` are ranked in `out`.
pub open spec fn ranked_prefix(scores: Seq<Option<i128>>, out: Seq<usize>, i: int) -> bool {
    &&& forall|k: int| 0 <= k < out.len() ==> (#[trigger] out[k]) < i && scores[out[k] as int] is Some
    &&& forall|j: int| 0 <= j < i && (#[trigger] scores[j]) is Some ==> out.contains(j as usize)
    &&& forall|k1: int, k2: int| 0 <= k1 < k2 < out.len() ==> ranked_before(scores, #[trigger] out[k1] as int, #[trigger] out[k2] as int)
}

fn score_at_least(scores: &Vec<Option<i128>>, idx: usize, s: i128) -> (b: bool)
    requires
        idx < scores@.len(),
        scores@[idx as int] is Some,
    ensures
        b == (scores@[idx as int].unwrap() >= s),
{
    match scores[idx] {
        Some(v) => v >= s,
        None => false,
    }
}

/// Inserts candidate `i` (score `s`) after every ranked candidate with at
/// least that score.
fn insert_ranked(out: &mut Vec<usize>, scores: &Vec<Option<i128>>, i: usize, s: i128)
    requires
        i < scores@.len(),
        scores@[i as int] == Some(s),
        ranked_prefix(scores@, old(out)@, i as int),
    ensures
        ranked_prefix(scores@, final(out)@, i + 1),
{
    let mut p: usize = 0;
    while p < out.len() && score_at_least(scores, out[p], s)
        invariant
            p <= out@.len(),
            i < scores@.len(),
            ranked_prefix(scores@, out@, i as int),
            forall|k: int| 0 <= k < p ==> scores@[(#[trigger] out@[k]) as int].unwrap() >= s,
        decreases out.len() - p,
    {
        p = p + 1;
    }
    let ghost before = out@;
    proof {
        assert forall|k: int| p <= k < before.len() implies scores@[(#[trigger] before[k]) as int].unwrap() < s by {
            if k > p {
                assert(ranked_before(scores@, before[p as int] as int, before[k] as int));
            }
        }
    }
    out.insert(p, i);
    proof {
        lemma_insert_keeps_ranking(scores@, before, p as int, i as int, s);
    }
}

proof fn lemma_insert_members(scores: Seq<Option<i128>>, before: Seq<usize>, p: int, i: int)
    requires
        0 <= p <= before.len(),
        0 <= i < scores.len(),
        i <= usize::MAX,
        scores[i] is Some,
        ranked_prefix(scores, before, i),
    ensures
        forall|k: int| 0 <= k < before.insert(p, i as usize).len() ==> (#[trigger] before.insert(p, i as usize)[k]) < i + 1
            && scores[before.insert(p, i as usize)[k] as int] is Some,
        forall|j: int| 0 <= j < i + 1 && (#[trigger] scores[j]) is Some ==> before.insert(p, i as usize).contains(j as usize),
{
    let out = before.insert(p, i as usize);
    assert forall|k: int| 0 <= k < out.len() implies (#[trigger] out[k]) < i + 1 && scores[out[k] as int] is Some by {
        if k < p {
            assert(out[k] == before[k]);
        } else if k > p {
            assert(out[k] == before[k - 1]);
        }
    }
    assert forall|j: int| 0 <= j < i + 1 && (#[trigger] scores[j]) is Some implies out.contains(j as usize) by {
        if j == i {
            assert(out[p] == i as usize);
        } else {
            assert(before.contains(j as usize));
            let k = choose|k: int| 0 <= k < before.len() && before[k] == j as usize;
            if k < p {
                assert(out[k] == before[k]);
            } else {
                assert(out[k + 1] == before[k]);
            }
        }
    }
}

proof fn lemma_insert_order(scores: Seq<Option<i128>>, before: Seq<usize>, p: int, i: int, s: i128)
    requires
        0 <= p <= before.len(),
        0 <= i < scores.len(),
        i <= usize::MAX,
        scores[i] == Some(s),
        ranked_prefix(scores, before, i),
        forall|k: int| 0 <= k < p ==> scores[(#[trigger] before[k]) as int].unwrap() >= s,
        forall|k: int| p <= k < before.len() ==> scores[(#[trigger] before[k]) as int].unwrap() < s,
    ensures
        forall|k1: int, k2: int| 0 <= k1 < k2 < before.insert(p, i as usize).len() ==> ranked_before(scores,
            #[trigger] before.insert(p, i as usize)[k1] as int, #[trigger] before.insert(p, i as usize)[k2] as int),
{
    let out = before.insert(p, i as usize);
    assert forall|k1: int, k2: int| 0 <= k1 < k2 < out.len() implies ranked_before(scores, #[trigger] out[k1] as int, #[trigger] out[k2] as int) by {
        if k2 < p {
            assert(out[k1] == before[k1] && out[k2] == before[k2]);
        } else if k1 > p {
            assert(out[k1] == before[k1 - 1] && out[k2] == before[k2 - 1]);
        } else if k1 < p && k2 > p {
            assert(out[k1] == before[k1] && out[k2] == before[k2 - 1]);
            assert(ranked_before(scores, before[k1] as int, before[k2 - 1] as int));
        } else if k1 == p {
            assert(out[k2] == before[k2 - 1]);
            assert(before[k2 - 1] < i);
        } else {
            assert(out[k1] == before[k1]);
            assert(before[k1] < i);
        }
    }
}

proof fn lemma_insert_keeps_ranking(scores: Seq<Option<i128>>, before: Seq<usize>, p: int, i: int, s: i128)
    requires
        0 <= p <= before.len(),
        0 <= i < scores.len(),
        i <= usize::MAX,
        scores[i] == Some(s),
        ranked_prefix(scores, before, i),
        forall|k: int| 0 <= k < p ==> scores[(#[trigger] before[k]) as int].unwrap() >= s,
        forall|k: int| p <= k < before.len() ==> scores[(#[trigger] before[k]) as int].unwrap() < s,
    ensures
        ranked_prefix(scores, before.insert(p, i as usize), i + 1),
{
    lemma_insert_members(scores, before, p, i);
    lemma_insert_order(scores, before, p, i, s);
}

/// Orders the candidates with a score: best score first, ties by position.
pub fn rank_scored_indices(scores: &Vec<Option<i128>>) -> (ranked: Vec<usize>)
    ensures
        is_ranking(scores@, ranked@),
{
    let mut out: Vec<usize> = Vec::new();
    let mut i: usize = 0;
    while i < scores.len()
        invariant
            i <= scores@.len(),
            ranked_prefix(scores@, out@, i as int),
        decreases scores.len() - i,
    {
        match scores[i] {
            Some(s) => {
                insert_ranked(&mut out, scores, i, s);
            },
            None => {
                assert(ranked_prefix(scores@, out@, i + 1));
            },
        }
        i = i + 1;
    }
    out
}

} // verus!
