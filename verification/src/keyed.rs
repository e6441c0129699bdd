//! Small association lists keyed by path strings, standing in for maps keyed
//! by paths. Keys are compared by their characters.
use vstd::prelude::*;
use crate::text::str_equal;

verus! {

/// Whether some entry of `q` has key `k`.
pub open spec fn has_key<T>(q: Seq<(String, T)>, k: Seq<char>) -> bool {
    exists|i: int| 0 <= i < q.len() && #[trigger] q[i].0@ == k
}

/// No two entries of `q` share a key.
pub open spec fn keys_distinct<T>(q: Seq<(String, T)>) -> bool {
    forall|i: int, j: int| 0 <= i < q.len() && 0 <= j < q.len() && i != j ==> #[trigger] q[i].0@ != #[trigger] q[j].0@
}

/// The value stored under `k` (the first entry with that key).
pub open spec fn lookup<T>(q: Seq<(String, T)>, k: Seq<char>) -> Option<T>
    decreases q.len(),
{
    if q.len() == 0 {
        None
    } else if q[0].0@ == k {
        Some(q[0].1)
    } else {
        lookup(q.drop_first(), k)
    }
}

/// `q` without the entries whose key is `k`, order kept.
pub open spec fn without_key<T>(q: Seq<(String, T)>, k: Seq<char>) -> Seq<(String, T)>
    decreases q.len(),
{
    if q.len() == 0 {
        q
    } else if q[0].0@ == k {
        without_key(q.drop_first(), k)
    } else {
        seq![q[0]] + without_key(q.drop_first(), k)
    }
}

pub proof fn lemma_lookup_none<T>(q: Seq<(String, T)>, k: Seq<char>)
    ensures
        (lookup(q, k) is None) == !has_key(q, k),
        lookup(q, k) matches Some(v) ==> exists|i: int| 0 <= i < q.len() && q[i].0@ == k && q[i].1 == v,
    decreases q.len(),
{
    if q.len() > 0 {
        lemma_lookup_none(q.drop_first(), k);
        if has_key(q, k) && q[0].0@ != k {
            let i = choose|i: int| 0 <= i < q.len() && #[trigger] q[i].0@ == k;
            assert(q.drop_first()[i - 1].0@ == k);
        }
        if has_key(q.drop_first(), k) {
            let i = choose|i: int| 0 <= i < q.drop_first().len() && #[trigger] q.drop_first()[i].0@ == k;
            assert(q[i + 1].0@ == k);
        }
        if let Some(v) = lookup(q.drop_first(), k) {
            if q[0].0@ != k {
                let i = choose|i: int| 0 <= i < q.drop_first().len() && q.drop_first()[i].0@ == k && q.drop_first()[i].1 == v;
                assert(q[i + 1].0@ == k && q[i + 1].1 == v);
            }
        }
    }
}

/// With distinct keys, the entry at `i` is what `lookup` finds for its key.
pub proof fn lemma_lookup_at<T>(q: Seq<(String, T)>, i: int)
    requires
        keys_distinct(q),
        0 <= i < q.len(),
    ensures
        lookup(q, q[i].0@) == Some(q[i].1),
    decreases q.len(),
{
    if i > 0 {
        let r = q.drop_first();
        assert forall|a: int, b: int| 0 <= a < r.len() && 0 <= b < r.len() && a != b implies #[trigger] r[a].0@ != #[trigger] r[b].0@ by {
            assert(r[a] == q[a + 1] && r[b] == q[b + 1]);
        }
        assert(q[0].0@ != q[i].0@);
        assert(r[i - 1] == q[i]);
        lemma_lookup_at(r, i - 1);
    }
}

/// Index of the entry with key `k`, if any.
pub fn find_key<T>(q: &Vec<(String, T)>, k: &str) -> (found: Option<usize>)
    ensures
        found matches Some(i) ==> i < q@.len() && q@[i as int].0@ == k@,
        found is None ==> !has_key(q@, k@),
{
    let mut i: usize = 0;
    while i < q.len()
        invariant
            i <= q@.len(),
            forall|j: int| 0 <= j < i ==> #[trigger] q@[j].0@ != k@,
        decreases q.len() - i,
    {
        if str_equal(q[i].0.as_str(), k) {
            return Some(i);
        }
        i = i + 1;
    }
    None
}

/// With distinct keys, `lookup` is determined by the entries: it finds the
/// value of the entry with that key, or nothing when no entry has it.
pub proof fn lemma_lookup_by_index<T>(q: Seq<(String, T)>, k: Seq<char>)
    requires
        keys_distinct(q),
    ensures
        !has_key(q, k) ==> lookup(q, k) is None,
        forall|i: int| 0 <= i < q.len() && q[i].0@ == k ==> lookup(q, k) == Some(#[trigger] q[i].1),
{
    lemma_lookup_none(q, k);
    assert forall|i: int| 0 <= i < q.len() && q[i].0@ == k implies lookup(q, k) == Some(#[trigger] q[i].1) by {
        lemma_lookup_at(q, i);
    }
}

/// Stores `v` under `k`, replacing an existing entry in place or appending a
/// new one.
pub fn upsert<T>(q: &mut Vec<(String, T)>, k: &str, v: T)
    requires
        keys_distinct(old(q)@),
    ensures
        keys_distinct(final(q)@),
        forall|kk: Seq<char>| #[trigger] lookup(final(q)@, kk) == (if kk == k@ { Some(v) } else { lookup(old(q)@, kk) }),
        has_key(old(q)@, k@) ==> final(q)@.len() == old(q)@.len(),
        !has_key(old(q)@, k@) ==> final(q)@.len() == old(q)@.len() + 1,
{
    let ghost before = q@;
    match find_key(q, k) {
        Some(i) => {
            let key = q[i].0.clone();
            q.set(i, (key, v));
            proof {
                assert forall|a: int, b: int| 0 <= a < q@.len() && 0 <= b < q@.len() && a != b implies #[trigger] q@[a].0@ != #[trigger] q@[b].0@ by {
                    assert(q@[a].0@ == before[a].0@ && q@[b].0@ == before[b].0@);
                }
                assert forall|kk: Seq<char>| #[trigger] lookup(q@, kk) == (if kk == k@ { Some(v) } else { lookup(before, kk) }) by {
                    lemma_lookup_by_index(q@, kk);
                    lemma_lookup_by_index(before, kk);
                    if kk == k@ {
                        assert(q@[i as int].0@ == kk);
                        assert(q@[i as int].1 == v);
                    } else if has_key(q@, kk) {
                        let j = choose|j: int| 0 <= j < q@.len() && #[trigger] q@[j].0@ == kk;
                        assert(before[j] == q@[j]);
                        assert(before[j].1 == q@[j].1);
                    } else {
                        if has_key(before, kk) {
                            let j = choose|j: int| 0 <= j < before.len() && #[trigger] before[j].0@ == kk;
                            assert(q@[j].0@ == kk);
                        }
                    }
                }
            }
        },
        None => {
            let key = k.to_owned();
            q.push((key, v));
            proof {
                assert forall|a: int, b: int| 0 <= a < q@.len() && 0 <= b < q@.len() && a != b implies #[trigger] q@[a].0@ != #[trigger] q@[b].0@ by {
                    if a < before.len() && b < before.len() {
                        assert(q@[a] == before[a] && q@[b] == before[b]);
                    } else if a < before.len() {
                        assert(q@[a] == before[a]);
                    } else {
                        assert(q@[b] == before[b]);
                    }
                }
                assert forall|kk: Seq<char>| #[trigger] lookup(q@, kk) == (if kk == k@ { Some(v) } else { lookup(before, kk) }) by {
                    lemma_lookup_by_index(q@, kk);
                    lemma_lookup_by_index(before, kk);
                    let last = before.len() as int;
                    assert(q@[last].0@ == k@);
                    if kk == k@ {
                        assert(q@[last].1 == v);
                    } else if has_key(q@, kk) {
                        let j = choose|j: int| 0 <= j < q@.len() && #[trigger] q@[j].0@ == kk;
                        assert(j != last);
                        assert(before[j] == q@[j]);
                        assert(before[j].1 == q@[j].1);
                    } else {
                        if has_key(before, kk) {
                            let j = choose|j: int| 0 <= j < before.len() && #[trigger] before[j].0@ == kk;
                            assert(q@[j] == before[j]);
                        }
                    }
                }
            }
        },
    }
}

/// Removes the entry with key `k` and returns its value.
pub fn remove_key<T>(q: &mut Vec<(String, T)>, k: &str) -> (removed: Option<T>)
    requires
        keys_distinct(old(q)@),
    ensures
        keys_distinct(final(q)@),
        removed == lookup(old(q)@, k@),
        forall|kk: Seq<char>| #[trigger] lookup(final(q)@, kk) == (if kk == k@ { None } else { lookup(old(q)@, kk) }),
        !has_key(final(q)@, k@),
{
    let ghost before = q@;
    proof {
        lemma_lookup_by_index(before, k@);
    }
    match find_key(q, k) {
        None => {
            proof {
                assert forall|kk: Seq<char>| #[trigger] lookup(q@, kk) == (if kk == k@ { None } else { lookup(before, kk) }) by {
                    lemma_lookup_by_index(before, kk);
                }
            }
            None
        },
        Some(i) => {
            let entry = q.remove(i);
            proof {
                assert(before[i as int] == entry);
                assert forall|a: int, b: int| 0 <= a < q@.len() && 0 <= b < q@.len() && a != b implies #[trigger] q@[a].0@ != #[trigger] q@[b].0@ by {
                    let a2 = if a < i { a } else { a + 1 };
                    let b2 = if b < i { b } else { b + 1 };
                    assert(q@[a] == before[a2] && q@[b] == before[b2]);
                }
                assert forall|kk: Seq<char>| #[trigger] lookup(q@, kk) == (if kk == k@ { None } else { lookup(before, kk) }) by {
                    lemma_lookup_by_index(q@, kk);
                    lemma_lookup_by_index(before, kk);
                    if has_key(q@, kk) {
                        let j = choose|j: int| 0 <= j < q@.len() && #[trigger] q@[j].0@ == kk;
                        let j2 = if j < i { j } else { j + 1 };
                        assert(q@[j] == before[j2]);
                        assert(q@[j].1 == before[j2].1);
                        assert(j2 != i);
                    } else if has_key(before, kk) {
                        let j = choose|j: int| 0 <= j < before.len() && #[trigger] before[j].0@ == kk;
                        if j != i {
                            let j1 = if j < i { j } else { j - 1 };
                            assert(q@[j1] == before[j]);
                        }
                    }
                }
                if has_key(q@, k@) {
                    let j = choose|j: int| 0 <= j < q@.len() && #[trigger] q@[j].0@ == k@;
                    let j2 = if j < i { j } else { j + 1 };
                    assert(q@[j] == before[j2]);
                }
            }
            Some(entry.1)
        },
    }
}

} // verus!
