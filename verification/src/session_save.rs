//! Scheduling of workspace session saves: one save in flight at a time, the
//! latest session per workspace root queued behind it, queued roots
//! dispatched round-robin, and a retry budget for failed saves.
use vstd::prelude::*;
use crate::keyed::{
    find_key, has_key, keys_distinct, lemma_lookup_by_index, lookup, remove_key, upsert,
};
use crate::text::str_equal;

verus! {

/// Failed session saves are retried this many times.
pub const SESSION_SAVE_MAX_RETRIES: u8 = 3;

/// What a session-save request turned into.
#[derive(Debug, Clone, Copy, PartialEq, Eq)]
pub enum SessionSaveRequest {
    Spawn,
    Queued,
}

/// The characters of each string.
pub open spec fn strs_view(s: Seq<String>) -> Seq<Seq<char>> {
    s.map_values(|x: String| x@)
}

/// The characters of an optional string.
pub open spec fn opt_view(o: Option<String>) -> Option<Seq<char>> {
    match o {
        Some(s) => Some(s@),
        None => None,
    }
}

/// `s` without the occurrences of `k`, order kept.
pub open spec fn without_str(s: Seq<Seq<char>>, k: Seq<char>) -> Seq<Seq<char>>
    decreases s.len(),
{
    if s.len() == 0 {
        s
    } else if s[0] == k {
        without_str(s.drop_first(), k)
    } else {
        seq![s[0]] + without_str(s.drop_first(), k)
    }
}

/// The roots of `s` that still have a queued session, order kept.
pub open spec fn keep_queued<T>(s: Seq<Seq<char>>, q: Seq<(String, T)>) -> Seq<Seq<char>>
    decreases s.len(),
{
    if s.len() == 0 {
        s
    } else if has_key(q, s[0]) {
        seq![s[0]] + keep_queued(s.drop_first(), q)
    } else {
        keep_queued(s.drop_first(), q)
    }
}

/// The first root of `s` other than `finished`.
pub open spec fn first_other(s: Seq<Seq<char>>, finished: Seq<char>) -> Option<Seq<char>>
    decreases s.len(),
{
    if s.len() == 0 {
        None
    } else if s[0] != finished {
        Some(s[0])
    } else {
        first_other(s.drop_first(), finished)
    }
}

/// The root to dispatch after `finished` completes, given the order already
/// restricted to queued roots: the first other queued root, else `finished`
/// itself when it has a queued session.
pub open spec fn dispatch_choice<T>(kept: Seq<Seq<char>>, finished: Seq<char>, q: Seq<(String, T)>) -> Option<Seq<char>> {
    match first_other(kept, finished) {
        Some(r) => Some(r),
        None => if kept.contains(finished) || has_key(q, finished) {
            Some(finished)
        } else {
            None
        },
    }
}

/// Adds `root` to the rotation order unless it is already there.
pub fn enqueue_session_save_order(order: &mut Vec<String>, root: &str)
    ensures
        strs_view(final(order)@) == (if strs_view(old(order)@).contains(root@) {
            strs_view(old(order)@)
        } else {
            strs_view(old(order)@).push(root@)
        }),
{
    let mut i: usize = 0;
    while i < order.len()
        invariant
            i <= order@.len(),
            forall|j: int| 0 <= j < i ==> #[trigger] order@[j]@ != root@,
        decreases order.len() - i,
    {
        if str_equal(order[i].as_str(), root) {
            assert(strs_view(order@)[i as int] == root@);
            return;
        }
        i = i + 1;
    }
    let ghost before = order@;
    proof {
        assert forall|j: int| 0 <= j < strs_view(before).len() implies #[trigger] strs_view(before)[j] != root@ by {
            assert(strs_view(before)[j] == before[j]@);
        }
    }
    order.push(root.to_owned());
    assert(strs_view(order@) =~= strs_view(before).push(root@));
}

/// Requests a save of `session` for `root`: it starts now when no save is in
/// flight (dropping any session still queued for that root), otherwise it
/// replaces the queued session of `root` and `root` joins the rotation.
pub fn reserve_session_save<T>(
    root: &str,
    session: T,
    in_flight: &mut Option<String>,
    queued: &mut Vec<(String, T)>,
    order: &mut Vec<String>,
) -> (request: SessionSaveRequest)
    requires
        keys_distinct(old(queued)@),
    ensures
        keys_distinct(final(queued)@),
        old(in_flight).is_some() ==> {
            &&& request == SessionSaveRequest::Queued
            &&& *final(in_flight) == *old(in_flight)
            &&& forall|k: Seq<char>| #[trigger] lookup(final(queued)@, k)
                == (if k == root@ { Some(session) } else { lookup(old(queued)@, k) })
            &&& strs_view(final(order)@) == (if strs_view(old(order)@).contains(root@) {
                    strs_view(old(order)@)
                } else {
                    strs_view(old(order)@).push(root@)
                })
        },
        old(in_flight).is_none() ==> {
            &&& request == SessionSaveRequest::Spawn
            &&& opt_view(*final(in_flight)) == Some(root@)
            &&& forall|k: Seq<char>| #[trigger] lookup(final(queued)@, k)
                == (if k == root@ { None } else { lookup(old(queued)@, k) })
            &&& strs_view(final(order)@) == without_str(strs_view(old(order)@), root@)
        },
{
    if in_flight.is_some() {
        upsert(queued, root, session);
        enqueue_session_save_order(order, root);
        SessionSaveRequest::Queued
    } else {
        let _ = remove_key(queued, root);
        remove_from_order(order, root);
        *in_flight = Some(root.to_owned());
        SessionSaveRequest::Spawn
    }
}

/// Removes every occurrence of `root` from the rotation order.
pub fn remove_from_order(order: &mut Vec<String>, root: &str)
    ensures
        strs_view(final(order)@) == without_str(strs_view(old(order)@), root@),
{
    let ghost orig = strs_view(order@);
    let mut kept: Vec<String> = Vec::new();
    let mut i: usize = 0;
    assert(orig.subrange(0, orig.len() as int) =~= orig);
    assert(strs_view(kept@) =~= Seq::<Seq<char>>::empty());
    while i < order.len()
        invariant
            i <= order@.len(),
            orig == strs_view(order@),
            strs_view(kept@) + without_str(orig.subrange(i as int, orig.len() as int), root@)
                == without_str(orig, root@),
        decreases order.len() - i,
    {
        let ghost rest = orig.subrange(i as int, orig.len() as int);
        assert(rest.drop_first() =~= orig.subrange(i + 1, orig.len() as int));
        assert(rest[0] == order@[i as int]@);
        let ghost before = strs_view(kept@);
        if !str_equal(order[i].as_str(), root) {
            kept.push(order[i].clone());
            assert(strs_view(kept@) =~= before.push(order@[i as int]@));
            assert(strs_view(kept@) + without_str(rest.drop_first(), root@)
                =~= before + (seq![rest[0]] + without_str(rest.drop_first(), root@)));
        }
        i = i + 1;
    }
    assert(orig.subrange(order.len() as int, orig.len() as int) =~= Seq::<Seq<char>>::empty());
    assert(strs_view(kept@) =~= without_str(orig, root@));
    *order = kept;
}

/// Keeps only the roots of the rotation order that still have a queued
/// session.
pub fn retain_queued_roots<T>(order: &mut Vec<String>, queued: &Vec<(String, T)>)
    ensures
        strs_view(final(order)@) == keep_queued(strs_view(old(order)@), queued@),
{
    let ghost orig = strs_view(order@);
    let mut kept: Vec<String> = Vec::new();
    let mut i: usize = 0;
    assert(orig.subrange(0, orig.len() as int) =~= orig);
    assert(strs_view(kept@) =~= Seq::<Seq<char>>::empty());
    while i < order.len()
        invariant
            i <= order@.len(),
            orig == strs_view(order@),
            strs_view(kept@) + keep_queued(orig.subrange(i as int, orig.len() as int), queued@)
                == keep_queued(orig, queued@),
        decreases order.len() - i,
    {
        let ghost rest = orig.subrange(i as int, orig.len() as int);
        assert(rest.drop_first() =~= orig.subrange(i + 1, orig.len() as int));
        assert(rest[0] == order@[i as int]@);
        let ghost before = strs_view(kept@);
        if find_key(queued, order[i].as_str()).is_some() {
            kept.push(order[i].clone());
            assert(strs_view(kept@) =~= before.push(order@[i as int]@));
            assert(strs_view(kept@) + keep_queued(rest.drop_first(), queued@)
                =~= before + (seq![rest[0]] + keep_queued(rest.drop_first(), queued@)));
        }
        i = i + 1;
    }
    assert(orig.subrange(order.len() as int, orig.len() as int) =~= Seq::<Seq<char>>::empty());
    assert(strs_view(kept@) =~= keep_queued(orig, queued@));
    *order = kept;
}

proof fn lemma_first_other_found(s: Seq<Seq<char>>, finished: Seq<char>, i: int)
    requires
        0 <= i < s.len(),
        s[i] != finished,
        forall|j: int| 0 <= j < i ==> s[j] == finished,
    ensures
        first_other(s, finished) == Some(s[i]),
    decreases i,
{
    if i > 0 {
        lemma_first_other_found(s.drop_first(), finished, i - 1);
    }
}

proof fn lemma_first_other_none(s: Seq<Seq<char>>, finished: Seq<char>)
    requires
        forall|j: int| 0 <= j < s.len() ==> s[j] == finished,
    ensures
        first_other(s, finished) is None,
    decreases s.len(),
{
    if s.len() > 0 {
        lemma_first_other_none(s.drop_first(), finished);
    }
}

proof fn lemma_keep_queued_has_key<T>(s: Seq<Seq<char>>, q: Seq<(String, T)>, x: Seq<char>)
    requires
        keep_queued(s, q).contains(x),
    ensures
        has_key(q, x),
    decreases s.len(),
{
    if s.len() > 0 {
        if has_key(q, s[0]) {
            let k = keep_queued(s, q);
            let r = keep_queued(s.drop_first(), q);
            assert(k == seq![s[0]] + r);
            let i = choose|i: int| 0 <= i < k.len() && k[i] == x;
            if i > 0 {
                assert(r[i - 1] == x);
                lemma_keep_queued_has_key(s.drop_first(), q, x);
            }
        } else {
            lemma_keep_queued_has_key(s.drop_first(), q, x);
        }
    }
}

/// Index of the first entry of `order` other than `finished`.
fn first_index_other(order: &Vec<String>, finished: &str) -> (found: Option<usize>)
    ensures
        found matches Some(i) ==> i < order@.len() && order@[i as int]@ != finished@
            && forall|j: int| 0 <= j < i ==> #[trigger] strs_view(order@)[j] == finished@,
        found is None ==> forall|j: int| 0 <= j < order@.len() ==> #[trigger] strs_view(order@)[j] == finished@,
{
    let mut i: usize = 0;
    while i < order.len()
        invariant
            i <= order@.len(),
            forall|j: int| 0 <= j < i ==> #[trigger] strs_view(order@)[j] == finished@,
        decreases order.len() - i,
    {
        if !str_equal(order[i].as_str(), finished) {
            return Some(i);
        }
        assert(strs_view(order@)[i as int] == order@[i as int]@);
        i = i + 1;
    }
    None
}

/// Picks the next root to save after `finished_root` completes: the order is
/// first restricted to roots with a queued session, the choice follows
/// `dispatch_choice`, and the chosen root leaves the order.
pub fn next_session_save_dispatch_root<T>(
    finished_root: &str,
    order: &mut Vec<String>,
    queued: &Vec<(String, T)>,
) -> (next: Option<String>)
    ensures
        opt_view(next) == dispatch_choice(keep_queued(strs_view(old(order)@), queued@), finished_root@, queued@),
        next is None ==> strs_view(final(order)@) == keep_queued(strs_view(old(order)@), queued@),
        next matches Some(n) ==> strs_view(final(order)@)
            == without_str(keep_queued(strs_view(old(order)@), queued@), n@),
        next matches Some(n) ==> has_key(queued@, n@),
{
    retain_queued_roots(order, queued);
    let ghost kept = strs_view(order@);
    let found = first_index_other(order, finished_root);
    let next: String = match found {
        Some(idx) => {
            proof {
                lemma_first_other_found(kept, finished_root@, idx as int);
                assert(kept.contains(kept[idx as int]));
                lemma_keep_queued_has_key(strs_view(old(order)@), queued@, kept[idx as int]);
            }
            order[idx].clone()
        },
        None => {
            proof {
                lemma_first_other_none(kept, finished_root@);
            }
            if order.len() > 0 {
                proof {
                    assert(kept[0] == finished_root@);
                    assert(kept.contains(finished_root@));
                    lemma_keep_queued_has_key(strs_view(old(order)@), queued@, finished_root@);
                }
                finished_root.to_owned()
            } else if find_key(queued, finished_root).is_some() {
                finished_root.to_owned()
            } else {
                proof {
                    assert(!kept.contains(finished_root@));
                }
                return None;
            }
        },
    };
    remove_from_order(order, next.as_str());
    Some(next)
}

/// What finishing the save of `root` does (see `finish_session_save`), over
/// the bookkeeping before and after and the save started next.
pub open spec fn finish_session_save_post<T>(
    root: Seq<char>,
    in_flight: Option<String>,
    queued: Seq<(String, T)>,
    order: Seq<String>,
    new_in_flight: Option<String>,
    new_queued: Seq<(String, T)>,
    new_order: Seq<String>,
    next: Option<(String, T)>,
) -> bool {
    &&& opt_view(in_flight) != Some(root) ==> {
        &&& next is None
        &&& new_in_flight == in_flight
        &&& new_queued == queued
        &&& new_order == order
    }
    &&& opt_view(in_flight) == Some(root) ==> {
        let choice = dispatch_choice(keep_queued(strs_view(order), queued), root, queued);
        match choice {
            None => {
                &&& next is None
                &&& new_in_flight is None
                &&& new_queued == queued
                &&& strs_view(new_order) == keep_queued(strs_view(order), queued)
            },
            Some(n) => {
                &&& next matches Some(pair) && pair.0@ == n && Some(pair.1) == lookup(queued, n)
                &&& opt_view(new_in_flight) == Some(n)
                &&& forall|k: Seq<char>| #[trigger] lookup(new_queued, k)
                    == (if k == n { None } else { lookup(queued, k) })
                &&& strs_view(new_order) == without_str(keep_queued(strs_view(order), queued), n)
            },
        }
    }
}

/// Completes the save of `root`. A completion for any root other than the one
/// in flight changes nothing and returns `None`. Otherwise the next root is
/// chosen as `next_session_save_dispatch_root` does; its queued session is
/// taken out of the queue, it becomes the save in flight, and both are
/// returned.
pub fn finish_session_save<T>(
    root: &str,
    in_flight: &mut Option<String>,
    queued: &mut Vec<(String, T)>,
    order: &mut Vec<String>,
) -> (next: Option<(String, T)>)
    requires
        keys_distinct(old(queued)@),
    ensures
        keys_distinct(final(queued)@),
        finish_session_save_post(
            root@,
            *old(in_flight),
            old(queued)@,
            old(order)@,
            *final(in_flight),
            final(queued)@,
            final(order)@,
            next,
        ),
{
    let current = match in_flight {
        Some(r) => str_equal(r.as_str(), root),
        None => false,
    };
    if !current {
        return None;
    }
    *in_flight = None;
    let next_root = match next_session_save_dispatch_root(root, order, queued) {
        Some(r) => r,
        None => return None,
    };
    proof {
        crate::keyed::lemma_lookup_none(queued@, next_root@);
    }
    let next_session = match remove_key(queued, next_root.as_str()) {
        Some(s) => s,
        None => {
            return None;
        },
    };
    *in_flight = Some(next_root.clone());
    Some((next_root, next_session))
}

/// A session snapshot need not be rebuilt when the current, attempted and
/// saved fingerprints are all known and equal and no save is running or
/// queued.
pub fn should_skip_session_persistence(
    current_fingerprint: Option<u64>,
    attempted_fingerprint: Option<u64>,
    saved_fingerprint: Option<u64>,
    save_in_flight: bool,
    saves_queued: bool,
) -> (skip: bool)
    ensures
        skip == (current_fingerprint.is_some() && attempted_fingerprint.is_some()
            && saved_fingerprint.is_some() && !save_in_flight && !saves_queued
            && current_fingerprint == attempted_fingerprint
            && attempted_fingerprint == saved_fingerprint),
{
    match (current_fingerprint, attempted_fingerprint, saved_fingerprint) {
        (Some(current), Some(attempted), Some(saved)) => {
            !save_in_flight && !saves_queued && current == attempted && attempted == saved
        },
        _ => false,
    }
}

/// The failure count recorded for `k`, zero when none is recorded.
pub open spec fn failure_count(failures: Seq<(String, u8)>, k: Seq<char>) -> u8 {
    match lookup(failures, k) {
        Some(n) => n,
        None => 0,
    }
}

/// Records a failed save of `root`. While fewer than `max_retries` failures
/// are recorded, the count goes up and a retry is allowed; once the budget is
/// spent the record is dropped (so a later failure starts a new budget) and no
/// retry is allowed.
pub fn register_session_save_failure(
    failures: &mut Vec<(String, u8)>,
    root: &str,
    max_retries: u8,
) -> (retry: bool)
    requires
        keys_distinct(old(failures)@),
    ensures
        keys_distinct(final(failures)@),
        retry == (failure_count(old(failures)@, root@) < max_retries),
        forall|k: Seq<char>| #[trigger] lookup(final(failures)@, k) == (if k != root@ {
            lookup(old(failures)@, k)
        } else if retry {
            Some((failure_count(old(failures)@, root@) + 1) as u8)
        } else {
            None
        }),
{
    let attempts: u8 = match find_key(failures, root) {
        Some(i) => {
            proof {
                lemma_lookup_by_index(failures@, root@);
                assert(failures@[i as int].1 == failures@[i as int].1);
            }
            failures[i].1
        },
        None => {
            proof {
                lemma_lookup_by_index(failures@, root@);
            }
            0
        },
    };
    if attempts >= max_retries {
        let _ = remove_key(failures, root);
        return false;
    }
    upsert(failures, root, attempts + 1);
    true
}

/// Remembers the fingerprint of the session being saved for `root`.
pub fn stage_session_save_fingerprint(fingerprints: &mut Vec<(String, u64)>, root: &str, fingerprint: u64)
    requires
        keys_distinct(old(fingerprints)@),
    ensures
        keys_distinct(final(fingerprints)@),
        forall|k: Seq<char>| #[trigger] lookup(final(fingerprints)@, k)
            == (if k == root@ { Some(fingerprint) } else { lookup(old(fingerprints)@, k) }),
{
    upsert(fingerprints, root, fingerprint);
}

/// A save of `root` succeeded: its failure record is cleared and the staged
/// fingerprint is taken out and returned.
pub fn note_session_save_succeeded(
    failures: &mut Vec<(String, u8)>,
    fingerprints: &mut Vec<(String, u64)>,
    root: &str,
) -> (saved: Option<u64>)
    requires
        keys_distinct(old(failures)@),
        keys_distinct(old(fingerprints)@),
    ensures
        keys_distinct(final(failures)@),
        keys_distinct(final(fingerprints)@),
        saved == lookup(old(fingerprints)@, root@),
        forall|k: Seq<char>| #[trigger] lookup(final(failures)@, k)
            == (if k == root@ { None } else { lookup(old(failures)@, k) }),
        forall|k: Seq<char>| #[trigger] lookup(final(fingerprints)@, k)
            == (if k == root@ { None } else { lookup(old(fingerprints)@, k) }),
{
    let _ = remove_key(failures, root);
    remove_key(fingerprints, root)
}

/// A save of `root` failed: records it against the retry budget of
/// `SESSION_SAVE_MAX_RETRIES` and says whether to retry.
pub fn note_session_save_failed(failures: &mut Vec<(String, u8)>, root: &str) -> (retry: bool)
    requires
        keys_distinct(old(failures)@),
    ensures
        keys_distinct(final(failures)@),
        retry == (failure_count(old(failures)@, root@) < SESSION_SAVE_MAX_RETRIES),
        forall|k: Seq<char>| #[trigger] lookup(final(failures)@, k) == (if k != root@ {
            lookup(old(failures)@, k)
        } else if retry {
            Some((failure_count(old(failures)@, root@) + 1) as u8)
        } else {
            None
        }),
{
    register_session_save_failure(failures, root, SESSION_SAVE_MAX_RETRIES)
}


/// Saves rotate between workspaces: when a save finishes while another
/// workspace still waits in the rotation, the next save goes to a waiting
/// workspace other than the one that just finished.
pub proof fn lemma_dispatch_prefers_other_roots<T>(kept: Seq<Seq<char>>, finished: Seq<char>, q: Seq<(String, T)>, i: int)
    requires
        0 <= i < kept.len(),
        kept[i] != finished,
    ensures
        dispatch_choice(kept, finished, q) matches Some(r) && r != finished && kept.contains(r),
{
    lemma_first_other_some(kept, finished, i);
}

/// `first_other` finds a root other than `finished` whenever there is one.
proof fn lemma_first_other_some(s: Seq<Seq<char>>, finished: Seq<char>, i: int)
    requires
        0 <= i < s.len(),
        s[i] != finished,
    ensures
        first_other(s, finished) matches Some(r) && r != finished && s.contains(r),
    decreases s.len(),
{
    if s[0] != finished {
        assert(s.contains(s[0]));
    } else {
        lemma_first_other_some(s.drop_first(), finished, i - 1);
        let r = first_other(s.drop_first(), finished).unwrap();
        let k = choose|k: int| 0 <= k < s.drop_first().len() && s.drop_first()[k] == r;
        assert(s[k + 1] == r);
    }
}

/// A root in the order that has a queued session stays in the order once it
/// is restricted to queued roots.
proof fn lemma_keep_queued_keeps<T>(s: Seq<Seq<char>>, q: Seq<(String, T)>, x: Seq<char>)
    requires
        s.contains(x),
        has_key(q, x),
    ensures
        keep_queued(s, q).contains(x),
    decreases s.len(),
{
    if s[0] == x {
        assert(keep_queued(s, q)[0] == x);
    } else {
        let i = choose|i: int| 0 <= i < s.len() && s[i] == x;
        assert(s.drop_first()[i - 1] == x);
        lemma_keep_queued_keeps(s.drop_first(), q, x);
        let r = keep_queued(s.drop_first(), q);
        let j = choose|j: int| 0 <= j < r.len() && r[j] == x;
        if has_key(q, s[0]) {
            assert(keep_queued(s, q) == seq![s[0]] + r);
            assert(keep_queued(s, q)[j + 1] == x);
        }
    }
}

/// With only `finished` left to choose from, `first_other` finds nothing,
/// and when it finds nothing every root is `finished`.
proof fn lemma_first_other_none_all(s: Seq<Seq<char>>, finished: Seq<char>)
    requires
        first_other(s, finished) is None,
    ensures
        forall|j: int| 0 <= j < s.len() ==> s[j] == finished,
    decreases s.len(),
{
    if s.len() > 0 {
        lemma_first_other_none_all(s.drop_first(), finished);
        assert forall|j: int| 0 <= j < s.len() implies s[j] == finished by {
            if j > 0 {
                assert(s[j] == s.drop_first()[j - 1]);
            }
        }
    }
}

/// A queued session is never stranded. When every queued root is in the
/// rotation order, the choice after a save finishes is empty only when no
/// session is queued at all; in particular a finished root that has queued
/// a newer session of its own, with no other root waiting, is chosen again.
pub proof fn lemma_queued_session_is_never_stranded<T>(order: Seq<Seq<char>>, finished: Seq<char>, q: Seq<(String, T)>)
    requires
        forall|i: int| 0 <= i < q.len() ==> order.contains(#[trigger] q[i].0@),
    ensures
        dispatch_choice(keep_queued(order, q), finished, q) is None ==> q.len() == 0,
        has_key(q, finished) ==> dispatch_choice(keep_queued(order, q), finished, q) is Some,
        has_key(q, finished) && first_other(keep_queued(order, q), finished) is None
            ==> dispatch_choice(keep_queued(order, q), finished, q) == Some(finished),
{
    let kept = keep_queued(order, q);
    if dispatch_choice(kept, finished, q) is None && q.len() > 0 {
        let k = q[0].0@;
        assert(has_key(q, k));
        assert(order.contains(k));
        lemma_keep_queued_keeps(order, q, k);
        lemma_first_other_none_all(kept, finished);
        let j = choose|j: int| 0 <= j < kept.len() && kept[j] == k;
        assert(kept[j] == finished);
        assert(kept.contains(finished));
    }
}

} // verus!
