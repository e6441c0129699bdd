//! File watcher helpers: the lexical key under which reported paths are
//! deduplicated, and whether a watcher still watches the workspace root.
use vstd::prelude::*;
use crate::paths::{
    char_vecs_view, chars_equal, component_is_dot, component_is_dotdot, norm_step,
    normalize_components, normalized_components, path_components, path_is_rooted, path_rooted,
    paths_match, paths_match_spec, split_path_components,
};
use crate::session_save::{opt_view, strs_view};

verus! {

/// A path reduced to what identifies it lexically: rootedness and its
/// normalised components (`.` dropped, `..` resolved where possible).
#[derive(Debug, Clone)]
pub struct WatcherPathKey {
    pub rooted: bool,
    pub components: Vec<Vec<char>>,
}

/// The key of `p` as plain values.
pub open spec fn watcher_key_spec(p: Seq<char>) -> (bool, Seq<Seq<char>>) {
    (path_is_rooted(p), normalized_components(p))
}

/// A key as plain values.
pub open spec fn key_view(k: WatcherPathKey) -> (bool, Seq<Seq<char>>) {
    (k.rooted, char_vecs_view(k.components@))
}

/// The key of a reported path.
pub fn watcher_path_key(path: &str) -> (key: WatcherPathKey)
    ensures
        key_view(key) == watcher_key_spec(path@),
{
    let rooted = path_rooted(path);
    let comps = split_path_components(path);
    let components = normalize_components(rooted, &comps);
    WatcherPathKey { rooted, components }
}

/// Whether two component lists are equal.
pub fn components_equal(a: &Vec<Vec<char>>, b: &Vec<Vec<char>>) -> (eq: bool)
    ensures
        eq == (char_vecs_view(a@) == char_vecs_view(b@)),
{
    if a.len() != b.len() {
        assert(char_vecs_view(a@).len() != char_vecs_view(b@).len());
        return false;
    }
    let mut i: usize = 0;
    while i < a.len()
        invariant
            i <= a@.len(),
            a@.len() == b@.len(),
            forall|j: int| 0 <= j < i ==> #[trigger] a@[j]@ == b@[j]@,
        decreases a.len() - i,
    {
        if !chars_equal(&a[i], &b[i]) {
            assert(char_vecs_view(a@)[i as int] != char_vecs_view(b@)[i as int]);
            return false;
        }
        i = i + 1;
    }
    assert(char_vecs_view(a@) =~= char_vecs_view(b@));
    true
}

/// Whether two keys are equal.
pub fn watcher_keys_equal(a: &WatcherPathKey, b: &WatcherPathKey) -> (eq: bool)
    ensures
        eq == (key_view(*a) == key_view(*b)),
{
    a.rooted == b.rooted && components_equal(&a.components, &b.components)
}

/// `paths` without the later paths whose key an earlier path already has.
pub open spec fn dedupe_spec(paths: Seq<Seq<char>>) -> Seq<Seq<char>>
    decreases paths.len(),
{
    if paths.len() == 0 {
        paths
    } else {
        let kept = dedupe_spec(paths.drop_last());
        if forall|j: int| 0 <= j < paths.len() - 1 ==> watcher_key_spec(#[trigger] paths[j]) != watcher_key_spec(paths.last()) {
            kept.push(paths.last())
        } else {
            kept
        }
    }
}

/// Keeps the first of the paths sharing a key, in order; returns how many
/// were dropped.
pub fn dedupe_watcher_paths(changed: &mut Vec<String>) -> (removed: usize)
    ensures
        strs_view(final(changed)@) == dedupe_spec(strs_view(old(changed)@)),
        removed == old(changed)@.len() - final(changed)@.len(),
{
    let ghost orig = strs_view(changed@);
    let mut keys: Vec<WatcherPathKey> = Vec::new();
    let mut i: usize = 0;
    while i < changed.len()
        invariant
            i <= changed@.len(),
            orig == strs_view(changed@),
            keys@.len() == i,
            forall|j: int| 0 <= j < i ==> #[trigger] key_view(keys@[j]) == watcher_key_spec(orig[j]),
        decreases changed.len() - i,
    {
        keys.push(watcher_path_key(changed[i].as_str()));
        i = i + 1;
    }
    let mut kept: Vec<String> = Vec::new();
    i = 0;
    assert(strs_view(kept@) =~= dedupe_spec(orig.take(0)));
    while i < changed.len()
        invariant
            i <= changed@.len(),
            orig == strs_view(changed@),
            keys@.len() == changed@.len(),
            kept@.len() <= i,
            forall|j: int| 0 <= j < changed@.len() ==> #[trigger] key_view(keys@[j]) == watcher_key_spec(orig[j]),
            strs_view(kept@) == dedupe_spec(orig.take(i as int)),
        decreases changed.len() - i,
    {
        let mut unique = true;
        let mut j: usize = 0;
        while j < i
            invariant
                j <= i,
                i < changed@.len(),
                keys@.len() == changed@.len(),
                forall|m: int| 0 <= m < changed@.len() ==> #[trigger] key_view(keys@[m]) == watcher_key_spec(orig[m]),
                unique == forall|m: int| 0 <= m < j ==> watcher_key_spec(#[trigger] orig[m]) != watcher_key_spec(orig[i as int]),
            decreases i - j,
        {
            if watcher_keys_equal(&keys[j], &keys[i]) {
                unique = false;
            }
            j = j + 1;
        }
        let ghost prefix = orig.take(i + 1);
        assert(prefix.drop_last() =~= orig.take(i as int));
        assert(prefix.last() == orig[i as int]);
        assert(unique == forall|m: int| 0 <= m < prefix.len() - 1 ==> watcher_key_spec(#[trigger] prefix[m]) != watcher_key_spec(prefix.last())) by {
            assert forall|m: int| 0 <= m < prefix.len() - 1 implies prefix[m] == orig[m] by {}
        }
        if unique {
            let ghost before = kept@;
            kept.push(changed[i].clone());
            assert(strs_view(kept@) =~= strs_view(before).push(orig[i as int]));
        }
        i = i + 1;
    }
    assert(orig.take(changed@.len() as int) =~= orig);
    let removed = changed.len() - kept.len();
    *changed = kept;
    removed
}

/// The watcher still watches the workspace root (the roots have the same
/// key).
pub fn watcher_root_matches_workspace(watcher_root: &str, workspace_root: &str) -> (matches: bool)
    ensures
        matches == paths_match_spec(watcher_root@, workspace_root@),
{
    paths_match(watcher_root, workspace_root)
}


/// After deduplication no two paths share a key, every path kept was
/// reported, and every reported path has its key kept.
pub proof fn lemma_dedupe_keeps_one_path_per_key(paths: Seq<Seq<char>>)
    ensures
        forall|i: int, j: int| 0 <= i < j < dedupe_spec(paths).len()
            ==> watcher_key_spec(#[trigger] dedupe_spec(paths)[i]) != watcher_key_spec(#[trigger] dedupe_spec(paths)[j]),
        forall|i: int| 0 <= i < dedupe_spec(paths).len() ==> paths.contains(#[trigger] dedupe_spec(paths)[i]),
        forall|i: int| 0 <= i < paths.len() ==> exists|j: int| 0 <= j < dedupe_spec(paths).len()
            && watcher_key_spec(#[trigger] dedupe_spec(paths)[j]) == watcher_key_spec(#[trigger] paths[i]),
    decreases paths.len(),
{
    if paths.len() > 0 {
        let rest = paths.drop_last();
        lemma_dedupe_keeps_one_path_per_key(rest);
        let kept = dedupe_spec(rest);
        let last = paths.last();
        let d = dedupe_spec(paths);
        let fresh = forall|j: int| 0 <= j < paths.len() - 1 ==> watcher_key_spec(#[trigger] paths[j]) != watcher_key_spec(last);
        assert forall|i: int| 0 <= i < d.len() implies paths.contains(#[trigger] d[i]) by {
            if i < kept.len() {
                assert(d[i] == kept[i]);
                assert(rest.contains(kept[i]));
                let k = choose|k: int| 0 <= k < rest.len() && rest[k] == kept[i];
                assert(paths[k] == kept[i]);
            } else {
                assert(d[i] == paths[paths.len() - 1]);
            }
        }
        assert forall|i: int| 0 <= i < paths.len() implies exists|j: int| 0 <= j < d.len()
            && watcher_key_spec(#[trigger] d[j]) == watcher_key_spec(#[trigger] paths[i]) by {
            if i < paths.len() - 1 {
                assert(paths[i] == rest[i]);
                let j = choose|j: int| 0 <= j < kept.len() && watcher_key_spec(#[trigger] kept[j]) == watcher_key_spec(rest[i]);
                assert(d[j] == kept[j]);
            } else if fresh {
                assert(d[kept.len() as int] == last);
            } else {
                let k = choose|k: int| 0 <= k < paths.len() - 1 && watcher_key_spec(#[trigger] paths[k]) == watcher_key_spec(last);
                assert(paths[k] == rest[k]);
                let j = choose|j: int| 0 <= j < kept.len() && watcher_key_spec(#[trigger] kept[j]) == watcher_key_spec(rest[k]);
                assert(d[j] == kept[j]);
            }
        }
        if fresh {
            assert forall|i: int, j: int| 0 <= i < j < d.len()
                implies watcher_key_spec(#[trigger] d[i]) != watcher_key_spec(#[trigger] d[j]) by {
                if j < kept.len() {
                    assert(d[i] == kept[i] && d[j] == kept[j]);
                } else {
                    assert(d[j] == last);
                    assert(d[i] == kept[i]);
                    assert(rest.contains(kept[i]));
                    let k = choose|k: int| 0 <= k < rest.len() && rest[k] == kept[i];
                    assert(paths[k] == rest[k]);
                }
            }
        }
    }
}

/// `stack` starts with the components `root`.
pub open spec fn components_start_with(stack: Seq<Seq<char>>, root: Seq<Seq<char>>) -> bool {
    root.len() <= stack.len() && stack.take(root.len() as int) == root
}

/// Walks the components `comps` of a path, normalising as it goes. Returns
/// the normalised components so far, whether the walk has reached the root
/// components `root`, and whether it left them again after reaching them.
pub open spec fn root_walk(rooted: bool, root: Seq<Seq<char>>, comps: Seq<Seq<char>>) -> (Seq<Seq<char>>, bool, bool)
    decreases comps.len(),
{
    if comps.len() == 0 {
        (seq![], root.len() == 0, false)
    } else {
        let (stack, reached, left) = root_walk(rooted, root, comps.drop_last());
        let next = norm_step(rooted, stack, comps.last());
        if left {
            (next, reached, true)
        } else if reached {
            (next, true, !components_start_with(next, root))
        } else {
            (next, next == root, false)
        }
    }
}

/// `path` stays within `root` lexically: read component by component, the
/// path reaches the root and never climbs back out of it (a path that
/// leaves the root with `..` and re-enters it does not stay within).
pub open spec fn stays_within_root_spec(root: Seq<char>, path: Seq<char>) -> bool {
    let walk = root_walk(path_is_rooted(path), normalized_components(root), path_components(path));
    &&& path_is_rooted(root) == path_is_rooted(path)
    &&& walk.1
    &&& !walk.2
}

/// Whether `stack` starts with `root`.
pub fn components_start_with_exec(stack: &Vec<Vec<char>>, root: &Vec<Vec<char>>) -> (starts: bool)
    ensures
        starts == components_start_with(char_vecs_view(stack@), char_vecs_view(root@)),
{
    let ghost sv = char_vecs_view(stack@);
    let ghost rv = char_vecs_view(root@);
    if root.len() > stack.len() {
        return false;
    }
    let mut i: usize = 0;
    while i < root.len()
        invariant
            i <= root@.len(),
            root@.len() <= stack@.len(),
            sv == char_vecs_view(stack@),
            rv == char_vecs_view(root@),
            forall|j: int| 0 <= j < i ==> #[trigger] sv[j] == rv[j],
        decreases root.len() - i,
    {
        if !chars_equal(&stack[i], &root[i]) {
            assert(sv.take(rv.len() as int)[i as int] != rv[i as int]);
            return false;
        }
        i = i + 1;
    }
    assert(sv.take(rv.len() as int) =~= rv);
    true
}

/// Whether `path` stays within `root` (see `stays_within_root_spec`).
pub fn workspace_path_stays_within_root_lexically(root: &str, path: &str) -> (stays: bool)
    ensures
        stays == stays_within_root_spec(root@, path@),
{
    let rooted = path_rooted(path);
    if path_rooted(root) != rooted {
        return false;
    }
    let root_raw = split_path_components(root);
    let root_comps = normalize_components(path_rooted(root), &root_raw);
    let comps = split_path_components(path);
    let ghost rv = char_vecs_view(root_comps@);
    let ghost cv = char_vecs_view(comps@);
    let mut stack: Vec<Vec<char>> = Vec::new();
    let mut reached = root_comps.len() == 0;
    let mut i: usize = 0;
    assert(cv.take(0) =~= Seq::<Seq<char>>::empty());
    while i < comps.len()
        invariant
            i <= comps@.len(),
            rv == char_vecs_view(root_comps@),
            cv == char_vecs_view(comps@),
            root_walk(rooted, rv, cv.take(i as int)) == (char_vecs_view(stack@), reached, false),
            rooted == path_is_rooted(path@),
            path_is_rooted(root@) == rooted,
            rv == normalized_components(root@),
            cv == path_components(path@),
        decreases comps.len() - i,
    {
        let ghost prefix = cv.take(i + 1);
        assert(prefix.drop_last() =~= cv.take(i as int));
        assert(prefix.last() == comps@[i as int]@);
        let ghost before = char_vecs_view(stack@);
        let c = &comps[i];
        if component_is_dot(c) {
        } else if component_is_dotdot(c) {
            let n = stack.len();
            if n > 0 && !component_is_dotdot(&stack[n - 1]) {
                stack.pop();
                assert(char_vecs_view(stack@) =~= before.drop_last());
            } else if !rooted {
                stack.push(c.clone());
                assert(char_vecs_view(stack@) =~= before.push(c@));
            }
        } else {
            stack.push(c.clone());
            assert(char_vecs_view(stack@) =~= before.push(c@));
        }
        assert(char_vecs_view(stack@) == norm_step(rooted, before, c@));
        if reached {
            if !components_start_with_exec(&stack, &root_comps) {
                proof {
                    lemma_left_root_stays_left(rooted, rv, cv, i + 1);
                    assert(cv.take(comps@.len() as int) =~= cv);
                }
                return false;
            }
        } else {
            reached = stack.len() == root_comps.len() && components_start_with_exec(&stack, &root_comps);
            proof {
                if reached {
                    assert(char_vecs_view(stack@) =~= char_vecs_view(stack@).take(rv.len() as int));
                } else if char_vecs_view(stack@) == rv {
                    assert(char_vecs_view(stack@).take(rv.len() as int) =~= rv);
                }
            }
        }
        i = i + 1;
    }
    assert(cv.take(comps@.len() as int) =~= cv);
    reached
}

/// Adds the open buffer paths: each buffer path that stays within the
/// workspace root and whose key no path of the batch (or an earlier buffer
/// path) has yet is appended.
pub open spec fn include_spec(changed: Seq<Seq<char>>, buffers: Seq<Option<Seq<char>>>, root: Seq<char>) -> Seq<Seq<char>>
    decreases buffers.len(),
{
    if buffers.len() == 0 {
        changed
    } else {
        let acc = include_spec(changed, buffers.drop_last(), root);
        match buffers.last() {
            Some(p) => if stays_within_root_spec(root, p)
                && forall|j: int| 0 <= j < acc.len() ==> watcher_key_spec(#[trigger] acc[j]) != watcher_key_spec(p) {
                acc.push(p)
            } else {
                acc
            },
            None => acc,
        }
    }
}

/// The buffer paths as characters.
pub open spec fn opt_strs_view(paths: Seq<Option<String>>) -> Seq<Option<Seq<char>>> {
    paths.map_values(|p: Option<String>| opt_view(p))
}

/// After the watcher lost events, adds the paths of the open buffers (those
/// with a path inside the workspace) to the batch so they are checked for
/// changes on disk; returns how many were added (see `include_spec`).
pub fn include_open_buffer_paths(
    changed: &mut Vec<String>,
    buffer_paths: &Vec<Option<String>>,
    workspace_root: &str,
) -> (added: usize)
    ensures
        strs_view(final(changed)@) == include_spec(strs_view(old(changed)@), opt_strs_view(buffer_paths@), workspace_root@),
        added == final(changed)@.len() - old(changed)@.len(),
{
    let ghost start = strs_view(changed@);
    let ghost bv = opt_strs_view(buffer_paths@);
    let start_len = changed.len();
    let mut keys: Vec<WatcherPathKey> = Vec::new();
    let mut i: usize = 0;
    while i < changed.len()
        invariant
            i <= changed@.len(),
            keys@.len() == i,
            forall|j: int| 0 <= j < i ==> #[trigger] key_view(keys@[j]) == watcher_key_spec(changed@[j]@),
        decreases changed.len() - i,
    {
        keys.push(watcher_path_key(changed[i].as_str()));
        i = i + 1;
    }
    let mut b: usize = 0;
    assert(bv.take(0) =~= Seq::<Option<Seq<char>>>::empty());
    while b < buffer_paths.len()
        invariant
            b <= buffer_paths@.len(),
            bv == opt_strs_view(buffer_paths@),
            start_len == start.len(),
            start_len <= changed@.len(),
            keys@.len() == changed@.len(),
            forall|j: int| 0 <= j < changed@.len() ==> #[trigger] key_view(keys@[j]) == watcher_key_spec(changed@[j]@),
            strs_view(changed@) == include_spec(start, bv.take(b as int), workspace_root@),
        decreases buffer_paths.len() - b,
    {
        let ghost prefix = bv.take(b + 1);
        assert(prefix.drop_last() =~= bv.take(b as int));
        assert(prefix.last() == opt_view(buffer_paths@[b as int]));
        let ghost acc = strs_view(changed@);
        match &buffer_paths[b] {
            Some(path) => {
                if workspace_path_stays_within_root_lexically(workspace_root, path.as_str()) {
                    let key = watcher_path_key(path.as_str());
                    let mut fresh = true;
                    let mut j: usize = 0;
                    while j < keys.len()
                        invariant
                            j <= keys@.len(),
                            keys@.len() == changed@.len(),
                            acc == strs_view(changed@),
                            forall|m: int| 0 <= m < changed@.len() ==> #[trigger] key_view(keys@[m]) == watcher_key_spec(changed@[m]@),
                            key_view(key) == watcher_key_spec(path@),
                            fresh == forall|m: int| 0 <= m < j ==> watcher_key_spec(#[trigger] acc[m]) != watcher_key_spec(path@),
                        decreases keys.len() - j,
                    {
                        assert(acc[j as int] == changed@[j as int]@);
                        if watcher_keys_equal(&keys[j], &key) {
                            fresh = false;
                        }
                        j = j + 1;
                    }
                    if fresh {
                        changed.push(path.clone());
                        keys.push(key);
                        assert(strs_view(changed@) =~= acc.push(path@));
                    }
                }
            },
            None => {},
        }
        b = b + 1;
    }
    assert(bv.take(buffer_paths@.len() as int) =~= bv);
    proof {
        lemma_include_only_appends(start, bv, workspace_root@);
    }
    changed.len() - start_len
}

/// Including buffer paths only appends to the batch.
pub proof fn lemma_include_only_appends(changed: Seq<Seq<char>>, buffers: Seq<Option<Seq<char>>>, root: Seq<char>)
    ensures
        include_spec(changed, buffers, root).len() >= changed.len(),
        include_spec(changed, buffers, root).take(changed.len() as int) == changed,
    decreases buffers.len(),
{
    if buffers.len() > 0 {
        lemma_include_only_appends(changed, buffers.drop_last(), root);
        let acc = include_spec(changed, buffers.drop_last(), root);
        assert(acc.push(buffers.last()->0).take(changed.len() as int) =~= acc.take(changed.len() as int));
    } else {
        assert(changed.take(changed.len() as int) =~= changed);
    }
}

/// Once a walk has left the root it stays left.
pub proof fn lemma_left_root_stays_left(rooted: bool, root: Seq<Seq<char>>, comps: Seq<Seq<char>>, k: int)
    requires
        0 <= k <= comps.len(),
        root_walk(rooted, root, comps.take(k)).2,
    ensures
        root_walk(rooted, root, comps).2,
    decreases comps.len() - k,
{
    if k < comps.len() {
        assert(comps.take(k + 1).drop_last() =~= comps.take(k));
        lemma_left_root_stays_left(rooted, root, comps, k + 1);
    } else {
        assert(comps.take(k) =~= comps);
    }
}

} // verus!
