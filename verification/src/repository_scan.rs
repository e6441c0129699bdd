//! The depth-first search for a git repository below the workspace root
//! (`git.autoRepositoryDetection = subFolders`). The search is a state
//! machine: it hands out the next folder to list, and is told which child
//! folders that folder has and which of them hold a `.git` marker. Listing
//! folders and looking for markers is left to the caller.
use vstd::prelude::*;
use crate::background_image::{
    lemma_name_tail_suffix, name_tail, parent_spec, path_parent, trim_trailing_slashes,
};
use crate::git_repos::{entry_ignores_scan_folder, git_repository_scan_folder_ignored};
use crate::paths::{path_is_or_inside, path_is_or_inside_spec, paths_match, paths_match_spec};
use crate::session_save::{opt_view, strs_view};

verus! {

/// A folder still to be visited and its depth below the root.
pub open spec fn pending_view(pending: Seq<(String, usize)>) -> Seq<(Seq<char>, usize)> {
    pending.map_values(|entry: (String, usize)| (entry.0@, entry.1))
}

/// A listed child folder and whether it holds a `.git` marker.
pub open spec fn children_view(children: Seq<(String, bool)>) -> Seq<(Seq<char>, bool)> {
    children.map_values(|child: (String, bool)| (child.0@, child.1))
}

/// Some `git.repositoryScanIgnoredFolders` entry covers `folder`.
pub open spec fn scan_folder_ignored_spec(folder: Seq<char>, ignored: Seq<Seq<char>>) -> bool {
    exists|i: int| 0 <= i < ignored.len() && #[trigger] entry_ignores_scan_folder(folder, ignored[i])
}

/// What asking for the next folder does: folders are taken from the top of
/// the stack; the search stops when the stack is empty or once `max_visited`
/// folders were taken; folders at `max_depth` or deeper are taken but not
/// listed. Returns the folder to list, the stack and count after, and
/// whether the search is over.
pub open spec fn next_folder_spec(
    pending: Seq<(Seq<char>, usize)>,
    visited: nat,
    max_depth: nat,
    max_visited: nat,
) -> (Option<(Seq<char>, usize)>, Seq<(Seq<char>, usize)>, nat, bool)
    decreases pending.len(),
{
    if pending.len() == 0 {
        (None, pending, visited, true)
    } else if visited >= max_visited {
        (None, pending.drop_last(), visited, true)
    } else if pending.last().1 >= max_depth {
        next_folder_spec(pending.drop_last(), visited + 1, max_depth, max_visited)
    } else {
        (Some(pending.last()), pending.drop_last(), visited + 1, false)
    }
}

/// The listed children that no ignored-folder entry covers, in order.
pub open spec fn kept_children(children: Seq<(Seq<char>, bool)>, ignored: Seq<Seq<char>>) -> Seq<(Seq<char>, bool)>
    decreases children.len(),
{
    if children.len() == 0 {
        seq![]
    } else {
        let kept = kept_children(children.drop_last(), ignored);
        if scan_folder_ignored_spec(children.last().0, ignored) {
            kept
        } else {
            kept.push(children.last())
        }
    }
}

/// The first child that holds a marker.
pub open spec fn first_marked(children: Seq<(Seq<char>, bool)>) -> Option<Seq<char>>
    decreases children.len(),
{
    if children.len() == 0 {
        None
    } else if children[0].1 {
        Some(children[0].0)
    } else {
        first_marked(children.drop_first())
    }
}

/// The stack entries for `kept` at `depth`, pushed last child first so that
/// the first child is visited first.
pub open spec fn pushed_children(kept: Seq<(Seq<char>, bool)>, depth: usize) -> Seq<(Seq<char>, usize)> {
    Seq::new(kept.len(), |j: int| (kept[kept.len() - 1 - j].0, depth))
}

/// The state of one search.
pub struct RepositoryScan {
    /// Folders still to visit, the next one last.
    pub pending: Vec<(String, usize)>,
    /// Folders taken from the stack so far.
    pub visited: usize,
    pub max_depth: usize,
    pub max_visited: usize,
    /// The depth of the folder handed out to be listed, while it is listed.
    pub listing: Option<usize>,
    pub finished: bool,
}

impl RepositoryScan {
    /// The search state is consistent: the count stays within its limit and
    /// a folder being listed lies above the depth limit.
    pub open spec fn wf(&self) -> bool {
        &&& self.visited <= self.max_visited
        &&& self.listing matches Some(depth) ==> depth < self.max_depth && !self.finished
    }

    /// Starts a search below `root`. With a zero depth, child count or
    /// folder count the search is over before it starts.
    pub fn start(root: &str, max_depth: usize, max_children: usize, max_visited: usize) -> (scan: Self)
        ensures
            scan.wf(),
            scan.visited == 0,
            scan.max_depth == max_depth,
            scan.max_visited == max_visited,
            scan.listing is None,
            scan.finished == (max_depth == 0 || max_children == 0 || max_visited == 0),
            scan.finished ==> pending_view(scan.pending@) == Seq::<(Seq<char>, usize)>::empty(),
            !scan.finished ==> pending_view(scan.pending@) == seq![(root@, 0usize)],
    {
        let mut pending: Vec<(String, usize)> = Vec::new();
        let finished = max_depth == 0 || max_children == 0 || max_visited == 0;
        if !finished {
            pending.push((root.to_owned(), 0));
            assert(pending_view(pending@) =~= seq![(root@, 0usize)]);
        } else {
            assert(pending_view(pending@) =~= Seq::<(Seq<char>, usize)>::empty());
        }
        RepositoryScan { pending, visited: 0, max_depth, max_visited, listing: None, finished }
    }

    /// The next folder to list, if the search goes on (see
    /// `next_folder_spec`). A finished search hands out nothing.
    pub fn next_folder(&mut self) -> (folder: Option<String>)
        requires
            old(self).wf(),
            old(self).listing is None,
        ensures
            final(self).wf(),
            final(self).max_depth == old(self).max_depth,
            final(self).max_visited == old(self).max_visited,
            old(self).finished ==> folder is None && *final(self) == *old(self),
            !old(self).finished ==> {
                let r = next_folder_spec(
                    pending_view(old(self).pending@),
                    old(self).visited as nat,
                    old(self).max_depth as nat,
                    old(self).max_visited as nat,
                );
                &&& pending_view(final(self).pending@) == r.1
                &&& final(self).visited == r.2
                &&& final(self).finished == r.3
                &&& match r.0 {
                    Some(entry) => opt_view(folder) == Some(entry.0) && final(self).listing == Some(entry.1),
                    None => folder is None && final(self).listing is None,
                }
            },
    {
        if self.finished {
            return None;
        }
        let ghost target = next_folder_spec(
            pending_view(self.pending@),
            self.visited as nat,
            self.max_depth as nat,
            self.max_visited as nat,
        );
        while self.pending.len() > 0
            invariant
                self.wf(),
                !self.finished,
                self.listing is None,
                self.max_depth == old(self).max_depth,
                self.max_visited == old(self).max_visited,
                next_folder_spec(
                    pending_view(self.pending@),
                    self.visited as nat,
                    self.max_depth as nat,
                    self.max_visited as nat,
                ) == target,
                !old(self).finished,
                target == next_folder_spec(
                    pending_view(old(self).pending@),
                    old(self).visited as nat,
                    old(self).max_depth as nat,
                    old(self).max_visited as nat,
                ),
            decreases self.pending.len(),
        {
            let ghost before = self.pending@;
            let ghost pv = pending_view(before);
            let (folder, depth) = self.pending.pop().unwrap();
            assert(pending_view(self.pending@) =~= pv.drop_last());
            assert(pv.len() > 0 && pv.last() == (folder@, depth));
            if self.visited >= self.max_visited {
                assert(target == (None::<(Seq<char>, usize)>, pv.drop_last(), self.visited as nat, true));
                self.finished = true;
                return None;
            }
            self.visited = self.visited + 1;
            if depth >= self.max_depth {
                continue;
            }
            assert(target == (Some((folder@, depth)), pv.drop_last(), self.visited as nat, false));
            self.listing = Some(depth);
            return Some(folder);
        }
        assert(pending_view(self.pending@).len() == 0);
        self.finished = true;
        None
    }

    /// Takes the children of the folder being listed, each with whether it
    /// holds a `.git` marker. Children covered by an ignored-folder entry are
    /// dropped; the first remaining child with a marker is the repository
    /// found, which ends the search. Otherwise the remaining children are
    /// pushed one level deeper, to be visited in their listed order.
    pub fn children_listed(&mut self, children: Vec<(String, bool)>, ignored_folders: &[String]) -> (found: Option<String>)
        requires
            old(self).wf(),
            old(self).listing is Some,
        ensures
            final(self).wf(),
            final(self).listing is None,
            final(self).visited == old(self).visited,
            final(self).max_depth == old(self).max_depth,
            final(self).max_visited == old(self).max_visited,
            ({
                let kept = kept_children(children_view(children@), strs_view(ignored_folders@));
                &&& opt_view(found) == first_marked(kept)
                &&& found is Some ==> final(self).finished
                &&& found is None ==> !final(self).finished && pending_view(final(self).pending@)
                    == pending_view(old(self).pending@) + pushed_children(kept, (old(self).listing->0 + 1) as usize)
            }),
    {
        let depth = self.listing.unwrap() + 1;
        self.listing = None;
        let ghost all = children_view(children@);
        let ghost ignored = strs_view(ignored_folders@);
        let mut kept: Vec<(String, bool)> = Vec::new();
        let mut i: usize = 0;
        while i < children.len()
            invariant
                i <= children@.len(),
                all == children_view(children@),
                ignored == strs_view(ignored_folders@),
                children_view(kept@) == kept_children(all.take(i as int), ignored),
                self.listing is None,
                !self.finished,
                self.visited == old(self).visited,
                self.max_depth == old(self).max_depth,
                self.max_visited == old(self).max_visited,
                self.pending@ == old(self).pending@,
                self.visited <= self.max_visited,
            decreases children.len() - i,
        {
            let ghost prefix = all.take(i + 1);
            assert(prefix.drop_last() =~= all.take(i as int));
            assert(prefix.last() == all[i as int]);
            let name = children[i].0.as_str();
            let ignored_here = git_repository_scan_folder_ignored(name, ignored_folders);
            assert(ignored_here == scan_folder_ignored_spec(all[i as int].0, ignored)) by {
                if ignored_here {
                    let w = choose|j: int| 0 <= j < ignored_folders@.len()
                        && #[trigger] entry_ignores_scan_folder(name@, ignored_folders@[j]@);
                    assert(ignored[w] == ignored_folders@[w]@);
                }
                if scan_folder_ignored_spec(all[i as int].0, ignored) {
                    let w = choose|j: int| 0 <= j < ignored.len()
                        && #[trigger] entry_ignores_scan_folder(all[i as int].0, ignored[j]);
                    assert(ignored[w] == ignored_folders@[w]@);
                }
            }
            if !ignored_here {
                let ghost before = kept@;
                kept.push((children[i].0.clone(), children[i].1));
                assert(children_view(kept@) =~= children_view(before).push(all[i as int]));
            }
            i = i + 1;
        }
        assert(all.take(children@.len() as int) =~= all);
        let ghost kv = children_view(kept@);
        let mut k: usize = 0;
        assert(kv.subrange(0, kv.len() as int) =~= kv);
        while k < kept.len()
            invariant
                k <= kept@.len(),
                kv == children_view(kept@),
                first_marked(kv) == first_marked(kv.subrange(k as int, kv.len() as int)),
                kv == kept_children(all, ignored),
                all == children_view(children@),
                ignored == strs_view(ignored_folders@),
                self.listing is None,
                !self.finished,
                self.visited == old(self).visited,
                self.max_depth == old(self).max_depth,
                self.max_visited == old(self).max_visited,
                self.pending@ == old(self).pending@,
                self.visited <= self.max_visited,
            decreases kept.len() - k,
        {
            assert(kv.subrange(k as int, kv.len() as int).drop_first() =~= kv.subrange(k + 1, kv.len() as int));
            assert(kv.subrange(k as int, kv.len() as int)[0] == kv[k as int]);
            if kept[k].1 {
                self.finished = true;
                return Some(kept[k].0.clone());
            }
            k = k + 1;
        }
        assert(first_marked(kv.subrange(k as int, kv.len() as int)) is None);
        let ghost base = pending_view(self.pending@);
        let mut j: usize = kept.len();
        while j > 0
            invariant
                j <= kept@.len(),
                kv == children_view(kept@),
                pending_view(self.pending@) == base + pushed_children(kv, depth).take(kv.len() - j),
                base == pending_view(old(self).pending@),
                kv == kept_children(all, ignored),
                all == children_view(children@),
                ignored == strs_view(ignored_folders@),
                depth == old(self).listing->0 + 1,
                self.listing is None,
                !self.finished,
                self.visited == old(self).visited,
                self.max_depth == old(self).max_depth,
                self.max_visited == old(self).max_visited,
                self.visited <= self.max_visited,
            decreases j,
        {
            j = j - 1;
            let ghost before = self.pending@;
            self.pending.push((kept[j].0.clone(), depth));
            assert(pending_view(self.pending@) =~= pending_view(before).push((kv[j as int].0, depth)));
            assert(pushed_children(kv, depth).take(kv.len() - j)
                =~= pushed_children(kv, depth).take(kv.len() - j - 1).push((kv[j as int].0, depth)));
        }
        assert(pushed_children(kv, depth).take(kv.len() as int) =~= pushed_children(kv, depth));
        None
    }
}

/// However the children are listed, a search takes at most `max_visited`
/// folders from its stack: asking for the next folder never moves the count
/// past the limit.
pub proof fn lemma_scan_visits_at_most_the_folder_limit(
    pending: Seq<(Seq<char>, usize)>,
    visited: nat,
    max_depth: nat,
    max_visited: nat,
)
    requires
        visited <= max_visited,
    ensures
        visited <= next_folder_spec(pending, visited, max_depth, max_visited).2 <= max_visited,
    decreases pending.len(),
{
    if pending.len() > 0 && visited < max_visited && pending.last().1 >= max_depth {
        lemma_scan_visits_at_most_the_folder_limit(pending.drop_last(), visited + 1, max_depth, max_visited);
    }
}

/// Every child kept after filtering is a listed child that no ignored-folder
/// entry covers.
pub proof fn lemma_kept_children_are_listed_and_not_ignored(
    children: Seq<(Seq<char>, bool)>,
    ignored: Seq<Seq<char>>,
    k: int,
)
    requires
        0 <= k < kept_children(children, ignored).len(),
    ensures
        children.contains(kept_children(children, ignored)[k]),
        !scan_folder_ignored_spec(kept_children(children, ignored)[k].0, ignored),
    decreases children.len(),
{
    let kept = kept_children(children.drop_last(), ignored);
    if k < kept.len() {
        lemma_kept_children_are_listed_and_not_ignored(children.drop_last(), ignored, k);
        let j = choose|j: int| 0 <= j < children.drop_last().len() && children.drop_last()[j] == kept[k];
        assert(children[j] == kept[k]);
    } else {
        assert(children[children.len() - 1] == children.last());
    }
}

/// A repository the search reports is one of the listed children: it holds
/// a `.git` marker and no ignored-folder entry covers it.
pub proof fn lemma_found_repository_is_a_marked_unignored_child(
    children: Seq<(Seq<char>, bool)>,
    ignored: Seq<Seq<char>>,
)
    requires
        first_marked(kept_children(children, ignored)) is Some,
    ensures
        exists|j: int| 0 <= j < children.len() && #[trigger] children[j]
            == (first_marked(kept_children(children, ignored))->0, true)
            && !scan_folder_ignored_spec(children[j].0, ignored),
{
    let kept = kept_children(children, ignored);
    let k = lemma_first_marked_index(kept);
    lemma_kept_children_are_listed_and_not_ignored(children, ignored, k);
    let j = choose|j: int| 0 <= j < children.len() && children[j] == kept[k];
    assert(children[j] == (first_marked(kept)->0, true));
}

/// The position of the first marked child.
pub proof fn lemma_first_marked_index(children: Seq<(Seq<char>, bool)>) -> (k: int)
    requires
        first_marked(children) is Some,
    ensures
        0 <= k < children.len(),
        children[k] == (first_marked(children)->0, true),
    decreases children.len(),
{
    if children[0].1 {
        0
    } else {
        let k = lemma_first_marked_index(children.drop_first());
        k + 1
    }
}

/// Trailing slashes come off the end.
pub proof fn lemma_trim_trailing_slashes_prefix(p: Seq<char>)
    ensures
        trim_trailing_slashes(p).len() <= p.len(),
        trim_trailing_slashes(p) == p.subrange(0, trim_trailing_slashes(p).len() as int),
        trim_trailing_slashes(p).len() > 0 ==> trim_trailing_slashes(p).last() != '/',
    decreases p.len(),
{
    if p.len() > 0 && p.last() == '/' {
        lemma_trim_trailing_slashes_prefix(p.drop_last());
        assert(p.drop_last().subrange(0, trim_trailing_slashes(p).len() as int)
            =~= p.subrange(0, trim_trailing_slashes(p).len() as int));
    } else {
        assert(p.subrange(0, p.len() as int) =~= p);
    }
}

/// A parent is shorter than the path it belongs to.
pub proof fn lemma_parent_is_shorter(p: Seq<char>)
    ensures
        parent_spec(p) matches Some(q) ==> q.len() < p.len(),
{
    let t = trim_trailing_slashes(p);
    lemma_trim_trailing_slashes_prefix(p);
    if t.len() > 0 {
        lemma_name_tail_suffix(t);
        let head = t.subrange(0, t.len() - name_tail(t).len());
        lemma_trim_trailing_slashes_prefix(head);
        assert(name_tail(t).len() > 0) by {
            if name_tail(t).len() == 0 {
                assert(t[t.len() - 1] == '/');
            }
        }
    }
}

/// The folders to look in for the repository of an open editor, nearest
/// first: from `current` up through its parents, as long as they lie in the
/// workspace `root`, ending at the root; folders covered by an ignored-folder
/// entry are passed over (the root never is).
pub open spec fn open_editor_candidates(root: Seq<char>, current: Seq<char>, ignored: Seq<Seq<char>>) -> Seq<Seq<char>>
    decreases current.len(),
{
    if !path_is_or_inside_spec(current, root) {
        seq![]
    } else {
        let at_root = paths_match_spec(current, root);
        let here = if !at_root && scan_folder_ignored_spec(current, ignored) { seq![] } else { seq![current] };
        if at_root {
            here
        } else {
            match parent_spec(current) {
                None => here,
                Some(parent) => if parent.len() < current.len() {
                    here + open_editor_candidates(root, parent, ignored)
                } else {
                    here
                },
            }
        }
    }
}

/// Where the search for an open editor's repository starts: the path itself
/// when it is a folder, its parent otherwise.
pub open spec fn open_editor_start(path: Seq<char>, path_is_dir: bool) -> Option<Seq<char>> {
    if path_is_dir { Some(path) } else { parent_spec(path) }
}

/// The folders to look in, nearest first, for the repository of an editor
/// open at `path` (see `open_editor_candidates`); the first of them holding
/// a `.git` marker is its repository. `path_is_dir` says whether `path` is a
/// folder.
pub fn git_repository_for_open_editor_candidates(
    root: &str,
    path: &str,
    path_is_dir: bool,
    ignored_folders: &[String],
) -> (candidates: Vec<String>)
    ensures
        strs_view(candidates@) == match open_editor_start(path@, path_is_dir) {
            Some(start) => open_editor_candidates(root@, start, strs_view(ignored_folders@)),
            None => Seq::<Seq<char>>::empty(),
        },
{
    let ghost ignored = strs_view(ignored_folders@);
    let mut candidates: Vec<String> = Vec::new();
    let mut current: String = if path_is_dir {
        path.to_owned()
    } else {
        match path_parent(path) {
            Some(parent) => parent,
            None => {
                assert(strs_view(candidates@) =~= Seq::<Seq<char>>::empty());
                return candidates;
            },
        }
    };
    let ghost start = current@;
    assert(open_editor_start(path@, path_is_dir) == Some(start));
    assert(strs_view(candidates@) + open_editor_candidates(root@, current@, ignored)
        =~= open_editor_candidates(root@, start, ignored));
    loop
        invariant
            ignored == strs_view(ignored_folders@),
            open_editor_start(path@, path_is_dir) == Some(start),
            strs_view(candidates@) + open_editor_candidates(root@, current@, ignored)
                == open_editor_candidates(root@, start, ignored),
        decreases current@.len(),
    {
        let ghost before = strs_view(candidates@);
        let ghost rest = open_editor_candidates(root@, current@, ignored);
        if !path_is_or_inside(current.as_str(), root) {
            assert(rest =~= Seq::<Seq<char>>::empty());
            assert(before + rest =~= before);
            return candidates;
        }
        let at_root = paths_match(current.as_str(), root);
        let ignored_here = !at_root && git_repository_scan_folder_ignored(current.as_str(), ignored_folders);
        assert(ignored_here == (!at_root && scan_folder_ignored_spec(current@, ignored))) by {
            if ignored_here {
                let w = choose|j: int| 0 <= j < ignored_folders@.len()
                    && #[trigger] entry_ignores_scan_folder(current@, ignored_folders@[j]@);
                assert(ignored[w] == ignored_folders@[w]@);
            }
            if !at_root && scan_folder_ignored_spec(current@, ignored) {
                let w = choose|j: int| 0 <= j < ignored.len()
                    && #[trigger] entry_ignores_scan_folder(current@, ignored[j]);
                assert(ignored[w] == ignored_folders@[w]@);
            }
        }
        let ghost here: Seq<Seq<char>> = if ignored_here { seq![] } else { seq![current@] };
        if at_root {
            if !ignored_here {
                candidates.push(current);
            }
            assert(strs_view(candidates@) =~= before + here);
            assert(rest == here);
            return candidates;
        }
        let parent = path_parent(current.as_str());
        proof {
            lemma_parent_is_shorter(current@);
        }
        match parent {
            None => {
                if !ignored_here {
                    candidates.push(current);
                }
                assert(strs_view(candidates@) =~= before + here);
                assert(rest == here);
                return candidates;
            },
            Some(p) => {
                assert(rest == here + open_editor_candidates(root@, p@, ignored));
                if !ignored_here {
                    candidates.push(current);
                }
                assert(strs_view(candidates@) =~= before + here);
                assert(strs_view(candidates@) + open_editor_candidates(root@, p@, ignored)
                    =~= before + rest);
                current = p;
            },
        }
    }
}

} // verus!
