//! Which repositories and scan folders the git integration skips, judged
//! lexically from the `git.ignoredRepositories` and
//! `git.repositoryScanIgnoredFolders` settings.
use vstd::prelude::*;
use crate::paths::{
    chars_equal, path_components, path_contains_relative_folder, path_is_or_inside,
    path_is_or_inside_spec, path_is_rooted, path_key, paths_match, paths_match_spec,
    relative_folder_search, split_path_components,
};
use crate::settings_text::{trim_spec, trim_string_in_place};
use crate::text::{push_char, push_text};
use crate::session_save::strs_view;

verus! {

/// `root` joined with the relative path `rel` by one separator.
pub open spec fn join_path_spec(root: Seq<char>, rel: Seq<char>) -> Seq<char> {
    if root.len() == 0 {
        rel
    } else if root.last() == '/' {
        root + rel
    } else {
        root + seq!['/'] + rel
    }
}

/// The components of `path` end with the components of `suffix`.
pub open spec fn components_end_with(path: Seq<char>, suffix: Seq<char>) -> bool {
    let p = path_components(path);
    let s = path_components(suffix);
    s.len() <= p.len() && p.subrange(p.len() - s.len(), p.len() as int) == s
}

/// One `git.ignoredRepositories` entry names `root`: an absolute entry
/// matches it, a relative one matches it when joined to it or when `root`
/// ends with its components. Blank entries name nothing.
pub open spec fn entry_ignores_repository(root: Seq<char>, entry: Seq<char>) -> bool {
    let e = trim_spec(entry);
    e.len() > 0 && if path_is_rooted(e) {
        paths_match_spec(root, e)
    } else {
        paths_match_spec(root, join_path_spec(root, e)) || components_end_with(root, e)
    }
}

/// One `git.repositoryScanIgnoredFolders` entry covers `folder`: an absolute
/// entry when `folder` is it or lies below it, a relative one when it occurs
/// as a run of whole components of `folder`. Blank entries cover nothing.
pub open spec fn entry_ignores_scan_folder(folder: Seq<char>, entry: Seq<char>) -> bool {
    let e = trim_spec(entry);
    e.len() > 0 && if path_is_rooted(e) {
        path_is_or_inside_spec(folder, e)
    } else {
        path_key(e).len() > 0 && relative_folder_search(path_key(folder), path_key(e), 0)
    }
}

/// Joins `root` and the relative path `rel` (see `join_path_spec`).
pub fn join_path(root: &str, rel: &str) -> (joined: String)
    ensures
        joined@ == join_path_spec(root@, rel@),
{
    let mut joined = String::new();
    push_text(&mut joined, root);
    let n = root.unicode_len();
    if n > 0 && root.get_char(n - 1) != '/' {
        push_char(&mut joined, '/');
    }
    push_text(&mut joined, rel);
    joined
}

/// Whether the components of `path` end with those of `suffix`.
pub fn path_components_end_with(path: &str, suffix: &str) -> (ends: bool)
    ensures
        ends == components_end_with(path@, suffix@),
{
    let p = split_path_components(path);
    let s = split_path_components(suffix);
    let ghost pv = path_components(path@);
    let ghost sv = path_components(suffix@);
    assert(pv.len() == p@.len());
    assert(sv.len() == s@.len());
    assert(forall|j: int| 0 <= j < p@.len() ==> #[trigger] pv[j] == p@[j]@);
    assert(forall|j: int| 0 <= j < s@.len() ==> #[trigger] sv[j] == s@[j]@);
    if s.len() > p.len() {
        return false;
    }
    let offset = p.len() - s.len();
    let mut i: usize = 0;
    while i < s.len()
        invariant
            s@.len() <= p@.len(),
            offset == p@.len() - s@.len(),
            i <= s@.len(),
            pv == path_components(path@),
            sv == path_components(suffix@),
            pv.len() == p@.len(),
            sv.len() == s@.len(),
            forall|j: int| 0 <= j < p@.len() ==> #[trigger] pv[j] == p@[j]@,
            forall|j: int| 0 <= j < s@.len() ==> #[trigger] sv[j] == s@[j]@,
            forall|j: int| 0 <= j < i ==> #[trigger] sv[j] == pv[offset + j],
        decreases s.len() - i,
    {
        assert(offset + i < p.len());
        if !chars_equal(&p[offset + i], &s[i]) {
            assert(pv[offset + i] != sv[i as int]);
            assert(pv.subrange(offset as int, pv.len() as int)[i as int] != sv[i as int]);
            return false;
        }
        i = i + 1;
    }
    assert(pv.subrange(offset as int, pv.len() as int) =~= sv);
    true
}

/// Whether one repository entry names `root` (see `entry_ignores_repository`).
pub fn repository_entry_ignores(root: &str, entry: &str) -> (ignored: bool)
    ensures
        ignored == entry_ignores_repository(root@, entry@),
{
    let mut trimmed = entry.to_owned();
    trim_string_in_place(&mut trimmed);
    let e = trimmed.as_str();
    if e.unicode_len() == 0 {
        return false;
    }
    if e.get_char(0) == '/' {
        paths_match(root, e)
    } else {
        let joined = join_path(root, e);
        paths_match(root, joined.as_str()) || path_components_end_with(root, e)
    }
}

/// Whether one scan-folder entry covers `folder` (see
/// `entry_ignores_scan_folder`).
pub fn scan_folder_entry_ignores(folder: &str, entry: &str) -> (ignored: bool)
    ensures
        ignored == entry_ignores_scan_folder(folder@, entry@),
{
    let mut trimmed = entry.to_owned();
    trim_string_in_place(&mut trimmed);
    let e = trimmed.as_str();
    if e.unicode_len() == 0 {
        return false;
    }
    if e.get_char(0) == '/' {
        path_is_or_inside(folder, e)
    } else {
        path_contains_relative_folder(folder, e)
    }
}

/// Whether any `git.ignoredRepositories` entry names `root`.
pub fn git_repository_ignored(root: &str, ignored_repositories: &[String]) -> (ignored: bool)
    ensures
        ignored == exists|i: int| 0 <= i < ignored_repositories@.len()
            && #[trigger] entry_ignores_repository(root@, ignored_repositories@[i]@),
{
    let mut i: usize = 0;
    while i < ignored_repositories.len()
        invariant
            i <= ignored_repositories@.len(),
            forall|j: int| 0 <= j < i ==> !#[trigger] entry_ignores_repository(root@, ignored_repositories@[j]@),
        decreases ignored_repositories.len() - i,
    {
        if repository_entry_ignores(root, ignored_repositories[i].as_str()) {
            return true;
        }
        i = i + 1;
    }
    false
}

/// Whether any `git.repositoryScanIgnoredFolders` entry covers `folder`.
pub fn git_repository_scan_folder_ignored(folder: &str, ignored_folders: &[String]) -> (ignored: bool)
    ensures
        ignored == exists|i: int| 0 <= i < ignored_folders@.len()
            && #[trigger] entry_ignores_scan_folder(folder@, ignored_folders@[i]@),
{
    let mut i: usize = 0;
    while i < ignored_folders.len()
        invariant
            i <= ignored_folders@.len(),
            forall|j: int| 0 <= j < i ==> !#[trigger] entry_ignores_scan_folder(folder@, ignored_folders@[j]@),
        decreases ignored_folders.len() - i,
    {
        if scan_folder_entry_ignores(folder, ignored_folders[i].as_str()) {
            return true;
        }
        i = i + 1;
    }
    false
}


/// The trimmed non-blank entries of `values`, in order.
pub open spec fn setting_key_spec(values: Seq<Seq<char>>) -> Seq<Seq<char>>
    decreases values.len(),
{
    if values.len() == 0 {
        Seq::empty()
    } else {
        let kept = setting_key_spec(values.drop_last());
        let t = trim_spec(values.last());
        if t.len() > 0 { kept.push(t) } else { kept }
    }
}

/// The comparison key of a git string-list setting: each entry trimmed,
/// blank entries dropped.
pub fn git_string_list_setting_key(values: &[String]) -> (key: Vec<String>)
    ensures
        strs_view(key@) == setting_key_spec(strs_view(values@)),
{
    let mut key: Vec<String> = Vec::new();
    let mut i: usize = 0;
    while i < values.len()
        invariant
            i <= values@.len(),
            strs_view(key@) == setting_key_spec(strs_view(values@).take(i as int)),
        decreases values.len() - i,
    {
        let ghost prefix = strs_view(values@).take(i + 1);
        assert(prefix.drop_last() =~= strs_view(values@).take(i as int));
        assert(prefix.last() == values@[i as int]@);
        let mut entry = values[i].clone();
        trim_string_in_place(&mut entry);
        if entry.unicode_len() > 0 {
            let ghost before = key@;
            key.push(entry);
            assert(strs_view(key@) =~= strs_view(before).push(trim_spec(values@[i as int]@)));
        }
        i = i + 1;
    }
    assert(strs_view(values@).take(values@.len() as int) =~= strs_view(values@));
    key
}


/// The `git.openRepositoryInParentFolders` setting.
#[derive(Debug, Clone, Copy, PartialEq, Eq, Structural)]
pub enum GitOpenRepositoryInParentFolders {
    Always,
    Never,
    Prompt,
}

/// Repositories in parent folders are opened unless the setting is `never`.
pub fn git_open_parent_repositories(mode: GitOpenRepositoryInParentFolders) -> (open: bool)
    ensures
        open == !(mode is Never),
{
    !matches!(mode, GitOpenRepositoryInParentFolders::Never)
}

/// The `git.autoRepositoryDetection` setting.
#[derive(Debug, Clone, Copy, PartialEq, Eq, Structural)]
pub enum GitAutoRepositoryDetection {
    True,
    False,
    SubFolders,
    OpenEditors,
}

/// The detected scan root is cached only for the modes that search for it
/// (sub-folders and open editors).
pub fn git_scan_root_is_cacheable(mode: GitAutoRepositoryDetection) -> (cacheable: bool)
    ensures
        cacheable == (mode is SubFolders || mode is OpenEditors),
{
    matches!(mode, GitAutoRepositoryDetection::SubFolders | GitAutoRepositoryDetection::OpenEditors)
}

/// An absolute `git.ignoredRepositories` entry names exactly the
/// repository at its path: a repository is ignored by it when their keys are
/// equal, and one nested below the entry's folder is not.
pub proof fn lemma_absolute_entry_names_only_its_repository(root: Seq<char>, entry: Seq<char>)
    requires
        trim_spec(entry).len() > 0,
        path_is_rooted(trim_spec(entry)),
    ensures
        entry_ignores_repository(root, entry) <==> path_key(root) == path_key(trim_spec(entry)),
        path_is_or_inside_spec(root, trim_spec(entry)) && path_key(root) != path_key(trim_spec(entry))
            ==> !entry_ignores_repository(root, entry),
{
}

} // verus!
