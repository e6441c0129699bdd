//! What one batch of file-watcher events leads to. The caller drains the
//! watcher, deduplicates the paths (`watcher::dedupe_watcher_paths`), adds
//! the open buffer paths after an overflow (`watcher::include_open_buffer_paths`)
//! and classifies the paths; this module decides which reloads, refreshes
//! and status follow, and the caller carries them out.
use vstd::prelude::*;
use crate::labels::{file_watcher_status, watcher_status_spec};
use crate::paths::{path_is_or_inside_spec, workspace_path_contains_lexically};
use crate::session_save::{opt_view, strs_view};

verus! {

/// How a batch of changed paths was classified against the workspace.
#[derive(Debug, Clone, Copy, PartialEq, Eq, Structural)]
pub struct WatchedChanges {
    /// The workspace settings file changed.
    pub settings_changed: bool,
    /// The workspace task definitions changed.
    pub tasks_changed: bool,
    /// Something under the workspace plugin folder changed.
    pub plugins_changed: bool,
    /// Git metadata inside the workspace changed.
    pub git_metadata_changed: bool,
    /// The project index must be refreshed for the changed project paths.
    pub workspace_refresh_needed: bool,
    /// Some changed path belongs to the project.
    pub has_project_paths: bool,
}

/// How the workspace index is refreshed after a batch.
#[derive(Debug, Clone, Copy, PartialEq, Eq, Structural)]
pub enum WorkspaceRefresh {
    /// No refresh.
    Skip,
    /// A debounced refresh of just the changed project paths.
    ProjectPaths,
    /// A debounced full re-walk of the workspace.
    Full,
}

/// What a batch of watcher events leads to.
#[derive(Debug, Clone, PartialEq, Eq)]
pub struct WatcherDrainPlan {
    /// The number reported for the batch: the changed paths, plus one for an
    /// overflow.
    pub changed_count: usize,
    pub reload_settings: bool,
    pub load_workspace_tasks: bool,
    pub reload_workspace_plugins: bool,
    pub refresh_git: bool,
    /// The status line (with a toast), if any.
    pub status: Option<String>,
    pub workspace_refresh: WorkspaceRefresh,
}

/// Some changed path lies in one of the watched git directories.
pub open spec fn touches_git_dirs_spec(git_dirs: Seq<Seq<char>>, changed: Seq<Seq<char>>) -> bool {
    exists|i: int, j: int|
        0 <= i < git_dirs.len() && 0 <= j < changed.len()
            && #[trigger] path_is_or_inside_spec(changed[j], git_dirs[i])
}

/// Whether some changed path lies in one of the watched git directories
/// (which may sit outside the workspace root).
pub fn changes_touch_git_dirs(git_dirs: &[String], changed: &[String]) -> (touched: bool)
    ensures
        touched == touches_git_dirs_spec(strs_view(git_dirs@), strs_view(changed@)),
{
    let ghost dirs = strs_view(git_dirs@);
    let ghost paths = strs_view(changed@);
    let mut i: usize = 0;
    while i < git_dirs.len()
        invariant
            i <= git_dirs@.len(),
            dirs == strs_view(git_dirs@),
            paths == strs_view(changed@),
            forall|a: int, b: int| 0 <= a < i && 0 <= b < paths.len()
                ==> !#[trigger] path_is_or_inside_spec(paths[b], dirs[a]),
        decreases git_dirs.len() - i,
    {
        let mut j: usize = 0;
        while j < changed.len()
            invariant
                i < git_dirs@.len(),
                j <= changed@.len(),
                dirs == strs_view(git_dirs@),
                paths == strs_view(changed@),
                forall|a: int, b: int| 0 <= a < i && 0 <= b < paths.len()
                    ==> !#[trigger] path_is_or_inside_spec(paths[b], dirs[a]),
                forall|b: int| 0 <= b < j ==> !#[trigger] path_is_or_inside_spec(paths[b], dirs[i as int]),
            decreases changed.len() - j,
        {
            if workspace_path_contains_lexically(git_dirs[i].as_str(), changed[j].as_str()) {
                assert(path_is_or_inside_spec(paths[j as int], dirs[i as int]));
                return true;
            }
            j = j + 1;
        }
        i = i + 1;
    }
    false
}

/// The refresh that follows a batch: none when no project path changed and
/// nothing overflowed; a full re-walk after an overflow; otherwise the
/// changed project paths when the classification asked for a refresh.
pub open spec fn workspace_refresh_spec(watched: WatchedChanges, overflowed: bool) -> WorkspaceRefresh {
    if !watched.has_project_paths && !overflowed {
        WorkspaceRefresh::Skip
    } else if overflowed {
        WorkspaceRefresh::Full
    } else if watched.workspace_refresh_needed {
        WorkspaceRefresh::ProjectPaths
    } else {
        WorkspaceRefresh::Skip
    }
}

/// Decides what a drained batch leads to; `None` when the batch is empty
/// and nothing overflowed. An overflow reloads the settings, tasks and
/// plugins and re-walks the workspace, since any of them may have changed
/// unseen. `dirty_changes` counts the open buffers with unsaved edits whose
/// files changed on disk.
pub fn drain_file_watcher(
    changed: &[String],
    overflowed: bool,
    open_buffer_paths_added: usize,
    watched: WatchedChanges,
    git_watch_dirs: &[String],
    dirty_changes: usize,
) -> (plan: Option<WatcherDrainPlan>)
    requires
        changed@.len() < usize::MAX,
    ensures
        plan is None <==> (changed@.len() == 0 && !overflowed),
        plan matches Some(p) ==> {
            &&& p.changed_count == changed@.len() + (if overflowed { 1int } else { 0 })
            &&& p.reload_settings == (watched.settings_changed || overflowed)
            &&& p.load_workspace_tasks == (watched.tasks_changed || overflowed)
            &&& p.reload_workspace_plugins == (watched.plugins_changed || overflowed)
            &&& p.refresh_git == (watched.git_metadata_changed
                || touches_git_dirs_spec(strs_view(git_watch_dirs@), strs_view(changed@)))
            &&& opt_view(p.status) == (if !watched.has_project_paths && !overflowed {
                None
            } else {
                watcher_status_spec(overflowed, open_buffer_paths_added as nat, changed@.len(),
                    dirty_changes as nat)
            })
            &&& p.workspace_refresh == workspace_refresh_spec(watched, overflowed)
        },
{
    if changed.len() == 0 && !overflowed {
        return None;
    }
    let changed_count = if overflowed { changed.len() + 1 } else { changed.len() };
    let refresh_git = watched.git_metadata_changed || changes_touch_git_dirs(git_watch_dirs, changed);
    let (status, workspace_refresh) = if !watched.has_project_paths && !overflowed {
        (None, WorkspaceRefresh::Skip)
    } else {
        let status = file_watcher_status(overflowed, open_buffer_paths_added, changed.len(), dirty_changes);
        let refresh = if overflowed {
            WorkspaceRefresh::Full
        } else if watched.workspace_refresh_needed {
            WorkspaceRefresh::ProjectPaths
        } else {
            WorkspaceRefresh::Skip
        };
        (status, refresh)
    };
    Some(WatcherDrainPlan {
        changed_count,
        reload_settings: watched.settings_changed || overflowed,
        load_workspace_tasks: watched.tasks_changed || overflowed,
        reload_workspace_plugins: watched.plugins_changed || overflowed,
        refresh_git,
        status,
        workspace_refresh,
    })
}

/// An overflowed batch, whatever it held, falls back to a full re-walk of
/// the workspace, with a status saying so.
pub proof fn lemma_overflow_reloads_everything(watched: WatchedChanges, added: nat, changed: nat, dirty: nat)
    ensures
        workspace_refresh_spec(watched, true) == WorkspaceRefresh::Full,
        watcher_status_spec(true, added, changed, dirty) is Some,
{
}

/// A batch that touches no project path and did not overflow does not
/// refresh the index.
pub proof fn lemma_non_project_batch_is_quiet(watched: WatchedChanges)
    requires
        !watched.has_project_paths,
    ensures
        workspace_refresh_spec(watched, false) == WorkspaceRefresh::Skip,
{
}

} // verus!
