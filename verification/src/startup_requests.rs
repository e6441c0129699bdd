//! Request-id bookkeeping shared by the background startup tasks (workspace
//! index, git scan, workspace plugin discovery).
//!
//! Each task keeps a `next` counter, the `active` id (the id whose results are
//! still wanted), the id currently in flight and a flag recording that another
//! run was requested while one was in flight.
use vstd::prelude::*;
use crate::paths::{
    path_is_or_inside_spec, paths_match_spec, trusted_workspace_paths_match,
    workspace_path_contains_lexically,
};

verus! {

/// The id that follows `current`: ids count up and skip zero when they wrap.
pub open spec fn next_request_id_spec(current: u64) -> u64 {
    if current == u64::MAX {
        1
    } else {
        (current + 1) as u64
    }
}

/// Returns the id that follows `current`, wrapping past `u64::MAX` to 1 so
/// that zero is never handed out.
pub fn next_startup_task_request_id(current: u64) -> (next: u64)
    ensures
        next == next_request_id_spec(current),
        next != 0,
{
    if current == u64::MAX {
        1
    } else {
        current + 1
    }
}

/// Advances the counter and marks the new id as the active one.
pub fn reserve_startup_task_request_id_state(
    next_request_id: &mut u64,
    active_request_id: &mut u64,
) -> (reserved: u64)
    ensures
        reserved == next_request_id_spec(*old(next_request_id)),
        *final(next_request_id) == reserved,
        *final(active_request_id) == reserved,
{
    *next_request_id = next_startup_task_request_id(*next_request_id);
    *active_request_id = *next_request_id;
    *active_request_id
}

/// Starts a run when none is in flight; otherwise remembers that a run was
/// requested and returns `None`.
pub fn begin_startup_task_request_state(
    next_request_id: &mut u64,
    active_request_id: &mut u64,
    in_flight_request_id: &mut Option<u64>,
    queued: &mut bool,
) -> (started: Option<u64>)
    ensures
        old(in_flight_request_id).is_some() ==> {
            &&& started is None
            &&& *final(queued)
            &&& *final(next_request_id) == *old(next_request_id)
            &&& *final(active_request_id) == *old(active_request_id)
            &&& *final(in_flight_request_id) == *old(in_flight_request_id)
        },
        old(in_flight_request_id).is_none() ==> {
            let id = next_request_id_spec(*old(next_request_id));
            &&& started == Some(id)
            &&& *final(next_request_id) == id
            &&& *final(active_request_id) == id
            &&& *final(in_flight_request_id) == Some(id)
            &&& *final(queued) == *old(queued)
        },
{
    if in_flight_request_id.is_some() {
        *queued = true;
        return None;
    }
    let request_id = reserve_startup_task_request_id_state(next_request_id, active_request_id);
    *in_flight_request_id = Some(request_id);
    Some(request_id)
}

/// Completes the run `request_id`. Returns whether a queued run must start
/// now; completions of any other id change nothing.
pub fn finish_startup_task_request_state(
    in_flight_request_id: &mut Option<u64>,
    queued: &mut bool,
    request_id: u64,
) -> (spawn_queued: bool)
    ensures
        *old(in_flight_request_id) == Some(request_id) ==> {
            &&& spawn_queued == *old(queued)
            &&& *final(in_flight_request_id) is None
            &&& !*final(queued)
        },
        *old(in_flight_request_id) != Some(request_id) ==> {
            &&& !spawn_queued
            &&& *final(in_flight_request_id) == *old(in_flight_request_id)
            &&& *final(queued) == *old(queued)
        },
{
    if *in_flight_request_id != Some(request_id) {
        return false;
    }
    *in_flight_request_id = None;
    let should_spawn_queued = *queued;
    *queued = false;
    should_spawn_queued
}

/// Drops the run in flight and any queued run, and moves the active id on so
/// results of the dropped run are recognised as stale.
pub fn invalidate_startup_task_request_state(
    next_request_id: &mut u64,
    active_request_id: &mut u64,
    in_flight_request_id: &mut Option<u64>,
    queued: &mut bool,
)
    ensures
        *final(next_request_id) == next_request_id_spec(*old(next_request_id)),
        *final(active_request_id) == *final(next_request_id),
        *final(in_flight_request_id) is None,
        !*final(queued),
{
    let _ = reserve_startup_task_request_id_state(next_request_id, active_request_id);
    *in_flight_request_id = None;
    *queued = false;
}

/// Starts a workspace index run (see `begin_startup_task_request_state`).
pub fn begin_workspace_index_request_state(
    next_request_id: &mut u64,
    active_request_id: &mut u64,
    in_flight_request_id: &mut Option<u64>,
    refresh_queued: &mut bool,
) -> (started: Option<u64>)
    ensures
        begin_post(*old(next_request_id), *old(active_request_id), *old(in_flight_request_id),
            *old(refresh_queued), *final(next_request_id), *final(active_request_id),
            *final(in_flight_request_id), *final(refresh_queued), started),
{
    begin_startup_task_request_state(next_request_id, active_request_id, in_flight_request_id, refresh_queued)
}

/// Completes a workspace index run (see `finish_startup_task_request_state`).
pub fn finish_workspace_index_request_state(
    in_flight_request_id: &mut Option<u64>,
    refresh_queued: &mut bool,
    request_id: u64,
) -> (spawn_queued: bool)
    ensures
        finish_post(*old(in_flight_request_id), *old(refresh_queued), request_id,
            *final(in_flight_request_id), *final(refresh_queued), spawn_queued),
{
    finish_startup_task_request_state(in_flight_request_id, refresh_queued, request_id)
}

/// Drops the workspace index runs (see `invalidate_startup_task_request_state`).
pub fn invalidate_workspace_index_request_state(
    next_request_id: &mut u64,
    active_request_id: &mut u64,
    in_flight_request_id: &mut Option<u64>,
    refresh_queued: &mut bool,
)
    ensures
        invalidate_post(*old(next_request_id), *final(next_request_id), *final(active_request_id),
            *final(in_flight_request_id), *final(refresh_queued)),
{
    invalidate_startup_task_request_state(next_request_id, active_request_id, in_flight_request_id, refresh_queued)
}

/// Starts a git scan (see `begin_startup_task_request_state`).
pub fn begin_git_scan_request_state(
    next_request_id: &mut u64,
    active_request_id: &mut u64,
    in_flight_request_id: &mut Option<u64>,
    refresh_queued: &mut bool,
) -> (started: Option<u64>)
    ensures
        begin_post(*old(next_request_id), *old(active_request_id), *old(in_flight_request_id),
            *old(refresh_queued), *final(next_request_id), *final(active_request_id),
            *final(in_flight_request_id), *final(refresh_queued), started),
{
    begin_startup_task_request_state(next_request_id, active_request_id, in_flight_request_id, refresh_queued)
}

/// Completes a git scan (see `finish_startup_task_request_state`).
pub fn finish_git_scan_request_state(
    in_flight_request_id: &mut Option<u64>,
    refresh_queued: &mut bool,
    request_id: u64,
) -> (spawn_queued: bool)
    ensures
        finish_post(*old(in_flight_request_id), *old(refresh_queued), request_id,
            *final(in_flight_request_id), *final(refresh_queued), spawn_queued),
{
    finish_startup_task_request_state(in_flight_request_id, refresh_queued, request_id)
}

/// Drops the git scans (see `invalidate_startup_task_request_state`).
pub fn invalidate_git_scan_request_state(
    next_request_id: &mut u64,
    active_request_id: &mut u64,
    in_flight_request_id: &mut Option<u64>,
    refresh_queued: &mut bool,
)
    ensures
        invalidate_post(*old(next_request_id), *final(next_request_id), *final(active_request_id),
            *final(in_flight_request_id), *final(refresh_queued)),
{
    invalidate_startup_task_request_state(next_request_id, active_request_id, in_flight_request_id, refresh_queued)
}

/// Starts a workspace plugin discovery (see `begin_startup_task_request_state`).
pub fn begin_workspace_plugin_discovery_request_state(
    next_request_id: &mut u64,
    active_request_id: &mut u64,
    in_flight_request_id: &mut Option<u64>,
    reload_queued: &mut bool,
) -> (started: Option<u64>)
    ensures
        begin_post(*old(next_request_id), *old(active_request_id), *old(in_flight_request_id),
            *old(reload_queued), *final(next_request_id), *final(active_request_id),
            *final(in_flight_request_id), *final(reload_queued), started),
{
    begin_startup_task_request_state(next_request_id, active_request_id, in_flight_request_id, reload_queued)
}

/// Completes a workspace plugin discovery (see `finish_startup_task_request_state`).
pub fn finish_workspace_plugin_discovery_request_state(
    in_flight_request_id: &mut Option<u64>,
    reload_queued: &mut bool,
    request_id: u64,
) -> (spawn_queued: bool)
    ensures
        finish_post(*old(in_flight_request_id), *old(reload_queued), request_id,
            *final(in_flight_request_id), *final(reload_queued), spawn_queued),
{
    finish_startup_task_request_state(in_flight_request_id, reload_queued, request_id)
}

/// Drops the workspace plugin discoveries (see `invalidate_startup_task_request_state`).
pub fn invalidate_workspace_plugin_discovery_request_state(
    next_request_id: &mut u64,
    active_request_id: &mut u64,
    in_flight_request_id: &mut Option<u64>,
    reload_queued: &mut bool,
)
    ensures
        invalidate_post(*old(next_request_id), *final(next_request_id), *final(active_request_id),
            *final(in_flight_request_id), *final(reload_queued)),
{
    invalidate_startup_task_request_state(next_request_id, active_request_id, in_flight_request_id, reload_queued)
}

/// What `begin_startup_task_request_state` does, over the values before and
/// after the call.
pub open spec fn begin_post(
    next0: u64, active0: u64, in_flight0: Option<u64>, queued0: bool,
    next1: u64, active1: u64, in_flight1: Option<u64>, queued1: bool,
    started: Option<u64>,
) -> bool {
    if in_flight0.is_some() {
        &&& started is None
        &&& queued1
        &&& next1 == next0
        &&& active1 == active0
        &&& in_flight1 == in_flight0
    } else {
        let id = next_request_id_spec(next0);
        &&& started == Some(id)
        &&& next1 == id
        &&& active1 == id
        &&& in_flight1 == Some(id)
        &&& queued1 == queued0
    }
}

/// What `finish_startup_task_request_state` does.
pub open spec fn finish_post(
    in_flight0: Option<u64>, queued0: bool, request_id: u64,
    in_flight1: Option<u64>, queued1: bool, spawn_queued: bool,
) -> bool {
    if in_flight0 == Some(request_id) {
        &&& spawn_queued == queued0
        &&& in_flight1 is None
        &&& !queued1
    } else {
        &&& !spawn_queued
        &&& in_flight1 == in_flight0
        &&& queued1 == queued0
    }
}

/// What `invalidate_startup_task_request_state` does.
pub open spec fn invalidate_post(
    next0: u64, next1: u64, active1: u64, in_flight1: Option<u64>, queued1: bool,
) -> bool {
    &&& next1 == next_request_id_spec(next0)
    &&& active1 == next1
    &&& in_flight1 is None
    &&& !queued1
}

/// Request ids handed out by the counter are never zero.
pub proof fn lemma_request_ids_are_never_zero(current: u64)
    ensures
        next_request_id_spec(current) != 0,
{
}

/// A run started on an idle task is the active run, and its completion with
/// nothing queued asks for no follow-up run; finishing it makes the task idle
/// again.
pub proof fn lemma_begin_then_finish_returns_to_idle(
    next0: u64, active0: u64, queued0: bool,
    next1: u64, active1: u64, in_flight1: Option<u64>, queued1: bool, started: Option<u64>,
    in_flight2: Option<u64>, queued2: bool, spawn_queued: bool,
)
    requires
        begin_post(next0, active0, None, queued0, next1, active1, in_flight1, queued1, started),
        started matches Some(id) && finish_post(in_flight1, queued1, id, in_flight2, queued2, spawn_queued),
    ensures
        started == Some(active1),
        in_flight2 is None,
        !queued2,
        spawn_queued == queued0,
{
}

/// Requests made while a run is in flight collapse into one queued run: the
/// in-flight id is kept and completing it asks for exactly one follow-up.
pub proof fn lemma_requests_while_in_flight_queue_once(
    next0: u64, active0: u64, id: u64, queued0: bool,
    next1: u64, active1: u64, in_flight1: Option<u64>, queued1: bool, started: Option<u64>,
    in_flight2: Option<u64>, queued2: bool, spawn_queued: bool,
)
    requires
        begin_post(next0, active0, Some(id), queued0, next1, active1, in_flight1, queued1, started),
        finish_post(in_flight1, queued1, id, in_flight2, queued2, spawn_queued),
    ensures
        started is None,
        in_flight1 == Some(id),
        spawn_queued,
        in_flight2 is None,
        !queued2,
{
}

/// After invalidation the completion of the run that was in flight is
/// ignored, and the new active id differs from the dropped one.
pub proof fn lemma_invalidation_ignores_stale_completion(
    next0: u64, in_flight0: Option<u64>,
    next1: u64, active1: u64, in_flight1: Option<u64>, queued1: bool,
    stale_id: u64,
    in_flight2: Option<u64>, queued2: bool, spawn_queued: bool,
)
    requires
        invalidate_post(next0, next1, active1, in_flight1, queued1),
        finish_post(in_flight1, queued1, stale_id, in_flight2, queued2, spawn_queued),
        in_flight0 == Some(next0),
        in_flight0 == Some(stale_id),
    ensures
        !spawn_queued,
        in_flight2 is None,
        !queued2,
        active1 != stale_id,
        active1 != 0,
{
}

/// Watcher batches up to this many paths are patched into the warm index.
pub const WORKSPACE_INCREMENTAL_INDEX_MAX_PATHS: usize = 512;
/// Paths applied per incremental index step.
pub const WORKSPACE_INCREMENTAL_CHUNK_PATHS: usize = 64;
/// Batches up to this many paths refresh git with a scoped status query.
pub const GIT_SCOPED_REFRESH_MAX_PATHS: usize = 64;

/// Workspace plugins run only in trusted workspaces.
pub fn workspace_plugins_enabled(workspace_trusted: bool) -> (enabled: bool)
    ensures
        enabled == workspace_trusted,
{
    workspace_trusted
}

/// Status shown when an untrusted workspace blocks its plugins.
pub fn workspace_plugins_restricted_status() -> (status: &'static str)
    ensures
        status@ == "Trust this workspace to enable workspace plugins"@,
{
    "Trust this workspace to enable workspace plugins"
}

/// Status shown when plugins are switched off in the settings.
pub fn plugins_disabled_status() -> (status: &'static str)
    ensures
        status@ == "Plugins are disabled"@,
{
    "Plugins are disabled"
}

/// A debounced watcher batch is applied incrementally when the index is warm,
/// the batch is non-empty and within `WORKSPACE_INCREMENTAL_INDEX_MAX_PATHS`,
/// and no path in it is the workspace root itself.
pub fn workspace_refresh_paths_are_incremental(
    index_is_warm: bool,
    workspace_root: &str,
    project_paths: &[String],
) -> (incremental: bool)
    ensures
        incremental == (index_is_warm && project_paths@.len() > 0
            && project_paths@.len() <= WORKSPACE_INCREMENTAL_INDEX_MAX_PATHS
            && forall|i: int| 0 <= i < project_paths@.len()
                ==> !paths_match_spec(#[trigger] project_paths@[i]@, workspace_root@)),
{
    if !index_is_warm || project_paths.len() == 0
        || project_paths.len() > WORKSPACE_INCREMENTAL_INDEX_MAX_PATHS {
        return false;
    }
    let mut i: usize = 0;
    while i < project_paths.len()
        invariant
            i <= project_paths@.len(),
            forall|j: int| 0 <= j < i ==> !paths_match_spec(#[trigger] project_paths@[j]@, workspace_root@),
        decreases project_paths.len() - i,
    {
        if trusted_workspace_paths_match(project_paths[i].as_str(), workspace_root) {
            assert(paths_match_spec(project_paths@[i as int]@, workspace_root@));
            return false;
        }
        i = i + 1;
    }
    true
}

/// Patching is worth it only on a non-empty index and while the batch is at
/// most an eighth of the indexed files.
pub fn workspace_refresh_batch_worth_patching(batch_len: usize, indexed_files: usize) -> (worth: bool)
    ensures
        worth == (indexed_files > 0 && batch_len * 8 <= indexed_files),
{
    if indexed_files == 0 {
        return false;
    }
    if batch_len > usize::MAX / 8 {
        return false;
    }
    batch_len * 8 <= indexed_files
}

/// Automatic git refreshes need git and its auto-refresh setting.
pub fn git_auto_refresh_enabled(git_enabled: bool, git_autorefresh: bool) -> (enabled: bool)
    ensures
        enabled == (git_enabled && git_autorefresh),
{
    git_enabled && git_autorefresh
}

/// A scoped git status refresh is possible when git is enabled, the snapshot
/// has a repository root that the resolved scan root still matches, the batch
/// is non-empty and within `max_paths`, and every path lies in the snapshot
/// root.
#[verifier::loop_isolation(false)]
pub fn git_scoped_refresh_is_supported(
    git_enabled: bool,
    snapshot_root: Option<&str>,
    resolved_scan_root: Option<&str>,
    paths: &[String],
    max_paths: usize,
) -> (supported: bool)
    ensures
        supported == (git_enabled && snapshot_root.is_some() && resolved_scan_root.is_some()
            && paths_match_spec(resolved_scan_root.unwrap()@, snapshot_root.unwrap()@)
            && paths@.len() > 0 && paths@.len() <= max_paths
            && forall|i: int| 0 <= i < paths@.len()
                ==> path_is_or_inside_spec(#[trigger] paths@[i]@, snapshot_root.unwrap()@)),
{
    if !git_enabled {
        return false;
    }
    let snap = match snapshot_root {
        Some(root) => root,
        None => return false,
    };
    let resolved = match resolved_scan_root {
        Some(root) => root,
        None => return false,
    };
    assert(snap@ == snapshot_root.unwrap()@);
    if !trusted_workspace_paths_match(resolved, snap) {
        return false;
    }
    if paths.len() == 0 || paths.len() > max_paths {
        return false;
    }
    let mut i: usize = 0;
    while i < paths.len()
        invariant
            i <= paths@.len(),
            forall|j: int| 0 <= j < i ==> path_is_or_inside_spec(#[trigger] paths@[j]@, snap@),
        decreases paths.len() - i,
    {
        if !workspace_path_contains_lexically(snap, paths[i].as_str()) {
            assert(!path_is_or_inside_spec(paths@[i as int]@, snap@));
            return false;
        }
        i = i + 1;
    }
    true
}

} // verus!
