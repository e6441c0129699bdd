//! The editor shell's scheduling state and its decisions: which background
//! task (workspace index, git scan, workspace plugin discovery) to start,
//! queue or drop, and when a debounced refresh is due. Starting a task is
//! recorded as a `TaskLaunch` for the caller to carry out.
use vstd::prelude::*;
use crate::debounce::{
    elapsed_since, saturating_duration_since, watcher_backoff_spec, watcher_rebuild_backoff,
    WATCHER_REBUILD_MAX_BACKOFF, debounce_due, debounce_wakeup, pending_refresh_is_due, pending_refresh_wakeup_at,
    workspace_plugin_reload_due, workspace_plugin_reload_wakeup_at, PendingWorkspacePluginReload,
    PendingWorkspaceRefresh, WORKSPACE_PLUGIN_RELOAD_DEBOUNCE, WORKSPACE_PLUGIN_RELOAD_MAX_WAIT,
    WORKSPACE_REFRESH_DEBOUNCE, WORKSPACE_REFRESH_MAX_WAIT,
};
use crate::project_search_state::{normalize_project_search_request_query, request_query_spec};
use crate::settings_text::{trim_spec, trim_string_in_place};
use crate::text::str_equal;
use crate::git_repos::{entry_ignores_repository, git_repository_ignored};
use crate::paths::{path_is_or_inside_spec, paths_match_spec, workspace_path_contains_lexically};
use crate::startup_requests::{
    git_auto_refresh_enabled, git_scoped_refresh_is_supported, plugins_disabled_status,
    workspace_plugins_enabled, workspace_plugins_restricted_status,
    workspace_refresh_batch_worth_patching, workspace_refresh_paths_are_incremental,
    GIT_SCOPED_REFRESH_MAX_PATHS, WORKSPACE_INCREMENTAL_INDEX_MAX_PATHS,
    begin_git_scan_request_state, begin_workspace_index_request_state,
    begin_workspace_plugin_discovery_request_state, finish_git_scan_request_state,
    finish_workspace_index_request_state, finish_workspace_plugin_discovery_request_state,
    invalidate_git_scan_request_state, invalidate_workspace_index_request_state,
    invalidate_workspace_plugin_discovery_request_state, next_request_id_spec, next_startup_task_request_id,
    reserve_startup_task_request_id_state,
};

verus! {

/// Request bookkeeping of one kind of background task.
#[derive(Debug, Clone, Copy, PartialEq, Eq)]
pub struct TaskRequestState {
    pub next_request_id: u64,
    pub active_request_id: u64,
    pub in_flight_request_id: Option<u64>,
    pub queued: bool,
}

impl TaskRequestState {
    /// No request handed out yet.
    pub fn idle() -> (state: Self)
        ensures
            state.next_request_id == 0,
            state.active_request_id == 0,
            state.in_flight_request_id is None,
            !state.queued,
    {
        TaskRequestState { next_request_id: 0, active_request_id: 0, in_flight_request_id: None, queued: false }
    }

    /// The state before any request.
    pub open spec fn idle_spec() -> TaskRequestState {
        TaskRequestState { next_request_id: 0, active_request_id: 0, in_flight_request_id: None, queued: false }
    }

    /// Asking for a run: it starts with a fresh id when none is in flight,
    /// otherwise a run is queued behind the one in flight.
    pub open spec fn begun(self) -> (TaskRequestState, Option<u64>) {
        if self.in_flight_request_id is Some {
            (TaskRequestState { queued: true, ..self }, None)
        } else {
            let id = next_request_id_spec(self.next_request_id);
            (TaskRequestState { next_request_id: id, active_request_id: id, in_flight_request_id: Some(id), ..self }, Some(id))
        }
    }

    /// A fresh id becomes the active one, so results of older ids are stale.
    pub open spec fn reserved(self) -> TaskRequestState {
        let id = next_request_id_spec(self.next_request_id);
        TaskRequestState { next_request_id: id, active_request_id: id, ..self }
    }

    /// The run `request_id` completed; the flag says whether a queued run
    /// must start now.
    pub open spec fn finished(self, request_id: u64) -> (TaskRequestState, bool) {
        if self.in_flight_request_id == Some(request_id) {
            (TaskRequestState { in_flight_request_id: None, queued: false, ..self }, self.queued)
        } else {
            (self, false)
        }
    }

    /// A spawn attempt: the run started by `begun`, or, when one is already
    /// in flight, the queued request plus a fresh active id.
    pub open spec fn spawned(self) -> (TaskRequestState, Option<u64>) {
        let (s, started) = self.begun();
        match started {
            Some(id) => (s, Some(id)),
            None => (s.reserved(), None),
        }
    }

    /// Everything in flight or queued is dropped behind a fresh active id.
    pub open spec fn invalidated(self) -> TaskRequestState {
        let id = next_request_id_spec(self.next_request_id);
        TaskRequestState { next_request_id: id, active_request_id: id, in_flight_request_id: None, queued: false }
    }
}

/// A background task the caller has to start.
#[derive(Debug, Clone, PartialEq, Eq)]
pub enum TaskLaunch {
    /// Walk the whole workspace (publishing the disk cache first).
    FullIndex { request_id: u64 },
    /// Patch the warm index with the changed paths.
    IncrementalIndex { request_id: u64, paths: Vec<String> },
    /// Resolve the repository and scan its status.
    GitScan { request_id: u64 },
    /// Refresh the status of the given paths in the current snapshot.
    GitScopedRefresh { request_id: u64, paths: Vec<String> },
    /// Discover the workspace plugins.
    PluginDiscovery { request_id: u64 },
}

/// The settings the scheduling decisions read.
#[derive(Debug, Clone, PartialEq, Eq)]
pub struct AppSettings {
    pub git_enabled: bool,
    pub git_autorefresh: bool,
    /// `git.autoRepositoryDetection` is anything but `false`.
    pub git_auto_repository_detection: bool,
    pub git_ignored_repositories: Vec<String>,
    pub plugins_enabled: bool,
    pub vim_keybindings: bool,
}

/// The settings as plain values.
pub open spec fn settings_view(s: AppSettings) -> (bool, bool, bool, Seq<Seq<char>>, bool, bool) {
    (
        s.git_enabled,
        s.git_autorefresh,
        s.git_auto_repository_detection,
        s.git_ignored_repositories@.map_values(|r: String| r@),
        s.plugins_enabled,
        s.vim_keybindings,
    )
}

/// What the workspace plugins contributed.
#[derive(Debug, Clone, PartialEq, Eq)]
pub struct WorkspacePluginState {
    pub plugins: Vec<String>,
    pub errors: Vec<String>,
    pub runtime_count: usize,
    pub active_count: usize,
    pub command_count: usize,
    pub language_count: usize,
    pub theme_count: usize,
    pub syntax_count: usize,
}

impl WorkspacePluginState {
    /// Nothing contributed.
    pub open spec fn is_empty_state(&self) -> bool {
        &&& self.plugins@.len() == 0
        &&& self.errors@.len() == 0
        &&& self.runtime_count == 0
        &&& self.active_count == 0
        &&& self.command_count == 0
        &&& self.language_count == 0
        &&& self.theme_count == 0
        &&& self.syntax_count == 0
    }

    /// No plugin state.
    pub fn empty() -> (state: Self)
        ensures
            state.is_empty_state(),
    {
        WorkspacePluginState {
            plugins: Vec::new(),
            errors: Vec::new(),
            runtime_count: 0,
            active_count: 0,
            command_count: 0,
            language_count: 0,
            theme_count: 0,
            syntax_count: 0,
        }
    }
}

/// A toast shown for a status message.
#[derive(Debug, Clone, PartialEq, Eq)]
pub struct StatusToast {
    pub id: u64,
    pub message: String,
    pub error: bool,
    pub created: u64,
}

/// The scheduling state of the editor shell.
pub struct KuroyaApp {
    pub workspace_root: String,
    /// No folder is open (the workspace is a placeholder).
    pub workspace_placeholder: bool,
    pub workspace_trusted: bool,
    pub settings: AppSettings,
    pub status: String,
    /// The in-memory index holds a complete walk.
    pub index_warm: bool,
    pub indexed_files: usize,
    pub project_index_generation: u64,
    pub workspace_index: TaskRequestState,
    pub git_scan: TaskRequestState,
    pub workspace_plugins: TaskRequestState,
    /// Root of the current git snapshot, if it found a repository.
    pub git_root: Option<String>,
    pub pending_workspace_refresh: Option<PendingWorkspaceRefresh>,
    pub pending_workspace_plugin_reload: Option<PendingWorkspacePluginReload>,
    pub plugin_state: WorkspacePluginState,
    /// Tasks decided on and not yet started by the caller.
    pub launches: Vec<TaskLaunch>,
    pub watcher_present: bool,
    pub watcher_rebuild_attempts: u32,
    pub watcher_rebuild_due: Option<u64>,
    pub project_search: bool,
    pub project_search_query: String,
    pub project_search_next_request_id: u64,
    pub project_search_active_request_id: u64,
    pub project_search_cancel_generation: u64,
    pub last_status: String,
    pub status_shown_since: u64,
    pub status_toasts: Vec<StatusToast>,
    pub next_toast_id: u64,
    /// The settings panel is open.
    pub settings_panel_open: bool,
    /// The settings as edited in the panel and not yet applied.
    pub settings_panel_draft: AppSettings,
    /// The Vim keybindings choice kept in the app preferences file.
    pub app_state_vim_keybindings: bool,
}

impl KuroyaApp {
    /// Workspace, settings and index facts are the same.
    pub open spec fn same_config(&self, o: &Self) -> bool {
        &&& self.workspace_root == o.workspace_root
        &&& self.workspace_placeholder == o.workspace_placeholder
        &&& self.workspace_trusted == o.workspace_trusted
        &&& self.settings == o.settings
        &&& self.index_warm == o.index_warm
        &&& self.indexed_files == o.indexed_files
        &&& self.project_index_generation == o.project_index_generation
    }

    /// Watcher, project search and toast state are the same.
    pub open spec fn same_other(&self, o: &Self) -> bool {
        &&& self.watcher_present == o.watcher_present
        &&& self.watcher_rebuild_attempts == o.watcher_rebuild_attempts
        &&& self.watcher_rebuild_due == o.watcher_rebuild_due
        &&& self.project_search == o.project_search
        &&& self.project_search_query == o.project_search_query
        &&& self.project_search_next_request_id == o.project_search_next_request_id
        &&& self.project_search_active_request_id == o.project_search_active_request_id
        &&& self.project_search_cancel_generation == o.project_search_cancel_generation
        &&& self.last_status == o.last_status
        &&& self.status_shown_since == o.status_shown_since
        &&& self.status_toasts == o.status_toasts
        &&& self.next_toast_id == o.next_toast_id
        &&& self.settings_panel_open == o.settings_panel_open
        &&& self.settings_panel_draft == o.settings_panel_draft
        &&& self.app_state_vim_keybindings == o.app_state_vim_keybindings
    }

    /// Only the groups flagged may differ: the index requests, the git scan
    /// requests and snapshot root, the plugin requests and state, the
    /// pending refresh, the status line and the launches.
    pub open spec fn unchanged_except(
        &self,
        o: &Self,
        index: bool,
        git: bool,
        plugins: bool,
        refresh: bool,
        status: bool,
        launches: bool,
    ) -> bool {
        &&& self.same_config(o)
        &&& self.same_other(o)
        &&& (!index ==> self.workspace_index == o.workspace_index)
        &&& (!git ==> self.git_scan == o.git_scan && self.git_root == o.git_root)
        &&& (!plugins ==> self.workspace_plugins == o.workspace_plugins
            && self.plugin_state == o.plugin_state
            && self.pending_workspace_plugin_reload == o.pending_workspace_plugin_reload)
        &&& (!refresh ==> self.pending_workspace_refresh == o.pending_workspace_refresh)
        &&& (!status ==> self.status == o.status)
        &&& (!launches ==> self.launches == o.launches)
    }

    /// Starts a workspace index run or queues one behind the run in flight.
    pub fn begin_workspace_index_request(&mut self) -> (started: Option<u64>)
        ensures
            (final(self).workspace_index, started) == old(self).workspace_index.begun(),
            final(self).unchanged_except(&*old(self), true, false, false, false, false, false),
    {
        begin_workspace_index_request_state(
            &mut self.workspace_index.next_request_id,
            &mut self.workspace_index.active_request_id,
            &mut self.workspace_index.in_flight_request_id,
            &mut self.workspace_index.queued,
        )
    }

    /// Completes the index run `request_id`; true when a queued run must
    /// start now.
    pub fn finish_workspace_index_request(&mut self, request_id: u64) -> (spawn_queued: bool)
        ensures
            (final(self).workspace_index, spawn_queued) == old(self).workspace_index.finished(request_id),
            final(self).unchanged_except(&*old(self), true, false, false, false, false, false),
    {
        finish_workspace_index_request_state(
            &mut self.workspace_index.in_flight_request_id,
            &mut self.workspace_index.queued,
            request_id,
        )
    }

    /// Drops the index run in flight and any queued one.
    pub fn invalidate_workspace_index_requests(&mut self)
        ensures
            final(self).workspace_index == old(self).workspace_index.invalidated(),
            final(self).unchanged_except(&*old(self), true, false, false, false, false, false),
    {
        invalidate_workspace_index_request_state(
            &mut self.workspace_index.next_request_id,
            &mut self.workspace_index.active_request_id,
            &mut self.workspace_index.in_flight_request_id,
            &mut self.workspace_index.queued,
        );
    }

    /// Starts a git scan run or queues one.
    pub fn begin_git_scan_request(&mut self) -> (started: Option<u64>)
        ensures
            (final(self).git_scan, started) == old(self).git_scan.begun(),
            final(self).git_root == old(self).git_root,
            final(self).unchanged_except(&*old(self), false, true, false, false, false, false),
    {
        begin_git_scan_request_state(
            &mut self.git_scan.next_request_id,
            &mut self.git_scan.active_request_id,
            &mut self.git_scan.in_flight_request_id,
            &mut self.git_scan.queued,
        )
    }

    /// Completes the git scan run `request_id`.
    pub fn finish_git_scan_request(&mut self, request_id: u64) -> (spawn_queued: bool)
        ensures
            (final(self).git_scan, spawn_queued) == old(self).git_scan.finished(request_id),
            final(self).git_root == old(self).git_root,
            final(self).unchanged_except(&*old(self), false, true, false, false, false, false),
    {
        finish_git_scan_request_state(&mut self.git_scan.in_flight_request_id, &mut self.git_scan.queued, request_id)
    }

    /// Drops the git scan run in flight and any queued one.
    pub fn invalidate_git_scan_requests(&mut self)
        ensures
            final(self).git_scan == old(self).git_scan.invalidated(),
            final(self).git_root == old(self).git_root,
            final(self).unchanged_except(&*old(self), false, true, false, false, false, false),
    {
        invalidate_git_scan_request_state(
            &mut self.git_scan.next_request_id,
            &mut self.git_scan.active_request_id,
            &mut self.git_scan.in_flight_request_id,
            &mut self.git_scan.queued,
        );
    }

    /// Drops git scans and forgets the current snapshot.
    pub fn invalidate_git_scan(&mut self)
        ensures
            final(self).git_scan == old(self).git_scan.invalidated(),
            final(self).git_root is None,
            final(self).unchanged_except(&*old(self), false, true, false, false, false, false),
    {
        self.invalidate_git_scan_requests();
        self.git_root = None;
    }

    /// Starts a workspace plugin discovery run or queues one.
    pub fn begin_workspace_plugin_discovery_request(&mut self) -> (started: Option<u64>)
        ensures
            (final(self).workspace_plugins, started) == old(self).workspace_plugins.begun(),
            final(self).plugin_state == old(self).plugin_state,
            final(self).pending_workspace_plugin_reload == old(self).pending_workspace_plugin_reload,
            final(self).unchanged_except(&*old(self), false, false, true, false, false, false),
    {
        begin_workspace_plugin_discovery_request_state(
            &mut self.workspace_plugins.next_request_id,
            &mut self.workspace_plugins.active_request_id,
            &mut self.workspace_plugins.in_flight_request_id,
            &mut self.workspace_plugins.queued,
        )
    }

    /// Completes the plugin discovery run `request_id`.
    pub fn finish_workspace_plugin_discovery_request(&mut self, request_id: u64) -> (spawn_queued: bool)
        ensures
            (final(self).workspace_plugins, spawn_queued) == old(self).workspace_plugins.finished(request_id),
            final(self).plugin_state == old(self).plugin_state,
            final(self).pending_workspace_plugin_reload == old(self).pending_workspace_plugin_reload,
            final(self).unchanged_except(&*old(self), false, false, true, false, false, false),
    {
        finish_workspace_plugin_discovery_request_state(
            &mut self.workspace_plugins.in_flight_request_id,
            &mut self.workspace_plugins.queued,
            request_id,
        )
    }

    /// Drops the plugin discovery run in flight and any queued one.
    pub fn invalidate_workspace_plugin_discovery_requests(&mut self)
        ensures
            final(self).workspace_plugins == old(self).workspace_plugins.invalidated(),
            final(self).plugin_state == old(self).plugin_state,
            final(self).pending_workspace_plugin_reload == old(self).pending_workspace_plugin_reload,
            final(self).unchanged_except(&*old(self), false, false, true, false, false, false),
    {
        invalidate_workspace_plugin_discovery_request_state(
            &mut self.workspace_plugins.next_request_id,
            &mut self.workspace_plugins.active_request_id,
            &mut self.workspace_plugins.in_flight_request_id,
            &mut self.workspace_plugins.queued,
        );
    }

    /// Drops plugin discovery runs.
    pub fn invalidate_workspace_plugin_discovery(&mut self)
        ensures
            final(self).workspace_plugins == old(self).workspace_plugins.invalidated(),
            final(self).plugin_state == old(self).plugin_state,
            final(self).pending_workspace_plugin_reload == old(self).pending_workspace_plugin_reload,
            final(self).unchanged_except(&*old(self), false, false, true, false, false, false),
    {
        self.invalidate_workspace_plugin_discovery_requests();
    }
}


/// A watcher batch is patched into the index (see
/// `workspace_refresh_paths_are_incremental`).
pub open spec fn refresh_incremental_spec(index_warm: bool, root: Seq<char>, paths: Seq<String>) -> bool {
    index_warm && paths.len() > 0 && paths.len() <= WORKSPACE_INCREMENTAL_INDEX_MAX_PATHS
        && forall|i: int| 0 <= i < paths.len() ==> !paths_match_spec(#[trigger] paths[i]@, root)
}

/// Patching pays off (see `workspace_refresh_batch_worth_patching`).
pub open spec fn worth_patching_spec(batch_len: int, indexed_files: int) -> bool {
    indexed_files > 0 && batch_len * 8 <= indexed_files
}

/// A scoped git refresh is possible (see `git_scoped_refresh_is_supported`).
pub open spec fn scoped_refresh_spec(
    git_enabled: bool,
    snapshot_root: Option<String>,
    resolved_scan_root: Option<String>,
    paths: Seq<String>,
) -> bool {
    git_enabled && snapshot_root is Some && resolved_scan_root is Some
        && paths_match_spec(resolved_scan_root.unwrap()@, snapshot_root.unwrap()@)
        && paths.len() > 0 && paths.len() <= GIT_SCOPED_REFRESH_MAX_PATHS
        && forall|i: int| 0 <= i < paths.len() ==> path_is_or_inside_spec(#[trigger] paths[i]@, snapshot_root.unwrap()@)
}

/// Some `git.ignoredRepositories` entry names `root`.
pub open spec fn repository_ignored_spec(root: Seq<char>, ignored: Seq<String>) -> bool {
    exists|i: int| 0 <= i < ignored.len() && #[trigger] entry_ignores_repository(root, ignored[i]@)
}

impl KuroyaApp {
    /// `self` is the state after `spawn_index` ran on `o`.
    pub open spec fn index_spawned(&self, o: &Self) -> bool {
        &&& self.unchanged_except(o, true, false, false, false, true, true)
        &&& if o.workspace_placeholder {
            &&& self.workspace_index == o.workspace_index.invalidated()
            &&& self.status@ == "No folder open"@
            &&& self.launches@ == o.launches@
        } else {
            &&& self.status == o.status
            &&& self.workspace_index == o.workspace_index.spawned().0
            &&& self.launches@ == match o.workspace_index.spawned().1 {
                Some(id) => o.launches@.push(TaskLaunch::FullIndex { request_id: id }),
                None => o.launches@,
            }
        }
    }

    /// `self` is the state after `spawn_incremental_index(paths)` ran on `o`.
    pub open spec fn incremental_index_spawned(&self, o: &Self, paths: Vec<String>) -> bool {
        if o.workspace_placeholder || !refresh_incremental_spec(o.index_warm, o.workspace_root@, paths@)
            || !worth_patching_spec(paths@.len() as int, o.indexed_files as int) {
            self.index_spawned(o)
        } else {
            &&& self.unchanged_except(o, true, false, false, false, false, true)
            &&& self.workspace_index == o.workspace_index.spawned().0
            &&& self.launches@ == match o.workspace_index.spawned().1 {
                Some(id) => o.launches@.push(TaskLaunch::IncrementalIndex { request_id: id, paths }),
                None => o.launches@,
            }
        }
    }

    /// `self` is the state after `spawn_git_scan` ran on `o` and returned
    /// `started`.
    pub open spec fn git_scan_spawned(&self, o: &Self, started: bool) -> bool {
        &&& self.unchanged_except(o, false, true, false, false, true, true)
        &&& if o.workspace_placeholder {
            &&& !started
            &&& self.git_scan == o.git_scan.invalidated()
            &&& self.git_root is None
            &&& self.status@ == "No folder open"@
            &&& self.launches@ == o.launches@
        } else if !o.settings.git_enabled || !o.settings.git_auto_repository_detection {
            &&& !started
            &&& self.git_scan == o.git_scan.invalidated()
            &&& self.git_root is None
            &&& self.status == o.status
            &&& self.launches@ == o.launches@
        } else {
            &&& self.git_root == o.git_root
            &&& self.status == o.status
            &&& self.git_scan == o.git_scan.spawned().0
            &&& started == o.git_scan.spawned().1 is Some
            &&& self.launches@ == match o.git_scan.spawned().1 {
                Some(id) => o.launches@.push(TaskLaunch::GitScan { request_id: id }),
                None => o.launches@,
            }
        }
    }

    /// `self` is the state after `spawn_git_scoped_refresh(paths, resolved)`
    /// ran on `o` and returned `started`.
    pub open spec fn git_scoped_refresh_spawned(
        &self,
        o: &Self,
        paths: Vec<String>,
        resolved_scan_root: Option<String>,
        started: bool,
    ) -> bool {
        if o.workspace_placeholder
            || repository_ignored_spec(o.workspace_root@, o.settings.git_ignored_repositories@)
            || !scoped_refresh_spec(o.settings.git_enabled, o.git_root, resolved_scan_root, paths@) {
            self.git_scan_spawned(o, started)
        } else {
            &&& self.unchanged_except(o, false, true, false, false, false, true)
            &&& self.git_root == o.git_root
            &&& self.git_scan == o.git_scan.spawned().0
            &&& started == o.git_scan.spawned().1 is Some
            &&& self.launches@ == match o.git_scan.spawned().1 {
                Some(id) => o.launches@.push(TaskLaunch::GitScopedRefresh { request_id: id, paths }),
                None => o.launches@,
            }
        }
    }

    /// `self` is the state after `spawn_git_refresh_for_changed_paths`.
    pub open spec fn git_changed_paths_refreshed(
        &self,
        o: &Self,
        paths: Vec<String>,
        resolved_scan_root: Option<String>,
        started: bool,
    ) -> bool {
        if !(o.settings.git_enabled && o.settings.git_autorefresh) {
            !started && self.unchanged_except(o, false, false, false, false, false, false)
        } else if paths@.len() == 0 || paths@.len() > GIT_SCOPED_REFRESH_MAX_PATHS {
            self.git_scan_spawned(o, started)
        } else {
            self.git_scoped_refresh_spawned(o, paths, resolved_scan_root, started)
        }
    }

    /// Full workspace index: drops index requests when no folder is open,
    /// otherwise starts a run (`TaskLaunch::FullIndex`) or queues one.
    pub fn spawn_index(&mut self)
        ensures
            final(self).index_spawned(&*old(self)),
    {
        if self.workspace_placeholder {
            self.invalidate_workspace_index_requests();
            self.status = "No folder open".to_owned();
            return;
        }
        match self.begin_workspace_index_request() {
            Some(request_id) => {
                self.launches.push(TaskLaunch::FullIndex { request_id });
            },
            None => {
                let _ = reserve_startup_task_request_id_state(
                    &mut self.workspace_index.next_request_id,
                    &mut self.workspace_index.active_request_id,
                );
            },
        }
    }

    /// Applies a watcher batch to the warm index
    /// (`TaskLaunch::IncrementalIndex`); a cold index, a large batch, a
    /// batch naming the root, or a batch too large for the index falls back
    /// to `spawn_index`.
    pub fn spawn_incremental_index(&mut self, changed_paths: Vec<String>)
        ensures
            final(self).incremental_index_spawned(&*old(self), changed_paths),
    {
        if self.workspace_placeholder {
            self.invalidate_workspace_index_requests();
            self.status = "No folder open".to_owned();
            return;
        }
        if !workspace_refresh_paths_are_incremental(self.index_warm, self.workspace_root.as_str(), changed_paths.as_slice()) {
            self.spawn_index();
            return;
        }
        if !workspace_refresh_batch_worth_patching(changed_paths.len(), self.indexed_files) {
            self.spawn_index();
            return;
        }
        match self.begin_workspace_index_request() {
            Some(request_id) => {
                self.launches.push(TaskLaunch::IncrementalIndex { request_id, paths: changed_paths });
            },
            None => {
                let _ = reserve_startup_task_request_id_state(
                    &mut self.workspace_index.next_request_id,
                    &mut self.workspace_index.active_request_id,
                );
            },
        }
    }

    /// Starts the first index of an open folder; true when it called
    /// `spawn_index`.
    pub fn ensure_workspace_index_started(&mut self) -> (started: bool)
        ensures
            started == (!old(self).workspace_placeholder && old(self).project_index_generation == 0
                && old(self).workspace_index.in_flight_request_id is None),
            started ==> final(self).index_spawned(&*old(self)),
            !started ==> final(self).unchanged_except(&*old(self), false, false, false, false, false, false),
    {
        if self.workspace_placeholder || self.project_index_generation > 0
            || self.workspace_index.in_flight_request_id.is_some() {
            return false;
        }
        self.spawn_index();
        true
    }

    /// Full git scan (`TaskLaunch::GitScan`): dropped with the snapshot when
    /// no folder is open, git is disabled or repository detection is off.
    pub fn spawn_git_scan(&mut self) -> (started: bool)
        ensures
            final(self).git_scan_spawned(&*old(self), started),
    {
        if self.workspace_placeholder {
            self.invalidate_git_scan();
            self.status = "No folder open".to_owned();
            return false;
        }
        if !self.settings.git_enabled || !self.settings.git_auto_repository_detection {
            self.invalidate_git_scan();
            return false;
        }
        match self.begin_git_scan_request() {
            Some(request_id) => {
                self.launches.push(TaskLaunch::GitScan { request_id });
                true
            },
            None => {
                let _ = reserve_startup_task_request_id_state(
                    &mut self.git_scan.next_request_id,
                    &mut self.git_scan.active_request_id,
                );
                false
            },
        }
    }

    /// The automatic git refresh: a full scan when git and auto-refresh are
    /// both on, nothing otherwise.
    pub fn spawn_git_auto_refresh(&mut self) -> (started: bool)
        ensures
            (old(self).settings.git_enabled && old(self).settings.git_autorefresh)
                ==> final(self).git_scan_spawned(&*old(self), started),
            !(old(self).settings.git_enabled && old(self).settings.git_autorefresh) ==> !started
                && final(self).unchanged_except(&*old(self), false, false, false, false, false, false),
    {
        if !git_auto_refresh_enabled(self.settings.git_enabled, self.settings.git_autorefresh) {
            return false;
        }
        self.spawn_git_scan()
    }

    /// Refreshes the status of `paths` in the current snapshot
    /// (`TaskLaunch::GitScopedRefresh`) when the snapshot can be scoped to
    /// them; `resolved_scan_root` is the repository root the current settings
    /// resolve to. Anything else falls back to `spawn_git_scan`.
    pub fn spawn_git_scoped_refresh(&mut self, paths: Vec<String>, resolved_scan_root: Option<String>) -> (started: bool)
        ensures
            final(self).git_scoped_refresh_spawned(&*old(self), paths, resolved_scan_root, started),
    {
        if self.workspace_placeholder
            || git_repository_ignored(self.workspace_root.as_str(), self.settings.git_ignored_repositories.as_slice()) {
            return self.spawn_git_scan();
        }
        let supported = match (&self.git_root, &resolved_scan_root) {
            (Some(snapshot_root), Some(resolved)) => git_scoped_refresh_is_supported(
                self.settings.git_enabled,
                Some(snapshot_root.as_str()),
                Some(resolved.as_str()),
                paths.as_slice(),
                GIT_SCOPED_REFRESH_MAX_PATHS,
            ),
            _ => false,
        };
        if !supported {
            return self.spawn_git_scan();
        }
        match self.begin_git_scan_request() {
            Some(request_id) => {
                self.launches.push(TaskLaunch::GitScopedRefresh { request_id, paths });
                true
            },
            None => {
                let _ = reserve_startup_task_request_id_state(
                    &mut self.git_scan.next_request_id,
                    &mut self.git_scan.active_request_id,
                );
                false
            },
        }
    }

    /// Git refresh after external changes: gated on auto-refresh; small
    /// batches are scoped, empty or large ones rescan fully.
    pub fn spawn_git_refresh_for_changed_paths(&mut self, paths: Vec<String>, resolved_scan_root: Option<String>) -> (started: bool)
        ensures
            final(self).git_changed_paths_refreshed(&*old(self), paths, resolved_scan_root, started),
    {
        if !git_auto_refresh_enabled(self.settings.git_enabled, self.settings.git_autorefresh) {
            return false;
        }
        if paths.len() == 0 || paths.len() > GIT_SCOPED_REFRESH_MAX_PATHS {
            return self.spawn_git_scan();
        }
        self.spawn_git_scoped_refresh(paths, resolved_scan_root)
    }

    /// Git refresh after a save: gated on auto-refresh; a path inside the
    /// workspace scopes the refresh, any other path rescans fully.
    pub fn spawn_git_refresh_for_saved_path(&mut self, path: &str, resolved_scan_root: Option<String>) -> (started: bool)
        ensures
            !(old(self).settings.git_enabled && old(self).settings.git_autorefresh) ==> !started
                && final(self).unchanged_except(&*old(self), false, false, false, false, false, false),
            (old(self).settings.git_enabled && old(self).settings.git_autorefresh)
                && !path_is_or_inside_spec(path@, old(self).workspace_root@)
                ==> final(self).git_scan_spawned(&*old(self), started),
            (old(self).settings.git_enabled && old(self).settings.git_autorefresh)
                && path_is_or_inside_spec(path@, old(self).workspace_root@)
                ==> exists|paths: Vec<String>| paths@.len() == 1 && #[trigger] paths@[0]@ == path@
                    && final(self).git_scoped_refresh_spawned(&*old(self), paths, resolved_scan_root, started),
    {
        if !git_auto_refresh_enabled(self.settings.git_enabled, self.settings.git_autorefresh) {
            return false;
        }
        if !workspace_path_contains_lexically(self.workspace_root.as_str(), path) {
            return self.spawn_git_scan();
        }
        let mut paths: Vec<String> = Vec::new();
        paths.push(path.to_owned());
        let ghost kept = paths;
        let started = self.spawn_git_scoped_refresh(paths, resolved_scan_root);
        assert(kept@[0]@ == path@);
        started
    }
}


impl KuroyaApp {
    /// `self` is the state after `spawn_plugin_discovery` ran on `o`.
    pub open spec fn plugin_discovery_spawned(&self, o: &Self, started: bool) -> bool {
        &&& self.unchanged_except(o, false, false, true, false, true, true)
        &&& self.pending_workspace_plugin_reload is None
        &&& if o.workspace_placeholder || !o.workspace_trusted || !o.settings.plugins_enabled {
            &&& !started
            &&& self.workspace_plugins == o.workspace_plugins.invalidated()
            &&& self.plugin_state.is_empty_state()
            &&& self.launches@ == o.launches@
            &&& self.status@ == (if o.workspace_placeholder {
                "No folder open"@
            } else if !o.workspace_trusted {
                "Trust this workspace to enable workspace plugins"@
            } else {
                "Plugins are disabled"@
            })
        } else {
            &&& self.status == o.status
            &&& self.plugin_state == o.plugin_state
            &&& self.workspace_plugins == o.workspace_plugins.begun().0
            &&& started == o.workspace_plugins.begun().1 is Some
            &&& self.launches@ == match o.workspace_plugins.begun().1 {
                Some(id) => o.launches@.push(TaskLaunch::PluginDiscovery { request_id: id }),
                None => o.launches@,
            }
        }
    }

    /// Notes a workspace change at `now` for the debounced refresh; `paths`
    /// joins the project paths already reported.
    pub fn schedule_workspace_refresh_with_paths(&mut self, project_paths: Vec<String>, now: u64)
        ensures
            final(self).unchanged_except(&*old(self), false, false, false, true, false, false),
            final(self).pending_workspace_refresh is Some,
            final(self).pending_workspace_refresh.unwrap().last_seen == now,
            final(self).pending_workspace_refresh.unwrap().first_seen == match old(self).pending_workspace_refresh {
                Some(p) => p.first_seen,
                None => now,
            },
            final(self).pending_workspace_refresh.unwrap().project_paths@ == match old(self).pending_workspace_refresh {
                Some(p) => p.project_paths@ + project_paths@,
                None => project_paths@,
            },
    {
        match self.pending_workspace_refresh.take() {
            Some(mut pending) => {
                pending.record_change(now);
                pending.record_project_paths(project_paths);
                self.pending_workspace_refresh = Some(pending);
            },
            None => {
                let mut pending = PendingWorkspaceRefresh::new(now);
                pending.record_project_paths(project_paths);
                assert(pending.project_paths@ =~= project_paths@);
                self.pending_workspace_refresh = Some(pending);
            },
        }
    }

    /// Notes a workspace change at `now` without project paths.
    pub fn schedule_workspace_refresh(&mut self, now: u64)
        ensures
            final(self).unchanged_except(&*old(self), false, false, false, true, false, false),
            final(self).pending_workspace_refresh is Some,
            final(self).pending_workspace_refresh.unwrap().last_seen == now,
            final(self).pending_workspace_refresh.unwrap().first_seen == match old(self).pending_workspace_refresh {
                Some(p) => p.first_seen,
                None => now,
            },
            final(self).pending_workspace_refresh.unwrap().project_paths@ == match old(self).pending_workspace_refresh {
                Some(p) => p.project_paths@,
                None => Seq::<String>::empty(),
            },
    {
        let empty: Vec<String> = Vec::new();
        proof {
            if let Some(p) = old(self).pending_workspace_refresh {
                assert(p.project_paths@ + empty@ =~= p.project_paths@);
            }
        }
        self.schedule_workspace_refresh_with_paths(empty, now);
    }

    /// Runs the pending workspace refresh once it is due at `now`: the index
    /// (incremental for a patchable batch) and the git refresh for the
    /// reported paths. Returns how many tasks were requested (0, 1 or 2).
    pub fn flush_pending_workspace_refresh(&mut self, now: u64, resolved_scan_root: Option<String>) -> (requested: usize)
        ensures
            match old(self).pending_workspace_refresh {
                Some(p) => if debounce_due(p.first_seen, p.last_seen, now, WORKSPACE_REFRESH_DEBOUNCE, WORKSPACE_REFRESH_MAX_WAIT) {
                    &&& final(self).pending_workspace_refresh is None
                    &&& exists|mid: KuroyaApp, git_paths: Vec<String>, started: bool| {
                        let cleared = KuroyaApp { pending_workspace_refresh: None, ..*old(self) };
                        &&& git_paths@ == p.project_paths@
                        &&& (if refresh_incremental_spec(old(self).index_warm, old(self).workspace_root@, p.project_paths@) {
                            mid.incremental_index_spawned(&cleared, p.project_paths)
                        } else {
                            mid.index_spawned(&cleared)
                        })
                        &&& #[trigger] final(self).git_changed_paths_refreshed(&mid, git_paths, resolved_scan_root, started)
                        &&& requested == (if started { 2usize } else { 1usize })
                    }
                } else {
                    requested == 0 && final(self).unchanged_except(&*old(self), false, false, false, false, false, false)
                },
                None => requested == 0 && final(self).unchanged_except(&*old(self), false, false, false, false, false, false),
            },
    {
        let pending = match self.pending_workspace_refresh.take() {
            Some(pending) => pending,
            None => return 0,
        };
        if !pending_refresh_is_due(&pending, now) {
            self.pending_workspace_refresh = Some(pending);
            return 0;
        }
        let ghost cleared = *self;
        assert(cleared == KuroyaApp { pending_workspace_refresh: None, ..*old(self) });
        let project_paths = pending.project_paths;
        let incremental = workspace_refresh_paths_are_incremental(
            self.index_warm,
            self.workspace_root.as_str(),
            project_paths.as_slice(),
        );
        let for_git = project_paths.clone();
        assert(for_git@ =~= project_paths@);
        if incremental {
            self.spawn_incremental_index(project_paths);
        } else {
            self.spawn_index();
        }
        let ghost mid = *self;
        let ghost git_paths = for_git;
        let ghost resolved = resolved_scan_root;
        let started = self.spawn_git_refresh_for_changed_paths(for_git, resolved_scan_root);
        assert(self.git_changed_paths_refreshed(&mid, git_paths, resolved, started));
        if started { 2 } else { 1 }
    }
}


impl KuroyaApp {
    /// Follows `git.enabled`: a scan when on; otherwise the snapshot is
    /// dropped and the status says git is disabled.
    pub fn sync_git_enabled_state(&mut self)
        ensures
            old(self).settings.git_enabled ==> exists|started: bool| #[trigger] final(self).git_scan_spawned(&*old(self), started),
            !old(self).settings.git_enabled ==> {
                &&& final(self).unchanged_except(&*old(self), false, true, false, false, true, false)
                &&& final(self).git_scan == old(self).git_scan.invalidated()
                &&& final(self).git_root is None
                &&& final(self).status@ == "Git is disabled"@
            },
    {
        if self.settings.git_enabled {
            let started = self.spawn_git_scan();
            assert(self.git_scan_spawned(&*old(self), started));
        } else {
            self.invalidate_git_scan();
            self.status = "Git is disabled".to_owned();
        }
    }

    /// Follows `git.ignoredRepositories`: the snapshot is dropped when git is
    /// off or the workspace repository is ignored (saying so); otherwise a
    /// scan starts.
    pub fn sync_git_repository_filters_state(&mut self)
        ensures
            !old(self).settings.git_enabled ==> {
                &&& final(self).unchanged_except(&*old(self), false, true, false, false, false, false)
                &&& final(self).git_scan == old(self).git_scan.invalidated()
                &&& final(self).git_root is None
            },
            old(self).settings.git_enabled
                && repository_ignored_spec(old(self).workspace_root@, old(self).settings.git_ignored_repositories@) ==> {
                &&& final(self).unchanged_except(&*old(self), false, true, false, false, true, false)
                &&& final(self).git_scan == old(self).git_scan.invalidated()
                &&& final(self).git_root is None
                &&& final(self).status@ == "Git repository ignored by git.ignoredRepositories"@
            },
            old(self).settings.git_enabled
                && !repository_ignored_spec(old(self).workspace_root@, old(self).settings.git_ignored_repositories@)
                ==> exists|started: bool| #[trigger] final(self).git_scan_spawned(&*old(self), started),
    {
        if !self.settings.git_enabled {
            self.invalidate_git_scan();
        } else if git_repository_ignored(self.workspace_root.as_str(), self.settings.git_ignored_repositories.as_slice()) {
            self.invalidate_git_scan();
            self.status = "Git repository ignored by git.ignoredRepositories".to_owned();
        } else {
            let started = self.spawn_git_scan();
            assert(self.git_scan_spawned(&*old(self), started));
        }
    }

    /// Turning `git.autorefresh` on (with git enabled) starts a scan.
    pub fn sync_git_autorefresh_state(&mut self, previous_git_autorefresh: bool)
        ensures
            (!previous_git_autorefresh && old(self).settings.git_autorefresh && old(self).settings.git_enabled)
                ==> exists|started: bool| #[trigger] final(self).git_scan_spawned(&*old(self), started),
            !(!previous_git_autorefresh && old(self).settings.git_autorefresh && old(self).settings.git_enabled)
                ==> final(self).unchanged_except(&*old(self), false, false, false, false, false, false),
    {
        if !previous_git_autorefresh && self.settings.git_autorefresh && self.settings.git_enabled {
            let started = self.spawn_git_scan();
            assert(self.git_scan_spawned(&*old(self), started));
        }
    }

    /// Whether the workspace plugins left any state behind.
    pub fn workspace_plugins_state_present(&self) -> (present: bool)
        ensures
            present == !self.plugin_state.is_empty_state(),
    {
        self.plugin_state.plugins.len() > 0 || self.plugin_state.errors.len() > 0
            || self.plugin_state.runtime_count > 0 || self.plugin_state.active_count > 0
            || self.plugin_state.command_count > 0 || self.plugin_state.language_count > 0
            || self.plugin_state.theme_count > 0 || self.plugin_state.syntax_count > 0
    }

    /// Forgets everything the workspace plugins contributed.
    pub fn clear_workspace_plugins(&mut self)
        ensures
            final(self).plugin_state.is_empty_state(),
            final(self).workspace_plugins == old(self).workspace_plugins,
            final(self).pending_workspace_plugin_reload == old(self).pending_workspace_plugin_reload,
            final(self).unchanged_except(&*old(self), false, false, true, false, false, false),
    {
        self.plugin_state = WorkspacePluginState::empty();
    }

    /// Discovers workspace plugins (`TaskLaunch::PluginDiscovery`) in a
    /// trusted, open workspace with plugins enabled; otherwise drops plugin
    /// state and says why. A discovery in flight queues another one.
    pub fn spawn_plugin_discovery(&mut self) -> (started: bool)
        ensures
            final(self).plugin_discovery_spawned(&*old(self), started),
    {
        self.pending_workspace_plugin_reload = None;
        if self.workspace_placeholder {
            self.invalidate_workspace_plugin_discovery();
            self.clear_workspace_plugins();
            self.status = "No folder open".to_owned();
            return false;
        }
        if !workspace_plugins_enabled(self.workspace_trusted) {
            self.invalidate_workspace_plugin_discovery();
            self.clear_workspace_plugins();
            self.status = workspace_plugins_restricted_status().to_owned();
            return false;
        }
        if !self.settings.plugins_enabled {
            self.invalidate_workspace_plugin_discovery();
            self.clear_workspace_plugins();
            self.status = plugins_disabled_status().to_owned();
            return false;
        }
        match self.begin_workspace_plugin_discovery_request() {
            Some(request_id) => {
                self.launches.push(TaskLaunch::PluginDiscovery { request_id });
                true
            },
            None => false,
        }
    }

    /// `self` is `o` after `sync_plugin_settings_state`.
    pub open spec fn plugin_settings_followed(&self, o: &Self) -> bool {
        &&& (o.settings.plugins_enabled && o.workspace_trusted
                ==> exists|started: bool| #[trigger] self.plugin_discovery_spawned(o, started))
        &&& (!(o.settings.plugins_enabled && o.workspace_trusted)
                && o.plugin_state.is_empty_state()
                && o.workspace_plugins.in_flight_request_id is None
                && o.pending_workspace_plugin_reload is None
                ==> self.unchanged_except(o, false, false, false, false, false, false))
        &&& (!(o.settings.plugins_enabled && o.workspace_trusted)
                && !(o.plugin_state.is_empty_state()
                && o.workspace_plugins.in_flight_request_id is None
                && o.pending_workspace_plugin_reload is None) ==> {
                &&& self.unchanged_except(o, false, false, true, false, true, false)
                &&& self.workspace_plugins == o.workspace_plugins.invalidated()
                &&& self.pending_workspace_plugin_reload is None
                &&& self.plugin_state.is_empty_state()
                &&& self.status@ == (if o.settings.plugins_enabled {
                    "Trust this workspace to enable workspace plugins"@
                } else {
                    "Plugins are disabled"@
                })
            })
    }

    /// Follows the plugin settings: discovery when plugins may run; otherwise
    /// any plugin state, discovery or pending reload is dropped and the
    /// status says why.
    pub fn sync_plugin_settings_state(&mut self)
        ensures
            final(self).plugin_settings_followed(&*old(self)),
    {
        if self.settings.plugins_enabled && workspace_plugins_enabled(self.workspace_trusted) {
            let started = self.spawn_plugin_discovery();
            assert(self.plugin_discovery_spawned(&*old(self), started));
            return;
        }
        if !self.workspace_plugins_state_present() && self.workspace_plugins.in_flight_request_id.is_none()
            && self.pending_workspace_plugin_reload.is_none() {
            return;
        }
        self.invalidate_workspace_plugin_discovery();
        self.pending_workspace_plugin_reload = None;
        self.clear_workspace_plugins();
        self.status = if self.settings.plugins_enabled {
            workspace_plugins_restricted_status().to_owned()
        } else {
            plugins_disabled_status().to_owned()
        };
    }

    /// Notes a plugin change at `now` for the debounced reload.
    pub fn schedule_workspace_plugin_reload(&mut self, now: u64)
        ensures
            final(self).workspace_plugins == old(self).workspace_plugins,
            final(self).plugin_state == old(self).plugin_state,
            final(self).unchanged_except(&*old(self), false, false, true, false, false, false),
            final(self).pending_workspace_plugin_reload == Some(PendingWorkspacePluginReload {
                first_seen: match old(self).pending_workspace_plugin_reload {
                    Some(p) => p.first_seen,
                    None => now,
                },
                last_seen: now,
            }),
    {
        match self.pending_workspace_plugin_reload {
            Some(mut pending) => {
                pending.record_change(now);
                self.pending_workspace_plugin_reload = Some(pending);
            },
            None => {
                self.pending_workspace_plugin_reload = Some(PendingWorkspacePluginReload::new(now));
            },
        }
    }

    /// Runs the pending plugin reload once it is due at `now`; returns 1
    /// when a discovery started.
    pub fn flush_pending_workspace_plugin_reload(&mut self, now: u64) -> (started: usize)
        ensures
            (old(self).pending_workspace_plugin_reload matches Some(p) && debounce_due(p.first_seen, p.last_seen,
                now, WORKSPACE_PLUGIN_RELOAD_DEBOUNCE, WORKSPACE_PLUGIN_RELOAD_MAX_WAIT))
                ==> exists|s: bool| #[trigger] final(self).plugin_discovery_spawned(&*old(self), s)
                    && started == (if s { 1usize } else { 0usize }),
            !(old(self).pending_workspace_plugin_reload matches Some(p) && debounce_due(p.first_seen, p.last_seen,
                now, WORKSPACE_PLUGIN_RELOAD_DEBOUNCE, WORKSPACE_PLUGIN_RELOAD_MAX_WAIT))
                ==> started == 0 && final(self).unchanged_except(&*old(self), false, false, false, false, false, false),
    {
        if !workspace_plugin_reload_due(
            self.pending_workspace_plugin_reload,
            now,
            WORKSPACE_PLUGIN_RELOAD_DEBOUNCE,
            WORKSPACE_PLUGIN_RELOAD_MAX_WAIT,
        ) {
            return 0;
        }
        let s = self.spawn_plugin_discovery();
        assert(self.plugin_discovery_spawned(&*old(self), s));
        if s { 1 } else { 0 }
    }

    /// When the pending workspace refresh becomes due, if one is pending.
    pub fn workspace_refresh_wakeup(&self) -> (at: Option<u64>)
        requires
            self.pending_workspace_refresh matches Some(p) ==> p.last_seen + WORKSPACE_REFRESH_DEBOUNCE <= u64::MAX
                && p.first_seen + WORKSPACE_REFRESH_MAX_WAIT <= u64::MAX,
        ensures
            at == match self.pending_workspace_refresh {
                Some(p) => Some(debounce_wakeup(p.first_seen, p.last_seen, WORKSPACE_REFRESH_DEBOUNCE,
                    WORKSPACE_REFRESH_MAX_WAIT) as u64),
                None => None,
            },
    {
        match &self.pending_workspace_refresh {
            Some(pending) => Some(pending_refresh_wakeup_at(pending)),
            None => None,
        }
    }

    /// When the pending plugin reload becomes due, if one is pending.
    pub fn workspace_plugin_reload_wakeup(&self) -> (at: Option<u64>)
        requires
            self.pending_workspace_plugin_reload matches Some(p) ==> p.last_seen + WORKSPACE_PLUGIN_RELOAD_DEBOUNCE <= u64::MAX
                && p.first_seen + WORKSPACE_PLUGIN_RELOAD_MAX_WAIT <= u64::MAX,
        ensures
            at == match self.pending_workspace_plugin_reload {
                Some(p) => Some(debounce_wakeup(p.first_seen, p.last_seen, WORKSPACE_PLUGIN_RELOAD_DEBOUNCE,
                    WORKSPACE_PLUGIN_RELOAD_MAX_WAIT) as u64),
                None => None,
            },
    {
        workspace_plugin_reload_wakeup_at(
            self.pending_workspace_plugin_reload,
            WORKSPACE_PLUGIN_RELOAD_DEBOUNCE,
            WORKSPACE_PLUGIN_RELOAD_MAX_WAIT,
        )
    }
}


/// Toasts kept on screen at most.
pub const MAX_TOASTS: usize = 5;
/// Lifetime of an ordinary toast, in milliseconds.
pub const TOAST_TTL: u64 = 6000;
/// Lifetime of an error toast, in milliseconds.
pub const TOAST_ERROR_TTL: u64 = 30000;

/// Hands out the next toast id from `counter` (which then moves on by one,
/// wrapping at the end of the range).
pub fn next_toast_id(counter: &mut u64) -> (id: u64)
    ensures
        id == *old(counter),
        *final(counter) == (if *old(counter) == u64::MAX { 0 } else { (*old(counter) + 1) as u64 }),
{
    let id = *counter;
    *counter = if id == u64::MAX { 0 } else { id + 1 };
    id
}

/// How long a toast stays: errors linger longer.
pub fn toast_ttl(error: bool) -> (ttl: u64)
    ensures
        ttl == (if error { TOAST_ERROR_TTL } else { TOAST_TTL }),
{
    if error {
        TOAST_ERROR_TTL
    } else {
        TOAST_TTL
    }
}

/// A toast created at `created` is still shown at `now` while less than its
/// lifetime has passed (a clock that went backwards counts as no time).
pub fn toast_is_alive(created: u64, now: u64, error: bool) -> (alive: bool)
    ensures
        alive == (elapsed_since(now, created) < (if error { TOAST_ERROR_TTL } else { TOAST_TTL })),
{
    saturating_duration_since(now, created) < toast_ttl(error)
}

impl KuroyaApp {
    /// Forgets any scheduled watcher rebuild.
    pub fn clear_watcher_rebuild_retry(&mut self)
        ensures
            *final(self) == (KuroyaApp { watcher_rebuild_due: None, watcher_rebuild_attempts: 0, ..*old(self) }),
    {
        self.watcher_rebuild_due = None;
        self.watcher_rebuild_attempts = 0;
    }

    /// A watcher could not be built at `now`: the next attempt waits the
    /// back-off for the attempts so far, and the attempt count grows, so
    /// each further failure doubles the wait (up to its cap).
    pub fn note_watcher_build_failure(&mut self, now: u64)
        requires
            now + WATCHER_REBUILD_MAX_BACKOFF <= u64::MAX,
        ensures
            *final(self) == (KuroyaApp {
                watcher_rebuild_due: Some((now + watcher_backoff_spec(old(self).watcher_rebuild_attempts)) as u64),
                watcher_rebuild_attempts: if old(self).watcher_rebuild_attempts == u32::MAX {
                    u32::MAX
                } else {
                    (old(self).watcher_rebuild_attempts + 1) as u32
                },
                ..*old(self)
            }),
    {
        let delay = watcher_rebuild_backoff(self.watcher_rebuild_attempts);
        self.watcher_rebuild_attempts = self.watcher_rebuild_attempts.saturating_add(1);
        self.watcher_rebuild_due = Some(now + delay);
    }

    /// A watcher was built: it is present and the retry state is cleared.
    pub fn note_watcher_built(&mut self)
        ensures
            *final(self) == (KuroyaApp {
                watcher_present: true,
                watcher_rebuild_due: None,
                watcher_rebuild_attempts: 0,
                ..*old(self)
            }),
    {
        self.watcher_present = true;
        self.clear_watcher_rebuild_retry();
    }

    /// Decides at `now` whether to try building the watcher again: never
    /// while one exists (a leftover retry is then cleared), otherwise once
    /// the scheduled retry is due. Deciding to try leaves the retry state as
    /// it is: a build that succeeds clears it (`note_watcher_built`), one
    /// that fails counts one more attempt (`note_watcher_build_failure`).
    pub fn rebuild_watcher_when_due(&mut self, now: u64) -> (attempt: bool)
        ensures
            attempt == (!old(self).watcher_present && old(self).watcher_rebuild_due is Some
                && now >= old(self).watcher_rebuild_due.unwrap()),
            old(self).watcher_present ==> *final(self) == (KuroyaApp {
                watcher_rebuild_due: None,
                watcher_rebuild_attempts: 0,
                ..*old(self)
            }),
            !old(self).watcher_present ==> *final(self) == *old(self),
    {
        if self.watcher_present {
            if self.watcher_rebuild_due.is_some() || self.watcher_rebuild_attempts > 0 {
                self.clear_watcher_rebuild_retry();
            }
            return false;
        }
        match self.watcher_rebuild_due {
            Some(due) => now >= due,
            None => false,
        }
    }

    /// The git directory of a repository above the workspace root that the
    /// existing watcher should also watch.
    pub fn ensure_parent_repository_git_watch(&self) -> (watch: Option<String>)
        ensures
            watch == (if self.watcher_present && self.git_root is Some
                && !path_is_or_inside_spec(self.git_root.unwrap()@, self.workspace_root@) {
                self.git_root
            } else {
                None::<String>
            }),
    {
        match &self.git_root {
            Some(git_root) => {
                if workspace_path_contains_lexically(self.workspace_root.as_str(), git_root.as_str())
                    || !self.watcher_present {
                    None
                } else {
                    Some(git_root.clone())
                }
            },
            None => None,
        }
    }

    /// Hands out a fresh project search id, makes it the active one and
    /// publishes it as the cancellation generation.
    pub fn reserve_project_search_request_id(&mut self) -> (request_id: u64)
        ensures
            request_id == next_request_id_spec(old(self).project_search_next_request_id),
            final(self).project_search_next_request_id == request_id,
            final(self).project_search_active_request_id == request_id,
            final(self).project_search_cancel_generation == request_id,
            final(self).unchanged_except_search(&*old(self)),
            *final(self) == (KuroyaApp {
                project_search_next_request_id: request_id,
                project_search_active_request_id: request_id,
                project_search_cancel_generation: request_id,
                ..*old(self)
            }),
    {
        let next = next_startup_task_request_id(self.project_search_next_request_id);
        self.project_search_next_request_id = next;
        self.project_search_active_request_id = next;
        self.project_search_cancel_generation = next;
        next
    }

    /// Cancels every project search in flight.
    pub fn invalidate_project_search_requests(&mut self)
        ensures
            final(self).project_search_next_request_id == next_request_id_spec(old(self).project_search_next_request_id),
            final(self).project_search_active_request_id == final(self).project_search_next_request_id,
            final(self).project_search_cancel_generation == final(self).project_search_next_request_id,
            final(self).unchanged_except_search(&*old(self)),
            *final(self) == (KuroyaApp {
                project_search_next_request_id: final(self).project_search_next_request_id,
                project_search_active_request_id: final(self).project_search_next_request_id,
                project_search_cancel_generation: final(self).project_search_next_request_id,
                ..*old(self)
            }),
    {
        let _ = self.reserve_project_search_request_id();
    }

    /// Only the project search ids differ.
    pub open spec fn unchanged_except_search(&self, o: &Self) -> bool {
        &&& self.same_config(o)
        &&& self.workspace_index == o.workspace_index
        &&& self.git_scan == o.git_scan
        &&& self.workspace_plugins == o.workspace_plugins
        &&& self.launches == o.launches
        &&& self.status == o.status
        &&& self.project_search == o.project_search
        &&& self.project_search_query == o.project_search_query
    }

    /// After an index completes, an open project search with a query reruns
    /// once no index run is in flight.
    pub fn project_search_should_refresh_after_index(&self) -> (refresh: bool)
        ensures
            refresh == (self.project_search && self.project_index_generation > 0
                && self.workspace_index.in_flight_request_id is None
                && request_query_spec(self.project_search_query@) is Some),
    {
        self.project_search && self.project_index_generation > 0
            && self.workspace_index.in_flight_request_id.is_none()
            && normalize_project_search_request_query(self.project_search_query.as_str()).is_some()
    }

    /// Sets the status line and turns it into a toast (see
    /// `ingest_status_toast`).
    pub fn set_status_with_toast(&mut self, status: String, now: u64, persistent: bool)
        ensures
            final(self).status == status,
            final(self).toasts_ingested(&*old(self), status, now, persistent),
    {
        self.status = status;
        self.ingest_status_toast(now, persistent);
    }

    /// `self` holds the toasts after the status `status` was ingested at
    /// `now` into the toasts of `o`.
    pub open spec fn toasts_ingested(&self, o: &Self, status: String, now: u64, persistent: bool) -> bool {
        if status@ == o.last_status@ {
            &&& self.status_toasts == o.status_toasts
            &&& self.last_status == o.last_status
            &&& self.next_toast_id == o.next_toast_id
        } else {
            let message = trim_spec(status@);
            &&& self.last_status@ == status@
            &&& self.status_shown_since == now
            &&& if message.len() == 0 {
                self.status_toasts == o.status_toasts && self.next_toast_id == o.next_toast_id
            } else if o.status_toasts@.len() > 0 && o.status_toasts@[0].message@ == message {
                &&& self.status_toasts@ == o.status_toasts@.update(0, StatusToast { created: now, ..o.status_toasts@[0] })
                &&& self.next_toast_id == o.next_toast_id
            } else {
                let toast_list = seq![StatusToast { id: o.next_toast_id, message: self.status_toasts@[0].message, error: persistent, created: now }]
                    + o.status_toasts@;
                &&& self.status_toasts@[0].message@ == message
                &&& self.status_toasts@ == toast_list.subrange(0, if toast_list.len() < MAX_TOASTS { toast_list.len() as int } else { MAX_TOASTS as int })
                &&& self.next_toast_id == (if o.next_toast_id == u64::MAX { 0 } else { (o.next_toast_id + 1) as u64 })
            }
        }
    }

    /// Turns a changed status line into a toast at `now`: the trimmed message
    /// refreshes the newest toast when it repeats it, otherwise it becomes a
    /// new newest toast (`persistent` marks an error) and only the newest
    /// `MAX_TOASTS` are kept. A blank or unchanged status adds nothing.
    pub fn ingest_status_toast(&mut self, now: u64, persistent: bool)
        ensures
            final(self).toasts_ingested(&*old(self), old(self).status, now, persistent),
            final(self).status == old(self).status,
    {
        if str_equal(self.status.as_str(), self.last_status.as_str()) {
            return;
        }
        self.last_status = self.status.clone();
        self.status_shown_since = now;
        let mut message = self.status.clone();
        trim_string_in_place(&mut message);
        if message.unicode_len() == 0 {
            return;
        }
        if self.status_toasts.len() > 0 && str_equal(self.status_toasts[0].message.as_str(), message.as_str()) {
            let ghost before = self.status_toasts@;
            let mut head = self.status_toasts.remove(0);
            head.created = now;
            self.status_toasts.insert(0, head);
            assert(self.status_toasts@ =~= before.update(0, StatusToast { created: now, ..before[0] }));
            return;
        }
        let id = next_toast_id(&mut self.next_toast_id);
        let ghost before = self.status_toasts@;
        let ghost msg_view = message@;
        self.status_toasts.insert(0, StatusToast { id, message, error: persistent, created: now });
        let ghost inserted = self.status_toasts@;
        assert(inserted =~= seq![StatusToast { id: id, message: inserted[0].message, error: persistent, created: now }] + before);
        self.status_toasts.truncate(MAX_TOASTS);
        assert(self.status_toasts@[0] == inserted[0]);
        assert(self.status_toasts@ =~= inserted.subrange(0, if inserted.len() < MAX_TOASTS { inserted.len() as int } else { MAX_TOASTS as int }));
    }
}


impl AppSettings {
    /// Git on with auto-refresh and repository detection, no ignored
    /// repositories, plugins on.
    pub fn defaults() -> (settings: Self)
        ensures
            settings.git_enabled,
            settings.git_autorefresh,
            settings.git_auto_repository_detection,
            settings.git_ignored_repositories@.len() == 0,
            settings.plugins_enabled,
            !settings.vim_keybindings,
    {
        AppSettings {
            git_enabled: true,
            git_autorefresh: true,
            git_auto_repository_detection: true,
            git_ignored_repositories: Vec::new(),
            plugins_enabled: true,
            vim_keybindings: false,
        }
    }

    /// A copy of the settings.
    pub fn copy(&self) -> (copy: Self)
        ensures
            settings_view(copy) == settings_view(*self),
    {
        let mut ignored: Vec<String> = Vec::new();
        let mut i: usize = 0;
        while i < self.git_ignored_repositories.len()
            invariant
                i <= self.git_ignored_repositories@.len(),
                ignored@.map_values(|r: String| r@)
                    == self.git_ignored_repositories@.map_values(|r: String| r@).take(i as int),
            decreases self.git_ignored_repositories.len() - i,
        {
            let ghost before = ignored@.map_values(|r: String| r@);
            ignored.push(self.git_ignored_repositories[i].clone());
            assert(ignored@.map_values(|r: String| r@) =~= before.push(self.git_ignored_repositories@[i as int]@));
            assert(self.git_ignored_repositories@.map_values(|r: String| r@).take(i + 1)
                =~= self.git_ignored_repositories@.map_values(|r: String| r@).take(i as int)
                    .push(self.git_ignored_repositories@[i as int]@));
            i = i + 1;
        }
        assert(self.git_ignored_repositories@.map_values(|r: String| r@)
            .take(self.git_ignored_repositories@.len() as int)
            =~= self.git_ignored_repositories@.map_values(|r: String| r@));
        AppSettings {
            git_enabled: self.git_enabled,
            git_autorefresh: self.git_autorefresh,
            git_auto_repository_detection: self.git_auto_repository_detection,
            git_ignored_repositories: ignored,
            plugins_enabled: self.plugins_enabled,
            vim_keybindings: self.vim_keybindings,
        }
    }
}

impl KuroyaApp {
    /// A shell for the workspace at `workspace_root` with no task requested
    /// yet, an empty status line, a cold empty index and no watcher.
    pub fn new(workspace_root: &str, workspace_placeholder: bool, workspace_trusted: bool, settings: AppSettings) -> (app: Self)
        ensures
            app.workspace_root@ == workspace_root@,
            app.workspace_placeholder == workspace_placeholder,
            app.workspace_trusted == workspace_trusted,
            app.settings == settings,
            !app.settings_panel_open,
            settings_view(app.settings_panel_draft) == settings_view(settings),
            app.app_state_vim_keybindings == settings.vim_keybindings,
            app.status@.len() == 0,
            !app.index_warm,
            app.indexed_files == 0,
            app.project_index_generation == 0,
            app.workspace_index == TaskRequestState::idle_spec(),
            app.git_scan == TaskRequestState::idle_spec(),
            app.workspace_plugins == TaskRequestState::idle_spec(),
            app.git_root is None,
            app.pending_workspace_refresh is None,
            app.pending_workspace_plugin_reload is None,
            app.plugin_state.is_empty_state(),
            app.launches@.len() == 0,
            !app.watcher_present,
            app.watcher_rebuild_attempts == 0,
            app.watcher_rebuild_due is None,
            !app.project_search,
            app.project_search_query@.len() == 0,
            app.project_search_next_request_id == 0,
            app.project_search_active_request_id == 0,
            app.project_search_cancel_generation == 0,
            app.last_status@.len() == 0,
            app.status_shown_since == 0,
            app.status_toasts@.len() == 0,
            app.next_toast_id == 1,
    {
        let draft = settings.copy();
        let app_state_vim_keybindings = settings.vim_keybindings;
        KuroyaApp {
            workspace_root: workspace_root.to_owned(),
            workspace_placeholder,
            workspace_trusted,
            settings,
            status: String::new(),
            index_warm: false,
            indexed_files: 0,
            project_index_generation: 0,
            workspace_index: TaskRequestState::idle(),
            git_scan: TaskRequestState::idle(),
            workspace_plugins: TaskRequestState::idle(),
            git_root: None,
            pending_workspace_refresh: None,
            pending_workspace_plugin_reload: None,
            plugin_state: WorkspacePluginState::empty(),
            launches: Vec::new(),
            watcher_present: false,
            watcher_rebuild_attempts: 0,
            watcher_rebuild_due: None,
            project_search: false,
            project_search_query: String::new(),
            project_search_next_request_id: 0,
            project_search_active_request_id: 0,
            project_search_cancel_generation: 0,
            last_status: String::new(),
            status_shown_since: 0,
            status_toasts: Vec::new(),
            next_toast_id: 1,
            settings_panel_open: false,
            settings_panel_draft: draft,
            app_state_vim_keybindings,
        }
    }
}


/// A request for a task kind that already has a run in flight starts
/// nothing: it queues one rerun and launches no second task.
pub proof fn lemma_busy_tasks_queue_instead_of_launching(before: KuroyaApp, after: KuroyaApp, started: bool)
    ensures
        (!before.workspace_placeholder && before.workspace_index.in_flight_request_id is Some
            && after.index_spawned(&before)) ==> after.launches@ == before.launches@ && after.workspace_index.queued
            && after.workspace_index.in_flight_request_id == before.workspace_index.in_flight_request_id,
        (before.git_scan.in_flight_request_id is Some && after.git_scan_spawned(&before, started))
            ==> after.launches@ == before.launches@ && !started,
        (before.workspace_plugins.in_flight_request_id is Some && after.plugin_discovery_spawned(&before, started))
            ==> after.launches@ == before.launches@ && !started,
{
}

/// The toasts of `toasts` that `keep` accepts, in order.
pub open spec fn kept_toasts(toasts: Seq<StatusToast>, keep: spec_fn(StatusToast) -> bool) -> Seq<StatusToast>
    decreases toasts.len(),
{
    if toasts.len() == 0 {
        Seq::empty()
    } else if keep(toasts.last()) {
        kept_toasts(toasts.drop_last(), keep).push(toasts.last())
    } else {
        kept_toasts(toasts.drop_last(), keep)
    }
}

/// A toast still shown at `now`.
pub open spec fn toast_alive_spec(now: u64) -> spec_fn(StatusToast) -> bool {
    |t: StatusToast| elapsed_since(now, t.created) < (if t.error { TOAST_ERROR_TTL } else { TOAST_TTL })
}

/// A toast not among `dismissed`.
pub open spec fn toast_not_dismissed_spec(dismissed: Seq<u64>) -> spec_fn(StatusToast) -> bool {
    |t: StatusToast| !dismissed.contains(t.id)
}

proof fn lemma_kept_toasts_step(toasts: Seq<StatusToast>, keep: spec_fn(StatusToast) -> bool, i: int)
    requires
        0 <= i < toasts.len(),
    ensures
        kept_toasts(toasts.take(i + 1), keep) == if keep(toasts[i]) {
            kept_toasts(toasts.take(i), keep).push(toasts[i])
        } else {
            kept_toasts(toasts.take(i), keep)
        },
{
    assert(toasts.take(i + 1).drop_last() =~= toasts.take(i));
}

/// Removes from `toasts` the ones `keep` rejects, in place.
fn retain_toasts(toasts: &mut Vec<StatusToast>, now: u64, dismissed: &[u64], by_time: bool)
    ensures
        final(toasts)@ == kept_toasts(old(toasts)@,
            if by_time { toast_alive_spec(now) } else { toast_not_dismissed_spec(dismissed@) }),
{
    let ghost keep = if by_time { toast_alive_spec(now) } else { toast_not_dismissed_spec(dismissed@) };
    let ghost orig = toasts@;
    let mut i: usize = 0;
    let ghost mut k: int = 0;
    proof {
        assert(orig.take(0) =~= Seq::<StatusToast>::empty());
        assert(toasts@.take(0) =~= Seq::<StatusToast>::empty());
        assert(toasts@.skip(0) =~= orig.skip(0));
    }
    while i < toasts.len()
        invariant
            keep == (if by_time { toast_alive_spec(now) } else { toast_not_dismissed_spec(dismissed@) }),
            i <= toasts@.len(),
            0 <= k <= orig.len(),
            toasts@.len() - i == orig.len() - k,
            toasts@.take(i as int) == kept_toasts(orig.take(k), keep),
            toasts@.skip(i as int) == orig.skip(k),
        decreases toasts@.len() - i,
    {
        let t = &toasts[i];
        let stays = if by_time {
            toast_is_alive(t.created, now, t.error)
        } else {
            let id = t.id;
            let mut found = false;
            let mut j: usize = 0;
            while j < dismissed.len()
                invariant
                    j <= dismissed@.len(),
                    found == (exists|m: int| 0 <= m < j && dismissed@[m] == id),
                decreases dismissed.len() - j,
            {
                if dismissed[j] == id {
                    found = true;
                }
                j = j + 1;
            }
            assert(found == dismissed@.contains(id));
            !found
        };
        proof {
            assert(orig[k] == toasts@[i as int]) by {
                assert(toasts@.skip(i as int)[0] == orig.skip(k)[0]);
            }
            assert(stays == keep(orig[k]));
            lemma_kept_toasts_step(orig, keep, k);
        }
        let ghost before = toasts@;
        proof {
            assert(before.skip(i as int + 1) =~= before.skip(i as int).skip(1));
            assert(orig.skip(k + 1) =~= orig.skip(k).skip(1));
        }
        if stays {
            i = i + 1;
            proof {
                assert(toasts@.take(i as int) =~= before.take(i - 1).push(before[i - 1]));
                assert(toasts@.skip(i as int) =~= orig.skip(k + 1));
            }
        } else {
            toasts.remove(i);
            proof {
                assert(toasts@.take(i as int) =~= before.take(i as int));
                assert(toasts@.skip(i as int) =~= orig.skip(k + 1));
            }
        }
        proof {
            k = k + 1;
        }
    }
    proof {
        assert(toasts@.skip(i as int).len() == 0);
        assert(k == orig.len());
        assert(orig.take(k) =~= orig);
        assert(toasts@.take(i as int) =~= toasts@);
    }
}

impl KuroyaApp {
    /// Drops the toasts whose time is up at `now`, keeping the others in
    /// order.
    pub fn prune_status_toasts(&mut self, now: u64)
        ensures
            final(self).status_toasts@ == kept_toasts(old(self).status_toasts@, toast_alive_spec(now)),
            *final(self) == (KuroyaApp { status_toasts: final(self).status_toasts, ..*old(self) }),
    {
        retain_toasts(&mut self.status_toasts, now, &[], true);
    }

    /// Drops the toasts whose ids were clicked away, keeping the others in
    /// order.
    pub fn dismiss_status_toasts(&mut self, dismissed_ids: &[u64])
        ensures
            final(self).status_toasts@ == kept_toasts(old(self).status_toasts@, toast_not_dismissed_spec(dismissed_ids@)),
            *final(self) == (KuroyaApp { status_toasts: final(self).status_toasts, ..*old(self) }),
    {
        retain_toasts(&mut self.status_toasts, 0, dismissed_ids, false);
    }
}

/// The toast stack never grows past `MAX_TOASTS`.
pub proof fn lemma_toast_stack_is_bounded(before: KuroyaApp, after: KuroyaApp, status: String, now: u64, persistent: bool)
    requires
        before.status_toasts@.len() <= MAX_TOASTS,
        after.toasts_ingested(&before, status, now, persistent),
    ensures
        after.status_toasts@.len() <= MAX_TOASTS,
{
}

/// The same status ingested twice in a row adds no second toast.
pub proof fn lemma_repeated_status_adds_no_toast(first: KuroyaApp, second: KuroyaApp, third: KuroyaApp, status: String, now1: u64, now2: u64, persistent: bool)
    requires
        second.toasts_ingested(&first, status, now1, persistent),
        third.toasts_ingested(&second, status, now2, persistent),
    ensures
        third.status_toasts == second.status_toasts,
{
}

} // verus!
