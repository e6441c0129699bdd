//! Applying the settings panel: when an apply stops before saving, and once
//! the new settings are saved, which parts of the editor must follow them.
use vstd::prelude::*;
use crate::app_state::{repository_ignored_spec, settings_view, AppSettings, KuroyaApp};
use crate::labels::{
    label_spec, lsp_note_spec, push_app_preference_save_failed_status, settings_save_failed_status, settings_save_success_status, terminal_note_spec,
    DISPLAY_ERROR_LABEL_MAX_CHARS,
};
use crate::project_search_keys::{
    project_search_settings_followed, rerun_project_search_after_settings_change, with_search_ids,
    ProjectSearchLaunch, ProjectSearchPanel,
};
use crate::quick_open::path_views;
use crate::session_save::opt_view;
use crate::startup_requests::next_request_id_spec;
use crate::git_repos::{
    git_string_list_setting_key, setting_key_spec, GitAutoRepositoryDetection,
    GitOpenRepositoryInParentFolders,
};
use crate::quick_open::strings_equal;
use crate::session_save::strs_view;
use crate::text::push_text;

verus! {

/// The status an apply ends with before saving, if it stops there: the
/// panel must be open, the draft must hold pending inputs, and a draft that
/// equals the current settings saves nothing.
pub open spec fn apply_precheck_spec(
    panel_open: bool,
    has_pending_inputs: bool,
    candidate_matches_current: bool,
    apply_note: Option<Seq<char>>,
) -> Option<Seq<char>> {
    if !panel_open {
        Some("Open settings before applying changes"@)
    } else if !has_pending_inputs {
        Some("No pending settings changes"@)
    } else if candidate_matches_current {
        Some(match apply_note {
            Some(note) => "Settings draft "@ + note + "; no saved changes"@,
            None => "Settings already match the current configuration"@,
        })
    } else {
        None
    }
}

/// The status that ends an apply before anything is saved (see
/// `apply_precheck_spec`); `None` when the draft must be saved.
pub fn settings_apply_precheck(
    panel_open: bool,
    has_pending_inputs: bool,
    candidate_matches_current: bool,
    apply_note: Option<&str>,
) -> (status: Option<String>)
    ensures
        match status {
            Some(s) => apply_precheck_spec(panel_open, has_pending_inputs, candidate_matches_current,
                match apply_note { Some(n) => Some(n@), None => None }) == Some(s@),
            None => apply_precheck_spec(panel_open, has_pending_inputs, candidate_matches_current,
                match apply_note { Some(n) => Some(n@), None => None }) is None,
        },
{
    if !panel_open {
        return Some("Open settings before applying changes".to_owned());
    }
    if !has_pending_inputs {
        return Some("No pending settings changes".to_owned());
    }
    if candidate_matches_current {
        return match apply_note {
            Some(note) => {
                let mut status = String::new();
                push_text(&mut status, "Settings draft ");
                push_text(&mut status, note);
                push_text(&mut status, "; no saved changes");
                Some(status)
            },
            None => Some("Settings already match the current configuration".to_owned()),
        };
    }
    None
}

/// Whether two string-list settings differ once entries are trimmed and
/// blank entries dropped.
pub fn git_string_list_settings_differ(previous: &[String], next: &[String]) -> (differ: bool)
    ensures
        differ == (setting_key_spec(strs_view(previous@)) != setting_key_spec(strs_view(next@))),
{
    let a = git_string_list_setting_key(previous);
    let b = git_string_list_setting_key(next);
    let same = strings_equal(a.as_slice(), b.as_slice());
    proof {
        assert(crate::quick_open::path_views(a@) =~= strs_view(a@));
        assert(crate::quick_open::path_views(b@) =~= strs_view(b@));
    }
    !same
}

/// The settings that decide where git looks for repositories; the two
/// folder lists are kept trimmed, without blank entries.
#[derive(Debug, Clone, PartialEq, Eq)]
pub struct GitRepositoryScanSettings {
    pub auto_repository_detection: GitAutoRepositoryDetection,
    pub ignore_submodules: bool,
    pub repository_scan_ignored_folders: Vec<String>,
    pub open_repository_in_parent_folders: GitOpenRepositoryInParentFolders,
    pub detect_submodules: bool,
    pub detect_submodules_limit: usize,
    pub repository_scan_max_depth: usize,
    pub detect_worktrees: bool,
    pub detect_worktrees_limit: usize,
    pub worktree_include_files: Vec<String>,
    pub similarity_threshold: usize,
}

/// The scan settings as plain values.
pub open spec fn scan_settings_view(s: GitRepositoryScanSettings) -> (
    GitAutoRepositoryDetection,
    bool,
    Seq<Seq<char>>,
    GitOpenRepositoryInParentFolders,
    (bool, usize, usize),
    (bool, usize, Seq<Seq<char>>),
    usize,
) {
    (
        s.auto_repository_detection,
        s.ignore_submodules,
        strs_view(s.repository_scan_ignored_folders@),
        s.open_repository_in_parent_folders,
        (s.detect_submodules, s.detect_submodules_limit, s.repository_scan_max_depth),
        (s.detect_worktrees, s.detect_worktrees_limit, strs_view(s.worktree_include_files@)),
        s.similarity_threshold,
    )
}

impl GitRepositoryScanSettings {
    /// The scan settings of a configuration: the values as they are, the
    /// folder lists by their comparison keys (see `setting_key_spec`).
    pub fn from_settings(
        auto_repository_detection: GitAutoRepositoryDetection,
        ignore_submodules: bool,
        repository_scan_ignored_folders: &[String],
        open_repository_in_parent_folders: GitOpenRepositoryInParentFolders,
        detect_submodules: bool,
        detect_submodules_limit: usize,
        repository_scan_max_depth: usize,
        detect_worktrees: bool,
        detect_worktrees_limit: usize,
        worktree_include_files: &[String],
        similarity_threshold: usize,
    ) -> (settings: Self)
        ensures
            scan_settings_view(settings) == (
                auto_repository_detection,
                ignore_submodules,
                setting_key_spec(strs_view(repository_scan_ignored_folders@)),
                open_repository_in_parent_folders,
                (detect_submodules, detect_submodules_limit, repository_scan_max_depth),
                (detect_worktrees, detect_worktrees_limit, setting_key_spec(strs_view(worktree_include_files@))),
                similarity_threshold,
            ),
    {
        GitRepositoryScanSettings {
            auto_repository_detection,
            ignore_submodules,
            repository_scan_ignored_folders: git_string_list_setting_key(repository_scan_ignored_folders),
            open_repository_in_parent_folders,
            detect_submodules,
            detect_submodules_limit,
            repository_scan_max_depth,
            detect_worktrees,
            detect_worktrees_limit,
            worktree_include_files: git_string_list_setting_key(worktree_include_files),
            similarity_threshold,
        }
    }
}

/// Whether the scan settings differ, so that git must look for repositories
/// again.
pub fn git_repository_scan_settings_changed(previous: &GitRepositoryScanSettings, next: &GitRepositoryScanSettings) -> (changed: bool)
    ensures
        changed == (scan_settings_view(*previous) != scan_settings_view(*next)),
{
    let same = previous.auto_repository_detection == next.auto_repository_detection
        && previous.ignore_submodules == next.ignore_submodules
        && previous.open_repository_in_parent_folders == next.open_repository_in_parent_folders
        && previous.detect_submodules == next.detect_submodules
        && previous.detect_submodules_limit == next.detect_submodules_limit
        && previous.repository_scan_max_depth == next.repository_scan_max_depth
        && previous.detect_worktrees == next.detect_worktrees
        && previous.detect_worktrees_limit == next.detect_worktrees_limit
        && previous.similarity_threshold == next.similarity_threshold
        && strings_equal(
            previous.repository_scan_ignored_folders.as_slice(),
            next.repository_scan_ignored_folders.as_slice(),
        )
        && strings_equal(previous.worktree_include_files.as_slice(), next.worktree_include_files.as_slice());
    proof {
        assert(crate::quick_open::path_views(previous.repository_scan_ignored_folders@)
            =~= strs_view(previous.repository_scan_ignored_folders@));
        assert(crate::quick_open::path_views(next.repository_scan_ignored_folders@)
            =~= strs_view(next.repository_scan_ignored_folders@));
        assert(crate::quick_open::path_views(previous.worktree_include_files@)
            =~= strs_view(previous.worktree_include_files@));
        assert(crate::quick_open::path_views(next.worktree_include_files@)
            =~= strs_view(next.worktree_include_files@));
    }
    !same
}

/// What changed between the saved settings and the new ones.
#[derive(Debug, Clone, Copy, PartialEq, Eq)]
pub struct SettingsChanges {
    pub fonts_changed: bool,
    pub theme_changed: bool,
    pub read_only_changed: bool,
    pub vim_changed: bool,
    pub discord_changed: bool,
    pub code_lens_before: bool,
    pub code_lens_after: bool,
    pub inlay_hints_before: bool,
    pub inlay_hints_after: bool,
    pub hover_before: bool,
    pub hover_after: bool,
    pub document_highlights_before: bool,
    pub document_highlights_after: bool,
    pub parameter_hints_before: bool,
    pub parameter_hints_after: bool,
    pub source_control_defaults_changed: bool,
    pub blame_ignore_whitespace_changed: bool,
    pub diff_max_file_size_changed: bool,
    pub git_enabled_changed: bool,
    pub git_autorefresh_changed: bool,
    pub git_ignored_repositories_changed: bool,
    pub git_repository_scan_settings_changed: bool,
    pub project_index_settings_changed: bool,
    pub project_search_settings_changed: bool,
    pub plugin_settings_changed: bool,
    pub app_state_appearance_changed: bool,
}

/// How git follows new settings: one reaction, the first that applies.
#[derive(Debug, Clone, Copy, PartialEq, Eq)]
pub enum GitSettingsAction {
    /// `git.enabled` changed: scan or drop the snapshot.
    SyncEnabled,
    /// `git.autorefresh` changed: a scan if it was turned on.
    SyncAutorefresh,
    /// The ignored repositories changed: rescan or drop.
    SyncRepositoryFilters,
    /// Repository detection settings changed: rescan.
    Rescan,
    Nothing,
}

/// What the editor does after new settings were saved.
#[derive(Debug, Clone, Copy, PartialEq, Eq)]
pub struct SettingsApplyPlan {
    pub reload_fonts: bool,
    pub reload_theme: bool,
    pub sync_read_only_buffers: bool,
    pub reset_vim_session: bool,
    pub sync_discord_presence: bool,
    pub clear_code_lenses: bool,
    pub clear_inlay_hints: bool,
    pub refresh_lsp_symbols: bool,
    pub clear_hover: bool,
    pub clear_document_highlights: bool,
    pub clear_signature_help: bool,
    pub reset_source_control_view: bool,
    pub sync_blame_settings: bool,
    pub invalidate_project_search: bool,
    pub spawn_index: bool,
    pub invalidate_virtual_source_control: bool,
    pub git: GitSettingsAction,
    pub sync_plugins: bool,
    pub save_app_state: bool,
}

/// The plan for `changes`: each part follows its own settings; annotations
/// turned off are cleared and turned back on schedule a symbol refresh; git
/// reacts to the first of enabled, auto-refresh, ignored repositories and
/// detection settings that changed.
pub open spec fn settings_apply_plan_spec(c: SettingsChanges) -> SettingsApplyPlan {
    SettingsApplyPlan {
        reload_fonts: c.fonts_changed,
        reload_theme: c.theme_changed,
        sync_read_only_buffers: c.read_only_changed,
        reset_vim_session: c.vim_changed,
        sync_discord_presence: c.discord_changed,
        clear_code_lenses: c.code_lens_before && !c.code_lens_after,
        clear_inlay_hints: c.inlay_hints_before && !c.inlay_hints_after,
        refresh_lsp_symbols: (!c.code_lens_before && c.code_lens_after) || (!c.inlay_hints_before && c.inlay_hints_after),
        clear_hover: c.hover_before && !c.hover_after,
        clear_document_highlights: c.document_highlights_before && !c.document_highlights_after,
        clear_signature_help: c.parameter_hints_before && !c.parameter_hints_after,
        reset_source_control_view: c.source_control_defaults_changed,
        sync_blame_settings: c.blame_ignore_whitespace_changed,
        invalidate_project_search: c.project_search_settings_changed,
        spawn_index: c.project_index_settings_changed,
        invalidate_virtual_source_control: c.diff_max_file_size_changed || c.git_enabled_changed
            || c.git_ignored_repositories_changed || c.git_repository_scan_settings_changed,
        git: if c.git_enabled_changed {
            GitSettingsAction::SyncEnabled
        } else if c.git_autorefresh_changed {
            GitSettingsAction::SyncAutorefresh
        } else if c.git_ignored_repositories_changed {
            GitSettingsAction::SyncRepositoryFilters
        } else if c.git_repository_scan_settings_changed {
            GitSettingsAction::Rescan
        } else {
            GitSettingsAction::Nothing
        },
        sync_plugins: c.plugin_settings_changed,
        save_app_state: c.vim_changed || c.app_state_appearance_changed,
    }
}

/// Builds the plan for `changes` (see `settings_apply_plan_spec`).
pub fn settings_apply_plan(changes: &SettingsChanges) -> (plan: SettingsApplyPlan)
    ensures
        plan == settings_apply_plan_spec(*changes),
{
    let c = changes;
    let git = if c.git_enabled_changed {
        GitSettingsAction::SyncEnabled
    } else if c.git_autorefresh_changed {
        GitSettingsAction::SyncAutorefresh
    } else if c.git_ignored_repositories_changed {
        GitSettingsAction::SyncRepositoryFilters
    } else if c.git_repository_scan_settings_changed {
        GitSettingsAction::Rescan
    } else {
        GitSettingsAction::Nothing
    };
    SettingsApplyPlan {
        reload_fonts: c.fonts_changed,
        reload_theme: c.theme_changed,
        sync_read_only_buffers: c.read_only_changed,
        reset_vim_session: c.vim_changed,
        sync_discord_presence: c.discord_changed,
        clear_code_lenses: c.code_lens_before && !c.code_lens_after,
        clear_inlay_hints: c.inlay_hints_before && !c.inlay_hints_after,
        refresh_lsp_symbols: (!c.code_lens_before && c.code_lens_after) || (!c.inlay_hints_before && c.inlay_hints_after),
        clear_hover: c.hover_before && !c.hover_after,
        clear_document_highlights: c.document_highlights_before && !c.document_highlights_after,
        clear_signature_help: c.parameter_hints_before && !c.parameter_hints_after,
        reset_source_control_view: c.source_control_defaults_changed,
        sync_blame_settings: c.blame_ignore_whitespace_changed,
        invalidate_project_search: c.project_search_settings_changed,
        spawn_index: c.project_index_settings_changed,
        invalidate_virtual_source_control: c.diff_max_file_size_changed || c.git_enabled_changed
            || c.git_ignored_repositories_changed || c.git_repository_scan_settings_changed,
        git,
        sync_plugins: c.plugin_settings_changed,
        save_app_state: c.vim_changed || c.app_state_appearance_changed,
    }
}

/// The change flags for moving from `previous` to `candidate`. Whether git
/// was turned on or off, auto-refresh toggled, or the ignored repositories
/// changed (as trimmed lists without blanks) is decided from the two
/// settings alone. Vim, repository detection and plugin settings also
/// count as changed when the part the two settings hold differs; the
/// reported flags cover the rest of those settings and every other flag.
pub open spec fn settings_changes_spec(previous: AppSettings, candidate: AppSettings, reported: SettingsChanges) -> SettingsChanges {
    SettingsChanges {
        vim_changed: previous.vim_keybindings != candidate.vim_keybindings || reported.vim_changed,
        git_enabled_changed: previous.git_enabled != candidate.git_enabled,
        git_autorefresh_changed: previous.git_autorefresh != candidate.git_autorefresh,
        git_ignored_repositories_changed: setting_key_spec(strs_view(previous.git_ignored_repositories@))
            != setting_key_spec(strs_view(candidate.git_ignored_repositories@)),
        git_repository_scan_settings_changed: previous.git_auto_repository_detection
            != candidate.git_auto_repository_detection || reported.git_repository_scan_settings_changed,
        plugin_settings_changed: previous.plugins_enabled != candidate.plugins_enabled
            || reported.plugin_settings_changed,
        ..reported
    }
}

/// Builds the change flags for moving from `previous` to `candidate` (see
/// `settings_changes_spec`).
pub fn settings_changes_for(previous: &AppSettings, candidate: &AppSettings, reported: &SettingsChanges) -> (changes: SettingsChanges)
    ensures
        changes == settings_changes_spec(*previous, *candidate, *reported),
{
    let ignored_changed = git_string_list_settings_differ(
        previous.git_ignored_repositories.as_slice(),
        candidate.git_ignored_repositories.as_slice(),
    );
    SettingsChanges {
        vim_changed: previous.vim_keybindings != candidate.vim_keybindings || reported.vim_changed,
        git_enabled_changed: previous.git_enabled != candidate.git_enabled,
        git_autorefresh_changed: previous.git_autorefresh != candidate.git_autorefresh,
        git_ignored_repositories_changed: ignored_changed,
        git_repository_scan_settings_changed: previous.git_auto_repository_detection
            != candidate.git_auto_repository_detection || reported.git_repository_scan_settings_changed,
        plugin_settings_changed: previous.plugins_enabled != candidate.plugins_enabled
            || reported.plugin_settings_changed,
        ..*reported
    }
}

/// Annotations and hints follow their switches: each is cleared exactly
/// when it was on and is now off, so one that is on after the change is
/// never cleared and one turned off always is; symbols are refreshed only
/// when code lenses or inlay hints were turned on, and never when both stay
/// as they were.
pub proof fn lemma_annotations_cleared_exactly_when_turned_off(c: SettingsChanges)
    ensures
        c.hover_after ==> !settings_apply_plan_spec(c).clear_hover,
        c.hover_before && !c.hover_after ==> settings_apply_plan_spec(c).clear_hover,
        !c.hover_before ==> !settings_apply_plan_spec(c).clear_hover,
        c.code_lens_after ==> !settings_apply_plan_spec(c).clear_code_lenses,
        c.code_lens_before && !c.code_lens_after ==> settings_apply_plan_spec(c).clear_code_lenses,
        c.inlay_hints_after ==> !settings_apply_plan_spec(c).clear_inlay_hints,
        c.inlay_hints_before && !c.inlay_hints_after ==> settings_apply_plan_spec(c).clear_inlay_hints,
        c.document_highlights_after ==> !settings_apply_plan_spec(c).clear_document_highlights,
        c.document_highlights_before && !c.document_highlights_after
            ==> settings_apply_plan_spec(c).clear_document_highlights,
        c.parameter_hints_after ==> !settings_apply_plan_spec(c).clear_signature_help,
        c.parameter_hints_before && !c.parameter_hints_after ==> settings_apply_plan_spec(c).clear_signature_help,
        settings_apply_plan_spec(c).refresh_lsp_symbols
            ==> (!c.code_lens_before && c.code_lens_after) || (!c.inlay_hints_before && c.inlay_hints_after),
        c.code_lens_before == c.code_lens_after && c.inlay_hints_before == c.inlay_hints_after
            ==> !settings_apply_plan_spec(c).refresh_lsp_symbols,
        settings_apply_plan_spec(c).clear_code_lenses ==> !settings_apply_plan_spec(c).refresh_lsp_symbols
            || (!c.inlay_hints_before && c.inlay_hints_after),
{
}

/// Git reacts to at most one kind of change, by precedence, and reacts
/// whenever one of its settings changed.
pub proof fn lemma_git_reacts_once_by_precedence(c: SettingsChanges)
    ensures
        (settings_apply_plan_spec(c).git == GitSettingsAction::Nothing) == !(c.git_enabled_changed
            || c.git_autorefresh_changed || c.git_ignored_repositories_changed || c.git_repository_scan_settings_changed),
        c.git_enabled_changed ==> settings_apply_plan_spec(c).git == GitSettingsAction::SyncEnabled,
{
}

/// The outcome of checking the settings panel draft against the settings:
/// whether it holds inputs not yet applied, the note on values it had to
/// normalise, the settings it stands for, and whether those equal the
/// current settings in every field (including those this model does not
/// hold).
pub struct SettingsDraftValidation {
    pub has_pending_inputs: bool,
    pub apply_note: Option<String>,
    pub candidate: AppSettings,
    pub candidate_matches_current: bool,
}

/// What the editor reported while following newly saved settings: whether
/// the terminal shell profile changed and how many terminal sessions were
/// restarted, whether the language server configurations changed and how
/// many buffers were reopened for it.
#[derive(Debug, Clone, Copy, PartialEq, Eq)]
pub struct SettingsFollowUpReport {
    pub terminal_shell_profile_changed: bool,
    pub restarted_terminal_sessions: usize,
    pub lsp_server_configs_changed: bool,
    pub reopened_lsp_buffers: usize,
}

/// How an apply of the settings panel ended.
pub enum SettingsApplyOutcome {
    /// Nothing was saved; the status says why.
    Stopped,
    /// Saving the new settings failed; nothing else changed.
    SaveFailed,
    /// The new settings were saved and adopted: the editor follows `plan`,
    /// and `search_launch` is a project search submitted again under them.
    Applied { plan: SettingsApplyPlan, search_launch: Option<ProjectSearchLaunch> },
}

/// The status of a successful apply.
pub open spec fn settings_saved_status_spec(apply_note: Option<Seq<char>>, report: SettingsFollowUpReport) -> Seq<char> {
    "Saved settings"@
        + (match apply_note { Some(n) => "; "@ + n, None => Seq::<char>::empty() })
        + terminal_note_spec(report.terminal_shell_profile_changed, report.restarted_terminal_sessions as nat)
        + lsp_note_spec(report.lsp_server_configs_changed, report.reopened_lsp_buffers as nat)
}

impl KuroyaApp {
    /// `self` is `o` after its project search ids were invalidated.
    pub open spec fn project_search_invalidated(&self, o: &Self) -> bool {
        *self == with_search_ids(*o, next_request_id_spec(o.project_search_next_request_id))
    }

    /// `self` is `o` after git followed its settings as `action` says.
    pub open spec fn git_settings_followed(&self, o: &Self, action: GitSettingsAction, previous_git_autorefresh: bool) -> bool {
        match action {
            GitSettingsAction::SyncEnabled => if o.settings.git_enabled {
                exists|started: bool| #[trigger] self.git_scan_spawned(o, started)
            } else {
                &&& self.unchanged_except(o, false, true, false, false, true, false)
                &&& self.git_scan == o.git_scan.invalidated()
                &&& self.git_root is None
                &&& self.status@ == "Git is disabled"@
            },
            GitSettingsAction::SyncAutorefresh => if !previous_git_autorefresh && o.settings.git_autorefresh && o.settings.git_enabled {
                exists|started: bool| #[trigger] self.git_scan_spawned(o, started)
            } else {
                self.unchanged_except(o, false, false, false, false, false, false)
            },
            GitSettingsAction::SyncRepositoryFilters => if !o.settings.git_enabled {
                &&& self.unchanged_except(o, false, true, false, false, false, false)
                &&& self.git_scan == o.git_scan.invalidated()
                &&& self.git_root is None
            } else if repository_ignored_spec(o.workspace_root@, o.settings.git_ignored_repositories@) {
                &&& self.unchanged_except(o, false, true, false, false, true, false)
                &&& self.git_scan == o.git_scan.invalidated()
                &&& self.git_root is None
                &&& self.status@ == "Git repository ignored by git.ignoredRepositories"@
            } else {
                exists|started: bool| #[trigger] self.git_scan_spawned(o, started)
            },
            GitSettingsAction::Rescan => exists|started: bool| #[trigger] self.git_scan_spawned(o, started),
            GitSettingsAction::Nothing => self.unchanged_except(o, false, false, false, false, false, false),
        }
    }

    /// The steps of following new settings, from `o` through `s2`..`s5`:
    /// the new settings adopted; when the project search settings changed,
    /// searches cancelled and the submitted search run again when it should
    /// be (`project_search_settings_followed`); the index rerun; git and
    /// then plugins following their settings, each only when the plan says
    /// so.
    pub open spec fn settings_follow_steps(
        o: &Self,
        next: AppSettings,
        plan: SettingsApplyPlan,
        previous_git_autorefresh: bool,
        op: ProjectSearchPanel,
        panel: ProjectSearchPanel,
        launch: Option<ProjectSearchLaunch>,
        effective_exclude_globs: Seq<Seq<char>>,
        max_file_bytes: u64,
        max_results: usize,
        s2: KuroyaApp,
        s3: KuroyaApp,
        s4: KuroyaApp,
        s5: KuroyaApp,
    ) -> bool {
        let s1 = KuroyaApp { settings: next, ..*o };
        &&& (if plan.invalidate_project_search {
            exists|si: KuroyaApp| #[trigger] si.project_search_invalidated(&s1)
                && project_search_settings_followed(si, op, s2, panel, launch, effective_exclude_globs,
                    max_file_bytes, max_results)
        } else {
            &&& s2 == s1
            &&& panel == op
            &&& launch is None
        })
        &&& (if plan.spawn_index { s3.index_spawned(&s2) } else { s3 == s2 })
        &&& s4.git_settings_followed(&s3, plan.git, previous_git_autorefresh)
        &&& (if plan.sync_plugins { s5.plugin_settings_followed(&s4) } else { s5 == s4 })
    }

    /// `self` is `o` after following the new settings `next` (see
    /// `settings_follow_steps`).
    pub open spec fn settings_followed(
        &self,
        o: &Self,
        next: AppSettings,
        plan: SettingsApplyPlan,
        previous_git_autorefresh: bool,
        op: ProjectSearchPanel,
        panel: ProjectSearchPanel,
        launch: Option<ProjectSearchLaunch>,
        effective_exclude_globs: Seq<Seq<char>>,
        max_file_bytes: u64,
        max_results: usize,
    ) -> bool {
        exists|s2: KuroyaApp, s3: KuroyaApp, s4: KuroyaApp|
            #[trigger] KuroyaApp::settings_follow_steps(o, next, plan, previous_git_autorefresh, op, panel, launch,
                effective_exclude_globs, max_file_bytes, max_results, s2, s3, s4, *self)
    }

    /// The scheduling part of applying saved settings: adopts `next`, then
    /// follows `plan` (project search, index, git, plugins, in that order).
    #[verifier::rlimit(80)]
    #[verifier::spinoff_prover]
    pub fn follow_saved_settings(
        &mut self,
        next: AppSettings,
        plan: &SettingsApplyPlan,
        search: &mut ProjectSearchPanel,
        effective_exclude_globs: Vec<String>,
        max_file_bytes: u64,
        max_results: usize,
    ) -> (launch: Option<ProjectSearchLaunch>)
        ensures
            final(self).settings_followed(&*old(self), next, *plan, old(self).settings.git_autorefresh, *old(search),
                *final(search), launch, path_views(effective_exclude_globs@), max_file_bytes, max_results),
    {
        let ghost o = *self;
        let ghost op = *search;
        let ghost excl = path_views(effective_exclude_globs@);
        let previous_git_autorefresh = self.settings.git_autorefresh;
        self.settings = next;
        let ghost s1 = *self;
        assert(s1 == KuroyaApp { settings: next, ..o });
        let launch = if plan.invalidate_project_search {
            self.invalidate_project_search_requests();
            let ghost si = *self;
            assert(si.project_search_invalidated(&s1));
            let launch = rerun_project_search_after_settings_change(
                self, search, effective_exclude_globs, max_file_bytes, max_results);
            assert(project_search_settings_followed(si, op, *self, *search, launch, excl, max_file_bytes, max_results));
            launch
        } else {
            None
        };
        let ghost s2 = *self;
        if plan.spawn_index {
            self.spawn_index();
        }
        let ghost s3 = *self;
        match plan.git {
            GitSettingsAction::SyncEnabled => self.sync_git_enabled_state(),
            GitSettingsAction::SyncAutorefresh => self.sync_git_autorefresh_state(previous_git_autorefresh),
            GitSettingsAction::SyncRepositoryFilters => self.sync_git_repository_filters_state(),
            GitSettingsAction::Rescan => {
                let started = self.spawn_git_scan();
                assert(self.git_scan_spawned(&s3, started));
            },
            GitSettingsAction::Nothing => {},
        }
        let ghost s4 = *self;
        assert(s4.git_settings_followed(&s3, plan.git, previous_git_autorefresh));
        if plan.sync_plugins {
            self.sync_plugin_settings_state();
        }
        assert(KuroyaApp::settings_follow_steps(&o, next, *plan, previous_git_autorefresh, op, *search, launch,
            excl, max_file_bytes, max_results, s2, s3, s4, *self));
        launch
    }
}

impl KuroyaApp {
    /// Whether an apply of the panel with `validation` must save the new
    /// settings: the panel is open, the draft holds pending inputs, and the
    /// settings it stands for differ from the current ones.
    pub fn settings_apply_needs_save(&self, validation: &SettingsDraftValidation) -> (save: bool)
        ensures
            save == (apply_precheck_spec(self.settings_panel_open, validation.has_pending_inputs,
                validation.candidate_matches_current, opt_view(validation.apply_note)) is None),
    {
        self.settings_panel_open && validation.has_pending_inputs && !validation.candidate_matches_current
    }

    /// Applies the settings panel. With the panel closed, nothing pending,
    /// or a draft equal to the current settings (whose inputs are then
    /// reset from the settings), it stops with the status that says so (see
    /// `apply_precheck_spec`). Otherwise `save_result` is what saving the
    /// new settings gave: a failure changes nothing but the status; after a
    /// successful save the new settings are adopted and followed (see
    /// `follow_saved_settings`), the panel inputs are reset from them, the
    /// Vim choice is carried into the app preferences when the plan saves
    /// those, and the status reports the save. `save_result` is not looked
    /// at when nothing is to be saved. The plan follows the changes from the
    /// current settings to the new ones (`settings_changes_spec`), with
    /// `reported_changes` for the settings this model does not hold.
    #[verifier::rlimit(40)]
    pub fn apply_settings_panel(
        &mut self,
        validation: SettingsDraftValidation,
        save_result: Result<(), String>,
        reported_changes: &SettingsChanges,
        report: &SettingsFollowUpReport,
        search: &mut ProjectSearchPanel,
        effective_exclude_globs: Vec<String>,
        max_file_bytes: u64,
        max_results: usize,
    ) -> (outcome: SettingsApplyOutcome)
        ensures
            match apply_precheck_spec(old(self).settings_panel_open, validation.has_pending_inputs,
                validation.candidate_matches_current, opt_view(validation.apply_note)) {
                Some(stop) => {
                    &&& outcome is Stopped
                    &&& final(self).status@ == stop
                    &&& *final(search) == *old(search)
                    &&& if old(self).settings_panel_open && validation.has_pending_inputs {
                        &&& settings_view(final(self).settings_panel_draft) == settings_view(old(self).settings)
                        &&& *final(self) == (KuroyaApp {
                            status: final(self).status,
                            settings_panel_draft: final(self).settings_panel_draft,
                            ..*old(self)
                        })
                    } else {
                        *final(self) == (KuroyaApp { status: final(self).status, ..*old(self) })
                    }
                },
                None => match save_result {
                    Err(error) => {
                        &&& outcome is SaveFailed
                        &&& final(self).status@ == "Could not save settings: "@
                            + label_spec(error@, DISPLAY_ERROR_LABEL_MAX_CHARS as nat, "unknown error"@)
                        &&& *final(self) == (KuroyaApp { status: final(self).status, ..*old(self) })
                        &&& *final(search) == *old(search)
                    },
                    Ok(()) => outcome matches SettingsApplyOutcome::Applied { plan, search_launch } && {
                        &&& plan == settings_apply_plan_spec(settings_changes_spec(old(self).settings,
                            validation.candidate, *reported_changes))
                        &&& exists|s5: KuroyaApp| #[trigger] s5.settings_followed(&*old(self), validation.candidate, plan,
                            old(self).settings.git_autorefresh, *old(search), *final(search), search_launch,
                            path_views(effective_exclude_globs@), max_file_bytes, max_results)
                            && *final(self) == (KuroyaApp {
                                status: final(self).status,
                                settings_panel_draft: final(self).settings_panel_draft,
                                app_state_vim_keybindings: if plan.save_app_state {
                                    validation.candidate.vim_keybindings
                                } else {
                                    s5.app_state_vim_keybindings
                                },
                                ..s5
                            })
                        &&& settings_view(final(self).settings_panel_draft) == settings_view(validation.candidate)
                        &&& final(self).status@ == settings_saved_status_spec(opt_view(validation.apply_note), *report)
                    },
                },
            },
    {
        let note: Option<&str> = match &validation.apply_note {
            Some(n) => Some(n.as_str()),
            None => None,
        };
        let open = self.settings_panel_open;
        match settings_apply_precheck(open, validation.has_pending_inputs, validation.candidate_matches_current, note) {
            Some(stop) => {
                if open && validation.has_pending_inputs {
                    self.settings_panel_draft = self.settings.copy();
                }
                self.status = stop;
                return SettingsApplyOutcome::Stopped;
            },
            None => {},
        }
        match save_result {
            Err(error) => {
                self.status = settings_save_failed_status(error.as_str());
                return SettingsApplyOutcome::SaveFailed;
            },
            Ok(()) => {},
        }
        let status = settings_save_success_status(
            note,
            report.terminal_shell_profile_changed,
            report.restarted_terminal_sessions,
            report.lsp_server_configs_changed,
            report.reopened_lsp_buffers,
        );
        let changes = settings_changes_for(&self.settings, &validation.candidate, reported_changes);
        let plan = settings_apply_plan(&changes);
        let search_launch = self.follow_saved_settings(
            validation.candidate, &plan, search, effective_exclude_globs, max_file_bytes, max_results);
        self.settings_panel_draft = self.settings.copy();
        if plan.save_app_state {
            self.app_state_vim_keybindings = self.settings.vim_keybindings;
        }
        self.status = status;
        SettingsApplyOutcome::Applied { plan, search_launch }
    }

    /// Saving the app preferences after an apply failed: the status notes
    /// it after what the apply reported.
    pub fn note_app_preference_save_failed(&mut self, error: &str)
        ensures
            final(self).status@ == old(self).status@ + "; app preference save failed: "@
                + label_spec(error@, DISPLAY_ERROR_LABEL_MAX_CHARS as nat, "unknown error"@),
            *final(self) == (KuroyaApp { status: final(self).status, ..*old(self) }),
    {
        push_app_preference_save_failed_status(&mut self.status, error);
    }
}

} // verus!
