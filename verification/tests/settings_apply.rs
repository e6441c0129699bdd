use kuroya_logic::app_state::{AppSettings, KuroyaApp, TaskLaunch};
use kuroya_logic::git_repos::{
    git_repository_ignored, git_repository_scan_folder_ignored, git_string_list_setting_key,
    GitAutoRepositoryDetection, GitOpenRepositoryInParentFolders,
};
use kuroya_logic::labels::settings_save_success_status;
use kuroya_logic::project_search_keys::{ProjectSearchKey, ProjectSearchPanel};
use kuroya_logic::settings_apply::{
    git_repository_scan_settings_changed, git_string_list_settings_differ, settings_apply_plan,
    settings_apply_precheck, settings_changes_for, GitRepositoryScanSettings, GitSettingsAction, SettingsApplyOutcome,
    SettingsChanges, SettingsDraftValidation, SettingsFollowUpReport,
};
use std::collections::VecDeque;

const MAX_FILE_BYTES: u64 = 1024 * 1024;
const MAX_RESULTS: usize = 2000;

fn app_for_test() -> KuroyaApp {
    KuroyaApp::new("workspace", false, true, AppSettings::defaults())
}

fn validation(candidate: AppSettings, candidate_matches_current: bool) -> SettingsDraftValidation {
    SettingsDraftValidation {
        has_pending_inputs: true,
        apply_note: None,
        candidate,
        candidate_matches_current,
    }
}

fn no_report() -> SettingsFollowUpReport {
    SettingsFollowUpReport {
        terminal_shell_profile_changed: false,
        restarted_terminal_sessions: 0,
        lsp_server_configs_changed: false,
        reopened_lsp_buffers: 0,
    }
}

fn empty_search_panel() -> ProjectSearchPanel {
    ProjectSearchPanel {
        case_sensitive: false,
        whole_word: false,
        regex: false,
        include_text: String::new(),
        exclude_text: String::new(),
        recent: VecDeque::new(),
        submitted_key: None,
        result_key: ProjectSearchKey {
            root: "workspace".to_owned(),
            query: String::new(),
            case_sensitive: false,
            whole_word: false,
            regex: false,
            include_globs: Vec::new(),
            exclude_globs: Vec::new(),
            max_file_bytes: MAX_FILE_BYTES,
            max_results: MAX_RESULTS,
        },
        result_matches: Vec::new(),
        result_index_generation: 0,
        index_generation: 0,
        selected: 0,
    }
}

fn no_changes() -> SettingsChanges {
    SettingsChanges {
        fonts_changed: false,
        theme_changed: false,
        read_only_changed: false,
        vim_changed: false,
        discord_changed: false,
        code_lens_before: true,
        code_lens_after: true,
        inlay_hints_before: true,
        inlay_hints_after: true,
        hover_before: true,
        hover_after: true,
        document_highlights_before: true,
        document_highlights_after: true,
        parameter_hints_before: true,
        parameter_hints_after: true,
        source_control_defaults_changed: false,
        blame_ignore_whitespace_changed: false,
        diff_max_file_size_changed: false,
        git_enabled_changed: false,
        git_autorefresh_changed: false,
        git_ignored_repositories_changed: false,
        git_repository_scan_settings_changed: false,
        project_index_settings_changed: false,
        project_search_settings_changed: false,
        plugin_settings_changed: false,
        app_state_appearance_changed: false,
    }
}

fn scan_settings(ignored_folders: &[&str], max_depth: usize) -> GitRepositoryScanSettings {
    let folders: Vec<String> = ignored_folders.iter().map(|s| s.to_string()).collect();
    GitRepositoryScanSettings::from_settings(
        GitAutoRepositoryDetection::SubFolders,
        false,
        &folders,
        GitOpenRepositoryInParentFolders::Prompt,
        true,
        10,
        max_depth,
        true,
        10,
        &[],
        50,
    )
}

#[test]
fn apply_settings_panel_rejects_closed_panel_draft() {
    let mut app = app_for_test();
    app.settings_panel_open = false;
    let mut draft = AppSettings::defaults();
    draft.git_enabled = false;
    app.settings_panel_draft = draft.clone();
    let mut search = empty_search_panel();

    let outcome = app.apply_settings_panel(
        validation(draft.clone(), false),
        Ok(()),
        &no_changes(),
        &no_report(),
        &mut search,
        Vec::new(),
        MAX_FILE_BYTES,
        MAX_RESULTS,
    );

    assert!(matches!(outcome, SettingsApplyOutcome::Stopped));
    assert_eq!(app.settings, AppSettings::defaults());
    assert_eq!(app.settings_panel_draft, draft);
    assert_eq!(app.status, "Open settings before applying changes");
    assert!(app.launches.is_empty());
    assert_eq!(
        settings_apply_precheck(false, true, false, None),
        Some("Open settings before applying changes".to_owned())
    );
}

#[test]
fn apply_precheck_reports_unchanged_drafts() {
    assert_eq!(
        settings_apply_precheck(true, false, false, None),
        Some("No pending settings changes".to_owned())
    );
    assert_eq!(
        settings_apply_precheck(true, true, true, None),
        Some("Settings already match the current configuration".to_owned())
    );
    assert_eq!(
        settings_apply_precheck(true, true, true, Some("normalized 2 values")),
        Some("Settings draft normalized 2 values; no saved changes".to_owned())
    );
    assert_eq!(settings_apply_precheck(true, true, false, None), None);
}

#[test]
fn apply_settings_panel_schedules_refresh_when_code_lens_is_reenabled() {
    let mut changes = no_changes();
    changes.code_lens_before = false;
    let plan = settings_apply_plan(&changes);
    assert!(plan.refresh_lsp_symbols);
    assert!(!plan.clear_code_lenses);

    let mut changes = no_changes();
    changes.inlay_hints_before = false;
    assert!(settings_apply_plan(&changes).refresh_lsp_symbols);

    let mut changes = no_changes();
    changes.code_lens_after = false;
    let plan = settings_apply_plan(&changes);
    assert!(plan.clear_code_lenses);
    assert!(!plan.refresh_lsp_symbols);
}

#[test]
fn apply_settings_panel_clears_signature_help_when_parameter_hints_are_disabled() {
    let mut changes = no_changes();
    changes.parameter_hints_after = false;
    assert!(settings_apply_plan(&changes).clear_signature_help);
    assert!(!settings_apply_plan(&no_changes()).clear_signature_help);
}

#[test]
fn git_reacts_to_the_first_changed_setting_only() {
    let mut changes = no_changes();
    changes.git_autorefresh_changed = true;
    changes.git_repository_scan_settings_changed = true;
    let plan = settings_apply_plan(&changes);
    assert_eq!(plan.git, GitSettingsAction::SyncAutorefresh);
    assert!(plan.invalidate_virtual_source_control);

    changes.git_enabled_changed = true;
    assert_eq!(settings_apply_plan(&changes).git, GitSettingsAction::SyncEnabled);
    assert_eq!(settings_apply_plan(&no_changes()).git, GitSettingsAction::Nothing);
}

#[test]
fn apply_settings_panel_does_not_scan_for_whitespace_only_scan_setting_changes() {
    let saved = scan_settings(&["node_modules", "target"], 3);
    let whitespace_only = scan_settings(&[" node_modules ", "", "target\t"], 3);
    let deeper = scan_settings(&["node_modules", "target"], 4);

    assert!(!git_repository_scan_settings_changed(&saved, &whitespace_only));
    assert!(git_repository_scan_settings_changed(&saved, &deeper));
    assert!(!git_string_list_settings_differ(
        &["a".to_owned()],
        &[" a ".to_owned(), "  ".to_owned()]
    ));
    assert!(git_string_list_settings_differ(&["a".to_owned()], &["b".to_owned()]));
    assert_eq!(
        git_string_list_setting_key(&[" a ".to_owned(), "".to_owned(), "b".to_owned()]),
        vec!["a".to_owned(), "b".to_owned()]
    );
}

#[test]
fn apply_settings_panel_adopts_settings_and_follows_the_plan() {
    let mut app = app_for_test();
    app.settings_panel_open = true;
    // The new settings differ only in what this model does not hold.
    let next = AppSettings::defaults();
    let mut changes = no_changes();
    changes.project_search_settings_changed = true;
    changes.project_index_settings_changed = true;
    changes.git_repository_scan_settings_changed = true;
    let mut search = empty_search_panel();

    let outcome = app.apply_settings_panel(
        validation(next.clone(), false),
        Ok(()),
        &changes,
        &no_report(),
        &mut search,
        Vec::new(),
        MAX_FILE_BYTES,
        MAX_RESULTS,
    );

    match outcome {
        SettingsApplyOutcome::Applied { plan, search_launch } => {
            assert_eq!(plan, settings_apply_plan(&changes));
            assert!(search_launch.is_none());
        }
        _ => panic!("a saved draft is applied"),
    }
    assert_eq!(app.settings, next);
    assert_eq!(app.settings_panel_draft, next);
    assert_eq!(app.project_search_active_request_id, 1);
    assert_eq!(app.project_search_cancel_generation, 1);
    assert_eq!(
        app.launches,
        vec![TaskLaunch::FullIndex { request_id: 1 }, TaskLaunch::GitScan { request_id: 1 }]
    );
    assert_eq!(app.status, "Saved settings");
}

#[test]
fn apply_settings_panel_with_git_disabled_drops_the_snapshot() {
    let mut app = app_for_test();
    app.settings_panel_open = true;
    app.git_root = Some("workspace".to_owned());
    let mut next = AppSettings::defaults();
    next.git_enabled = false;
    let mut changes = no_changes();
    changes.git_enabled_changed = true;
    let mut search = empty_search_panel();

    app.apply_settings_panel(
        validation(next, false),
        Ok(()),
        &changes,
        &no_report(),
        &mut search,
        Vec::new(),
        MAX_FILE_BYTES,
        MAX_RESULTS,
    );

    assert_eq!(app.git_root, None);
    assert!(app.launches.is_empty());
    assert_eq!(app.status, "Saved settings");
}

#[test]
fn apply_settings_panel_without_pending_inputs_or_changes_saves_nothing() {
    let mut app = app_for_test();
    app.settings_panel_open = true;
    let mut search = empty_search_panel();

    let outcome = app.apply_settings_panel(
        validation(AppSettings::defaults(), true),
        Err("must not be looked at".to_owned()),
        &no_changes(),
        &no_report(),
        &mut search,
        Vec::new(),
        MAX_FILE_BYTES,
        MAX_RESULTS,
    );
    assert!(matches!(outcome, SettingsApplyOutcome::Stopped));
    assert_eq!(app.status, "Settings already match the current configuration");

    let mut stale = AppSettings::defaults();
    stale.plugins_enabled = false;
    app.settings_panel_draft = stale.clone();
    let mut nothing_pending = validation(stale.clone(), false);
    nothing_pending.has_pending_inputs = false;
    app.apply_settings_panel(
        nothing_pending,
        Ok(()),
        &no_changes(),
        &no_report(),
        &mut search,
        Vec::new(),
        MAX_FILE_BYTES,
        MAX_RESULTS,
    );
    assert_eq!(app.status, "No pending settings changes");
    assert_eq!(app.settings_panel_draft, stale);

    let mut noted = validation(AppSettings::defaults(), true);
    noted.apply_note = Some("normalized invalid draft values".to_owned());
    app.apply_settings_panel(noted, Ok(()), &no_changes(), &no_report(), &mut search, Vec::new(), MAX_FILE_BYTES, MAX_RESULTS);
    assert_eq!(app.status, "Settings draft normalized invalid draft values; no saved changes");
    // The inputs are reset from the current settings.
    assert_eq!(app.settings_panel_draft, AppSettings::defaults());
    assert_eq!(app.settings, AppSettings::defaults());
}

#[test]
fn apply_settings_panel_does_not_apply_or_save_vim_app_state_when_settings_save_fails() {
    let mut app = app_for_test();
    app.settings_panel_open = true;
    let mut draft = AppSettings::defaults();
    draft.vim_keybindings = true;
    app.settings_panel_draft = draft.clone();
    let mut changes = no_changes();
    changes.vim_changed = true;
    let mut search = empty_search_panel();

    let outcome = app.apply_settings_panel(
        validation(draft.clone(), false),
        Err("not a settings directory".to_owned()),
        &changes,
        &no_report(),
        &mut search,
        Vec::new(),
        MAX_FILE_BYTES,
        MAX_RESULTS,
    );

    assert!(matches!(outcome, SettingsApplyOutcome::SaveFailed));
    assert!(!app.settings.vim_keybindings);
    assert!(app.settings_panel_draft.vim_keybindings);
    assert!(!app.app_state_vim_keybindings);
    assert!(app.status.starts_with("Could not save settings:"));
    assert_eq!(app.status, "Could not save settings: not a settings directory");
}

#[test]
fn apply_settings_panel_reports_vim_app_state_save_failure_after_settings_save() {
    let mut app = app_for_test();
    app.settings_panel_open = true;
    let mut draft = AppSettings::defaults();
    draft.vim_keybindings = true;
    let mut changes = no_changes();
    changes.vim_changed = true;
    let mut search = empty_search_panel();

    let outcome = app.apply_settings_panel(
        validation(draft, false),
        Ok(()),
        &changes,
        &no_report(),
        &mut search,
        Vec::new(),
        MAX_FILE_BYTES,
        MAX_RESULTS,
    );
    match outcome {
        SettingsApplyOutcome::Applied { plan, .. } => assert!(plan.save_app_state),
        _ => panic!("a saved draft is applied"),
    }
    assert!(app.settings.vim_keybindings);
    assert!(app.app_state_vim_keybindings);

    app.note_app_preference_save_failed("not a directory");
    assert!(app.status.starts_with("Saved settings; app preference save failed:"));
}

#[test]
fn apply_settings_panel_reports_terminal_and_language_server_follow_ups() {
    let mut app = app_for_test();
    app.settings_panel_open = true;
    let mut next = AppSettings::defaults();
    next.plugins_enabled = false;
    let mut search = empty_search_panel();
    let mut noted = validation(next, false);
    noted.apply_note = Some("normalized invalid draft values".to_owned());
    let report = SettingsFollowUpReport {
        terminal_shell_profile_changed: true,
        restarted_terminal_sessions: 2,
        lsp_server_configs_changed: true,
        reopened_lsp_buffers: 1,
    };

    app.apply_settings_panel(noted, Ok(()), &no_changes(), &report, &mut search, Vec::new(), MAX_FILE_BYTES, MAX_RESULTS);

    assert!(app.status.starts_with("Saved settings; normalized invalid draft values"));
    assert_eq!(
        app.status,
        settings_save_success_status(Some("normalized invalid draft values"), true, 2, true, 1)
    );
}

#[test]
fn changed_search_settings_rerun_the_submitted_search() {
    let mut app = app_for_test();
    app.settings_panel_open = true;
    app.project_index_generation = 1;
    app.project_search = true;
    app.project_search_query = "needle".to_owned();
    let mut search = empty_search_panel();
    search.submitted_key = Some(ProjectSearchKey {
        root: "workspace".to_owned(),
        query: "needle".to_owned(),
        case_sensitive: false,
        whole_word: false,
        regex: false,
        include_globs: Vec::new(),
        exclude_globs: vec!["target/**".to_owned()],
        max_file_bytes: MAX_FILE_BYTES,
        max_results: MAX_RESULTS,
    });
    let mut changes = no_changes();
    changes.project_search_settings_changed = true;

    let outcome = app.apply_settings_panel(
        validation(AppSettings::defaults(), false),
        Ok(()),
        &changes,
        &no_report(),
        &mut search,
        vec!["target/**".to_owned(), "dist/**".to_owned()],
        MAX_FILE_BYTES,
        MAX_RESULTS,
    );

    match outcome {
        SettingsApplyOutcome::Applied { search_launch: Some(launch), .. } => {
            assert_eq!(launch.key.query, "needle");
            assert_eq!(launch.key.exclude_globs, vec!["target/**".to_owned(), "dist/**".to_owned()]);
            // Invalidation took id 1, the rerun reserved id 2.
            assert_eq!(launch.request_id, 2);
        }
        _ => panic!("the submitted search reruns under the new settings"),
    }
    assert_eq!(app.project_search_active_request_id, 2);
    assert_eq!(
        search.submitted_key.as_ref().map(|key| key.exclude_globs.clone()),
        Some(vec!["target/**".to_owned(), "dist/**".to_owned()])
    );
}

#[test]
fn git_repository_ignored_matches_absolute_relative_and_name_entries() {
    let root = "/tmp/kuroya-ignore-repo/workspace";

    assert!(git_repository_ignored(root, &[root.to_owned()]));
    assert!(git_repository_ignored(root, &[".".to_owned()]));
    assert!(git_repository_ignored(root, &["workspace".to_owned()]));
    assert!(!git_repository_ignored(root, &["other".to_owned()]));
}

#[test]
fn git_repository_scan_ignored_folders_match_named_relative_and_absolute_folders() {
    let root = "/tmp/kuroya-scan-ignore/workspace/node_modules/pkg";

    assert!(git_repository_scan_folder_ignored(root, &["node_modules".to_owned()]));
    assert!(git_repository_scan_folder_ignored(root, &["workspace/node_modules".to_owned()]));
    assert!(git_repository_scan_folder_ignored(root, &["packages/../node_modules".to_owned()]));
    assert!(git_repository_scan_folder_ignored(
        root,
        &["/tmp/kuroya-scan-ignore/workspace/node_modules".to_owned()]
    ));
    assert!(!git_repository_scan_folder_ignored(root, &["modules".to_owned()]));
    assert!(!git_repository_scan_folder_ignored(root, &["../somewhere".to_owned()]));
}

#[test]
fn settings_changes_are_computed_from_the_two_settings() {
    let previous = AppSettings::defaults();
    let mut candidate = AppSettings::defaults();
    candidate.git_autorefresh = false;
    candidate.git_ignored_repositories = vec![" vendor ".to_owned()];
    candidate.vim_keybindings = true;

    let changes = settings_changes_for(&previous, &candidate, &no_changes());
    assert!(changes.git_autorefresh_changed);
    assert!(changes.git_ignored_repositories_changed);
    assert!(changes.vim_changed);
    assert!(!changes.git_enabled_changed);
    assert!(!changes.plugin_settings_changed);
    assert!(!changes.git_repository_scan_settings_changed);

    // Whitespace and blank entries do not make the ignored list differ.
    let mut padded = AppSettings::defaults();
    padded.git_ignored_repositories = vec!["  ".to_owned()];
    assert!(!settings_changes_for(&previous, &padded, &no_changes()).git_ignored_repositories_changed);

    // A reported git flag for settings the model holds is recomputed.
    let mut reported = no_changes();
    reported.git_enabled_changed = true;
    reported.plugin_settings_changed = true;
    let same = settings_changes_for(&previous, &previous, &reported);
    assert!(!same.git_enabled_changed);
    assert!(same.plugin_settings_changed);
}
