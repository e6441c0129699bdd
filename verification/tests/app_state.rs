use kuroya_logic::app_state::{
    StatusToast,
    next_toast_id, toast_is_alive, toast_ttl, AppSettings, KuroyaApp, TaskLaunch, MAX_TOASTS,
};

fn app_for_test(root: &str) -> KuroyaApp {
    KuroyaApp::new(root, false, true, AppSettings::defaults())
}

#[test]
fn project_search_request_reservation_updates_cancellation_generation() {
    let mut app = app_for_test("workspace");

    let first_request = app.reserve_project_search_request_id();
    assert_eq!(first_request, 1);
    assert_eq!(app.project_search_active_request_id, 1);
    assert_eq!(app.project_search_cancel_generation, 1);

    app.invalidate_project_search_requests();
    assert_eq!(app.project_search_active_request_id, 2);
    assert_eq!(app.project_search_cancel_generation, 2);
}

#[test]
fn watcher_rebuild_failure_reschedules_with_doubled_backoff() {
    let mut app = app_for_test("workspace");
    app.watcher_present = false;
    app.watcher_rebuild_attempts = 2;
    let now = 50_000;
    app.note_watcher_build_failure(now);

    assert_eq!(app.watcher_rebuild_attempts, 3);
    let remaining = app.watcher_rebuild_due.unwrap() - now;
    assert!(remaining > 3_000, "{remaining:?}");
    assert!(remaining <= 4_000, "{remaining:?}");
}

#[test]
fn watcher_with_active_watcher_clears_stale_retry_state() {
    let mut app = app_for_test("workspace");
    app.watcher_present = true;
    app.watcher_rebuild_due = Some(1_000);
    app.watcher_rebuild_attempts = 4;

    assert!(!app.rebuild_watcher_when_due(20_000));
    assert_eq!(app.watcher_rebuild_due, None);
    assert_eq!(app.watcher_rebuild_attempts, 0);
}

#[test]
fn watcher_rebuild_waits_for_the_scheduled_retry() {
    let mut app = app_for_test("workspace");
    app.note_watcher_build_failure(10_000);
    assert_eq!(app.watcher_rebuild_due, Some(11_000));
    assert!(!app.rebuild_watcher_when_due(10_999));
    assert_eq!(app.watcher_rebuild_attempts, 1);
    assert!(app.rebuild_watcher_when_due(11_000));
    // Deciding to try keeps the retry state until the outcome is known.
    assert_eq!(app.watcher_rebuild_due, Some(11_000));
    assert_eq!(app.watcher_rebuild_attempts, 1);
}

#[test]
fn repeated_failed_watcher_rebuilds_double_the_wait() {
    let mut app = app_for_test("workspace");
    app.note_watcher_build_failure(10_000);
    assert!(app.rebuild_watcher_when_due(11_000));
    app.note_watcher_build_failure(11_000);
    assert_eq!(app.watcher_rebuild_attempts, 2);
    assert_eq!(app.watcher_rebuild_due, Some(13_000));
    assert!(app.rebuild_watcher_when_due(13_000));
    app.note_watcher_build_failure(13_000);
    assert_eq!(app.watcher_rebuild_attempts, 3);
    assert_eq!(app.watcher_rebuild_due, Some(17_000));
}

#[test]
fn watcher_rebuild_retry_attempts_build_against_tempdir_and_clears_on_success() {
    let mut app = app_for_test("workspace");
    app.watcher_present = false;
    app.note_watcher_build_failure(10_000);

    assert_eq!(app.watcher_rebuild_attempts, 1);
    assert!(app.watcher_rebuild_due.unwrap() > 10_000);

    app.watcher_rebuild_due = Some(9_000);
    assert!(app.rebuild_watcher_when_due(10_000));
    app.note_watcher_built();

    assert!(app.watcher_present);
    assert_eq!(app.watcher_rebuild_due, None);
    assert_eq!(app.watcher_rebuild_attempts, 0);
    assert!(!app.rebuild_watcher_when_due(50_000));
}

#[test]
fn parent_repository_git_dir_is_watched_only_outside_the_workspace() {
    let mut app = app_for_test("/home/me/repo/workspace");
    app.watcher_present = true;
    app.git_root = Some("/home/me/repo".to_owned());
    assert_eq!(app.ensure_parent_repository_git_watch(), Some("/home/me/repo".to_owned()));
    app.git_root = Some("/home/me/repo/workspace/sub".to_owned());
    assert_eq!(app.ensure_parent_repository_git_watch(), None);
    app.git_root = Some("/home/me/repo".to_owned());
    app.watcher_present = false;
    assert_eq!(app.ensure_parent_repository_git_watch(), None);
}

#[test]
fn set_status_with_toast_enqueues_toast_without_render() {
    let mut app = app_for_test("workspace");

    app.set_status_with_toast("Saved settings".to_owned(), 1_000, false);

    assert_eq!(app.status, "Saved settings");
    assert_eq!(app.status_toasts.len(), 1);
    assert_eq!(app.status_toasts[0].message, "Saved settings");
    assert!(!app.status_toasts[0].error);
}

#[test]
fn same_frame_error_then_benign_statuses_each_produce_a_toast() {
    let mut app = app_for_test("workspace");

    app.set_status_with_toast("Could not save main.rs: disk full".to_owned(), 1_000, true);
    app.set_status_with_toast("Saved settings".to_owned(), 1_000, false);

    assert_eq!(app.status, "Saved settings");
    assert_eq!(app.status_toasts.len(), 2);
    assert_eq!(app.status_toasts[0].message, "Saved settings");
    assert!(!app.status_toasts[0].error);
    assert_eq!(app.status_toasts[1].message, "Could not save main.rs: disk full");
    assert!(app.status_toasts[1].error);
}

#[test]
fn duplicate_head_toast_refreshes_created_timestamp() {
    let mut app = app_for_test("workspace");
    app.set_status_with_toast("Could not save main.rs: disk full".to_owned(), 1_000, true);
    let first_id = app.status_toasts[0].id;
    let first_created = app.status_toasts[0].created;

    app.set_status_with_toast("  Could not save main.rs: disk full  ".to_owned(), 1_005, true);

    assert_eq!(app.status_toasts.len(), 1);
    assert_eq!(app.status_toasts[0].id, first_id);
    assert!(app.status_toasts[0].created > first_created);
}

#[test]
fn ingest_ignores_unchanged_status_between_frames() {
    let mut app = app_for_test("workspace");
    app.set_status_with_toast("Saved settings".to_owned(), 1_000, false);

    app.ingest_status_toast(2_000, false);

    assert_eq!(app.status_toasts.len(), 1);
}

#[test]
fn toast_stack_keeps_only_the_newest_toasts() {
    let mut app = app_for_test("workspace");
    for index in 0..(MAX_TOASTS + 3) {
        app.set_status_with_toast(format!("status {index}"), 1_000 + index as u64, false);
    }
    assert_eq!(app.status_toasts.len(), MAX_TOASTS);
    assert_eq!(app.status_toasts[0].message, format!("status {}", MAX_TOASTS + 2));
    app.set_status_with_toast("   ".to_owned(), 2_000, false);
    assert_eq!(app.status_toasts.len(), MAX_TOASTS);
}

#[test]
fn toast_lifetimes_and_ids() {
    assert_eq!(toast_ttl(false), 6_000);
    assert_eq!(toast_ttl(true), 30_000);
    assert!(toast_is_alive(1_000, 6_999, false));
    assert!(!toast_is_alive(1_000, 7_000, false));
    assert!(toast_is_alive(1_000, 30_999, true));
    assert!(toast_is_alive(5_000, 1_000, false));
    let mut counter = u64::MAX;
    assert_eq!(next_toast_id(&mut counter), u64::MAX);
    assert_eq!(counter, 0);
}

#[test]
fn spawn_index_launches_once_and_queues_while_in_flight() {
    let mut app = app_for_test("workspace");
    app.spawn_index();
    assert_eq!(app.launches, vec![TaskLaunch::FullIndex { request_id: 1 }]);
    app.spawn_index();
    assert_eq!(app.launches.len(), 1);
    assert!(app.workspace_index.queued);
    assert_eq!(app.workspace_index.active_request_id, 2);
    assert_eq!(app.workspace_index.in_flight_request_id, Some(1));
    assert!(app.finish_workspace_index_request(1));
    assert_eq!(app.workspace_index.in_flight_request_id, None);
    assert!(!app.workspace_index.queued);
    app.spawn_index();
    assert_eq!(app.launches.len(), 2);
    assert!(!app.finish_workspace_index_request(1));
}

#[test]
fn spawn_index_without_folder_reports_no_folder() {
    let mut app = KuroyaApp::new("workspace", true, true, AppSettings::defaults());
    app.spawn_index();
    assert!(app.launches.is_empty());
    assert_eq!(app.status, "No folder open");
    assert_eq!(app.workspace_index.active_request_id, 1);
}

#[test]
fn incremental_index_patches_small_batches_of_a_warm_index() {
    let mut app = app_for_test("/ws");
    app.index_warm = true;
    app.indexed_files = 1_000;
    app.spawn_incremental_index(vec!["/ws/src/a.rs".to_owned()]);
    assert_eq!(
        app.launches,
        vec![TaskLaunch::IncrementalIndex { request_id: 1, paths: vec!["/ws/src/a.rs".to_owned()] }]
    );

    let mut cold = app_for_test("/ws");
    cold.spawn_incremental_index(vec!["/ws/src/a.rs".to_owned()]);
    assert_eq!(cold.launches, vec![TaskLaunch::FullIndex { request_id: 1 }]);

    let mut root_batch = app_for_test("/ws");
    root_batch.index_warm = true;
    root_batch.indexed_files = 1_000;
    root_batch.spawn_incremental_index(vec!["/ws/".to_owned()]);
    assert_eq!(root_batch.launches, vec![TaskLaunch::FullIndex { request_id: 1 }]);
}

#[test]
fn git_scan_respects_settings_and_scoped_refresh_needs_a_matching_snapshot() {
    let mut app = app_for_test("/ws");
    app.settings.git_enabled = false;
    app.git_root = Some("/ws".to_owned());
    assert!(!app.spawn_git_scan());
    assert_eq!(app.git_root, None);
    assert!(app.launches.is_empty());

    let mut app = app_for_test("/ws");
    app.git_root = Some("/ws".to_owned());
    assert!(app.spawn_git_refresh_for_saved_path("/ws/src/main.rs", Some("/ws/".to_owned())));
    assert_eq!(
        app.launches,
        vec![TaskLaunch::GitScopedRefresh { request_id: 1, paths: vec!["/ws/src/main.rs".to_owned()] }]
    );
    assert!(app.finish_git_scan_request(1) == false);
    assert!(app.spawn_git_refresh_for_saved_path("/elsewhere/main.rs", None));
    assert_eq!(app.launches[1], TaskLaunch::GitScan { request_id: 2 });

    let mut ignored = app_for_test("/ws/repo");
    ignored.git_root = Some("/ws/repo".to_owned());
    ignored.settings.git_ignored_repositories = vec![" repo ".to_owned()];
    ignored.sync_git_repository_filters_state();
    assert_eq!(ignored.status, "Git repository ignored by git.ignoredRepositories");
    assert_eq!(ignored.git_root, None);

    let mut disabled = app_for_test("/ws");
    disabled.settings.git_autorefresh = false;
    assert!(!disabled.spawn_git_auto_refresh());
    assert!(!disabled.spawn_git_refresh_for_changed_paths(vec!["/ws/a".to_owned()], None));
    assert!(disabled.launches.is_empty());
}

#[test]
fn debounced_workspace_refresh_flushes_once_due() {
    let mut app = app_for_test("/ws");
    app.index_warm = true;
    app.indexed_files = 1_000;
    app.git_root = Some("/ws".to_owned());
    app.schedule_workspace_refresh_with_paths(vec!["/ws/src/a.rs".to_owned()], 10_000);
    app.schedule_workspace_refresh_with_paths(vec!["/ws/src/b.rs".to_owned()], 10_100);
    assert_eq!(app.workspace_refresh_wakeup(), Some(10_350));
    assert_eq!(app.flush_pending_workspace_refresh(10_349, Some("/ws".to_owned())), 0);
    assert_eq!(app.flush_pending_workspace_refresh(10_350, Some("/ws".to_owned())), 2);
    assert!(app.pending_workspace_refresh.is_none());
    let paths = vec!["/ws/src/a.rs".to_owned(), "/ws/src/b.rs".to_owned()];
    assert_eq!(
        app.launches,
        vec![
            TaskLaunch::IncrementalIndex { request_id: 1, paths: paths.clone() },
            TaskLaunch::GitScopedRefresh { request_id: 1, paths },
        ]
    );
    assert_eq!(app.workspace_refresh_wakeup(), None);
}

#[test]
fn plugin_settings_follow_trust_and_the_enabled_setting() {
    let mut untrusted = KuroyaApp::new("/ws", false, false, AppSettings::defaults());
    untrusted.plugin_state.plugins = vec!["alpha".to_owned()];
    untrusted.sync_plugin_settings_state();
    assert_eq!(untrusted.status, "Trust this workspace to enable workspace plugins");
    assert!(!untrusted.workspace_plugins_state_present());

    let mut app = app_for_test("/ws");
    app.schedule_workspace_plugin_reload(1_000);
    assert_eq!(app.workspace_plugin_reload_wakeup(), Some(1_250));
    assert_eq!(app.flush_pending_workspace_plugin_reload(1_100), 0);
    assert_eq!(app.flush_pending_workspace_plugin_reload(1_250), 1);
    assert_eq!(app.launches, vec![TaskLaunch::PluginDiscovery { request_id: 1 }]);
    assert!(app.pending_workspace_plugin_reload.is_none());

    app.settings.plugins_enabled = false;
    app.sync_plugin_settings_state();
    assert_eq!(app.status, "Plugins are disabled");
    assert_eq!(app.workspace_plugins.in_flight_request_id, None);
}

#[test]
fn project_search_reruns_after_index_only_with_a_query() {
    let mut app = app_for_test("/ws");
    app.project_search = true;
    app.project_index_generation = 1;
    app.project_search_query = "  ".to_owned();
    assert!(!app.project_search_should_refresh_after_index());
    app.project_search_query = "needle".to_owned();
    assert!(app.project_search_should_refresh_after_index());
    app.spawn_index();
    assert!(!app.project_search_should_refresh_after_index());
}

fn toast(id: u64, error: bool, created: u64) -> StatusToast {
    StatusToast { id, message: format!("toast {id}"), error, created }
}

#[test]
fn expired_toasts_are_pruned_and_errors_linger() {
    let mut app = app_for_test("workspace");
    app.status_toasts = vec![toast(1, false, 1_000), toast(2, true, 1_000), toast(3, false, 6_000)];

    app.prune_status_toasts(6_999);
    assert_eq!(app.status_toasts.iter().map(|t| t.id).collect::<Vec<_>>(), vec![1, 2, 3]);

    app.prune_status_toasts(7_000);
    assert_eq!(app.status_toasts.iter().map(|t| t.id).collect::<Vec<_>>(), vec![2, 3]);

    app.prune_status_toasts(31_000);
    assert!(app.status_toasts.is_empty());
}

#[test]
fn clicked_toasts_are_dismissed_in_place() {
    let mut app = app_for_test("workspace");
    app.status_toasts = vec![toast(1, false, 0), toast(2, true, 0), toast(3, false, 0)];

    app.dismiss_status_toasts(&[2, 9]);
    assert_eq!(app.status_toasts.iter().map(|t| t.id).collect::<Vec<_>>(), vec![1, 3]);

    app.dismiss_status_toasts(&[]);
    assert_eq!(app.status_toasts.len(), 2);
    assert_eq!(app.status_toasts[1].message, "toast 3");
}
