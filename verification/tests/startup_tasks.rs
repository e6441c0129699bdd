use kuroya_logic::debounce::{
    pending_refresh_is_due, pending_refresh_wakeup_at, workspace_plugin_reload_due,
    workspace_plugin_reload_wakeup_at, PendingWorkspacePluginReload, PendingWorkspaceRefresh,
    WORKSPACE_PLUGIN_RELOAD_DEBOUNCE, WORKSPACE_PLUGIN_RELOAD_MAX_WAIT, WORKSPACE_REFRESH_DEBOUNCE,
    WORKSPACE_REFRESH_MAX_WAIT,
};
use kuroya_logic::startup_requests::{
    begin_git_scan_request_state, begin_workspace_index_request_state,
    begin_workspace_plugin_discovery_request_state, finish_git_scan_request_state,
    finish_workspace_index_request_state, finish_workspace_plugin_discovery_request_state,
    git_auto_refresh_enabled, git_scoped_refresh_is_supported, invalidate_git_scan_request_state,
    invalidate_startup_task_request_state, invalidate_workspace_index_request_state,
    invalidate_workspace_plugin_discovery_request_state, next_startup_task_request_id,
    workspace_plugins_enabled, workspace_plugins_restricted_status,
    workspace_refresh_batch_worth_patching, workspace_refresh_paths_are_incremental,
    GIT_SCOPED_REFRESH_MAX_PATHS, WORKSPACE_INCREMENTAL_CHUNK_PATHS,
    WORKSPACE_INCREMENTAL_INDEX_MAX_PATHS,
};

#[test]
fn workspace_plugin_reload_waits_for_debounce_window() {
    let scheduled = 1_000_000u64;
    let pending = PendingWorkspacePluginReload::new(scheduled);

    assert!(!workspace_plugin_reload_due(
        None,
        scheduled + WORKSPACE_PLUGIN_RELOAD_DEBOUNCE,
        WORKSPACE_PLUGIN_RELOAD_DEBOUNCE,
        WORKSPACE_PLUGIN_RELOAD_MAX_WAIT
    ));
    assert!(!workspace_plugin_reload_due(
        Some(pending),
        scheduled + WORKSPACE_PLUGIN_RELOAD_DEBOUNCE - 1,
        WORKSPACE_PLUGIN_RELOAD_DEBOUNCE,
        WORKSPACE_PLUGIN_RELOAD_MAX_WAIT
    ));
    assert!(workspace_plugin_reload_due(
        Some(pending),
        scheduled + WORKSPACE_PLUGIN_RELOAD_DEBOUNCE,
        WORKSPACE_PLUGIN_RELOAD_DEBOUNCE,
        WORKSPACE_PLUGIN_RELOAD_MAX_WAIT
    ));
}

#[test]
fn workspace_plugin_reload_max_wait_prevents_debounce_starvation() {
    let scheduled = 1_000_000u64;
    let mut pending = PendingWorkspacePluginReload::new(scheduled);
    for elapsed in 1..WORKSPACE_PLUGIN_RELOAD_MAX_WAIT {
        pending.record_change(scheduled + elapsed);
        if elapsed % 250 == 0 {
            assert!(
                !workspace_plugin_reload_due(
                    Some(pending),
                    scheduled + elapsed,
                    WORKSPACE_PLUGIN_RELOAD_DEBOUNCE,
                    WORKSPACE_PLUGIN_RELOAD_MAX_WAIT
                ),
                "reload fired early at {elapsed}ms"
            );
        }
    }

    assert!(workspace_plugin_reload_due(
        Some(pending),
        scheduled + WORKSPACE_PLUGIN_RELOAD_MAX_WAIT,
        WORKSPACE_PLUGIN_RELOAD_DEBOUNCE,
        WORKSPACE_PLUGIN_RELOAD_MAX_WAIT
    ));
}

#[test]
fn workspace_refresh_waits_for_debounce_window() {
    let scheduled = 1_000_000u64;
    let pending = PendingWorkspaceRefresh::new(scheduled);

    assert!(!pending_refresh_is_due(
        &pending,
        scheduled + WORKSPACE_REFRESH_DEBOUNCE - 1
    ));
    assert!(pending_refresh_is_due(
        &pending,
        scheduled + WORKSPACE_REFRESH_DEBOUNCE
    ));
}

#[test]
fn workspace_refresh_max_wait_prevents_debounce_starvation() {
    let scheduled = 1_000_000u64;
    let mut pending = PendingWorkspaceRefresh::new(scheduled);
    pending.record_change(scheduled + WORKSPACE_REFRESH_MAX_WAIT - 1);

    assert!(pending_refresh_is_due(
        &pending,
        scheduled + WORKSPACE_REFRESH_MAX_WAIT
    ));
}

#[test]
fn workspace_refresh_wakeup_bounds_debounce_by_max_wait() {
    let scheduled = 1_000_000u64;
    let mut pending = PendingWorkspaceRefresh::new(scheduled);

    assert_eq!(
        pending_refresh_wakeup_at(&pending),
        scheduled + WORKSPACE_REFRESH_DEBOUNCE
    );

    pending.record_change(scheduled + WORKSPACE_REFRESH_MAX_WAIT);
    assert_eq!(
        pending_refresh_wakeup_at(&pending),
        scheduled + WORKSPACE_REFRESH_MAX_WAIT
    );
}

#[test]
fn workspace_plugin_reload_wakeup_bounds_debounce_by_max_wait() {
    let scheduled = 1_000_000u64;
    let mut pending = PendingWorkspacePluginReload::new(scheduled);

    assert_eq!(
        workspace_plugin_reload_wakeup_at(
            Some(pending),
            WORKSPACE_PLUGIN_RELOAD_DEBOUNCE,
            WORKSPACE_PLUGIN_RELOAD_MAX_WAIT
        ),
        Some(scheduled + WORKSPACE_PLUGIN_RELOAD_DEBOUNCE)
    );

    pending.record_change(scheduled + WORKSPACE_PLUGIN_RELOAD_MAX_WAIT);
    assert_eq!(
        workspace_plugin_reload_wakeup_at(
            Some(pending),
            WORKSPACE_PLUGIN_RELOAD_DEBOUNCE,
            WORKSPACE_PLUGIN_RELOAD_MAX_WAIT
        ),
        Some(scheduled + WORKSPACE_PLUGIN_RELOAD_MAX_WAIT)
    );
}

#[test]
fn workspace_index_request_starts_when_idle() {
    let mut next_request_id = 0;
    let mut active_request_id = 0;
    let mut in_flight = None;
    let mut queued = false;

    assert_eq!(
        begin_workspace_index_request_state(
            &mut next_request_id,
            &mut active_request_id,
            &mut in_flight,
            &mut queued,
        ),
        Some(1)
    );

    assert_eq!(next_request_id, 1);
    assert_eq!(active_request_id, 1);
    assert_eq!(in_flight, Some(1));
    assert!(!queued);
}

#[test]
fn startup_task_request_ids_wrap_without_zero() {
    assert_eq!(next_startup_task_request_id(0), 1);
    assert_eq!(next_startup_task_request_id(41), 42);
    assert_eq!(next_startup_task_request_id(u64::MAX - 1), u64::MAX);
    assert_eq!(next_startup_task_request_id(u64::MAX), 1);
}

#[test]
fn workspace_index_request_queues_once_while_in_flight() {
    let mut next_request_id = 0;
    let mut active_request_id = 0;
    let mut in_flight = None;
    let mut queued = false;

    assert_eq!(
        begin_workspace_index_request_state(
            &mut next_request_id,
            &mut active_request_id,
            &mut in_flight,
            &mut queued,
        ),
        Some(1)
    );
    assert_eq!(
        begin_workspace_index_request_state(
            &mut next_request_id,
            &mut active_request_id,
            &mut in_flight,
            &mut queued,
        ),
        None
    );
    assert_eq!(
        begin_workspace_index_request_state(
            &mut next_request_id,
            &mut active_request_id,
            &mut in_flight,
            &mut queued,
        ),
        None
    );

    assert_eq!(next_request_id, 1);
    assert_eq!(active_request_id, 1);
    assert_eq!(in_flight, Some(1));
    assert!(queued);
}

#[test]
fn startup_task_queued_request_keeps_saturated_in_flight_id_active() {
    let mut next_request_id = u64::MAX - 1;
    let mut active_request_id = u64::MAX - 1;
    let mut in_flight = None;
    let mut queued = false;

    assert_eq!(
        begin_workspace_index_request_state(
            &mut next_request_id,
            &mut active_request_id,
            &mut in_flight,
            &mut queued,
        ),
        Some(u64::MAX)
    );
    assert_eq!(
        begin_workspace_index_request_state(
            &mut next_request_id,
            &mut active_request_id,
            &mut in_flight,
            &mut queued,
        ),
        None
    );

    assert_eq!(next_request_id, u64::MAX);
    assert_eq!(active_request_id, u64::MAX);
    assert_eq!(in_flight, Some(u64::MAX));
    assert!(queued);

    assert!(finish_workspace_index_request_state(
        &mut in_flight,
        &mut queued,
        u64::MAX,
    ));
    assert_eq!(
        begin_workspace_index_request_state(
            &mut next_request_id,
            &mut active_request_id,
            &mut in_flight,
            &mut queued,
        ),
        Some(1)
    );
    assert_eq!(active_request_id, 1);
    assert_eq!(in_flight, Some(1));
}

#[test]
fn workspace_index_finish_drains_queued_refresh_once() {
    let mut next_request_id = 0;
    let mut active_request_id = 0;
    let mut in_flight = None;
    let mut queued = false;

    assert_eq!(
        begin_workspace_index_request_state(
            &mut next_request_id,
            &mut active_request_id,
            &mut in_flight,
            &mut queued,
        ),
        Some(1)
    );
    assert_eq!(
        begin_workspace_index_request_state(
            &mut next_request_id,
            &mut active_request_id,
            &mut in_flight,
            &mut queued,
        ),
        None
    );

    assert!(finish_workspace_index_request_state(
        &mut in_flight,
        &mut queued,
        1
    ));
    assert_eq!(in_flight, None);
    assert!(!queued);
    assert_eq!(
        begin_workspace_index_request_state(
            &mut next_request_id,
            &mut active_request_id,
            &mut in_flight,
            &mut queued,
        ),
        Some(2)
    );
}

#[test]
fn startup_task_invalidation_does_not_reuse_saturated_in_flight_id() {
    let mut next_request_id = u64::MAX;
    let mut active_request_id = u64::MAX;
    let mut in_flight = Some(u64::MAX);
    let mut queued = true;

    invalidate_startup_task_request_state(
        &mut next_request_id,
        &mut active_request_id,
        &mut in_flight,
        &mut queued,
    );

    assert_eq!(next_request_id, 1);
    assert_eq!(active_request_id, 1);
    assert_eq!(in_flight, None);
    assert!(!queued);
    assert_eq!(
        begin_workspace_plugin_discovery_request_state(
            &mut next_request_id,
            &mut active_request_id,
            &mut in_flight,
            &mut queued,
        ),
        Some(2)
    );
}

#[test]
fn workspace_index_finish_ignores_unrelated_request_id() {
    let mut in_flight = Some(4);
    let mut queued = true;

    assert!(!finish_workspace_index_request_state(
        &mut in_flight,
        &mut queued,
        3
    ));

    assert_eq!(in_flight, Some(4));
    assert!(queued);
}

#[test]
fn workspace_index_invalidation_keeps_request_ids_monotonic() {
    let mut next_request_id = 4;
    let mut active_request_id = 4;
    let mut in_flight = Some(4);
    let mut queued = true;

    invalidate_workspace_index_request_state(
        &mut next_request_id,
        &mut active_request_id,
        &mut in_flight,
        &mut queued,
    );

    assert_eq!(next_request_id, 5);
    assert_eq!(active_request_id, 5);
    assert_eq!(in_flight, None);
    assert!(!queued);
    assert_eq!(
        begin_workspace_index_request_state(
            &mut next_request_id,
            &mut active_request_id,
            &mut in_flight,
            &mut queued,
        ),
        Some(6)
    );
}

#[test]
fn git_scan_request_starts_when_idle() {
    let mut next_request_id = 0;
    let mut active_request_id = 0;
    let mut in_flight = None;
    let mut queued = false;

    assert_eq!(
        begin_git_scan_request_state(
            &mut next_request_id,
            &mut active_request_id,
            &mut in_flight,
            &mut queued,
        ),
        Some(1)
    );

    assert_eq!(next_request_id, 1);
    assert_eq!(active_request_id, 1);
    assert_eq!(in_flight, Some(1));
    assert!(!queued);
}

#[test]
fn git_scan_request_queues_once_while_in_flight() {
    let mut next_request_id = 0;
    let mut active_request_id = 0;
    let mut in_flight = None;
    let mut queued = false;

    assert_eq!(
        begin_git_scan_request_state(
            &mut next_request_id,
            &mut active_request_id,
            &mut in_flight,
            &mut queued,
        ),
        Some(1)
    );
    assert_eq!(
        begin_git_scan_request_state(
            &mut next_request_id,
            &mut active_request_id,
            &mut in_flight,
            &mut queued,
        ),
        None
    );
    assert_eq!(
        begin_git_scan_request_state(
            &mut next_request_id,
            &mut active_request_id,
            &mut in_flight,
            &mut queued,
        ),
        None
    );

    assert_eq!(next_request_id, 1);
    assert_eq!(active_request_id, 1);
    assert_eq!(in_flight, Some(1));
    assert!(queued);
}

#[test]
fn git_scan_finish_drains_queued_refresh_once() {
    let mut next_request_id = 0;
    let mut active_request_id = 0;
    let mut in_flight = None;
    let mut queued = false;

    assert_eq!(
        begin_git_scan_request_state(
            &mut next_request_id,
            &mut active_request_id,
            &mut in_flight,
            &mut queued,
        ),
        Some(1)
    );
    assert_eq!(
        begin_git_scan_request_state(
            &mut next_request_id,
            &mut active_request_id,
            &mut in_flight,
            &mut queued,
        ),
        None
    );

    assert!(finish_git_scan_request_state(
        &mut in_flight,
        &mut queued,
        1
    ));
    assert_eq!(in_flight, None);
    assert!(!queued);
    assert_eq!(
        begin_git_scan_request_state(
            &mut next_request_id,
            &mut active_request_id,
            &mut in_flight,
            &mut queued,
        ),
        Some(2)
    );
}

#[test]
fn git_scan_finish_ignores_unrelated_request_id() {
    let mut in_flight = Some(4);
    let mut queued = true;

    assert!(!finish_git_scan_request_state(
        &mut in_flight,
        &mut queued,
        3
    ));

    assert_eq!(in_flight, Some(4));
    assert!(queued);
}

#[test]
fn git_scan_invalidation_keeps_request_ids_monotonic() {
    let mut next_request_id = 4;
    let mut active_request_id = 4;
    let mut in_flight = Some(4);
    let mut queued = true;

    invalidate_git_scan_request_state(
        &mut next_request_id,
        &mut active_request_id,
        &mut in_flight,
        &mut queued,
    );

    assert_eq!(next_request_id, 5);
    assert_eq!(active_request_id, 5);
    assert_eq!(in_flight, None);
    assert!(!queued);
    assert_eq!(
        begin_git_scan_request_state(
            &mut next_request_id,
            &mut active_request_id,
            &mut in_flight,
            &mut queued,
        ),
        Some(6)
    );
}

#[test]
fn workspace_plugin_discovery_request_starts_when_idle() {
    let mut next_request_id = 0;
    let mut active_request_id = 0;
    let mut in_flight = None;
    let mut queued = false;

    assert_eq!(
        begin_workspace_plugin_discovery_request_state(
            &mut next_request_id,
            &mut active_request_id,
            &mut in_flight,
            &mut queued,
        ),
        Some(1)
    );

    assert_eq!(next_request_id, 1);
    assert_eq!(active_request_id, 1);
    assert_eq!(in_flight, Some(1));
    assert!(!queued);
}

#[test]
fn workspace_plugin_discovery_request_queues_once_while_in_flight() {
    let mut next_request_id = 0;
    let mut active_request_id = 0;
    let mut in_flight = None;
    let mut queued = false;

    assert_eq!(
        begin_workspace_plugin_discovery_request_state(
            &mut next_request_id,
            &mut active_request_id,
            &mut in_flight,
            &mut queued,
        ),
        Some(1)
    );
    assert_eq!(
        begin_workspace_plugin_discovery_request_state(
            &mut next_request_id,
            &mut active_request_id,
            &mut in_flight,
            &mut queued,
        ),
        None
    );
    assert_eq!(
        begin_workspace_plugin_discovery_request_state(
            &mut next_request_id,
            &mut active_request_id,
            &mut in_flight,
            &mut queued,
        ),
        None
    );

    assert_eq!(next_request_id, 1);
    assert_eq!(active_request_id, 1);
    assert_eq!(in_flight, Some(1));
    assert!(queued);
}

#[test]
fn workspace_plugin_discovery_finish_drains_queued_reload_once() {
    let mut next_request_id = 0;
    let mut active_request_id = 0;
    let mut in_flight = None;
    let mut queued = false;

    assert_eq!(
        begin_workspace_plugin_discovery_request_state(
            &mut next_request_id,
            &mut active_request_id,
            &mut in_flight,
            &mut queued,
        ),
        Some(1)
    );
    assert_eq!(
        begin_workspace_plugin_discovery_request_state(
            &mut next_request_id,
            &mut active_request_id,
            &mut in_flight,
            &mut queued,
        ),
        None
    );

    assert!(finish_workspace_plugin_discovery_request_state(
        &mut in_flight,
        &mut queued,
        1
    ));
    assert_eq!(in_flight, None);
    assert!(!queued);
    assert_eq!(
        begin_workspace_plugin_discovery_request_state(
            &mut next_request_id,
            &mut active_request_id,
            &mut in_flight,
            &mut queued,
        ),
        Some(2)
    );
}

#[test]
fn workspace_plugin_discovery_finish_ignores_unrelated_request_id() {
    let mut in_flight = Some(4);
    let mut queued = true;

    assert!(!finish_workspace_plugin_discovery_request_state(
        &mut in_flight,
        &mut queued,
        3
    ));

    assert_eq!(in_flight, Some(4));
    assert!(queued);
}

#[test]
fn workspace_plugin_discovery_invalidation_keeps_request_ids_monotonic() {
    let mut next_request_id = 4;
    let mut active_request_id = 4;
    let mut in_flight = Some(4);
    let mut queued = true;

    invalidate_workspace_plugin_discovery_request_state(
        &mut next_request_id,
        &mut active_request_id,
        &mut in_flight,
        &mut queued,
    );

    assert_eq!(next_request_id, 5);
    assert_eq!(active_request_id, 5);
    assert_eq!(in_flight, None);
    assert!(!queued);
    assert_eq!(
        begin_workspace_plugin_discovery_request_state(
            &mut next_request_id,
            &mut active_request_id,
            &mut in_flight,
            &mut queued,
        ),
        Some(6)
    );
}

#[test]
fn git_auto_refresh_requires_git_and_autorefresh() {
    assert!(git_auto_refresh_enabled(true, true));
    assert!(!git_auto_refresh_enabled(false, true));
    assert!(!git_auto_refresh_enabled(true, false));
    assert!(!git_auto_refresh_enabled(false, false));
}

#[test]
fn workspace_plugins_follow_workspace_trust() {
    assert!(workspace_plugins_enabled(true));
    assert!(!workspace_plugins_enabled(false));
    assert_eq!(
        workspace_plugins_restricted_status(),
        "Trust this workspace to enable workspace plugins"
    );
}

#[test]
fn git_scoped_refresh_is_supported_only_for_scopable_snapshots_and_paths() {
    let workspace = "kuroya-scoped-guard/workspace";
    let inside = "kuroya-scoped-guard/workspace/src/main.rs".to_owned();
    let outside = "kuroya-scoped-guard/other/src/lib.rs".to_owned();
    let max = GIT_SCOPED_REFRESH_MAX_PATHS;

    // Git disabled falls back to the full scan (which invalidates).
    assert!(!git_scoped_refresh_is_supported(
        false,
        Some(workspace),
        Some(workspace),
        std::slice::from_ref(&inside),
        max
    ));
    // A snapshot without a repository falls back.
    assert!(!git_scoped_refresh_is_supported(
        true,
        None,
        Some(workspace),
        std::slice::from_ref(&inside),
        max
    ));
    // A resolved scan root that drifted from the snapshot root falls back.
    assert!(!git_scoped_refresh_is_supported(
        true,
        Some(workspace),
        Some("kuroya-scoped-guard/workspace/nested"),
        std::slice::from_ref(&inside),
        max
    ));
    // No resolved scan root (auto detection disabled or no repository
    // found) falls back.
    assert!(!git_scoped_refresh_is_supported(
        true,
        Some(workspace),
        None,
        std::slice::from_ref(&inside),
        max
    ));
    // Empty and oversized batches fall back.
    assert!(!git_scoped_refresh_is_supported(
        true,
        Some(workspace),
        Some(workspace),
        &[],
        max
    ));
    let oversized = vec![inside.clone(); max + 1];
    assert!(!git_scoped_refresh_is_supported(
        true,
        Some(workspace),
        Some(workspace),
        &oversized,
        max
    ));
    // Paths outside the snapshot root fall back.
    assert!(!git_scoped_refresh_is_supported(
        true,
        Some(workspace),
        Some(workspace),
        std::slice::from_ref(&outside),
        max
    ));

    // The supported case, including a trailing separator on the snapshot
    // root (libgit2 workdirs keep one).
    assert!(git_scoped_refresh_is_supported(
        true,
        Some(workspace),
        Some(workspace),
        std::slice::from_ref(&inside),
        max
    ));
    assert!(git_scoped_refresh_is_supported(
        true,
        Some("kuroya-scoped-guard/workspace/"),
        Some(workspace),
        std::slice::from_ref(&inside),
        max
    ));
}

#[test]
fn workspace_refresh_batch_worth_patching_compares_batch_to_index_size() {

    // Cold index: patching has nothing to patch against.
    assert!(!workspace_refresh_batch_worth_patching(10, 0));
    // Small batches stay incremental even on small indexes.
    assert!(workspace_refresh_batch_worth_patching(64, 10_000));
    // A batch approaching an eighth of the index is cheaper to re-walk.
    assert!(workspace_refresh_batch_worth_patching(120, 1_000));
    assert!(!workspace_refresh_batch_worth_patching(130, 1_000));
    // The patching cap alone bounds batches on huge indexes.
    assert!(workspace_refresh_batch_worth_patching(512, 1_000_000));
}

#[test]
fn workspace_refresh_incremental_gate_accepts_batches_within_the_raised_cap() {

    let root = "C:/ws";
    let batch: Vec<String> = (0..WORKSPACE_INCREMENTAL_INDEX_MAX_PATHS)
        .map(|index| format!("{root}/src/file_{index}.rs"))
        .collect();

    assert!(workspace_refresh_paths_are_incremental(true, root, &batch));
    // One path past the cap re-walks.
    let mut over = batch.clone();
    over.push(format!("{root}/src/overflow.rs"));
    assert!(!workspace_refresh_paths_are_incremental(true, root, &over));
    // Chunking must cover the whole batch.
    assert_eq!(
        WORKSPACE_INCREMENTAL_INDEX_MAX_PATHS,
        WORKSPACE_INCREMENTAL_CHUNK_PATHS * 8
    );
}
