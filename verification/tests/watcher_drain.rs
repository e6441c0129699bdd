use kuroya_logic::watcher_drain::{
    changes_touch_git_dirs, drain_file_watcher, WatchedChanges, WorkspaceRefresh,
};

fn nothing_watched() -> WatchedChanges {
    WatchedChanges {
        settings_changed: false,
        tasks_changed: false,
        plugins_changed: false,
        git_metadata_changed: false,
        workspace_refresh_needed: false,
        has_project_paths: false,
    }
}

fn strings(items: &[&str]) -> Vec<String> {
    items.iter().map(|item| (*item).to_owned()).collect()
}

#[test]
fn empty_watcher_batch_plans_nothing() {
    assert_eq!(drain_file_watcher(&[], false, 0, nothing_watched(), &[], 0), None);
}

#[test]
fn overflowed_watcher_batch_reloads_everything_and_rewalks() {
    let changed = strings(&["/work/src/a.rs", "/work/src/b.rs"]);
    let plan = drain_file_watcher(&changed, true, 2, nothing_watched(), &[], 0)
        .expect("an overflow always plans work");
    assert_eq!(plan.changed_count, 3);
    assert!(plan.reload_settings);
    assert!(plan.load_workspace_tasks);
    assert!(plan.reload_workspace_plugins);
    assert!(!plan.refresh_git);
    assert_eq!(plan.workspace_refresh, WorkspaceRefresh::Full);
    assert_eq!(
        plan.status.as_deref(),
        Some("Filesystem watcher missed changes; refreshing workspace and checking 2 open buffer paths")
    );

    let plan = drain_file_watcher(&[], true, 1, nothing_watched(), &[], 0)
        .expect("an overflow with no paths still plans work");
    assert_eq!(plan.changed_count, 1);
    assert_eq!(
        plan.status.as_deref(),
        Some("Filesystem watcher missed changes; refreshing workspace and checking 1 open buffer path")
    );
}

#[test]
fn project_batch_refreshes_changed_paths_and_reports_dirty_buffers() {
    let changed = strings(&["/work/src/a.rs"]);
    let watched = WatchedChanges {
        workspace_refresh_needed: true,
        has_project_paths: true,
        ..nothing_watched()
    };
    let plan = drain_file_watcher(&changed, false, 0, watched, &[], 1).unwrap();
    assert_eq!(plan.changed_count, 1);
    assert!(!plan.reload_settings && !plan.load_workspace_tasks && !plan.reload_workspace_plugins);
    assert_eq!(plan.workspace_refresh, WorkspaceRefresh::ProjectPaths);
    assert_eq!(
        plan.status.as_deref(),
        Some("1 filesystem change detected; 1 dirty buffer changed on disk")
    );

    let clean = drain_file_watcher(&changed, false, 0, watched, &[], 0).unwrap();
    assert_eq!(clean.status, None);
}

#[test]
fn non_project_batch_only_reloads_what_it_touched() {
    let changed = strings(&["/work/.kuroya/settings.json"]);
    let watched = WatchedChanges { settings_changed: true, ..nothing_watched() };
    let plan = drain_file_watcher(&changed, false, 0, watched, &[], 3).unwrap();
    assert!(plan.reload_settings);
    assert!(!plan.load_workspace_tasks);
    assert_eq!(plan.status, None);
    assert_eq!(plan.workspace_refresh, WorkspaceRefresh::Skip);
}

#[test]
fn git_dirs_outside_the_workspace_refresh_git_status() {
    let git_dirs = strings(&["/repo/.git"]);
    let changed = strings(&["/repo/.git/HEAD"]);
    assert!(changes_touch_git_dirs(&git_dirs, &changed));
    assert!(!changes_touch_git_dirs(&git_dirs, &strings(&["/repo/src/main.rs"])));
    assert!(!changes_touch_git_dirs(&[], &changed));

    let plan = drain_file_watcher(&changed, false, 0, nothing_watched(), &git_dirs, 0).unwrap();
    assert!(plan.refresh_git);
    let plan = drain_file_watcher(
        &changed,
        false,
        0,
        WatchedChanges { git_metadata_changed: true, ..nothing_watched() },
        &[],
        0,
    )
    .unwrap();
    assert!(plan.refresh_git);
}
