use kuroya_logic::app_state::{AppSettings, KuroyaApp, TaskLaunch};
use kuroya_logic::labels::push_app_preference_save_failed_status;
use kuroya_logic::paths::{
    lexical_normalize_startup_path, paths_match, push_normalized_path_key_text, resolved_path_key,
    resolved_paths_match,
};
use kuroya_logic::settings_text::{bounded_settings_singleline_input, SETTINGS_TEXT_INPUT_MAX_CHARS};

#[test]
fn lexical_normalization_resolves_dots_lexically() {
    assert_eq!(lexical_normalize_startup_path("a/./b/../c"), "a/c");
    assert_eq!(lexical_normalize_startup_path("/x/../y/"), "/y");
    assert_eq!(lexical_normalize_startup_path("../a/.."), "..");
    assert_eq!(lexical_normalize_startup_path("a/.."), ".");
    assert_eq!(lexical_normalize_startup_path("/.."), "/");
}

#[test]
fn path_key_text_turns_backslashes_into_slashes() {
    let mut key = "C:".to_owned();
    push_normalized_path_key_text(&mut key, "\\work\\repo");
    assert_eq!(key, "C:/work/repo");
}

#[test]
fn singleline_input_keeps_edges_and_folds_line_breaks() {
    assert_eq!(bounded_settings_singleline_input("  a\nb\tc  "), "  a b c  ");
    let long = "x".repeat(SETTINGS_TEXT_INPUT_MAX_CHARS + 10);
    assert_eq!(bounded_settings_singleline_input(&long).chars().count(), SETTINGS_TEXT_INPUT_MAX_CHARS);
}

#[test]
fn app_preference_save_failure_is_appended_to_the_status() {
    let mut status = "Saved settings".to_owned();
    push_app_preference_save_failed_status(&mut status, "disk\nfull");
    assert_eq!(status, "Saved settings; app preference save failed: disk full");
}

#[test]
fn workspace_refresh_schedule_keeps_the_first_change_time() {
    let mut app = KuroyaApp::new("workspace", false, true, AppSettings::defaults());
    app.schedule_workspace_refresh(100);
    app.schedule_workspace_refresh(250);
    let pending = app.pending_workspace_refresh.as_ref().expect("refresh pending");
    assert_eq!(pending.first_seen, 100);
    assert_eq!(pending.last_seen, 250);
    assert!(pending.project_paths.is_empty());
}

#[test]
fn plugin_discovery_completion_ignores_unrelated_requests() {
    let mut app = KuroyaApp::new("workspace", false, true, AppSettings::defaults());
    app.spawn_plugin_discovery();
    assert_eq!(app.launches, vec![TaskLaunch::PluginDiscovery { request_id: 1 }]);
    assert!(!app.finish_workspace_plugin_discovery_request(7));
    assert_eq!(app.workspace_plugins.in_flight_request_id, Some(1));
    assert!(!app.finish_workspace_plugin_discovery_request(1));
    assert_eq!(app.workspace_plugins.in_flight_request_id, None);
}

#[test]
fn resolved_path_keys_prefer_the_canonical_path() {
    // A symlinked workspace resolves to its real folder.
    assert!(resolved_paths_match(
        "/home/me/link-to-repo",
        Some("/srv/repo"),
        "/srv/repo",
        Some("/srv/repo"),
    ));
    assert!(!paths_match("/home/me/link-to-repo", "/srv/repo"));
    // Without a canonical form the lexical key stands in.
    assert_eq!(resolved_path_key(None, "work/./src/../src/"), "work/src");
    assert_eq!(resolved_path_key(Some("/srv/repo/"), "ignored"), "/srv/repo");
    assert!(resolved_paths_match("work/src/..", None, "work", Some("work")));
}
