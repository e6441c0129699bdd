use kuroya_logic::project_search_keys::open_project_search_target;
use kuroya_logic::app_state::{AppSettings, KuroyaApp, TaskLaunch};
use kuroya_logic::project_search_keys::{
    spawn_project_search, ProjectSearchPanel,
};
use std::collections::VecDeque;
use kuroya_logic::project_search_keys::{
    current_project_search_key, goto_project_search_result, project_search_key_matches_submitted,
    project_search_result_jump, project_search_results_match_current_inputs,
    project_search_results_match_current_query, sync_project_search_after_settings_change,
    ProjectSearchGoto, ProjectSearchKey, ProjectSearchResultJump, SearchMatch,
};
use kuroya_logic::paths::paths_match;
use kuroya_logic::project_search_state::{
    normalize_project_search_request_query, parse_project_globs, MAX_PROJECT_SEARCH_QUERY_CHARS,
};

const MAX_FILE_BYTES: u64 = 1024 * 1024;
const MAX_RESULTS: usize = 2000;

fn result_key(query: &str) -> ProjectSearchKey {
    ProjectSearchKey {
        root: "workspace".to_owned(),
        query: query.to_owned(),
        case_sensitive: false,
        whole_word: false,
        regex: false,
        include_globs: Vec::new(),
        exclude_globs: Vec::new(),
        max_file_bytes: MAX_FILE_BYTES,
        max_results: MAX_RESULTS,
    }
}

fn panel_key(query: &str, case_sensitive: bool, regex: bool, inclusions: &str, exclusions: Vec<String>) -> ProjectSearchKey {
    current_project_search_key(
        "workspace",
        query,
        case_sensitive,
        false,
        regex,
        inclusions,
        exclusions,
        MAX_FILE_BYTES,
        MAX_RESULTS,
    )
}

fn search_match(path: &str, line: usize, column: usize) -> SearchMatch {
    SearchMatch { path: path.to_owned(), line, column, preview: "needle".to_owned() }
}

#[test]
fn project_search_result_jump_captures_only_open_target_fields() {
    let matches = vec![SearchMatch {
        path: "workspace/src/main.rs".to_owned(),
        line: 3,
        column: 5,
        preview: "needle preview that is not needed for opening".repeat(32),
    }];

    assert_eq!(
        project_search_result_jump(&matches, 0),
        Some(ProjectSearchResultJump { path: "workspace/src/main.rs".to_owned(), line: 3, column: 5 })
    );
    assert_eq!(project_search_result_jump(&matches, 1), None);
}

#[test]
fn project_search_results_match_current_query_checks_options_before_globs() {
    let exclude = vec!["target/**".to_owned()];
    let mut result = result_key("needle");
    result.include_globs = vec!["src/**/*.rs".to_owned()];
    result.exclude_globs = exclude.clone();

    let current = panel_key(" needle ", false, false, " src/**/*.rs, src/**/*.rs ", exclude.clone());
    assert!(project_search_results_match_current_query(&result, &current, 4, 4));

    let current = panel_key(" needle ", true, false, " src/**/*.rs, src/**/*.rs ", exclude);
    assert!(!project_search_results_match_current_query(&result, &current, 4, 4));
}

#[test]
fn project_search_results_match_current_query_normalizes_current_text() {
    let current = panel_key(" needle\n  value ", false, false, "", Vec::new());

    assert!(project_search_results_match_current_query(&result_key("needle value"), &current, 1, 1));
    assert!(!project_search_results_match_current_query(&result_key("needle  value"), &current, 1, 1));
}

#[test]
fn generation_only_staleness_keeps_matching_results_openable() {
    let current = panel_key("needle", false, false, "", Vec::new());
    let result = result_key("needle");

    assert!(!project_search_results_match_current_query(&result, &current, 1, 2));
    assert!(project_search_results_match_current_inputs(&result, &current));
}

#[test]
fn project_search_results_match_current_query_checks_regex_toggle() {
    let mut result = result_key("needle");

    assert!(project_search_results_match_current_query(
        &result,
        &panel_key("needle", false, false, "", Vec::new()),
        0,
        0
    ));
    assert!(!project_search_results_match_current_query(
        &result,
        &panel_key("needle", false, true, "", Vec::new()),
        0,
        0
    ));
    result.regex = true;
    assert!(project_search_results_match_current_query(
        &result,
        &panel_key("needle", false, true, "", Vec::new()),
        0,
        0
    ));
}

#[test]
fn request_query_is_single_line_collapsed_and_bounded() {
    let raw = format!("  alpha\n  beta\u{202e} {}  ", "query-fragment-".repeat(MAX_PROJECT_SEARCH_QUERY_CHARS));
    let query = normalize_project_search_request_query(&raw).expect("request query");

    assert!(query.starts_with("alpha beta "));
    assert!(!query.contains('\n'));
    assert!(!query.contains('\u{202e}'));
    assert!(query.ends_with("..."));
    assert!(query.chars().count() <= MAX_PROJECT_SEARCH_QUERY_CHARS);
    assert_eq!(normalize_project_search_request_query(" \n\t "), None);
}

#[test]
fn sync_project_search_after_settings_change_respawns_when_effective_settings_change() {
    let submitted = Some(panel_key("needle", false, false, "", Vec::new()));
    let no_panel_globs: Vec<String> = Vec::new();

    let mut more_results = panel_key("needle", false, false, "", Vec::new());
    more_results.max_results += 1;
    assert!(sync_project_search_after_settings_change(
        true,
        &more_results,
        &submitted,
        &no_panel_globs,
        &no_panel_globs
    ));

    let merged_exclude = panel_key("needle", false, false, "", vec!["ignored".to_owned()]);
    assert!(sync_project_search_after_settings_change(
        true,
        &merged_exclude,
        &submitted,
        &no_panel_globs,
        &no_panel_globs
    ));
}

#[test]
fn sync_project_search_after_settings_change_is_noop_until_effective_inputs_change() {
    let submitted = Some(panel_key("needle", false, false, "", Vec::new()));
    let no_panel_globs: Vec<String> = Vec::new();
    let unchanged = panel_key("needle", false, false, "", Vec::new());

    assert!(!sync_project_search_after_settings_change(
        true,
        &unchanged,
        &submitted,
        &no_panel_globs,
        &no_panel_globs
    ));

    let mut more_results = panel_key("needle", false, false, "", Vec::new());
    more_results.max_results += 1;
    assert!(!sync_project_search_after_settings_change(
        false,
        &more_results,
        &submitted,
        &no_panel_globs,
        &no_panel_globs
    ));
    assert!(sync_project_search_after_settings_change(
        true,
        &more_results,
        &submitted,
        &no_panel_globs,
        &no_panel_globs
    ));
}

#[test]
fn settings_change_does_not_rerun_a_search_with_other_panel_inputs() {
    let submitted = Some(panel_key("needle", false, false, "src/**", vec!["a".to_owned(), "target/**".to_owned()]));
    let panel_include = parse_project_globs("src/**");
    let panel_exclude = parse_project_globs("target/**");

    let mut edited_query = panel_key("other", false, false, "src/**", vec!["target/**".to_owned()]);
    edited_query.max_results += 1;
    assert!(!sync_project_search_after_settings_change(
        true,
        &edited_query,
        &submitted,
        &panel_include,
        &panel_exclude
    ));

    let new_settings_exclude = panel_key("needle", false, false, "src/**", vec!["b".to_owned(), "target/**".to_owned()]);
    assert!(sync_project_search_after_settings_change(
        true,
        &new_settings_exclude,
        &submitted,
        &panel_include,
        &panel_exclude
    ));
    assert!(!sync_project_search_after_settings_change(
        true,
        &new_settings_exclude,
        &submitted,
        &panel_include,
        &parse_project_globs("build/**")
    ));
    assert!(!project_search_key_matches_submitted(&None, &new_settings_exclude));
}

#[test]
fn project_search_goto_refuses_stale_or_empty_results() {
    let matches = vec![search_match("workspace/src/main.rs", 2, 8)];

    assert_eq!(
        goto_project_search_result(false, "   ", &matches, 0, 1),
        ProjectSearchGoto::Refused { status: "No project search query".to_owned() }
    );
    assert_eq!(
        goto_project_search_result(false, "needle", &matches, 0, 1),
        ProjectSearchGoto::Refused { status: "Run project search to refresh results".to_owned() }
    );
    assert_eq!(
        goto_project_search_result(true, "needle", &[], 0, 1),
        ProjectSearchGoto::Refused { status: "No project search matches".to_owned() }
    );
}

#[test]
fn project_search_goto_moves_with_wraparound_and_opens_the_match() {
    let matches = vec![
        search_match("a.rs", 1, 1),
        search_match("b.rs", 2, 3),
        search_match("c.rs", 4, 5),
    ];

    assert_eq!(
        goto_project_search_result(true, "needle", &matches, 0, 1),
        ProjectSearchGoto::Open {
            selected: 1,
            jump: ProjectSearchResultJump { path: "b.rs".to_owned(), line: 2, column: 3 },
        }
    );
    assert_eq!(
        goto_project_search_result(true, "needle", &matches, 0, -1),
        ProjectSearchGoto::Open {
            selected: 2,
            jump: ProjectSearchResultJump { path: "c.rs".to_owned(), line: 4, column: 5 },
        }
    );
    assert_eq!(
        goto_project_search_result(true, "needle", &matches, usize::MAX, 1),
        ProjectSearchGoto::Open {
            selected: 0,
            jump: ProjectSearchResultJump { path: "a.rs".to_owned(), line: 1, column: 1 },
        }
    );
}

fn empty_panel() -> ProjectSearchPanel {
    ProjectSearchPanel {
        case_sensitive: false,
        whole_word: false,
        regex: false,
        include_text: String::new(),
        exclude_text: String::new(),
        recent: VecDeque::new(),
        submitted_key: None,
        result_key: result_key("old"),
        result_matches: vec![search_match("old.rs", 1, 1)],
        result_index_generation: 0,
        index_generation: 3,
        selected: 2,
    }
}

#[test]
fn spawn_project_search_with_a_blank_query_clears_results_and_cancels() {
    let mut app = KuroyaApp::new("workspace", false, true, AppSettings::defaults());
    app.project_search_query = "  \n ".to_owned();
    let mut panel = empty_panel();

    assert!(spawn_project_search(&mut app, &mut panel, Vec::new(), MAX_FILE_BYTES, MAX_RESULTS).is_none());

    assert_eq!(app.project_search_active_request_id, 1);
    assert!(panel.submitted_key.is_none());
    assert!(panel.result_matches.is_empty());
    assert_eq!(panel.result_key.query, "");
    assert_eq!(panel.result_index_generation, 3);
    assert_eq!(panel.selected, 0);
}

#[test]
fn spawn_project_search_defers_until_workspace_index_is_available() {
    let mut app = KuroyaApp::new("workspace", false, true, AppSettings::defaults());
    app.project_search_query = "needle".to_owned();
    let mut panel = empty_panel();

    assert!(spawn_project_search(&mut app, &mut panel, Vec::new(), MAX_FILE_BYTES, MAX_RESULTS).is_none());

    assert_eq!(app.status, "Indexing workspace before search");
    assert_eq!(app.launches, vec![TaskLaunch::FullIndex { request_id: 1 }]);
    assert!(panel.submitted_key.is_none());
}

#[test]
fn spawn_project_search_records_submitted_key_matching_current_inputs() {
    let mut app = KuroyaApp::new("workspace", false, true, AppSettings::defaults());
    app.project_index_generation = 1;
    app.project_search_query = " needle ".to_owned();
    let mut panel = empty_panel();
    panel.include_text = " src/**/*.rs, src/**/*.rs ".to_owned();
    let exclude = vec!["target/**".to_owned()];

    let launch = spawn_project_search(&mut app, &mut panel, exclude.clone(), MAX_FILE_BYTES, MAX_RESULTS)
        .expect("search should start");

    let current = panel_key(" needle ", false, false, " src/**/*.rs, src/**/*.rs ", exclude);
    assert_eq!(launch.request_id, 1);
    assert_eq!(launch.key, current);
    assert_eq!(launch.index_generation, 3);
    assert_eq!(panel.submitted_key, Some(current.clone()));
    assert!(project_search_key_matches_submitted(&panel.submitted_key, &current));
    assert_eq!(panel.result_key, current);
    assert!(panel.result_matches.is_empty());
    assert_eq!(app.status, "Searching for `needle`");
    assert_eq!(app.project_search_cancel_generation, 1);
    assert_eq!(panel.recent.len(), 1);
    assert_eq!(panel.recent[0].query, "needle");
}

#[test]
fn project_search_result_jump_records_history_without_filesystem_precheck() {
    // The match points at a file that does not exist on disk: the jump is
    // still produced, since nothing checks the file system first.
    let matches = vec![SearchMatch {
        path: "workspace/src/indexed-result.rs".to_owned(),
        line: 3,
        column: 5,
        preview: "needle".to_owned(),
    }];

    match goto_project_search_result(true, "needle", &matches, 0, 1) {
        ProjectSearchGoto::Open { selected, jump } => {
            assert_eq!(selected, 0);
            assert_eq!(jump.path, "workspace/src/indexed-result.rs");
            assert_eq!((jump.line, jump.column), (3, 5));
        }
        other => panic!("expected the match to open, got {other:?}"),
    }
}

#[test]
fn project_search_result_jump_reuses_lexically_equivalent_open_buffer() {
    let open_path = "workspace/src/main.rs";
    let matches = vec![SearchMatch {
        path: "workspace/src/../src/main.rs".to_owned(),
        line: 2,
        column: 8,
        preview: "second needle".to_owned(),
    }];

    match goto_project_search_result(true, "needle", &matches, 0, 1) {
        ProjectSearchGoto::Open { jump, .. } => {
            assert_eq!((jump.line, jump.column), (2, 8));
            assert!(paths_match(&jump.path, open_path));
        }
        other => panic!("expected the match to open, got {other:?}"),
    }
}

#[test]
fn opening_a_search_target_selects_the_searched_text() {
    let request = open_project_search_target(
        "needle",
        ProjectSearchResultJump { path: "workspace/src/indexed-result.rs".to_owned(), line: 3, column: 5 },
    );
    assert_eq!(request.path, "workspace/src/indexed-result.rs");
    assert_eq!((request.line, request.column), (3, 5));
    assert_eq!(request.selection_length, "needle".chars().count());
    assert_eq!(
        open_project_search_target("naïve", ProjectSearchResultJump { path: "a.rs".to_owned(), line: 1, column: 1 })
            .selection_length,
        5
    );
}
