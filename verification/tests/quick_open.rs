use kuroya_logic::quick_open_rank::{
    apply_quick_open_ranked_results, quick_open_rank_step, quick_open_ranking_accepted,
    QuickOpenBackgroundRank, QuickOpenRankKey, QuickOpenRankStep, QuickOpenRankedCache,
};
use kuroya_logic::debounce::{quick_open_rank_debounce_delay, ranking_due};
use kuroya_logic::quick_open::{
    candidates_for_query, quick_open_cache_ranking_inputs_match_ignoring_query_target,
    quick_open_empty_state_message, quick_open_indexing_pending, quick_open_open_target_at,
    quick_open_prepare_visible_rows, quick_open_refresh_cached_query_metadata,
    quick_open_refresh_stale_display_metadata, quick_open_result_label_with_navigation_line_column,
    quick_open_visible_result_count, CandidateSource, NavigationLocation, QuickOpenQuery,
    QuickOpenResult, QuickOpenResultsCache, QUICK_OPEN_RESULT_LABEL_MAX_CHARS,
};

fn quick_open_result(rel: &str, navigation_line_column: Option<(usize, usize)>) -> QuickOpenResult {
    QuickOpenResult {
        rank_score: 120,
        fuzzy_score: 40,
        path: format!("workspace/{rel}"),
        rel: rel.to_owned(),
        navigation_line_column,
    }
}

fn quick_open_results_cache(
    parsed_query: QuickOpenQuery,
    results: Vec<QuickOpenResult>,
    result_labels: Vec<String>,
) -> QuickOpenResultsCache {
    QuickOpenResultsCache {
        query_input: parsed_query.pattern.clone(),
        index_generation: 7,
        recent_files: Vec::new(),
        open_files: Vec::new(),
        query_memory: Vec::new(),
        navigation_back: Vec::new(),
        navigation_forward: Vec::new(),
        current_navigation_location: None,
        parsed_query,
        result_labels,
        results,
    }
}

#[test]
fn quick_open_empty_state_reports_indexing_only_while_first_index_is_pending() {
    assert!(quick_open_indexing_pending(false, 0, Some(7)));
    assert!(!quick_open_indexing_pending(true, 0, Some(7)));
    assert!(!quick_open_indexing_pending(false, 2, Some(7)));
    assert!(!quick_open_indexing_pending(false, 0, None));
    assert_eq!(
        quick_open_empty_state_message(true),
        "Indexing workspace..."
    );
    assert_eq!(quick_open_empty_state_message(false), "No matching files");
}

#[test]
fn quick_open_visible_result_count_requires_result_and_label() {
    let query = QuickOpenQuery {
        pattern: "src".to_owned(),
        line: None,
        column: 1,
    };
    let cache = quick_open_results_cache(
        query,
        vec![
            quick_open_result("src/main.rs", Some((4, 2))),
            quick_open_result("src/lib.rs", Some((8, 1))),
        ],
        vec!["src/main.rs:4:2".to_owned()],
    );

    assert_eq!(quick_open_visible_result_count(&cache), 1);
}

#[test]
fn quick_open_open_target_ignores_rows_without_labels() {
    let query = QuickOpenQuery {
        pattern: "src".to_owned(),
        line: None,
        column: 1,
    };
    let cache = quick_open_results_cache(
        query,
        vec![
            quick_open_result("src/main.rs", Some((4, 2))),
            quick_open_result("src/lib.rs", Some((8, 1))),
        ],
        vec!["src/main.rs:4:2".to_owned()],
    );
    let visible_count = quick_open_visible_result_count(&cache);

    assert!(quick_open_open_target_at(&cache, 1, visible_count, "src").is_none());
}

#[test]
fn quick_open_open_target_preserves_path_query_and_target_selection() {
    let query = QuickOpenQuery {
        pattern: "src/main.rs".to_owned(),
        line: Some(9),
        column: 3,
    };
    let result = quick_open_result("src/main.rs", Some((4, 2)));
    let expected_path = result.path.clone();
    let cache =
        quick_open_results_cache(query, vec![result], vec!["src/main.rs:9:3".to_owned()]);

    let visible_count = quick_open_visible_result_count(&cache);
    let target = quick_open_open_target_at(&cache, 0, visible_count, "src/main.rs")
        .expect("row should open");

    assert_eq!(target.path, expected_path);
    assert_eq!(target.line_column, Some((9, 3)));
    assert_eq!(target.query_pattern, "src/main.rs");
}

#[test]
fn quick_open_open_target_rejects_stale_query_cache() {
    let query = QuickOpenQuery {
        pattern: "src/main.rs".to_owned(),
        line: None,
        column: 1,
    };
    let cache = quick_open_results_cache(
        query,
        vec![quick_open_result("src/main.rs", Some((4, 2)))],
        vec!["src/main.rs:4:2".to_owned()],
    );

    let visible_count = quick_open_visible_result_count(&cache);

    assert!(quick_open_open_target_at(&cache, 0, visible_count, "src/lib.rs").is_none());
}

#[test]
fn quick_open_visible_rows_and_open_target_reject_stale_result_label() {
    let query = QuickOpenQuery {
        pattern: "src".to_owned(),
        line: None,
        column: 1,
    };
    let cache = quick_open_results_cache(
        query,
        vec![quick_open_result("src/main.rs", Some((4, 2)))],
        vec!["src/lib.rs:8:1".to_owned()],
    );

    let visible_count = quick_open_visible_result_count(&cache);

    assert_eq!(visible_count, 0);
    assert_eq!(
        quick_open_prepare_visible_rows(&cache, 0, 1, visible_count).len(),
        0
    );
    assert!(quick_open_open_target_at(&cache, 0, visible_count, "src").is_none());
}

#[test]
fn quick_open_prepare_visible_rows_clamps_to_prepared_labels() {
    let query = QuickOpenQuery {
        pattern: "src".to_owned(),
        line: None,
        column: 1,
    };
    let cache = quick_open_results_cache(
        query,
        vec![
            quick_open_result("src/main.rs", Some((4, 2))),
            quick_open_result("src/lib.rs", Some((8, 1))),
        ],
        vec!["src/main.rs:4:2".to_owned()],
    );

    let visible_count = quick_open_visible_result_count(&cache);
    let rows = quick_open_prepare_visible_rows(&cache, 0, 3, visible_count);

    assert_eq!(rows.len(), 1);
    assert_eq!(rows[0].index, 0);
    assert_eq!(rows[0].label, "src/main.rs:4:2");
}

#[test]
fn quick_open_reuses_cached_ranking_when_only_explicit_target_changes() {
    let previous_query = QuickOpenQuery {
        pattern: "src/main.rs".to_owned(),
        line: None,
        column: 1,
    };
    let mut cache = quick_open_results_cache(
        previous_query,
        vec![quick_open_result("src/main.rs", Some((4, 2)))],
        vec!["src/main.rs:4:2".to_owned()],
    );
    let cached_result_rel = cache.results[0].rel.as_ptr();
    let parsed_query = QuickOpenQuery {
        pattern: "src/main.rs".to_owned(),
        line: Some(9),
        column: 3,
    };
    let recent_files: Vec<String> = Vec::new();
    let open_files: Vec<String> = Vec::new();
    let query_memory: Vec<String> = Vec::new();

    assert!(quick_open_cache_ranking_inputs_match_ignoring_query_target(
        &cache,
        &parsed_query,
        7,
        &recent_files,
        &open_files,
        &query_memory,
    ));

    let navigation_back: Vec<NavigationLocation> = Vec::new();
    let navigation_forward: Vec<NavigationLocation> = Vec::new();
    quick_open_refresh_cached_query_metadata(
        &mut cache,
        "src/main.rs:9:3",
        parsed_query,
        &navigation_back,
        &navigation_forward,
        None,
        &[],
    );

    assert_eq!(cache.query_input, "src/main.rs:9:3");
    assert_eq!(cache.results[0].rel.as_ptr(), cached_result_rel);
    assert_eq!(cache.result_labels, vec!["src/main.rs:9:3"]);
}

#[test]
fn quick_open_keeps_cached_labels_when_query_target_metadata_matches() {
    let query = QuickOpenQuery {
        pattern: "src/main.rs".to_owned(),
        line: Some(9),
        column: 3,
    };
    let cached_label = "src/main.rs:9:3".to_owned();
    let cached_label_text = cached_label.as_ptr();
    let mut cache = quick_open_results_cache(
        query.clone(),
        vec![quick_open_result("src/main.rs", Some((4, 2)))],
        vec![cached_label],
    );
    let navigation_back: Vec<NavigationLocation> = Vec::new();
    let navigation_forward: Vec<NavigationLocation> = Vec::new();

    quick_open_refresh_cached_query_metadata(
        &mut cache,
        "src/main.rs:09:03",
        query,
        &navigation_back,
        &navigation_forward,
        None,
        &[],
    );

    assert_eq!(cache.query_input, "src/main.rs:09:03");
    assert_eq!(cache.result_labels[0].as_ptr(), cached_label_text);
    assert_eq!(cache.result_labels, vec!["src/main.rs:9:3"]);
}

#[test]
fn quick_open_refresh_rebuilds_stale_cached_labels_when_query_metadata_matches() {
    let query = QuickOpenQuery {
        pattern: "src/main.rs".to_owned(),
        line: None,
        column: 1,
    };
    let mut cache = quick_open_results_cache(
        query.clone(),
        vec![quick_open_result("src/main.rs", Some((4, 2)))],
        vec![format!(
            "src/main.rs:999:999\n{}",
            "x".repeat(QUICK_OPEN_RESULT_LABEL_MAX_CHARS)
        )],
    );
    let navigation_back: Vec<NavigationLocation> = Vec::new();
    let navigation_forward: Vec<NavigationLocation> = Vec::new();

    quick_open_refresh_cached_query_metadata(
        &mut cache,
        "src/main.rs",
        query,
        &navigation_back,
        &navigation_forward,
        None,
        &[],
    );

    assert_eq!(cache.result_labels, vec!["src/main.rs:4:2"]);
    assert!(cache.result_labels[0].chars().count() <= QUICK_OPEN_RESULT_LABEL_MAX_CHARS);
}

#[test]
fn quick_open_exact_cache_hit_repairs_stale_display_metadata() {
    let query = QuickOpenQuery {
        pattern: "src".to_owned(),
        line: None,
        column: 1,
    };
    let mut cache = quick_open_results_cache(
        query,
        vec![
            quick_open_result("src/main.rs", Some((4, 2))),
            quick_open_result("src/lib.rs", Some((8, 1))),
        ],
        vec!["src/lib.rs:8:1".to_owned()],
    );

    assert_eq!(quick_open_visible_result_count(&cache), 0);

    let visible_count = quick_open_refresh_stale_display_metadata(&mut cache);

    assert_eq!(
        cache.result_labels,
        vec!["src/main.rs:4:2", "src/lib.rs:8:1"]
    );
    assert_eq!(visible_count, 2);
    assert_eq!(quick_open_visible_result_count(&cache), visible_count);
}

#[test]
fn ranking_due_requires_full_debounce_window_since_last_edit() {
    let base: u64 = 1_000_000;
    assert!(!ranking_due(base, base));
    assert!(!ranking_due(base, base + 149));
    assert!(ranking_due(base, base + 150));
    assert!(ranking_due(base, base + 5_000));
}

#[test]
fn quick_open_rank_debounce_delay_covers_the_remaining_window() {
    let base: u64 = 1_000_000;
    assert_eq!(
        quick_open_rank_debounce_delay(base, base),
        150
    );
    assert_eq!(
        quick_open_rank_debounce_delay(base, base + 149),
        1
    );
    assert_eq!(
        quick_open_rank_debounce_delay(base, base + 150),
        0
    );
}

#[test]
fn candidates_for_query_reuses_previous_paths_for_prefix_extensions() {
    let previous_paths = [
        "workspace/src/alpha.rs".to_owned(),
        "workspace/src/alpha_beta.rs".to_owned(),
    ];

    let source =
        candidates_for_query(Some(("al", previous_paths.as_slice(), false)), "alph", true);

    assert_eq!(source, CandidateSource::Reuse(previous_paths.as_slice()));

    assert_eq!(
        candidates_for_query(
            Some(("alph", previous_paths.as_slice(), false)),
            "alph",
            true
        ),
        CandidateSource::Reuse(previous_paths.as_slice())
    );
}

#[test]
fn candidates_for_query_falls_back_to_full_after_an_empty_query() {
    let default_view_paths = ["workspace/src/alpha.rs".to_owned()];

    assert_eq!(
        candidates_for_query(
            Some(("", default_view_paths.as_slice(), false)),
            "alph",
            true
        ),
        CandidateSource::Full
    );
}

#[test]
fn candidates_for_query_falls_back_to_full_scan_without_prefix_extension() {
    let previous_paths = ["workspace/src/alpha.rs".to_owned()];

    assert_eq!(
        candidates_for_query(None, "alph", true),
        CandidateSource::Full
    );

    assert_eq!(
        candidates_for_query(Some(("alph", previous_paths.as_slice(), false)), "al", true),
        CandidateSource::Full
    );

    assert_eq!(
        candidates_for_query(
            Some(("alph", previous_paths.as_slice(), false)),
            "beta",
            true
        ),
        CandidateSource::Full
    );

    assert_eq!(
        candidates_for_query(Some(("alph", previous_paths.as_slice(), false)), "", true),
        CandidateSource::Full
    );
}

#[test]
fn candidates_for_query_falls_back_to_full_scan_when_generation_changes() {
    let previous_paths = ["workspace/src/alpha.rs".to_owned()];

    assert_eq!(
        candidates_for_query(
            Some(("alph", previous_paths.as_slice(), false)),
            "alpha",
            false
        ),
        CandidateSource::Full
    );
}

#[test]
fn quick_open_result_labels_follow_explicit_target_then_visited_location() {
    let plain = QuickOpenQuery { pattern: "main".to_owned(), line: None, column: 1 };
    let targeted = QuickOpenQuery { pattern: "main".to_owned(), line: Some(12), column: 5 };

    assert_eq!(
        quick_open_result_label_with_navigation_line_column("src/main.rs", &plain, Some((3, 4))),
        "src/main.rs:3:4"
    );
    assert_eq!(
        quick_open_result_label_with_navigation_line_column("src/main.rs", &targeted, Some((3, 4))),
        "src/main.rs:12:5"
    );
    assert_eq!(
        quick_open_result_label_with_navigation_line_column("src/main.rs", &plain, None),
        "src/main.rs"
    );
}

#[test]
fn quick_open_changed_navigation_history_refreshes_result_locations() {
    let query = QuickOpenQuery { pattern: "src".to_owned(), line: None, column: 1 };
    let mut cache = quick_open_results_cache(
        query.clone(),
        vec![quick_open_result("src/main.rs", Some((4, 2))), quick_open_result("src/lib.rs", None)],
        vec!["src/main.rs:4:2".to_owned(), "src/lib.rs".to_owned()],
    );
    let back = vec![NavigationLocation { path: "workspace/src/lib.rs".to_owned(), line: 3, column: 1 }];
    let locations = vec![
        NavigationLocation { path: "workspace/src/lib.rs".to_owned(), line: 3, column: 1 },
        NavigationLocation { path: "workspace/src/lib.rs".to_owned(), line: 9, column: 2 },
    ];

    assert_eq!(
        quick_open_refresh_cached_query_metadata(&mut cache, "src", query, &back, &[], None, &locations),
        2
    );

    assert_eq!(cache.results[0].navigation_line_column, None);
    assert_eq!(cache.results[1].navigation_line_column, Some((9, 2)));
    assert_eq!(cache.result_labels, vec!["src/main.rs", "src/lib.rs:9:2"]);
    assert_eq!(cache.navigation_back.len(), 1);
}

#[test]
fn quick_open_rank_step_keeps_waits_and_starts() {
    assert_eq!(quick_open_rank_step(true, Some(1_000), 1_010), QuickOpenRankStep::KeepOutstanding);
    assert_eq!(quick_open_rank_step(false, Some(1_000), 1_010), QuickOpenRankStep::WaitForDebounce(140));
    assert_eq!(quick_open_rank_step(false, Some(1_000), 1_000), QuickOpenRankStep::WaitForDebounce(150));
    assert_eq!(quick_open_rank_step(false, Some(1_000), 1_151), QuickOpenRankStep::StartRanking);
    assert_eq!(quick_open_rank_step(false, Some(1_000), 1_150), QuickOpenRankStep::StartRanking);
    assert_eq!(quick_open_rank_step(false, None, 5), QuickOpenRankStep::StartRanking);
    // A clock that went backwards counts as no time passed.
    assert_eq!(quick_open_rank_step(false, Some(2_000), 1_000), QuickOpenRankStep::WaitForDebounce(150));
}

#[test]
fn quick_open_late_ranking_for_an_old_request_is_rejected() {
    assert!(quick_open_ranking_accepted(Some(7), 7, true));
    assert!(!quick_open_ranking_accepted(Some(7), 6, true));
    assert!(!quick_open_ranking_accepted(Some(7), 7, false));
    assert!(!quick_open_ranking_accepted(None, 7, true));
}

#[test]
fn quick_open_prefix_extension_reranks_only_previous_matched_paths() {
    let previous_paths = vec![
        "workspace/src/alpha.rs".to_owned(),
        "workspace/src/gamma_2.rs".to_owned(),
    ];
    let source = candidates_for_query(Some(("a", previous_paths.as_slice(), false)), "a_2", true);
    match source {
        CandidateSource::Reuse(paths) => {
            assert!(paths.iter().any(|path| path.contains("gamma_2")));
            assert!(
                !paths.iter().any(|path| path.contains("xray_2")),
                "candidates outside the previous matched set must be skipped"
            );
        }
        CandidateSource::Full => panic!("a prefix extension must rerank the previous matches"),
    }
}

#[test]
fn quick_open_backspace_falls_back_to_full_candidates() {
    let previous_paths = vec!["workspace/src/alpha.rs".to_owned()];
    assert_eq!(
        candidates_for_query(Some(("a", previous_paths.as_slice(), false)), "", true),
        CandidateSource::Full,
        "a shortened query must rescan the full index"
    );
}

#[test]
fn quick_open_generation_change_falls_back_to_full_candidates() {
    let previous_paths = vec!["workspace/src/alpha.rs".to_owned()];
    assert_eq!(
        candidates_for_query(Some(("a", previous_paths.as_slice(), false)), "ar", false),
        CandidateSource::Full,
        "an index generation change must rescan the full index"
    );
}

fn rank_key(query_input: &str, index_generation: u64) -> QuickOpenRankKey {
    QuickOpenRankKey {
        query_input: query_input.to_owned(),
        index_generation,
        recent_files: vec!["workspace/src/recent.rs".to_owned()],
        open_files: Vec::new(),
        query_memory: Vec::new(),
        navigation_back: vec![NavigationLocation { path: "workspace/src/a.rs".to_owned(), line: 2, column: 1 }],
        navigation_forward: Vec::new(),
        current_navigation_location: None,
    }
}

fn ranked_state(request_id: u64, key: QuickOpenRankKey) -> Option<QuickOpenRankedCache> {
    let query = QuickOpenQuery { pattern: "old".to_owned(), line: None, column: 1 };
    Some(QuickOpenRankedCache {
        cache: quick_open_results_cache(query, Vec::new(), Vec::new()),
        background_rank: Some(QuickOpenBackgroundRank { request_id, key }),
        last_query_changed_at: Some(5),
        completed_ranking: None,
    })
}

fn file_query(pattern: &str) -> QuickOpenQuery {
    QuickOpenQuery { pattern: pattern.to_owned(), line: None, column: 1 }
}

#[test]
fn quick_open_stale_ranked_events_are_ignored() {
    let outstanding_request_id: u64 = 41;
    let key = rank_key("file_00002", 3);
    let mut state = ranked_state(outstanding_request_id, rank_key("file_00002", 3));

    let wrong_request_id = outstanding_request_id.wrapping_add(1);
    assert!(!apply_quick_open_ranked_results(
        &mut state,
        wrong_request_id,
        &key,
        vec![quick_open_result("spoofed", None)],
        file_query("file_00002"),
        50,
        500,
    ));

    let mut mismatched_key = rank_key("file_00002", 3);
    mismatched_key.query_input = "changed".to_owned();
    assert!(!apply_quick_open_ranked_results(
        &mut state,
        outstanding_request_id,
        &mismatched_key,
        vec![quick_open_result("spoofed", None)],
        file_query("changed"),
        50,
        500,
    ));

    let st = state.as_ref().unwrap();
    assert_eq!(
        st.background_rank.as_ref().expect("outstanding rank should survive stale events").request_id,
        outstanding_request_id
    );
    assert!(st.cache.results.is_empty());

    assert!(apply_quick_open_ranked_results(
        &mut state,
        outstanding_request_id,
        &key,
        vec![quick_open_result("src/file_00002.rs", None)],
        file_query("file_00002"),
        50,
        500,
    ));
    let st = state.as_ref().unwrap();
    assert!(st.background_rank.is_none());
    assert_eq!(st.cache.results.len(), 1);
    assert_eq!(st.cache.result_labels, vec!["src/file_00002.rs".to_owned()]);
    assert_eq!(st.cache.query_input, "file_00002");

    // With no cache at all nothing is applied.
    let mut none: Option<QuickOpenRankedCache> = None;
    assert!(!apply_quick_open_ranked_results(&mut none, 1, &key, Vec::new(), file_query(""), 50, 500));
    assert!(none.is_none());
    assert!(!quick_open_ranking_accepted(Some(outstanding_request_id), wrong_request_id, true));
}

#[test]
fn applied_ranking_keeps_the_result_limit_and_remembers_every_match() {
    let key = rank_key("file", 9);
    let mut state = ranked_state(7, rank_key("file", 9));
    let results = vec![
        quick_open_result("src/a.rs", None),
        quick_open_result("src/b.rs", Some((4, 2))),
        quick_open_result("src/c.rs", None),
    ];

    assert!(apply_quick_open_ranked_results(&mut state, 7, &key, results, file_query("file"), 2, 3));

    let st = state.unwrap();
    assert_eq!(st.cache.results.len(), 2);
    assert_eq!(st.cache.results[1].rel, "src/b.rs");
    assert_eq!(st.cache.result_labels.len(), 2);
    assert_eq!(st.cache.index_generation, 9);
    assert_eq!(st.cache.recent_files, vec!["workspace/src/recent.rs".to_owned()]);
    assert_eq!(st.cache.navigation_back.len(), 1);
    assert_eq!(st.last_query_changed_at, Some(5));
    let completed = st.completed_ranking.expect("a completed ranking is remembered");
    assert_eq!(completed.query, "file");
    assert_eq!(completed.generation, 9);
    assert!(completed.matched_paths_truncated);
    assert_eq!(
        completed.matched_paths,
        vec!["workspace/src/a.rs".to_owned(), "workspace/src/b.rs".to_owned(), "workspace/src/c.rs".to_owned()]
    );
}
