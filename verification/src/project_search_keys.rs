//! What identifies a project search (its key), whether shown results still
//! belong to the panel inputs, when a settings change reruns the submitted
//! search, and what stepping to the next or previous match does.
use vstd::prelude::*;
use std::collections::VecDeque;
use crate::app_state::KuroyaApp;
use crate::labels::{label_spec, project_search_start_status, MAX_PROJECT_SEARCH_STATUS_QUERY_CHARS};
use crate::project_search::{move_project_search_selection, moved_selection};
use crate::startup_requests::next_request_id_spec;
use crate::project_search_state::{
    join_globs_spec, normalize_project_search_request_query, parse_project_globs,
    parsed_globs_spec, queries_view, record_recent_project_search_from_parsed_globs,
    recorded_history, remembered_query_spec, request_query_spec, ProjectSearchQuery,
    MAX_PROJECT_SEARCH_RECENT_QUERIES,
};
use crate::quick_open::{path_views, strings_equal};
use crate::text::str_equal;
use vstd::string::*;

verus! {

/// Everything a search ran with: the workspace root, the request query, the
/// options, the glob lists and the limits.
#[derive(Debug, Clone, PartialEq, Eq)]
pub struct ProjectSearchKey {
    pub root: String,
    pub query: String,
    pub case_sensitive: bool,
    pub whole_word: bool,
    pub regex: bool,
    pub include_globs: Vec<String>,
    pub exclude_globs: Vec<String>,
    pub max_file_bytes: u64,
    pub max_results: usize,
}

/// A key as plain values.
pub open spec fn key_view(k: ProjectSearchKey) -> (Seq<char>, Seq<char>, bool, bool, bool, Seq<Seq<char>>, Seq<Seq<char>>, u64, usize) {
    (k.root@, k.query@, k.case_sensitive, k.whole_word, k.regex, path_views(k.include_globs@),
        path_views(k.exclude_globs@), k.max_file_bytes, k.max_results)
}

/// An optional key as plain values.
pub open spec fn opt_key_view(k: Option<ProjectSearchKey>) -> Option<(Seq<char>, Seq<char>, bool, bool, bool, Seq<Seq<char>>, Seq<Seq<char>>, u64, usize)> {
    match k {
        Some(k) => Some(key_view(k)),
        None => None,
    }
}

/// Whether two keys are equal.
pub fn project_search_keys_equal(a: &ProjectSearchKey, b: &ProjectSearchKey) -> (eq: bool)
    ensures
        eq == (key_view(*a) == key_view(*b)),
{
    a.case_sensitive == b.case_sensitive && a.whole_word == b.whole_word && a.regex == b.regex
        && a.max_file_bytes == b.max_file_bytes && a.max_results == b.max_results
        && str_equal(a.root.as_str(), b.root.as_str()) && str_equal(a.query.as_str(), b.query.as_str())
        && strings_equal(a.include_globs.as_slice(), b.include_globs.as_slice())
        && strings_equal(a.exclude_globs.as_slice(), b.exclude_globs.as_slice())
}

/// The key of the panel inputs: the request query (empty when there is
/// none), the options, the inclusion globs parsed from the panel, and the
/// exclude globs and limits as the settings make them effective.
pub fn current_project_search_key(
    root: &str,
    query: &str,
    case_sensitive: bool,
    whole_word: bool,
    regex: bool,
    include_text: &str,
    effective_exclude_globs: Vec<String>,
    max_file_bytes: u64,
    max_results: usize,
) -> (key: ProjectSearchKey)
    ensures
        key_view(key) == (
            root@,
            match request_query_spec(query@) {
                Some(q) => q,
                None => Seq::<char>::empty(),
            },
            case_sensitive,
            whole_word,
            regex,
            parsed_globs_spec(include_text@),
            path_views(effective_exclude_globs@),
            max_file_bytes,
            max_results,
        ),
{
    let q = match normalize_project_search_request_query(query) {
        Some(q) => q,
        None => String::new(),
    };
    ProjectSearchKey {
        root: root.to_owned(),
        query: q,
        case_sensitive,
        whole_word,
        regex,
        include_globs: parse_project_globs(include_text),
        exclude_globs: effective_exclude_globs,
        max_file_bytes,
        max_results,
    }
}

/// The shown results belong to the panel inputs: they were searched with
/// the current key.
pub fn project_search_results_match_current_inputs(result_key: &ProjectSearchKey, current_key: &ProjectSearchKey) -> (matches: bool)
    ensures
        matches == (key_view(*result_key) == key_view(*current_key)),
{
    project_search_keys_equal(result_key, current_key)
}

/// The shown results are current: they belong to the panel inputs and were
/// searched in the current index generation.
pub fn project_search_results_match_current_query(
    result_key: &ProjectSearchKey,
    current_key: &ProjectSearchKey,
    result_index_generation: u64,
    index_generation: u64,
) -> (matches: bool)
    ensures
        matches == (result_index_generation == index_generation
            && key_view(*result_key) == key_view(*current_key)),
{
    result_index_generation == index_generation && project_search_results_match_current_inputs(result_key, current_key)
}

/// The key equals the submitted search's key.
pub fn project_search_key_matches_submitted(submitted: &Option<ProjectSearchKey>, key: &ProjectSearchKey) -> (matches: bool)
    ensures
        matches == (opt_key_view(*submitted) == Some(key_view(*key))),
{
    match submitted {
        Some(s) => project_search_keys_equal(s, key),
        None => false,
    }
}

/// `list` ends with `tail`.
pub open spec fn ends_with(list: Seq<Seq<char>>, tail: Seq<Seq<char>>) -> bool {
    tail.len() <= list.len() && list.subrange(list.len() - tail.len(), list.len() as int) == tail
}

/// Whether a settings change must rerun the submitted search: the panel is
/// open, a search was submitted with the same panel inputs (root, query,
/// options, inclusion globs, and exclusion globs ending with the panel's), and
/// only what the settings add (limits or merged exclude globs) changed.
pub open spec fn settings_change_needs_search_spec(
    project_search_open: bool,
    current: (Seq<char>, Seq<char>, bool, bool, bool, Seq<Seq<char>>, Seq<Seq<char>>, u64, usize),
    submitted: Option<(Seq<char>, Seq<char>, bool, bool, bool, Seq<Seq<char>>, Seq<Seq<char>>, u64, usize)>,
    panel_include: Seq<Seq<char>>,
    panel_exclude: Seq<Seq<char>>,
) -> bool {
    &&& project_search_open
    &&& submitted matches Some(s)
    &&& s != current
    &&& current.0 == s.0 && current.1 == s.1 && current.2 == s.2 && current.3 == s.3 && current.4 == s.4
    &&& panel_include == s.5
    &&& ends_with(s.6, panel_exclude)
}

/// Whether `list` ends with `tail`.
pub fn strings_end_with(list: &[String], tail: &[String]) -> (ends: bool)
    ensures
        ends == ends_with(path_views(list@), path_views(tail@)),
{
    let ghost lv = path_views(list@);
    let ghost tv = path_views(tail@);
    if tail.len() > list.len() {
        return false;
    }
    let offset = list.len() - tail.len();
    let mut i: usize = 0;
    while i < tail.len()
        invariant
            i <= tail@.len(),
            offset + tail@.len() == list@.len(),
            list@.len() <= usize::MAX,
            lv == path_views(list@),
            tv == path_views(tail@),
            forall|j: int| 0 <= j < i ==> #[trigger] tv[j] == lv[offset + j],
        decreases tail.len() - i,
    {
        if !str_equal(list[offset + i].as_str(), tail[i].as_str()) {
            assert(lv.subrange(offset as int, lv.len() as int)[i as int] != tv[i as int]);
            return false;
        }
        i = i + 1;
    }
    assert(lv.subrange(offset as int, lv.len() as int) =~= tv);
    true
}

/// Whether a settings change reruns the submitted search (see
/// `settings_change_needs_search_spec`). `current` is the key of the panel
/// inputs under the new settings; `panel_include` and `panel_exclude` are
/// the glob lists parsed from the panel.
pub fn sync_project_search_after_settings_change(
    project_search_open: bool,
    current: &ProjectSearchKey,
    submitted: &Option<ProjectSearchKey>,
    panel_include: &[String],
    panel_exclude: &[String],
) -> (rerun: bool)
    ensures
        rerun == settings_change_needs_search_spec(
            project_search_open,
            key_view(*current),
            opt_key_view(*submitted),
            path_views(panel_include@),
            path_views(panel_exclude@),
        ),
{
    if !project_search_open {
        return false;
    }
    if project_search_key_matches_submitted(submitted, current) {
        return false;
    }
    match submitted {
        None => false,
        Some(s) => {
            str_equal(current.root.as_str(), s.root.as_str())
                && str_equal(current.query.as_str(), s.query.as_str())
                && current.case_sensitive == s.case_sensitive
                && current.whole_word == s.whole_word
                && current.regex == s.regex
                && strings_equal(panel_include, s.include_globs.as_slice())
                && strings_end_with(s.exclude_globs.as_slice(), panel_exclude)
        },
    }
}

/// One project search match, as far as opening it needs and shows.
#[derive(Debug, Clone, PartialEq, Eq)]
pub struct SearchMatch {
    pub path: String,
    pub line: usize,
    pub column: usize,
    pub preview: String,
}

/// Where to open a match.
#[derive(Debug, Clone, PartialEq, Eq)]
pub struct ProjectSearchResultJump {
    pub path: String,
    pub line: usize,
    pub column: usize,
}

/// The place of the selected match, if the selection names one.
pub fn project_search_result_jump(matches: &[SearchMatch], selected_index: usize) -> (jump: Option<ProjectSearchResultJump>)
    ensures
        selected_index < matches@.len() ==> (jump matches Some(j) && j.path@ == matches@[selected_index as int].path@
            && j.line == matches@[selected_index as int].line && j.column == matches@[selected_index as int].column),
        selected_index >= matches@.len() ==> jump is None,
{
    if selected_index >= matches.len() {
        return None;
    }
    let m = &matches[selected_index];
    Some(ProjectSearchResultJump { path: m.path.clone(), line: m.line, column: m.column })
}

/// What stepping through the matches does.
#[derive(Debug, Clone, PartialEq, Eq)]
pub enum ProjectSearchGoto {
    /// Nothing is opened; the status line says why.
    Refused { status: String },
    /// The selection moved to `selected`; its match is opened at `jump`.
    Open { selected: usize, jump: ProjectSearchResultJump },
}

/// Steps `direction` matches from `selected`: refused when the shown
/// results do not belong to the panel inputs (with no query, or asking to
/// rerun the search) or there are no matches; otherwise the selection is
/// clamped, moved with wrap-around, and its match opened.
pub fn goto_project_search_result(
    results_match_inputs: bool,
    query: &str,
    matches: &[SearchMatch],
    selected: usize,
    direction: isize,
) -> (goto: ProjectSearchGoto)
    ensures
        !results_match_inputs ==> (goto matches ProjectSearchGoto::Refused { status }
            && status@ == (if request_query_spec(query@) is None {
                "No project search query"@
            } else {
                "Run project search to refresh results"@
            })),
        results_match_inputs && matches@.len() == 0 ==> (goto matches ProjectSearchGoto::Refused { status }
            && status@ == "No project search matches"@),
        results_match_inputs && matches@.len() > 0 ==> (goto matches ProjectSearchGoto::Open { selected: s, jump }
            && s == moved_selection(selected, matches@.len() as usize, direction)
            && jump.path@ == matches@[s as int].path@ && jump.line == matches@[s as int].line
            && jump.column == matches@[s as int].column),
{
    if !results_match_inputs {
        let status = if normalize_project_search_request_query(query).is_none() {
            String::from_str("No project search query")
        } else {
            String::from_str("Run project search to refresh results")
        };
        return ProjectSearchGoto::Refused { status };
    }
    let len = matches.len();
    if len == 0 {
        return ProjectSearchGoto::Refused { status: String::from_str("No project search matches") };
    }
    let mut s = selected;
    move_project_search_selection(&mut s, len, direction);
    let m = &matches[s];
    ProjectSearchGoto::Open {
        selected: s,
        jump: ProjectSearchResultJump { path: m.path.clone(), line: m.line, column: m.column },
    }
}

/// A settings change never reruns a search that already ran with the
/// current key, nor one whose panel query differs.
pub proof fn lemma_settings_change_reruns_only_changed_settings(
    open: bool,
    current: (Seq<char>, Seq<char>, bool, bool, bool, Seq<Seq<char>>, Seq<Seq<char>>, u64, usize),
    submitted: (Seq<char>, Seq<char>, bool, bool, bool, Seq<Seq<char>>, Seq<Seq<char>>, u64, usize),
    panel_include: Seq<Seq<char>>,
    panel_exclude: Seq<Seq<char>>,
)
    ensures
        !settings_change_needs_search_spec(open, current, Some(current), panel_include, panel_exclude),
        current.1 != submitted.1 ==> !settings_change_needs_search_spec(open, current, Some(submitted), panel_include, panel_exclude),
        !settings_change_needs_search_spec(open, current, None, panel_include, panel_exclude),
{
}

/// The project search panel: the option toggles and glob texts (the query
/// text is part of the app state), the search history, the search last
/// submitted, and the results on show with what they were searched with.
pub struct ProjectSearchPanel {
    pub case_sensitive: bool,
    pub whole_word: bool,
    pub regex: bool,
    pub include_text: String,
    pub exclude_text: String,
    pub recent: VecDeque<ProjectSearchQuery>,
    pub submitted_key: Option<ProjectSearchKey>,
    pub result_key: ProjectSearchKey,
    pub result_matches: Vec<SearchMatch>,
    pub result_index_generation: u64,
    pub index_generation: u64,
    pub selected: usize,
}

/// A search to run in the background: the request id it answers to, what
/// it searches with, and the index generation it searches.
pub struct ProjectSearchLaunch {
    pub request_id: u64,
    pub key: ProjectSearchKey,
    pub index_generation: u64,
}

/// `p` is `o` with nothing submitted and no results on show: the result
/// query is empty and the results count for the current index generation;
/// the other result options, the inputs and the history stay.
pub open spec fn results_cleared(p: ProjectSearchPanel, o: ProjectSearchPanel) -> bool {
    &&& p.submitted_key is None
    &&& p.result_matches@.len() == 0
    &&& p.result_key.query@.len() == 0
    &&& p == (ProjectSearchPanel {
        submitted_key: None,
        result_key: ProjectSearchKey { query: p.result_key.query, ..o.result_key },
        result_matches: p.result_matches,
        result_index_generation: o.index_generation,
        selected: 0,
        ..o
    })
}

/// The app state after the project search ids moved on to `id`.
pub open spec fn with_search_ids(o: KuroyaApp, id: u64) -> KuroyaApp {
    KuroyaApp {
        project_search_next_request_id: id,
        project_search_active_request_id: id,
        project_search_cancel_generation: id,
        ..o
    }
}

/// What starting the first index does on the way to a search: with a cold
/// index (generation 0, no files) the first index is started when it can be
/// (see `ensure_workspace_index_started`); otherwise nothing happens.
pub open spec fn index_start_step(o: KuroyaApp, s1: KuroyaApp) -> bool {
    if !(o.project_index_generation == 0 && o.indexed_files == 0) {
        s1 == o
    } else if !o.workspace_placeholder && o.workspace_index.in_flight_request_id is None {
        s1.index_spawned(&o)
    } else {
        s1.unchanged_except(&o, false, false, false, false, false, false)
    }
}

/// The key a search of query `q` is submitted with.
pub open spec fn submitted_key_spec(
    app: KuroyaApp,
    panel: ProjectSearchPanel,
    q: Seq<char>,
    effective_exclude_globs: Seq<Seq<char>>,
    max_file_bytes: u64,
    max_results: usize,
) -> (Seq<char>, Seq<char>, bool, bool, bool, Seq<Seq<char>>, Seq<Seq<char>>, u64, usize) {
    (app.workspace_root@, q, panel.case_sensitive, panel.whole_word, panel.regex,
        parsed_globs_spec(panel.include_text@), effective_exclude_globs, max_file_bytes, max_results)
}

/// `app` and `panel` are `o` and `op` after a project search of the query
/// in `o` was submitted with `effective_exclude_globs` and the limits (see
/// `spawn_project_search`), and `launch` is the search to run.
pub open spec fn project_search_spawned(
    o: KuroyaApp,
    op: ProjectSearchPanel,
    app: KuroyaApp,
    panel: ProjectSearchPanel,
    launch: Option<ProjectSearchLaunch>,
    effective_exclude_globs: Seq<Seq<char>>,
    max_file_bytes: u64,
    max_results: usize,
) -> bool {
    match request_query_spec(o.project_search_query@) {
        None => {
            &&& launch is None
            &&& app == with_search_ids(o, next_request_id_spec(o.project_search_next_request_id))
            &&& results_cleared(panel, op)
        },
        Some(q) => exists|s1: KuroyaApp| #[trigger] index_start_step(o, s1) && {
            if o.project_index_generation == 0 && o.indexed_files == 0
                && s1.workspace_index.in_flight_request_id is Some {
                &&& launch is None
                &&& app == (KuroyaApp {
                    status: app.status,
                    ..with_search_ids(s1, next_request_id_spec(s1.project_search_next_request_id))
                })
                &&& app.status@ == "Indexing workspace before search"@
                &&& results_cleared(panel, op)
            } else {
                let id = next_request_id_spec(s1.project_search_next_request_id);
                let key = submitted_key_spec(o, op, q, effective_exclude_globs,
                    max_file_bytes, max_results);
                &&& launch matches Some(l)
                &&& l.request_id == id
                &&& key_view(l.key) == key
                &&& l.index_generation == op.index_generation
                &&& app == (KuroyaApp { status: app.status, ..with_search_ids(s1, id) })
                &&& app.status@ == "Searching for `"@
                    + label_spec(q, MAX_PROJECT_SEARCH_STATUS_QUERY_CHARS as nat, ""@) + seq!['`']
                &&& opt_key_view(panel.submitted_key) == Some(key)
                &&& key_view(panel.result_key) == key
                &&& panel.result_matches@.len() == 0
                &&& panel.result_index_generation == op.index_generation
                &&& panel.selected == 0
                &&& panel.index_generation == op.index_generation
                &&& queries_view(panel.recent@) == match remembered_query_spec(q) {
                    None => queries_view(op.recent@),
                    Some(r) => recorded_history(queries_view(op.recent@),
                        (r, op.case_sensitive, op.whole_word, op.regex,
                            join_globs_spec(parsed_globs_spec(op.include_text@)),
                            join_globs_spec(parsed_globs_spec(op.exclude_text@))),
                        MAX_PROJECT_SEARCH_RECENT_QUERIES as nat),
                }
            }
        },
    }
}

/// Submits a project search of the query in `app`. A blank query cancels
/// the searches in flight and clears the results. With a cold index the
/// first index is started, and while it runs the search waits (searches are
/// cancelled, results cleared, and the status says so). Otherwise a fresh
/// request id is reserved, the search is remembered in the history, the
/// status names the query, the search becomes the submitted one with empty
/// results, and the search to run is returned. The exclude globs and limits
/// are the ones the settings make effective.
#[verifier::rlimit(60)]
#[verifier::spinoff_prover]
pub fn spawn_project_search(
    app: &mut KuroyaApp,
    panel: &mut ProjectSearchPanel,
    effective_exclude_globs: Vec<String>,
    max_file_bytes: u64,
    max_results: usize,
) -> (launch: Option<ProjectSearchLaunch>)
    ensures
        project_search_spawned(*old(app), *old(panel), *final(app), *final(panel), launch,
            path_views(effective_exclude_globs@), max_file_bytes, max_results),
{
    let ghost o = *app;
    let ghost op = *panel;
    let query = match normalize_project_search_request_query(app.project_search_query.as_str()) {
        Some(q) => q,
        None => {
            app.invalidate_project_search_requests();
            clear_project_search_results(panel);
            return None;
        },
    };
    let cold = app.project_index_generation == 0 && app.indexed_files == 0;
    if cold {
        app.ensure_workspace_index_started();
    }
    let ghost s1 = *app;
    assert(index_start_step(o, s1));
    if cold && app.workspace_index.in_flight_request_id.is_some() {
        app.invalidate_project_search_requests();
        clear_project_search_results(panel);
        app.status = String::from_str("Indexing workspace before search");
        return None;
    }
    let request_id = app.reserve_project_search_request_id();
    let include_globs = parse_project_globs(panel.include_text.as_str());
    let panel_exclude_globs = parse_project_globs(panel.exclude_text.as_str());
    record_recent_project_search_from_parsed_globs(
        &mut panel.recent,
        query.as_str(),
        panel.case_sensitive,
        panel.whole_word,
        panel.regex,
        include_globs.as_slice(),
        panel_exclude_globs.as_slice(),
        MAX_PROJECT_SEARCH_RECENT_QUERIES,
    );
    app.status = project_search_start_status(query.as_str());
    let key = ProjectSearchKey {
        root: app.workspace_root.clone(),
        query,
        case_sensitive: panel.case_sensitive,
        whole_word: panel.whole_word,
        regex: panel.regex,
        include_globs,
        exclude_globs: effective_exclude_globs,
        max_file_bytes,
        max_results,
    };
    panel.submitted_key = Some(copy_key(&key));
    panel.result_key = copy_key(&key);
    panel.result_matches = Vec::new();
    panel.result_index_generation = panel.index_generation;
    panel.selected = 0;
    Some(ProjectSearchLaunch { request_id, key, index_generation: panel.index_generation })
}

/// Drops the submitted search and the results on show (see
/// `results_cleared`).
pub fn clear_project_search_results(panel: &mut ProjectSearchPanel)
    ensures
        results_cleared(*final(panel), *old(panel)),
{
    panel.submitted_key = None;
    panel.result_matches = Vec::new();
    panel.result_key.query = String::new();
    panel.result_index_generation = panel.index_generation;
    panel.selected = 0;
}

/// A copy of a key.
pub fn copy_key(key: &ProjectSearchKey) -> (copy: ProjectSearchKey)
    ensures
        key_view(copy) == key_view(*key),
{
    ProjectSearchKey {
        root: key.root.clone(),
        query: key.query.clone(),
        case_sensitive: key.case_sensitive,
        whole_word: key.whole_word,
        regex: key.regex,
        include_globs: copy_strings(&key.include_globs),
        exclude_globs: copy_strings(&key.exclude_globs),
        max_file_bytes: key.max_file_bytes,
        max_results: key.max_results,
    }
}

/// A copy of a string list.
pub fn copy_strings(list: &Vec<String>) -> (copy: Vec<String>)
    ensures
        path_views(copy@) == path_views(list@),
{
    let mut copy: Vec<String> = Vec::new();
    let mut i: usize = 0;
    while i < list.len()
        invariant
            i <= list@.len(),
            path_views(copy@) == path_views(list@).take(i as int),
        decreases list.len() - i,
    {
        let ghost before = path_views(copy@);
        copy.push(list[i].clone());
        assert(path_views(copy@) =~= before.push(list@[i as int]@));
        assert(path_views(list@).take(i + 1) =~= path_views(list@).take(i as int).push(list@[i as int]@));
        i = i + 1;
    }
    assert(path_views(list@).take(list@.len() as int) =~= path_views(list@));
    copy
}

/// The key of the panel inputs in `app` and `panel` under the effective
/// exclude globs and limits (see `current_project_search_key`).
pub open spec fn current_search_key_spec(
    app: KuroyaApp,
    panel: ProjectSearchPanel,
    effective_exclude_globs: Seq<Seq<char>>,
    max_file_bytes: u64,
    max_results: usize,
) -> (Seq<char>, Seq<char>, bool, bool, bool, Seq<Seq<char>>, Seq<Seq<char>>, u64, usize) {
    (
        app.workspace_root@,
        match request_query_spec(app.project_search_query@) {
            Some(q) => q,
            None => Seq::<char>::empty(),
        },
        panel.case_sensitive,
        panel.whole_word,
        panel.regex,
        parsed_globs_spec(panel.include_text@),
        effective_exclude_globs,
        max_file_bytes,
        max_results,
    )
}

/// `app`, `panel` and `launch` are what following new project search
/// settings made of `o` and `op`: the submitted search is submitted again
/// when `settings_change_needs_search_spec` says so, and nothing changes
/// otherwise.
pub open spec fn project_search_settings_followed(
    o: KuroyaApp,
    op: ProjectSearchPanel,
    app: KuroyaApp,
    panel: ProjectSearchPanel,
    launch: Option<ProjectSearchLaunch>,
    effective_exclude_globs: Seq<Seq<char>>,
    max_file_bytes: u64,
    max_results: usize,
) -> bool {
    if settings_change_needs_search_spec(
        o.project_search,
        current_search_key_spec(o, op, effective_exclude_globs, max_file_bytes, max_results),
        opt_key_view(op.submitted_key),
        parsed_globs_spec(op.include_text@),
        parsed_globs_spec(op.exclude_text@),
    ) {
        project_search_spawned(o, op, app, panel, launch, effective_exclude_globs, max_file_bytes, max_results)
    } else {
        &&& app == o
        &&& panel == op
        &&& launch is None
    }
}

/// After the project search settings changed: reruns the submitted search
/// under the new exclude globs and limits when only what the settings add
/// changed (see `sync_project_search_after_settings_change`), and returns
/// the search to run.
pub fn rerun_project_search_after_settings_change(
    app: &mut KuroyaApp,
    panel: &mut ProjectSearchPanel,
    effective_exclude_globs: Vec<String>,
    max_file_bytes: u64,
    max_results: usize,
) -> (launch: Option<ProjectSearchLaunch>)
    ensures
        project_search_settings_followed(*old(app), *old(panel), *final(app), *final(panel), launch,
            path_views(effective_exclude_globs@), max_file_bytes, max_results),
{
    let excludes = copy_strings(&effective_exclude_globs);
    let current = current_project_search_key(
        app.workspace_root.as_str(),
        app.project_search_query.as_str(),
        panel.case_sensitive,
        panel.whole_word,
        panel.regex,
        panel.include_text.as_str(),
        excludes,
        max_file_bytes,
        max_results,
    );
    let inclusions = parse_project_globs(panel.include_text.as_str());
    let exclusions = parse_project_globs(panel.exclude_text.as_str());
    let rerun = sync_project_search_after_settings_change(
        app.project_search,
        &current,
        &panel.submitted_key,
        inclusions.as_slice(),
        exclusions.as_slice(),
    );
    if rerun {
        spawn_project_search(app, panel, effective_exclude_globs, max_file_bytes, max_results)
    } else {
        None
    }
}

/// A request to open a match with the searched text selected.
#[derive(Debug, Clone, PartialEq, Eq)]
pub struct ProjectSearchOpenRequest {
    pub path: String,
    pub line: usize,
    pub column: usize,
    /// How many characters to select from the match: the length of the
    /// query the results were searched with.
    pub selection_length: usize,
}

/// Opens the match at `target`, selecting as many characters as the query
/// the shown results were searched with has.
pub fn open_project_search_target(result_query: &str, target: ProjectSearchResultJump) -> (request: ProjectSearchOpenRequest)
    ensures
        request.path@ == target.path@,
        request.line == target.line,
        request.column == target.column,
        request.selection_length == result_query@.len(),
{
    ProjectSearchOpenRequest {
        path: target.path,
        line: target.line,
        column: target.column,
        selection_length: result_query.unicode_len(),
    }
}

} // verus!
