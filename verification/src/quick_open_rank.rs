//! When quick open starts a background ranking, and which finished ranking it
//! accepts. A ranking is identified by its request id; the inputs it was
//! computed from (query, index generation, recent and open files, navigation)
//! are compared by the caller, which hands over the result of that comparison.
use vstd::prelude::*;
use crate::debounce::{elapsed_since, quick_open_rank_debounce_delay, ranking_due, QUICK_OPEN_RANK_DEBOUNCE};
use crate::project_search_keys::copy_strings;
use crate::quick_open::{
    copy_location, copy_locations, label_views, labels_spec, location_equal, locations_equal,
    locations_view, opt_location_view, path_views, quick_open_result_labels, strings_equal,
    NavigationLocation, QuickOpenQuery, QuickOpenResult, QuickOpenResultsCache,
};
use crate::text::str_equal;

verus! {

/// What a refresh of the quick open results does about ranking.
#[derive(Debug, Clone, Copy, PartialEq, Eq, Structural)]
pub enum QuickOpenRankStep {
    /// A ranking of exactly the current inputs is already running: keep it
    /// and only refresh the display metadata of the cached results.
    KeepOutstanding,
    /// The query was edited too recently: keep what is cached and ask for a
    /// repaint after this many milliseconds.
    WaitForDebounce(u64),
    /// Start a new background ranking of the current inputs.
    StartRanking,
}

/// The step a refresh takes, from whether the outstanding ranking was made
/// from the current inputs and when the query was last edited.
pub open spec fn rank_step_spec(
    outstanding_is_current: bool,
    last_query_changed_at: Option<u64>,
    now: u64,
) -> QuickOpenRankStep {
    if outstanding_is_current {
        QuickOpenRankStep::KeepOutstanding
    } else {
        match last_query_changed_at {
            Some(last) => if elapsed_since(now, last) < QUICK_OPEN_RANK_DEBOUNCE {
                QuickOpenRankStep::WaitForDebounce(
                    (QUICK_OPEN_RANK_DEBOUNCE - elapsed_since(now, last)) as u64,
                )
            } else {
                QuickOpenRankStep::StartRanking
            },
            None => QuickOpenRankStep::StartRanking,
        }
    }
}

/// Decides what a refresh of the quick open results does about ranking: an
/// outstanding ranking of the same inputs is kept, an edit inside the
/// debounce window waits for the rest of the window, and otherwise a new
/// ranking starts.
pub fn quick_open_rank_step(
    outstanding_is_current: bool,
    last_query_changed_at: Option<u64>,
    now: u64,
) -> (step: QuickOpenRankStep)
    ensures
        step == rank_step_spec(outstanding_is_current, last_query_changed_at, now),
{
    if outstanding_is_current {
        return QuickOpenRankStep::KeepOutstanding;
    }
    match last_query_changed_at {
        Some(last) => {
            if !ranking_due(last, now) {
                QuickOpenRankStep::WaitForDebounce(quick_open_rank_debounce_delay(last, now))
            } else {
                QuickOpenRankStep::StartRanking
            }
        },
        None => QuickOpenRankStep::StartRanking,
    }
}

/// A finished ranking is applied only when a ranking is outstanding, the
/// result carries its request id, and it was made from the same inputs.
pub open spec fn ranking_accepted_spec(outstanding_request_id: Option<u64>, request_id: u64, same_inputs: bool) -> bool {
    outstanding_request_id == Some(request_id) && same_inputs
}

/// Whether a finished ranking is applied to the cache.
pub fn quick_open_ranking_accepted(outstanding_request_id: Option<u64>, request_id: u64, same_inputs: bool) -> (accepted: bool)
    ensures
        accepted == ranking_accepted_spec(outstanding_request_id, request_id, same_inputs),
{
    match outstanding_request_id {
        Some(id) => id == request_id && same_inputs,
        None => false,
    }
}

/// A waiting refresh always waits for a positive time no longer than the
/// debounce window, and once the window has passed since the last edit a
/// refresh that has no current ranking outstanding starts one.
pub proof fn lemma_debounce_wait_is_bounded(outstanding_is_current: bool, last: u64, now: u64)
    ensures
        rank_step_spec(outstanding_is_current, Some(last), now) matches QuickOpenRankStep::WaitForDebounce(delay)
            ==> 0 < delay <= QUICK_OPEN_RANK_DEBOUNCE,
        !outstanding_is_current && elapsed_since(now, last) >= QUICK_OPEN_RANK_DEBOUNCE
            ==> rank_step_spec(outstanding_is_current, Some(last), now) == QuickOpenRankStep::StartRanking,
{
}

/// A ranking whose request id is not the outstanding one, such as a late
/// result for a query that has since been re-ranked, is never applied.
pub proof fn lemma_stale_ranking_is_rejected(outstanding_request_id: Option<u64>, request_id: u64, same_inputs: bool)
    requires
        outstanding_request_id != Some(request_id),
    ensures
        !ranking_accepted_spec(outstanding_request_id, request_id, same_inputs),
{
}

/// What a background ranking was computed from.
pub struct QuickOpenRankKey {
    pub query_input: String,
    pub index_generation: u64,
    pub recent_files: Vec<String>,
    pub open_files: Vec<String>,
    pub query_memory: Vec<String>,
    pub navigation_back: Vec<NavigationLocation>,
    pub navigation_forward: Vec<NavigationLocation>,
    pub current_navigation_location: Option<NavigationLocation>,
}

/// A key as plain values.
pub open spec fn rank_key_view(k: QuickOpenRankKey) -> (
    Seq<char>,
    u64,
    (Seq<Seq<char>>, Seq<Seq<char>>, Seq<Seq<char>>),
    (Seq<(Seq<char>, usize, usize)>, Seq<(Seq<char>, usize, usize)>, Option<(Seq<char>, usize, usize)>),
) {
    (
        k.query_input@,
        k.index_generation,
        (path_views(k.recent_files@), path_views(k.open_files@), path_views(k.query_memory@)),
        (locations_view(k.navigation_back@), locations_view(k.navigation_forward@),
            opt_location_view(k.current_navigation_location)),
    )
}

/// The inputs a cache holds its results for, in the same shape.
pub open spec fn cache_inputs_view(c: QuickOpenResultsCache) -> (
    Seq<char>,
    u64,
    (Seq<Seq<char>>, Seq<Seq<char>>, Seq<Seq<char>>),
    (Seq<(Seq<char>, usize, usize)>, Seq<(Seq<char>, usize, usize)>, Option<(Seq<char>, usize, usize)>),
) {
    (
        c.query_input@,
        c.index_generation,
        (path_views(c.recent_files@), path_views(c.open_files@), path_views(c.query_memory@)),
        (locations_view(c.navigation_back@), locations_view(c.navigation_forward@),
            opt_location_view(c.current_navigation_location)),
    )
}

/// Whether two keys are equal.
pub fn rank_keys_equal(a: &QuickOpenRankKey, b: &QuickOpenRankKey) -> (eq: bool)
    ensures
        eq == (rank_key_view(*a) == rank_key_view(*b)),
{
    let current = match (&a.current_navigation_location, &b.current_navigation_location) {
        (Some(x), Some(y)) => location_equal(x, y),
        (None, None) => true,
        _ => false,
    };
    str_equal(a.query_input.as_str(), b.query_input.as_str())
        && a.index_generation == b.index_generation
        && strings_equal(a.recent_files.as_slice(), b.recent_files.as_slice())
        && strings_equal(a.open_files.as_slice(), b.open_files.as_slice())
        && strings_equal(a.query_memory.as_slice(), b.query_memory.as_slice())
        && locations_equal(a.navigation_back.as_slice(), b.navigation_back.as_slice())
        && locations_equal(a.navigation_forward.as_slice(), b.navigation_forward.as_slice())
        && current
}

/// The ranking running in the background for the cache.
pub struct QuickOpenBackgroundRank {
    pub request_id: u64,
    pub key: QuickOpenRankKey,
}

/// What the last applied ranking matched, for reranking only those paths
/// when the next query extends this one.
pub struct QuickOpenCompletedRanking {
    pub query: String,
    pub generation: u64,
    pub matched_paths_truncated: bool,
    pub matched_paths: Vec<String>,
}

/// The quick open cache with its ranking bookkeeping.
pub struct QuickOpenRankedCache {
    pub cache: QuickOpenResultsCache,
    pub background_rank: Option<QuickOpenBackgroundRank>,
    pub last_query_changed_at: Option<u64>,
    pub completed_ranking: Option<QuickOpenCompletedRanking>,
}

/// The paths of ranked results, in order.
pub open spec fn result_paths(results: Seq<QuickOpenResult>) -> Seq<Seq<char>> {
    results.map_values(|r: QuickOpenResult| r.path@)
}

/// The first `limit` results (all of them when there are fewer).
pub open spec fn kept_results(results: Seq<QuickOpenResult>, limit: usize) -> Seq<QuickOpenResult> {
    if results.len() <= limit { results } else { results.take(limit as int) }
}

/// Whether a finished ranking answers the outstanding one: same request id
/// and same inputs.
pub open spec fn ranking_answers(state: Option<QuickOpenRankedCache>, request_id: u64, key: QuickOpenRankKey) -> bool {
    state matches Some(st) && st.background_rank matches Some(r) && r.request_id == request_id
        && rank_key_view(r.key) == rank_key_view(key)
}

/// Applies a finished background ranking. It is applied only when a cache
/// exists whose outstanding ranking has `request_id` and was made from
/// `key` (`ranking_answers`); anything else, such as a late result for a
/// query since re-ranked, leaves the state as it is and returns `false`.
/// Applying it takes the inputs of `key` as the cache's, with
/// `parsed_query` (the query of `key.query_input` as the quick open parser
/// reads it); remembers what the ranking matched (truncated when it reached
/// `reuse_limit`); keeps the first `result_limit` results with their
/// labels; and clears the outstanding ranking.
pub fn apply_quick_open_ranked_results(
    state: &mut Option<QuickOpenRankedCache>,
    request_id: u64,
    key: &QuickOpenRankKey,
    results: Vec<QuickOpenResult>,
    parsed_query: QuickOpenQuery,
    result_limit: usize,
    reuse_limit: usize,
) -> (applied: bool)
    ensures
        applied == ranking_answers(*old(state), request_id, *key),
        !applied ==> *final(state) == *old(state),
        applied ==> (*final(state) matches Some(st) && {
            &&& cache_inputs_view(st.cache) == rank_key_view(*key)
            &&& st.cache.parsed_query == parsed_query
            &&& st.cache.results@ == kept_results(results@, result_limit)
            &&& label_views(st.cache.result_labels@) == labels_spec(st.cache.results@, parsed_query)
            &&& st.background_rank is None
            &&& st.last_query_changed_at == (*old(state))->0.last_query_changed_at
            &&& st.completed_ranking matches Some(c) && {
                &&& c.query@ == parsed_query.pattern@
                &&& c.generation == key.index_generation
                &&& c.matched_paths_truncated == (results@.len() >= reuse_limit)
                &&& path_views(c.matched_paths@) == result_paths(results@)
            }
        }),
{
    let answers = match state {
        Some(st) => match &st.background_rank {
            Some(rank) => rank.request_id == request_id && rank_keys_equal(&rank.key, key),
            None => false,
        },
        None => false,
    };
    if !answers {
        return false;
    }
    let mut st = state.take().unwrap();
    let mut matched_paths: Vec<String> = Vec::new();
    let mut i: usize = 0;
    while i < results.len()
        invariant
            i <= results@.len(),
            path_views(matched_paths@) == result_paths(results@).take(i as int),
        decreases results.len() - i,
    {
        let ghost before = path_views(matched_paths@);
        matched_paths.push(results[i].path.clone());
        assert(path_views(matched_paths@) =~= before.push(results@[i as int].path@));
        assert(result_paths(results@).take(i + 1) =~= result_paths(results@).take(i as int).push(results@[i as int].path@));
        i = i + 1;
    }
    assert(result_paths(results@).take(results@.len() as int) =~= result_paths(results@));
    let completed = QuickOpenCompletedRanking {
        query: parsed_query.pattern.clone(),
        generation: key.index_generation,
        matched_paths_truncated: results.len() >= reuse_limit,
        matched_paths,
    };
    let mut kept = results;
    kept.truncate(result_limit);
    let labels = quick_open_result_labels(kept.as_slice(), &parsed_query);
    let current = match &key.current_navigation_location {
        Some(l) => Some(copy_location(l)),
        None => None,
    };
    st.cache = QuickOpenResultsCache {
        query_input: key.query_input.clone(),
        index_generation: key.index_generation,
        recent_files: copy_strings(&key.recent_files),
        open_files: copy_strings(&key.open_files),
        query_memory: copy_strings(&key.query_memory),
        navigation_back: copy_locations(key.navigation_back.as_slice()),
        navigation_forward: copy_locations(key.navigation_forward.as_slice()),
        current_navigation_location: current,
        parsed_query,
        result_labels: labels,
        results: kept,
    };
    st.background_rank = None;
    st.completed_ranking = Some(completed);
    *state = Some(st);
    true
}

} // verus!
