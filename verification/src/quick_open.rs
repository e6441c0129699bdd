//! Quick open bookkeeping around the fuzzy ranking: which candidates a new
//! query ranks, the labels shown for ranked results, which rows are visible
//! and openable, and how a cached ranking is reused when only the
//! `:line:column` target of the query changed.
use vstd::prelude::*;
use crate::labels::{label_spec, sanitized_label};
use crate::text::{decimal_spec, push_char, push_decimal, push_text, str_equal};

verus! {

/// Result labels are cut to this many characters.
pub const QUICK_OPEN_RESULT_LABEL_MAX_CHARS: usize = 240;

/// A parsed quick open query: the fuzzy pattern and an optional
/// `:line:column` target (the column defaults to 1).
#[derive(Debug, Clone)]
pub struct QuickOpenQuery {
    pub pattern: String,
    pub line: Option<usize>,
    pub column: usize,
}

/// A ranked file.
#[derive(Debug, Clone)]
pub struct QuickOpenResult {
    pub rank_score: i64,
    pub fuzzy_score: i64,
    pub path: String,
    pub rel: String,
    /// Where the file was last visited, if it was.
    pub navigation_line_column: Option<(usize, usize)>,
}

/// A visited location.
#[derive(Debug, Clone)]
pub struct NavigationLocation {
    pub path: String,
    pub line: usize,
    pub column: usize,
}

/// The last completed ranking and what it was computed from.
pub struct QuickOpenResultsCache {
    pub query_input: String,
    pub index_generation: u64,
    pub recent_files: Vec<String>,
    pub open_files: Vec<String>,
    pub query_memory: Vec<String>,
    pub navigation_back: Vec<NavigationLocation>,
    pub navigation_forward: Vec<NavigationLocation>,
    pub current_navigation_location: Option<NavigationLocation>,
    pub parsed_query: QuickOpenQuery,
    pub result_labels: Vec<String>,
    pub results: Vec<QuickOpenResult>,
}

/// Where candidates for a query come from.
#[derive(Debug, Clone, Copy, PartialEq, Eq)]
pub enum CandidateSource<'a> {
    /// Rank the whole index.
    Full,
    /// Rerank only the paths the previous query matched.
    Reuse(&'a [String]),
}

/// A query extending the previous non-empty, untruncated query of the same
/// index generation reranks the previous matches; anything else ranks the
/// whole index.
pub fn candidates_for_query<'a>(
    previous: Option<(&'a str, &'a [String], bool)>,
    new_query: &str,
    same_generation: bool,
) -> (source: CandidateSource<'a>)
    ensures
        match previous {
            Some((previous_query, previous_paths, previous_truncated)) => if !previous_truncated
                && previous_query@.len() > 0 && same_generation && previous_query@.is_prefix_of(new_query@) {
                source == CandidateSource::Reuse(previous_paths)
            } else {
                source == CandidateSource::Full
            },
            None => source == CandidateSource::Full,
        },
{
    let (previous_query, previous_paths, previous_truncated) = match previous {
        Some(previous) => previous,
        None => return CandidateSource::Full,
    };
    if previous_truncated {
        return CandidateSource::Full;
    }
    if previous_query.unicode_len() == 0 {
        return CandidateSource::Full;
    }
    if !same_generation || !str_starts_with(new_query, previous_query) {
        return CandidateSource::Full;
    }
    CandidateSource::Reuse(previous_paths)
}

/// Whether `s` starts with `prefix`.
pub fn str_starts_with(s: &str, prefix: &str) -> (starts: bool)
    ensures
        starts == prefix@.is_prefix_of(s@),
{
    let n = prefix.unicode_len();
    if n > s.unicode_len() {
        return false;
    }
    let mut i: usize = 0;
    while i < n
        invariant
            n == prefix@.len(),
            n <= s@.len(),
            i <= n,
            forall|j: int| 0 <= j < i ==> #[trigger] prefix@[j] == s@[j],
        decreases n - i,
    {
        if prefix.get_char(i) != s.get_char(i) {
            return false;
        }
        i = i + 1;
    }
    assert(prefix@ =~= s@.subrange(0, n as int));
    true
}

/// The first index walk of an open folder is still running and nothing has
/// been indexed yet.
pub fn quick_open_indexing_pending(
    workspace_placeholder: bool,
    index_file_count: usize,
    workspace_index_in_flight_request_id: Option<u64>,
) -> (pending: bool)
    ensures
        pending == (!workspace_placeholder && index_file_count == 0 && workspace_index_in_flight_request_id is Some),
{
    !workspace_placeholder && index_file_count == 0 && workspace_index_in_flight_request_id.is_some()
}

/// What an empty result list says.
pub fn quick_open_empty_state_message(indexing_pending: bool) -> (message: &'static str)
    ensures
        message@ == (if indexing_pending { "Indexing workspace..."@ } else { "No matching files"@ }),
{
    if indexing_pending {
        "Indexing workspace..."
    } else {
        "No matching files"
    }
}

/// `:line:column`.
pub open spec fn line_column_suffix(line: usize, column: usize) -> Seq<char> {
    seq![':'] + decimal_spec(line as nat) + seq![':'] + decimal_spec(column as nat)
}

/// The location a result opens at: the query's explicit target, else where
/// the file was last visited.
pub open spec fn target_line_column(query: QuickOpenQuery, navigation_line_column: Option<(usize, usize)>) -> Option<(usize, usize)> {
    match query.line {
        Some(line) => Some((line, query.column)),
        None => navigation_line_column,
    }
}

/// The label of a result: its relative path with the target location, as a
/// bounded single-line label.
pub open spec fn result_label_spec(rel: Seq<char>, query: QuickOpenQuery, navigation_line_column: Option<(usize, usize)>) -> Seq<char> {
    let text = match target_line_column(query, navigation_line_column) {
        Some((line, column)) => rel + line_column_suffix(line, column),
        None => rel,
    };
    label_spec(text, QUICK_OPEN_RESULT_LABEL_MAX_CHARS as nat, Seq::<char>::empty())
}

/// Builds the label of a result (see `result_label_spec`).
pub fn quick_open_result_label_with_navigation_line_column(
    rel: &str,
    query: &QuickOpenQuery,
    navigation_line_column: Option<(usize, usize)>,
) -> (label: String)
    ensures
        label@ == result_label_spec(rel@, *query, navigation_line_column),
{
    let mut text = String::new();
    push_text(&mut text, rel);
    let target = match query.line {
        Some(line) => Some((line, query.column)),
        None => navigation_line_column,
    };
    match target {
        Some((line, column)) => {
            push_char(&mut text, ':');
            push_decimal(&mut text, line);
            push_char(&mut text, ':');
            push_decimal(&mut text, column);
            assert(text@ =~= rel@ + line_column_suffix(line, column));
        },
        None => {
            assert(text@ =~= rel@);
        },
    }
    proof {
        reveal_strlit("");
        assert(""@ =~= Seq::<char>::empty());
    }
    sanitized_label(text.as_str(), QUICK_OPEN_RESULT_LABEL_MAX_CHARS, "")
}

/// The path and location a result opens at.
pub fn quick_open_target_with_navigation_line_column(
    path: String,
    query: &QuickOpenQuery,
    navigation_line_column: Option<(usize, usize)>,
) -> (target: (String, Option<(usize, usize)>))
    ensures
        target.0 == path,
        target.1 == target_line_column(*query, navigation_line_column),
{
    match query.line {
        Some(line) => (path, Some((line, query.column))),
        None => (path, navigation_line_column),
    }
}

/// Whether `label` is the current label of `result`.
pub fn quick_open_result_label_matches_result(result: &QuickOpenResult, label: &str, parsed_query: &QuickOpenQuery) -> (matches: bool)
    ensures
        matches == (label@ == result_label_spec(result.rel@, *parsed_query, result.navigation_line_column)),
{
    let expected = quick_open_result_label_with_navigation_line_column(
        result.rel.as_str(),
        parsed_query,
        result.navigation_line_column,
    );
    str_equal(label, expected.as_str())
}

/// The labels of `results`, in order.
pub open spec fn labels_spec(results: Seq<QuickOpenResult>, query: QuickOpenQuery) -> Seq<Seq<char>> {
    results.map_values(|r: QuickOpenResult| result_label_spec(r.rel@, query, r.navigation_line_column))
}

/// The characters of each label.
pub open spec fn label_views(labels: Seq<String>) -> Seq<Seq<char>> {
    labels.map_values(|l: String| l@)
}

/// Builds the labels of all results.
pub fn quick_open_result_labels(results: &[QuickOpenResult], parsed_query: &QuickOpenQuery) -> (labels: Vec<String>)
    ensures
        label_views(labels@) == labels_spec(results@, *parsed_query),
{
    let mut labels: Vec<String> = Vec::new();
    let mut i: usize = 0;
    while i < results.len()
        invariant
            i <= results@.len(),
            labels@.len() == i,
            label_views(labels@) == labels_spec(results@, *parsed_query).subrange(0, i as int),
        decreases results.len() - i,
    {
        let label = quick_open_result_label_with_navigation_line_column(
            results[i].rel.as_str(),
            parsed_query,
            results[i].navigation_line_column,
        );
        let ghost before = labels@;
        labels.push(label);
        assert forall|k: int| 0 <= k < i + 1 implies #[trigger] label_views(labels@)[k]
            == labels_spec(results@, *parsed_query).subrange(0, i + 1)[k] by {
            if k < i {
                assert(label_views(before)[k] == labels_spec(results@, *parsed_query).subrange(0, i as int)[k]);
            }
        }
        assert(label_views(labels@) =~= labels_spec(results@, *parsed_query).subrange(0, i + 1));
        i = i + 1;
    }
    assert(labels_spec(results@, *parsed_query).subrange(0, results@.len() as int) =~= labels_spec(results@, *parsed_query));
    labels
}

/// Every result has its current label (and nothing more).
pub fn quick_open_result_labels_match_results(
    results: &[QuickOpenResult],
    labels: &[String],
    parsed_query: &QuickOpenQuery,
) -> (matches: bool)
    ensures
        matches == (label_views(labels@) == labels_spec(results@, *parsed_query)),
{
    if labels.len() != results.len() {
        proof {
            assert(label_views(labels@).len() != labels_spec(results@, *parsed_query).len());
        }
        return false;
    }
    let mut i: usize = 0;
    while i < results.len()
        invariant
            i <= results@.len(),
            labels@.len() == results@.len(),
            forall|j: int| 0 <= j < i ==> #[trigger] label_views(labels@)[j] == labels_spec(results@, *parsed_query)[j],
        decreases results.len() - i,
    {
        if !quick_open_result_label_matches_result(&results[i], labels[i].as_str(), parsed_query) {
            assert(label_views(labels@)[i as int] != labels_spec(results@, *parsed_query)[i as int]);
            return false;
        }
        i = i + 1;
    }
    assert(label_views(labels@) =~= labels_spec(results@, *parsed_query));
    true
}

/// Label-relevant query metadata is the same: the same explicit line and,
/// when there is one, the same column.
pub fn quick_open_result_label_query_metadata_matches(previous_query: &QuickOpenQuery, query: &QuickOpenQuery) -> (matches: bool)
    ensures
        matches == (previous_query.line == query.line && (query.line is None || previous_query.column == query.column)),
{
    previous_query.line == query.line && (query.line.is_none() || previous_query.column == query.column)
}

/// How many leading results show their current label.
pub open spec fn visible_count_spec(results: Seq<QuickOpenResult>, labels: Seq<String>, query: QuickOpenQuery, count: int) -> bool {
    &&& 0 <= count <= results.len()
    &&& count <= labels.len()
    &&& forall|j: int| 0 <= j < count ==> #[trigger] labels[j]@ == result_label_spec(results[j].rel@, query, results[j].navigation_line_column)
    &&& (count == results.len() || count == labels.len()
        || labels[count]@ != result_label_spec(results[count].rel@, query, results[count].navigation_line_column))
}

/// Counts the leading results whose label is current; rows past the first
/// stale or missing label are not shown.
pub fn quick_open_visible_result_count(cache: &QuickOpenResultsCache) -> (count: usize)
    ensures
        visible_count_spec(cache.results@, cache.result_labels@, cache.parsed_query, count as int),
{
    let mut i: usize = 0;
    while i < cache.results.len() && i < cache.result_labels.len()
        invariant
            i <= cache.results@.len(),
            i <= cache.result_labels@.len(),
            forall|j: int| 0 <= j < i ==> #[trigger] cache.result_labels@[j]@
                == result_label_spec(cache.results@[j].rel@, cache.parsed_query, cache.results@[j].navigation_line_column),
        decreases cache.results.len() - i,
    {
        if !quick_open_result_label_matches_result(&cache.results[i], cache.result_labels[i].as_str(), &cache.parsed_query) {
            return i;
        }
        i = i + 1;
    }
    i
}

/// Rebuilds the labels when some result does not show its current label;
/// returns the number of results, all of which are then visible.
pub fn quick_open_refresh_stale_display_metadata(cache: &mut QuickOpenResultsCache) -> (visible: usize)
    ensures
        visible == old(cache).results@.len(),
        final(cache).results == old(cache).results,
        final(cache).parsed_query == old(cache).parsed_query,
        final(cache).query_input == old(cache).query_input,
        label_views(final(cache).result_labels@) == labels_spec(old(cache).results@, old(cache).parsed_query),
        label_views(old(cache).result_labels@) == labels_spec(old(cache).results@, old(cache).parsed_query)
            ==> final(cache).result_labels == old(cache).result_labels,
{
    let visible_count = quick_open_visible_result_count(cache);
    if visible_count != cache.results.len() || cache.result_labels.len() != cache.results.len() {
        proof {
            if label_views(cache.result_labels@) == labels_spec(cache.results@, cache.parsed_query) {
                assert(label_views(cache.result_labels@).len() == cache.result_labels@.len());
                assert(labels_spec(cache.results@, cache.parsed_query).len() == cache.results@.len());
                let c = visible_count as int;
                assert(label_views(cache.result_labels@)[c] == labels_spec(cache.results@, cache.parsed_query)[c]);
                assert(false);
            }
        }
        cache.result_labels = quick_open_result_labels(cache.results.as_slice(), &cache.parsed_query);
    } else {
        assert(label_views(cache.result_labels@) =~= labels_spec(cache.results@, cache.parsed_query)) by {
            assert forall|j: int| 0 <= j < cache.results@.len()
                implies #[trigger] label_views(cache.result_labels@)[j] == labels_spec(cache.results@, cache.parsed_query)[j] by {
                assert(cache.result_labels@[j]@ == result_label_spec(cache.results@[j].rel@, cache.parsed_query,
                    cache.results@[j].navigation_line_column));
            }
        }
    }
    cache.results.len()
}

/// A row to draw: the result index and its label.
#[derive(Debug, Clone, Copy, PartialEq, Eq)]
pub struct QuickOpenPreparedVisibleRow<'a> {
    pub index: usize,
    pub label: &'a str,
}

/// The rows of `start..end` that can be drawn: clamped to the visible rows,
/// the results and the prepared labels.
pub fn quick_open_prepare_visible_rows<'a>(
    cache: &'a QuickOpenResultsCache,
    start: usize,
    end: usize,
    visible_count: usize,
) -> (rows: Vec<QuickOpenPreparedVisibleRow<'a>>)
    ensures
        ({
            let stop = vstd::math::min(vstd::math::min(end as int, visible_count as int),
                vstd::math::min(cache.results@.len() as int, cache.result_labels@.len() as int));
            let first = vstd::math::min(start as int, stop);
            &&& rows@.len() == stop - first
            &&& forall|k: int| 0 <= k < rows@.len() ==> (#[trigger] rows@[k]).index == first + k
                && rows@[k].label@ == cache.result_labels@[first + k]@
        }),
{
    let mut stop = end;
    if visible_count < stop {
        stop = visible_count;
    }
    if cache.results.len() < stop {
        stop = cache.results.len();
    }
    if cache.result_labels.len() < stop {
        stop = cache.result_labels.len();
    }
    let first = if start < stop { start } else { stop };
    let mut rows: Vec<QuickOpenPreparedVisibleRow<'a>> = Vec::new();
    let mut index = first;
    while index < stop
        invariant
            first <= index <= stop,
            stop <= cache.result_labels@.len(),
            rows@.len() == index - first,
            forall|k: int| 0 <= k < rows@.len() ==> (#[trigger] rows@[k]).index == first + k
                && rows@[k].label@ == cache.result_labels@[first + k]@,
        decreases stop - index,
    {
        rows.push(QuickOpenPreparedVisibleRow { index, label: cache.result_labels[index].as_str() });
        index = index + 1;
    }
    rows
}

/// What opening a row does.
#[derive(Debug, Clone, PartialEq, Eq)]
pub struct QuickOpenOpenTarget {
    pub path: String,
    pub line_column: Option<(usize, usize)>,
    pub query_pattern: String,
}

/// The target of row `index`: only while the cache still belongs to the
/// query being edited and the row is visible with a label.
pub fn quick_open_open_target_at(
    cache: &QuickOpenResultsCache,
    index: usize,
    visible_count: usize,
    expected_query_input: &str,
) -> (target: Option<QuickOpenOpenTarget>)
    ensures
        (cache.query_input@ == expected_query_input@ && index < visible_count && index < cache.result_labels@.len()
            && index < cache.results@.len()) ==> (target matches Some(t) && t.path == cache.results@[index as int].path
            && t.line_column == target_line_column(cache.parsed_query, cache.results@[index as int].navigation_line_column)
            && t.query_pattern == cache.parsed_query.pattern),
        !(cache.query_input@ == expected_query_input@ && index < visible_count && index < cache.result_labels@.len()
            && index < cache.results@.len()) ==> target is None,
{
    if !str_equal(cache.query_input.as_str(), expected_query_input) {
        return None;
    }
    if index >= visible_count {
        return None;
    }
    if index >= cache.result_labels.len() || index >= cache.results.len() {
        return None;
    }
    let result = &cache.results[index];
    let (path, line_column) = quick_open_target_with_navigation_line_column(
        result.path.clone(),
        &cache.parsed_query,
        result.navigation_line_column,
    );
    Some(QuickOpenOpenTarget { path, line_column, query_pattern: cache.parsed_query.pattern.clone() })
}

/// The characters of each path.
pub open spec fn path_views(paths: Seq<String>) -> Seq<Seq<char>> {
    paths.map_values(|p: String| p@)
}

/// Whether two string lists hold the same strings, in order.
pub fn strings_equal(a: &[String], b: &[String]) -> (eq: bool)
    ensures
        eq == (path_views(a@) == path_views(b@)),
{
    if a.len() != b.len() {
        assert(path_views(a@).len() != path_views(b@).len());
        return false;
    }
    let mut i: usize = 0;
    while i < a.len()
        invariant
            i <= a@.len(),
            a@.len() == b@.len(),
            forall|j: int| 0 <= j < i ==> #[trigger] a@[j]@ == b@[j]@,
        decreases a.len() - i,
    {
        if !str_equal(a[i].as_str(), b[i].as_str()) {
            assert(path_views(a@)[i as int] != path_views(b@)[i as int]);
            return false;
        }
        i = i + 1;
    }
    assert(path_views(a@) =~= path_views(b@));
    true
}

/// The cached ranking was computed from the same pattern, index
/// generation, recent files, open files and query memory; the query's
/// `:line:column` target may differ.
pub fn quick_open_cache_ranking_inputs_match_ignoring_query_target(
    cache: &QuickOpenResultsCache,
    parsed_query: &QuickOpenQuery,
    index_generation: u64,
    recent_files: &[String],
    open_files: &[String],
    query_memory: &[String],
) -> (matches: bool)
    ensures
        matches == (cache.parsed_query.pattern@ == parsed_query.pattern@
            && cache.index_generation == index_generation
            && path_views(cache.recent_files@) == path_views(recent_files@)
            && path_views(cache.open_files@) == path_views(open_files@)
            && path_views(cache.query_memory@) == path_views(query_memory@)),
{
    str_equal(cache.parsed_query.pattern.as_str(), parsed_query.pattern.as_str())
        && cache.index_generation == index_generation
        && strings_equal(cache.recent_files.as_slice(), recent_files)
        && strings_equal(cache.open_files.as_slice(), open_files)
        && strings_equal(cache.query_memory.as_slice(), query_memory)
}

/// The location as plain values.
pub open spec fn location_view(l: NavigationLocation) -> (Seq<char>, usize, usize) {
    (l.path@, l.line, l.column)
}

/// The locations as plain values.
pub open spec fn locations_view(ls: Seq<NavigationLocation>) -> Seq<(Seq<char>, usize, usize)> {
    ls.map_values(|l: NavigationLocation| location_view(l))
}

/// An optional location as plain values.
pub open spec fn opt_location_view(l: Option<NavigationLocation>) -> Option<(Seq<char>, usize, usize)> {
    match l {
        Some(l) => Some(location_view(l)),
        None => None,
    }
}

/// A copy of a location.
pub fn copy_location(l: &NavigationLocation) -> (c: NavigationLocation)
    ensures
        location_view(c) == location_view(*l),
{
    NavigationLocation { path: l.path.clone(), line: l.line, column: l.column }
}

/// A copy of a location list.
pub fn copy_locations(ls: &[NavigationLocation]) -> (c: Vec<NavigationLocation>)
    ensures
        locations_view(c@) == locations_view(ls@),
{
    let mut c: Vec<NavigationLocation> = Vec::new();
    let mut i: usize = 0;
    while i < ls.len()
        invariant
            i <= ls@.len(),
            c@.len() == i,
            locations_view(c@) == locations_view(ls@).subrange(0, i as int),
        decreases ls.len() - i,
    {
        let ghost before = c@;
        let copied = copy_location(&ls[i]);
        assert(location_view(copied) == location_view(ls@[i as int]));
        c.push(copied);
        assert(c@[i as int] == copied);
        assert forall|k: int| 0 <= k < i + 1 implies #[trigger] locations_view(c@)[k]
            == locations_view(ls@).subrange(0, i + 1)[k] by {
            if k < i {
                assert(locations_view(before)[k] == locations_view(ls@).subrange(0, i as int)[k]);
            }
        }
        assert(locations_view(c@) =~= locations_view(ls@).subrange(0, i + 1));
        i = i + 1;
    }
    assert(locations_view(ls@).subrange(0, ls@.len() as int) =~= locations_view(ls@));
    c
}

/// Whether two locations are the same.
pub fn location_equal(a: &NavigationLocation, b: &NavigationLocation) -> (eq: bool)
    ensures
        eq == (location_view(*a) == location_view(*b)),
{
    a.line == b.line && a.column == b.column && str_equal(a.path.as_str(), b.path.as_str())
}

/// Whether two location lists are the same.
pub fn locations_equal(a: &[NavigationLocation], b: &[NavigationLocation]) -> (eq: bool)
    ensures
        eq == (locations_view(a@) == locations_view(b@)),
{
    if a.len() != b.len() {
        assert(locations_view(a@).len() != locations_view(b@).len());
        return false;
    }
    let mut i: usize = 0;
    while i < a.len()
        invariant
            i <= a@.len(),
            a@.len() == b@.len(),
            forall|j: int| 0 <= j < i ==> #[trigger] location_view(a@[j]) == location_view(b@[j]),
        decreases a.len() - i,
    {
        if !location_equal(&a[i], &b[i]) {
            assert(locations_view(a@)[i as int] != locations_view(b@)[i as int]);
            return false;
        }
        i = i + 1;
    }
    assert(locations_view(a@) =~= locations_view(b@));
    true
}

/// The line and column of the last of `locations` at `path`.
pub open spec fn latest_location_at(locations: Seq<NavigationLocation>, path: Seq<char>) -> Option<(usize, usize)>
    decreases locations.len(),
{
    if locations.len() == 0 {
        None
    } else if locations.last().path@ == path {
        Some((locations.last().line, locations.last().column))
    } else {
        latest_location_at(locations.drop_last(), path)
    }
}

/// Finds the last location at `path`.
pub fn latest_navigation_line_column(locations: &[NavigationLocation], path: &str) -> (found: Option<(usize, usize)>)
    ensures
        found == latest_location_at(locations@, path@),
{
    let mut n = locations.len();
    assert(locations@.subrange(0, n as int) =~= locations@);
    while n > 0
        invariant
            n <= locations@.len(),
            latest_location_at(locations@, path@) == latest_location_at(locations@.subrange(0, n as int), path@),
        decreases n,
    {
        assert(locations@.subrange(0, n as int).drop_last() =~= locations@.subrange(0, n - 1));
        if str_equal(locations[n - 1].path.as_str(), path) {
            return Some((locations[n - 1].line, locations[n - 1].column));
        }
        n = n - 1;
    }
    None
}

/// Stores the query the cache now serves. When the navigation history is
/// unchanged the ranking and locations stay and the labels are rebuilt only
/// if they no longer match the new query's target; otherwise the new history
/// is stored and every result takes its latest visited location from
/// `navigation_locations`, with fresh labels. Returns the result count.
#[verifier::loop_isolation(false)]
pub fn quick_open_refresh_cached_query_metadata(
    cache: &mut QuickOpenResultsCache,
    query_input: &str,
    parsed_query: QuickOpenQuery,
    navigation_back: &[NavigationLocation],
    navigation_forward: &[NavigationLocation],
    current_navigation_location: Option<NavigationLocation>,
    navigation_locations: &[NavigationLocation],
) -> (count: usize)
    ensures
        count == old(cache).results@.len(),
        final(cache).query_input@ == query_input@,
        final(cache).parsed_query == parsed_query,
        final(cache).results@.len() == old(cache).results@.len(),
        label_views(final(cache).result_labels@) == labels_spec(final(cache).results@, parsed_query),
        ({
            let same_navigation = locations_view(old(cache).navigation_back@) == locations_view(navigation_back@)
                && locations_view(old(cache).navigation_forward@) == locations_view(navigation_forward@)
                && opt_location_view(old(cache).current_navigation_location) == opt_location_view(current_navigation_location);
            if same_navigation {
                &&& final(cache).results == old(cache).results
                &&& (label_views(old(cache).result_labels@) == labels_spec(old(cache).results@, parsed_query)
                    && old(cache).parsed_query.line == parsed_query.line
                    && (parsed_query.line is None || old(cache).parsed_query.column == parsed_query.column)
                    ==> final(cache).result_labels == old(cache).result_labels)
            } else {
                &&& locations_view(final(cache).navigation_back@) == locations_view(navigation_back@)
                &&& locations_view(final(cache).navigation_forward@) == locations_view(navigation_forward@)
                &&& opt_location_view(final(cache).current_navigation_location) == opt_location_view(current_navigation_location)
                &&& forall|i: int| 0 <= i < final(cache).results@.len() ==> {
                    &&& (#[trigger] final(cache).results@[i]).rel == old(cache).results@[i].rel
                    &&& final(cache).results@[i].path == old(cache).results@[i].path
                    &&& final(cache).results@[i].rank_score == old(cache).results@[i].rank_score
                    &&& final(cache).results@[i].fuzzy_score == old(cache).results@[i].fuzzy_score
                    &&& final(cache).results@[i].navigation_line_column
                        == latest_location_at(navigation_locations@, old(cache).results@[i].path@)
                }
            }
        }),
{
    let same_current = match (&cache.current_navigation_location, &current_navigation_location) {
        (Some(a), Some(b)) => location_equal(a, b),
        (None, None) => true,
        _ => false,
    };
    let navigation_metadata_matches = locations_equal(cache.navigation_back.as_slice(), navigation_back)
        && locations_equal(cache.navigation_forward.as_slice(), navigation_forward)
        && same_current;
    cache.query_input = query_input.to_owned();
    if navigation_metadata_matches {
        if !quick_open_result_label_query_metadata_matches(&cache.parsed_query, &parsed_query)
            || !quick_open_result_labels_match_results(cache.results.as_slice(), cache.result_labels.as_slice(), &parsed_query) {
            cache.result_labels = quick_open_result_labels(cache.results.as_slice(), &parsed_query);
        }
        cache.parsed_query = parsed_query;
    } else {
        cache.parsed_query = parsed_query;
        cache.navigation_back = copy_locations(navigation_back);
        cache.navigation_forward = copy_locations(navigation_forward);
        cache.current_navigation_location = current_navigation_location;
        let ghost before = cache.results@;
        let mut i: usize = 0;
        while i < cache.results.len()
            invariant
                i <= cache.results@.len(),
                cache.results@.len() == before.len(),
                cache.query_input@ == query_input@,
                cache.parsed_query == parsed_query,
                locations_view(cache.navigation_back@) == locations_view(navigation_back@),
                locations_view(cache.navigation_forward@) == locations_view(navigation_forward@),
                opt_location_view(cache.current_navigation_location) == opt_location_view(current_navigation_location),
                forall|j: int| 0 <= j < cache.results@.len() ==> {
                    &&& (#[trigger] cache.results@[j]).rel == before[j].rel
                    &&& cache.results@[j].path == before[j].path
                    &&& cache.results@[j].rank_score == before[j].rank_score
                    &&& cache.results@[j].fuzzy_score == before[j].fuzzy_score
                    &&& (j < i ==> cache.results@[j].navigation_line_column == latest_location_at(navigation_locations@, before[j].path@))
                    &&& (j >= i ==> cache.results@[j].navigation_line_column == before[j].navigation_line_column)
                },
            decreases cache.results.len() - i,
        {
            let location = latest_navigation_line_column(navigation_locations, cache.results[i].path.as_str());
            let mut result = cache.results.remove(i);
            result.navigation_line_column = location;
            cache.results.insert(i, result);
            i = i + 1;
        }
        cache.result_labels = quick_open_result_labels(cache.results.as_slice(), &cache.parsed_query);
    }
    cache.results.len()
}


/// When every result shows its current label, every result is visible; in
/// particular after `quick_open_refresh_stale_display_metadata` the visible
/// count equals the result count.
pub proof fn lemma_current_labels_make_all_rows_visible(results: Seq<QuickOpenResult>, labels: Seq<String>, query: QuickOpenQuery)
    requires
        label_views(labels) == labels_spec(results, query),
    ensures
        visible_count_spec(results, labels, query, results.len() as int),
        forall|count: int| visible_count_spec(results, labels, query, count) ==> count == results.len(),
{
    assert(label_views(labels).len() == labels.len());
    assert forall|j: int| 0 <= j < results.len() implies #[trigger] labels[j]@
        == result_label_spec(results[j].rel@, query, results[j].navigation_line_column) by {
        assert(label_views(labels)[j] == labels_spec(results, query)[j]);
    }
    assert forall|count: int| visible_count_spec(results, labels, query, count) implies count == results.len() by {
        if count < results.len() {
            assert(label_views(labels)[count] == labels_spec(results, query)[count]);
        }
    }
}

} // verus!
