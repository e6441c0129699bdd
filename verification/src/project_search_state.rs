//! Project search inputs: the glob lists parsed from the panel text, the
//! recent-search history, and whether results or an answered request still
//! belong to the current inputs.
use vstd::prelude::*;
use std::collections::VecDeque;
use crate::labels::{label_spec, sanitized_label};
use crate::quick_open::{path_views, strings_equal};
use crate::settings_text::{bounded_settings_text, bounded_text_spec, trim_spec, trim_string_in_place};
use crate::text::{push_char, push_text, str_chars, str_equal, string_from_chars};
use crate::session_save::opt_view;
use vstd::string::*;

verus! {

/// At most this many globs are kept from one list.
pub const MAX_PROJECT_SEARCH_GLOBS: usize = 32;
/// Each glob keeps at most this many characters.
pub const MAX_PROJECT_SEARCH_GLOB_CHARS: usize = 256;
/// The history keeps at most this many searches by default.
pub const MAX_PROJECT_SEARCH_RECENT_QUERIES: usize = 20;
/// A remembered query keeps at most this many characters.
pub const MAX_PROJECT_SEARCH_RECENT_QUERY_CHARS: usize = 200;
/// A history label keeps at most this many characters.
pub const MAX_PROJECT_SEARCH_RECENT_LABEL_CHARS: usize = 80;

/// A remembered project search.
#[derive(Debug, Clone, PartialEq, Eq)]
pub struct ProjectSearchQuery {
    pub query: String,
    pub case_sensitive: bool,
    pub whole_word: bool,
    pub regex: bool,
    pub inclusions: String,
    pub exclusions: String,
}

/// A remembered search as plain values.
pub open spec fn query_view(q: ProjectSearchQuery) -> (Seq<char>, bool, bool, bool, Seq<char>, Seq<char>) {
    (q.query@, q.case_sensitive, q.whole_word, q.regex, q.inclusions@, q.exclusions@)
}

/// Remembered searches as plain values.
pub open spec fn queries_view(qs: Seq<ProjectSearchQuery>) -> Seq<(Seq<char>, bool, bool, bool, Seq<char>, Seq<char>)> {
    qs.map_values(|q: ProjectSearchQuery| query_view(q))
}

/// Glob lists are separated by commas, semicolons and line breaks.
pub open spec fn glob_separator(c: char) -> bool {
    c == ',' || c == ';' || c == '\n'
}

/// The pieces of `text` between separators (finished pieces, current piece).
pub open spec fn glob_pieces_scan(text: Seq<char>) -> (Seq<Seq<char>>, Seq<char>)
    decreases text.len(),
{
    if text.len() == 0 {
        (seq![], seq![])
    } else {
        let (done, cur) = glob_pieces_scan(text.drop_last());
        if glob_separator(text.last()) {
            (done.push(cur), seq![])
        } else {
            (done, cur.push(text.last()))
        }
    }
}

/// All pieces of `text` between separators, empty ones included.
pub open spec fn glob_pieces(text: Seq<char>) -> Seq<Seq<char>> {
    let (done, cur) = glob_pieces_scan(text);
    done.push(cur)
}

/// The glob a piece stands for: trimmed, single-line and bounded; empty
/// when nothing is left.
pub open spec fn clean_glob(piece: Seq<char>) -> Seq<char> {
    bounded_text_spec(trim_spec(piece), MAX_PROJECT_SEARCH_GLOB_CHARS as nat, false, true)
}

/// The globs of `pieces`: non-empty, first occurrence only, at most
/// `MAX_PROJECT_SEARCH_GLOBS`.
pub open spec fn collect_globs(pieces: Seq<Seq<char>>) -> Seq<Seq<char>>
    decreases pieces.len(),
{
    if pieces.len() == 0 {
        seq![]
    } else {
        let kept = collect_globs(pieces.drop_last());
        let g = clean_glob(pieces.last());
        if g.len() > 0 && !kept.contains(g) && kept.len() < MAX_PROJECT_SEARCH_GLOBS {
            kept.push(g)
        } else {
            kept
        }
    }
}

/// The glob list written in `text`.
pub open spec fn parsed_globs_spec(text: Seq<char>) -> Seq<Seq<char>> {
    collect_globs(glob_pieces(text))
}

/// Globs written back as one line, separated by `, `.
pub open spec fn join_globs_spec(globs: Seq<Seq<char>>) -> Seq<char>
    decreases globs.len(),
{
    if globs.len() == 0 {
        seq![]
    } else if globs.len() == 1 {
        globs[0]
    } else {
        join_globs_spec(globs.drop_last()) + seq![',', ' '] + globs.last()
    }
}

/// The canonical text of a glob list.
pub open spec fn canonical_globs_spec(text: Seq<char>) -> Seq<char> {
    join_globs_spec(parsed_globs_spec(text))
}

/// Splits `text` into its pieces between separators.
pub fn glob_pieces_of(text: &str) -> (pieces: Vec<Vec<char>>)
    ensures
        pieces@.map_values(|p: Vec<char>| p@) == glob_pieces(text@),
{
    let chars = str_chars(text);
    let mut done: Vec<Vec<char>> = Vec::new();
    let mut cur: Vec<char> = Vec::new();
    let mut i: usize = 0;
    while i < chars.len()
        invariant
            i <= chars@.len(),
            chars@ == text@,
            (done@.map_values(|p: Vec<char>| p@), cur@) == glob_pieces_scan(text@.subrange(0, i as int)),
        decreases chars.len() - i,
    {
        let ghost prefix = text@.subrange(0, i + 1);
        assert(prefix.drop_last() =~= text@.subrange(0, i as int));
        let c = chars[i];
        if c == ',' || c == ';' || c == '\n' {
            let ghost before = done@;
            let finished = cur;
            cur = Vec::new();
            done.push(finished);
            assert(done@.map_values(|p: Vec<char>| p@) =~= before.map_values(|p: Vec<char>| p@).push(finished@));
            assert(cur@ =~= Seq::<char>::empty());
        } else {
            cur.push(c);
        }
        i = i + 1;
    }
    assert(text@.subrange(0, chars.len() as int) =~= text@);
    let ghost before = done@;
    let last = cur;
    done.push(last);
    assert(done@.map_values(|p: Vec<char>| p@) =~= before.map_values(|p: Vec<char>| p@).push(last@));
    done
}

/// Whether `list` holds `s`.
pub fn strings_contain(list: &Vec<String>, s: &str) -> (found: bool)
    ensures
        found == path_views(list@).contains(s@),
{
    let mut i: usize = 0;
    while i < list.len()
        invariant
            i <= list@.len(),
            forall|j: int| 0 <= j < i ==> #[trigger] list@[j]@ != s@,
        decreases list.len() - i,
    {
        if str_equal(list[i].as_str(), s) {
            assert(path_views(list@)[i as int] == s@);
            return true;
        }
        i = i + 1;
    }
    proof {
        assert forall|j: int| 0 <= j < path_views(list@).len() implies #[trigger] path_views(list@)[j] != s@ by {
            assert(path_views(list@)[j] == list@[j]@);
        }
    }
    false
}

/// Parses a glob list (see `parsed_globs_spec`).
pub fn parse_project_globs(text: &str) -> (globs: Vec<String>)
    ensures
        path_views(globs@) == parsed_globs_spec(text@),
{
    let pieces = glob_pieces_of(text);
    let ghost all = pieces@.map_values(|p: Vec<char>| p@);
    let mut globs: Vec<String> = Vec::new();
    let mut i: usize = 0;
    assert(all.subrange(0, 0) =~= Seq::<Seq<char>>::empty());
    assert(path_views(globs@) =~= Seq::<Seq<char>>::empty());
    while i < pieces.len()
        invariant
            i <= pieces@.len(),
            all == pieces@.map_values(|p: Vec<char>| p@),
            all == glob_pieces(text@),
            path_views(globs@) == collect_globs(all.subrange(0, i as int)),
        decreases pieces.len() - i,
    {
        let ghost prefix = all.subrange(0, i + 1);
        assert(prefix.drop_last() =~= all.subrange(0, i as int));
        assert(prefix.last() == pieces@[i as int]@);
        let mut piece = string_from_chars(pieces[i].as_slice());
        trim_string_in_place(&mut piece);
        let glob = bounded_settings_text(piece.as_str(), MAX_PROJECT_SEARCH_GLOB_CHARS, false, true);
        if glob.unicode_len() > 0 && !strings_contain(&globs, glob.as_str()) && globs.len() < MAX_PROJECT_SEARCH_GLOBS {
            let ghost before = globs@;
            globs.push(glob);
            assert(path_views(globs@) =~= path_views(before).push(clean_glob(pieces@[i as int]@)));
        }
        i = i + 1;
    }
    assert(all.subrange(0, pieces@.len() as int) =~= all);
    globs
}

/// Writes globs back as one line (see `join_globs_spec`).
pub fn join_project_globs(globs: &[String]) -> (text: String)
    ensures
        text@ == join_globs_spec(path_views(globs@)),
{
    let mut text = String::new();
    let mut i: usize = 0;
    assert(path_views(globs@).subrange(0, 0) =~= Seq::<Seq<char>>::empty());
    while i < globs.len()
        invariant
            i <= globs@.len(),
            text@ == join_globs_spec(path_views(globs@).subrange(0, i as int)),
        decreases globs.len() - i,
    {
        let ghost prefix = path_views(globs@).subrange(0, i + 1);
        assert(prefix.drop_last() =~= path_views(globs@).subrange(0, i as int));
        assert(prefix.last() == globs@[i as int]@);
        if i > 0 {
            push_char(&mut text, ',');
            push_char(&mut text, ' ');
        } else {
            assert(prefix =~= seq![globs@[0]@]);
        }
        push_text(&mut text, globs[i].as_str());
        assert(text@ =~= join_globs_spec(prefix));
        i = i + 1;
    }
    assert(path_views(globs@).subrange(0, globs@.len() as int) =~= path_views(globs@));
    text
}

/// The query a search is remembered by: single-line, bounded, trimmed;
/// `None` when nothing is left.
pub open spec fn remembered_query_spec(query: Seq<char>) -> Option<Seq<char>> {
    let q = bounded_text_spec(query, MAX_PROJECT_SEARCH_RECENT_QUERY_CHARS as nat, false, true);
    if q.len() > 0 { Some(q) } else { None }
}

/// The record of a search with canonical glob lists, `None` for a blank
/// query.
pub fn project_search_query_record(
    query: &str,
    case_sensitive: bool,
    whole_word: bool,
    inclusions: &str,
    exclusions: &str,
) -> (record: Option<ProjectSearchQuery>)
    ensures
        match remembered_query_spec(query@) {
            None => record is None,
            Some(q) => record matches Some(r) && query_view(r) == (q, case_sensitive, whole_word, false,
                canonical_globs_spec(inclusions@), canonical_globs_spec(exclusions@)),
        },
{
    let q = bounded_settings_text(query, MAX_PROJECT_SEARCH_RECENT_QUERY_CHARS, false, true);
    if q.unicode_len() == 0 {
        return None;
    }
    let include_globs = parse_project_globs(inclusions);
    let exclude_globs = parse_project_globs(exclusions);
    Some(ProjectSearchQuery {
        query: q,
        case_sensitive,
        whole_word,
        regex: false,
        inclusions: join_project_globs(include_globs.as_slice()),
        exclusions: join_project_globs(exclude_globs.as_slice()),
    })
}

/// Whether two records are the same search.
pub fn query_records_equal(a: &ProjectSearchQuery, b: &ProjectSearchQuery) -> (eq: bool)
    ensures
        eq == (query_view(*a) == query_view(*b)),
{
    a.case_sensitive == b.case_sensitive && a.whole_word == b.whole_word && a.regex == b.regex
        && str_equal(a.query.as_str(), b.query.as_str()) && str_equal(a.inclusions.as_str(), b.inclusions.as_str())
        && str_equal(a.exclusions.as_str(), b.exclusions.as_str())
}

/// Entries other than `entry`.
pub open spec fn other_than(entry: (Seq<char>, bool, bool, bool, Seq<char>, Seq<char>)) -> spec_fn((Seq<char>, bool, bool, bool, Seq<char>, Seq<char>)) -> bool {
    |x: (Seq<char>, bool, bool, bool, Seq<char>, Seq<char>)| x != entry
}

/// The history after remembering `entry`: it moves to the front, earlier
/// copies go, and at most `max` entries stay.
pub open spec fn recorded_history(
    recent: Seq<(Seq<char>, bool, bool, bool, Seq<char>, Seq<char>)>,
    entry: (Seq<char>, bool, bool, bool, Seq<char>, Seq<char>),
    max: nat,
) -> Seq<(Seq<char>, bool, bool, bool, Seq<char>, Seq<char>)> {
    let all = seq![entry] + recent.filter(other_than(entry));
    if all.len() <= max { all } else { all.take(max as int) }
}

/// Remembers `entry` at the front of the history (see `recorded_history`).
pub fn record_recent_project_search(recent: &mut VecDeque<ProjectSearchQuery>, entry: ProjectSearchQuery, max: usize)
    ensures
        queries_view(final(recent)@) == recorded_history(queries_view(old(recent)@), query_view(entry), max as nat),
{
    let ghost e = query_view(entry);
    let ghost orig = queries_view(recent@);
    let mut kept: VecDeque<ProjectSearchQuery> = VecDeque::new();
    let ghost f = other_than(e);
    assert(orig.subrange(0, 0).filter(f) =~= Seq::empty());
    assert(queries_view(kept@) =~= Seq::empty());
    while recent.len() > 0
        invariant
            recent@.len() <= orig.len(),
            orig.subrange(orig.len() - recent@.len(), orig.len() as int) == queries_view(recent@),
            queries_view(kept@) == orig.subrange(0, orig.len() - recent@.len()).filter(f),
            e == query_view(entry),
            f == other_than(e),
        decreases recent.len(),
    {
        let ghost done = orig.len() - recent@.len();
        let ghost rest = queries_view(recent@);
        let item = recent.pop_front().unwrap();
        proof {
            assert(rest[0] == query_view(item));
            assert(orig[done] == rest[0]);
            assert(orig.subrange(0, done + 1).drop_last() =~= orig.subrange(0, done));
            assert(orig.subrange(orig.len() - recent@.len(), orig.len() as int) =~= rest.drop_first());
            assert(rest.drop_first() =~= queries_view(recent@));
            assert(orig.subrange(0, done + 1).filter(f) == (if f(orig[done]) {
                orig.subrange(0, done).filter(f).push(orig[done])
            } else {
                orig.subrange(0, done).filter(f)
            })) by {
                orig.subrange(0, done).lemma_filter_push(orig[done], f);
                assert(orig.subrange(0, done).push(orig[done]) =~= orig.subrange(0, done + 1));
            }
        }
        let differs = !query_records_equal(&item, &entry);
        assert(f(orig[done]) == (orig[done] != e));
        assert(differs == f(orig[done]));
        if differs {
            let ghost before = kept@;
            kept.push_back(item);
            assert(queries_view(kept@) =~= queries_view(before).push(query_view(item)));
        }
        assert(orig.len() - recent@.len() == done + 1);
        assert(queries_view(kept@) == orig.subrange(0, done + 1).filter(f));
    }
    assert(orig.subrange(0, orig.len() as int) =~= orig);
    let ghost filtered = queries_view(kept@);
    kept.push_front(entry);
    assert(queries_view(kept@) =~= seq![e] + filtered);
    kept.truncate(max);
    proof {
        let all = seq![e] + orig.filter(f);
        if all.len() > max {
            assert(queries_view(kept@) =~= all.take(max as int));
        } else {
            assert(queries_view(kept@) =~= all);
        }
    }
    *recent = kept;
}


/// The canonical form of a remembered search, `None` when its query is
/// blank: the query as `remembered_query_spec` keeps it, the glob lists
/// canonical, the options kept.
pub open spec fn canonical_record_spec(q: ProjectSearchQuery) -> Option<(Seq<char>, bool, bool, bool, Seq<char>, Seq<char>)> {
    match remembered_query_spec(q.query@) {
        None => None,
        Some(text) => Some((text, q.case_sensitive, q.whole_word, q.regex,
            canonical_globs_spec(q.inclusions@), canonical_globs_spec(q.exclusions@))),
    }
}

/// A persisted history after normalisation: canonical records, blank ones
/// dropped, first occurrence only, at most `max`.
pub open spec fn normalized_history(entries: Seq<ProjectSearchQuery>, max: nat) -> Seq<(Seq<char>, bool, bool, bool, Seq<char>, Seq<char>)>
    decreases entries.len(),
{
    if entries.len() == 0 {
        seq![]
    } else {
        let kept = normalized_history(entries.drop_last(), max);
        match canonical_record_spec(entries.last()) {
            Some(r) => if !kept.contains(r) && kept.len() < max { kept.push(r) } else { kept },
            None => kept,
        }
    }
}

/// The canonical form of a remembered search (see `canonical_record_spec`).
pub fn canonical_project_search_query(entry: &ProjectSearchQuery) -> (record: Option<ProjectSearchQuery>)
    ensures
        match canonical_record_spec(*entry) {
            None => record is None,
            Some(r) => record matches Some(c) && query_view(c) == r,
        },
{
    match project_search_query_record(
        entry.query.as_str(),
        entry.case_sensitive,
        entry.whole_word,
        entry.inclusions.as_str(),
        entry.exclusions.as_str(),
    ) {
        Some(mut record) => {
            record.regex = entry.regex;
            Some(record)
        },
        None => None,
    }
}

/// Whether the history holds a record equal to `entry`.
pub fn history_contains(history: &VecDeque<ProjectSearchQuery>, entry: &ProjectSearchQuery) -> (found: bool)
    ensures
        found == queries_view(history@).contains(query_view(*entry)),
{
    let mut i: usize = 0;
    while i < history.len()
        invariant
            i <= history@.len(),
            forall|j: int| 0 <= j < i ==> query_view(#[trigger] history@[j]) != query_view(*entry),
        decreases history.len() - i,
    {
        if query_records_equal(&history[i], entry) {
            assert(queries_view(history@)[i as int] == query_view(*entry));
            return true;
        }
        i = i + 1;
    }
    proof {
        assert forall|j: int| 0 <= j < queries_view(history@).len()
            implies #[trigger] queries_view(history@)[j] != query_view(*entry) by {
            assert(queries_view(history@)[j] == query_view(history@[j]));
        }
    }
    false
}

/// Normalises a persisted history (see `normalized_history`).
pub fn normalize_recent_project_searches(entries: Vec<ProjectSearchQuery>, max: usize) -> (recent: VecDeque<ProjectSearchQuery>)
    ensures
        queries_view(recent@) == normalized_history(entries@, max as nat),
{
    let mut recent: VecDeque<ProjectSearchQuery> = VecDeque::new();
    let mut i: usize = 0;
    assert(entries@.subrange(0, 0) =~= Seq::<ProjectSearchQuery>::empty());
    assert(queries_view(recent@) =~= Seq::empty());
    while i < entries.len()
        invariant
            i <= entries@.len(),
            queries_view(recent@) == normalized_history(entries@.subrange(0, i as int), max as nat),
            recent@.len() == queries_view(recent@).len(),
        decreases entries.len() - i,
    {
        let ghost prefix = entries@.subrange(0, i + 1);
        assert(prefix.drop_last() =~= entries@.subrange(0, i as int));
        assert(prefix.last() == entries@[i as int]);
        match canonical_project_search_query(&entries[i]) {
            Some(record) => {
                if !history_contains(&recent, &record) && recent.len() < max {
                    let ghost before = recent@;
                    recent.push_back(record);
                    assert(queries_view(recent@) =~= queries_view(before).push(query_view(record)));
                }
            },
            None => {},
        }
        i = i + 1;
    }
    assert(entries@.subrange(0, entries@.len() as int) =~= entries@);
    recent
}

/// Remembers a search whose glob lists are already parsed: the lists are
/// written back canonically and the search is recorded as
/// `record_recent_project_search` does; a blank query records nothing.
pub fn record_recent_project_search_from_parsed_globs(
    recent: &mut VecDeque<ProjectSearchQuery>,
    query: &str,
    case_sensitive: bool,
    whole_word: bool,
    regex: bool,
    include_globs: &[String],
    exclude_globs: &[String],
    max: usize,
)
    ensures
        match remembered_query_spec(query@) {
            None => queries_view(final(recent)@) == queries_view(old(recent)@),
            Some(q) => queries_view(final(recent)@) == recorded_history(queries_view(old(recent)@),
                (q, case_sensitive, whole_word, regex, join_globs_spec(path_views(include_globs@)),
                    join_globs_spec(path_views(exclude_globs@))), max as nat),
        },
{
    let q = bounded_settings_text(query, MAX_PROJECT_SEARCH_RECENT_QUERY_CHARS, false, true);
    if q.unicode_len() == 0 {
        return;
    }
    let entry = ProjectSearchQuery {
        query: q,
        case_sensitive,
        whole_word,
        regex,
        inclusions: join_project_globs(include_globs),
        exclusions: join_project_globs(exclude_globs),
    };
    record_recent_project_search(recent, entry, max);
}

/// The option names shown after a remembered query, in order.
pub open spec fn option_names(q: ProjectSearchQuery) -> Seq<Seq<char>> {
    let a = if q.case_sensitive { seq!["case"@] } else { seq![] };
    let b = if q.whole_word { a.push("word"@) } else { a };
    let c = if q.regex { b.push("regex"@) } else { b };
    let d = if q.inclusions@.len() > 0 { c.push("include"@) } else { c };
    if q.exclusions@.len() > 0 { d.push("exclude"@) } else { d }
}

/// The text of a history label before it is made a bounded single line:
/// the query, then the options in parentheses when there are any.
pub open spec fn recent_label_text(q: ProjectSearchQuery) -> Seq<char> {
    let names = option_names(q);
    if names.len() == 0 {
        q.query@
    } else {
        q.query@ + seq![' ', '('] + join_globs_spec(names) + seq![')']
    }
}

/// The label of a remembered search in the history list.
pub fn project_search_recent_label(entry: &ProjectSearchQuery) -> (label: String)
    ensures
        label@ == label_spec(recent_label_text(*entry), MAX_PROJECT_SEARCH_RECENT_LABEL_CHARS as nat, Seq::<char>::empty()),
{
    let mut names: Vec<String> = Vec::new();
    if entry.case_sensitive {
        names.push("case".to_owned());
    }
    if entry.whole_word {
        names.push("word".to_owned());
    }
    if entry.regex {
        names.push("regex".to_owned());
    }
    if entry.inclusions.unicode_len() > 0 {
        names.push("include".to_owned());
    }
    if entry.exclusions.unicode_len() > 0 {
        names.push("exclude".to_owned());
    }
    assert(path_views(names@) =~= option_names(*entry));
    let mut text = String::new();
    push_text(&mut text, entry.query.as_str());
    if names.len() > 0 {
        push_char(&mut text, ' ');
        push_char(&mut text, '(');
        let joined = join_project_globs(names.as_slice());
        push_text(&mut text, joined.as_str());
        push_char(&mut text, ')');
    }
    assert(text@ =~= recent_label_text(*entry));
    proof {
        reveal_strlit("");
        assert(""@ =~= Seq::<char>::empty());
    }
    sanitized_label(text.as_str(), MAX_PROJECT_SEARCH_RECENT_LABEL_CHARS, "")
}

/// A search request query keeps at most this many characters.
pub const MAX_PROJECT_SEARCH_QUERY_CHARS: usize = 512;

/// The query a search request is made with: single-line, white space runs
/// collapsed to one space, trimmed and bounded; `None` when nothing is left.
pub open spec fn request_query_spec(query: Seq<char>) -> Option<Seq<char>> {
    let t = label_spec(query, MAX_PROJECT_SEARCH_QUERY_CHARS as nat, seq![]);
    if t.len() > 0 { Some(t) } else { None }
}

/// The query a search request is made with (see `request_query_spec`).
pub fn normalize_project_search_request_query(query: &str) -> (normalized: Option<String>)
    ensures
        opt_view(normalized) == request_query_spec(query@),
{
    proof {
        reveal_strlit("");
        assert(""@ =~= Seq::<char>::empty());
    }
    let label = sanitized_label(query, MAX_PROJECT_SEARCH_QUERY_CHARS, "");
    if label.unicode_len() == 0 {
        None
    } else {
        Some(label)
    }
}

/// Results belong to the current inputs: the same index generation, the
/// current (trimmed, non-blank) query, the same options, glob lists and
/// limits.
pub fn project_search_result_is_current(
    result_query: &str,
    result_index_generation: u64,
    current_index_generation: u64,
    result_case_sensitive: bool,
    result_whole_word: bool,
    result_include_globs: &[String],
    result_exclude_globs: &[String],
    result_max_file_bytes: u64,
    result_max_results: usize,
    current_query: &str,
    current_case_sensitive: bool,
    current_whole_word: bool,
    current_include_globs: &[String],
    current_exclude_globs: &[String],
    current_max_file_bytes: u64,
    current_max_results: usize,
) -> (current: bool)
    ensures
        current == (result_index_generation == current_index_generation
            && request_query_spec(current_query@) == Some(result_query@)
            && result_case_sensitive == current_case_sensitive
            && result_whole_word == current_whole_word
            && path_views(result_include_globs@) == path_views(current_include_globs@)
            && path_views(result_exclude_globs@) == path_views(current_exclude_globs@)
            && result_max_file_bytes == current_max_file_bytes
            && result_max_results == current_max_results),
{
    if result_index_generation != current_index_generation || result_case_sensitive != current_case_sensitive
        || result_whole_word != current_whole_word || result_max_file_bytes != current_max_file_bytes
        || result_max_results != current_max_results {
        return false;
    }
    match normalize_project_search_request_query(current_query) {
        Some(query) => {
            if !str_equal(query.as_str(), result_query) {
                return false;
            }
        },
        None => {
            return false;
        },
    }
    strings_equal(result_include_globs, current_include_globs) && strings_equal(result_exclude_globs, current_exclude_globs)
}

/// An answered request still counts: it is the active request and its
/// results are current (see `project_search_result_is_current`).
pub fn project_search_request_is_current(
    request_id: u64,
    active_request_id: u64,
    request_index_generation: u64,
    current_index_generation: u64,
    request_query: &str,
    request_case_sensitive: bool,
    request_whole_word: bool,
    request_include_globs: &[String],
    request_exclude_globs: &[String],
    request_max_file_bytes: u64,
    request_max_results: usize,
    current_query: &str,
    current_case_sensitive: bool,
    current_whole_word: bool,
    current_include_globs: &[String],
    current_exclude_globs: &[String],
    current_max_file_bytes: u64,
    current_max_results: usize,
) -> (current: bool)
    ensures
        current == (request_id == active_request_id
            && request_index_generation == current_index_generation
            && request_query_spec(current_query@) == Some(request_query@)
            && request_case_sensitive == current_case_sensitive
            && request_whole_word == current_whole_word
            && path_views(request_include_globs@) == path_views(current_include_globs@)
            && path_views(request_exclude_globs@) == path_views(current_exclude_globs@)
            && request_max_file_bytes == current_max_file_bytes
            && request_max_results == current_max_results),
{
    request_id == active_request_id && project_search_result_is_current(
        request_query,
        request_index_generation,
        current_index_generation,
        request_case_sensitive,
        request_whole_word,
        request_include_globs,
        request_exclude_globs,
        request_max_file_bytes,
        request_max_results,
        current_query,
        current_case_sensitive,
        current_whole_word,
        current_include_globs,
        current_exclude_globs,
        current_max_file_bytes,
        current_max_results,
    )
}

} // verus!
