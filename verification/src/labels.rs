//! Single-line status labels built from untrusted text (error messages, file
//! paths, search queries): format controls are dropped, control characters
//! and white space collapse to single spaces, the label is trimmed, bounded
//! with a trailing `...`, and replaced by a fallback when nothing is left.
use vstd::prelude::*;
use vstd::string::*;
use crate::session_save::opt_view;
use crate::settings_text::{
    lemma_trim_end_is_prefix, control_spec, ellipsis, format_control_spec, is_control_char, is_settings_format_control,
    is_whitespace_char, trim_end_spec, whitespace_spec,
};
use crate::text::{
    count_label, count_label_spec, decimal_spec, push_char, push_decimal, push_text, str_chars,
    string_from_chars,
};

verus! {

/// Error details in status messages keep at most this many characters.
pub const DISPLAY_ERROR_LABEL_MAX_CHARS: usize = 160;
/// Path labels in status messages keep at most this many characters.
pub const DISPLAY_PATH_LABEL_MAX_CHARS: usize = 160;
/// Search queries in status messages keep at most this many characters.
pub const MAX_PROJECT_SEARCH_STATUS_QUERY_CHARS: usize = 80;
/// Save-completion statuses keep at most this many characters.
pub const SAVE_COMPLETION_STATUS_MAX_CHARS: usize = 180;
/// Terminal failure labels keep at most this many characters.
pub const TERMINAL_FAILURE_LABEL_MAX_CHARS: usize = 48;

/// The character a label keeps for `ch`: control characters, white space and
/// the line/paragraph separators read as a space.
pub open spec fn label_char(ch: char) -> char {
    if control_spec(ch) || whitespace_spec(ch) || ch == '\u{2028}' || ch == '\u{2029}' {
        ' '
    } else {
        ch
    }
}

/// Reads `value` into single-spaced text: format controls vanish and a space
/// is written only after a non-space character.
pub open spec fn collapse_spec(value: Seq<char>) -> Seq<char>
    decreases value.len(),
{
    if value.len() == 0 {
        seq![]
    } else {
        let out = collapse_spec(value.drop_last());
        let ch = value.last();
        if format_control_spec(ch) {
            out
        } else if label_char(ch) == ' ' && (out.len() == 0 || out.last() == ' ') {
            out
        } else {
            out.push(label_char(ch))
        }
    }
}

/// The label for `value`: collapsed, trailing space removed, cut to `max`
/// characters (the last three being `...`), or `fallback` when empty.
pub open spec fn label_spec(value: Seq<char>, max: nat, fallback: Seq<char>) -> Seq<char> {
    let text = trim_end_spec(collapse_spec(value));
    if text.len() == 0 {
        fallback
    } else if text.len() > max {
        text.take(max - 3) + ellipsis()
    } else {
        text
    }
}

/// Builds the label for `value` (see `label_spec`).
pub fn sanitized_label(value: &str, max_chars: usize, fallback: &str) -> (label: String)
    requires
        max_chars >= 3,
    ensures
        label@ == label_spec(value@, max_chars as nat, fallback@),
{
    let chars = str_chars(value);
    let mut out: Vec<char> = Vec::new();
    let mut i: usize = 0;
    while i < chars.len()
        invariant
            i <= chars@.len(),
            chars@ == value@,
            out@ == collapse_spec(value@.subrange(0, i as int)),
        decreases chars.len() - i,
    {
        let ch = chars[i];
        proof {
            assert(value@.subrange(0, i + 1).drop_last() =~= value@.subrange(0, i as int));
        }
        if !is_settings_format_control(ch) {
            let mapped = if is_control_char(ch) || is_whitespace_char(ch) || ch == '\u{2028}' || ch == '\u{2029}' {
                ' '
            } else {
                ch
            };
            if !(mapped == ' ' && (out.len() == 0 || out[out.len() - 1] == ' ')) {
                out.push(mapped);
            }
        }
        i = i + 1;
    }
    assert(value@.subrange(0, chars.len() as int) =~= value@);
    let ghost collapsed = out@;
    while out.len() > 0 && is_whitespace_char(out[out.len() - 1])
        invariant
            trim_end_spec(out@) == trim_end_spec(collapsed),
        decreases out.len(),
    {
        let ghost before = out@;
        out.pop();
        assert(out@ =~= before.drop_last());
    }
    if out.len() == 0 {
        return string_from_chars(&str_chars(fallback));
    }
    if out.len() > max_chars {
        let mut kept: Vec<char> = Vec::new();
        let mut j: usize = 0;
        while j < max_chars - 3
            invariant
                j <= max_chars - 3,
                max_chars < out@.len(),
                kept@ == out@.take(j as int),
            decreases max_chars - 3 - j,
        {
            kept.push(out[j]);
            j = j + 1;
            assert(kept@ =~= out@.take(j as int));
        }
        let mut label = string_from_chars(&kept);
        push_text(&mut label, "...");
        proof {
            reveal_strlit("...");
            assert("..."@ =~= ellipsis());
        }
        return label;
    }
    string_from_chars(&out)
}

/// An error message as a bounded single-line label, `unknown error` when
/// nothing is left.
pub fn display_error_label(error: &str) -> (label: String)
    ensures
        label@ == label_spec(error@, DISPLAY_ERROR_LABEL_MAX_CHARS as nat, "unknown error"@),
{
    sanitized_label(error, DISPLAY_ERROR_LABEL_MAX_CHARS, "unknown error")
}

/// A path as a bounded single-line label, `(unnamed)` when nothing is left.
pub fn display_path_label(path: &str) -> (label: String)
    ensures
        label@ == label_spec(path@, DISPLAY_PATH_LABEL_MAX_CHARS as nat, "(unnamed)"@),
{
    sanitized_label(path, DISPLAY_PATH_LABEL_MAX_CHARS, "(unnamed)")
}

/// Status after saving the settings failed.
pub fn settings_save_failed_status(error: &str) -> (status: String)
    ensures
        status@ == "Could not save settings: "@ + label_spec(error@, DISPLAY_ERROR_LABEL_MAX_CHARS as nat, "unknown error"@),
{
    let mut status = String::new();
    push_text(&mut status, "Could not save settings: ");
    let label = display_error_label(error);
    push_text(&mut status, label.as_str());
    proof {
        assert(status@ =~= "Could not save settings: "@ + label@);
    }
    status
}

/// Appends the note that saving the app preferences failed.
pub fn push_app_preference_save_failed_status(status: &mut String, error: &str)
    ensures
        final(status)@ == old(status)@ + "; app preference save failed: "@
            + label_spec(error@, DISPLAY_ERROR_LABEL_MAX_CHARS as nat, "unknown error"@),
{
    push_text(status, "; app preference save failed: ");
    let label = display_error_label(error);
    push_text(status, label.as_str());
}

/// Status after saving the session failed.
pub fn session_save_failure_status(error: &str) -> (status: String)
    ensures
        status@ == "Could not save session: "@ + label_spec(error@, DISPLAY_ERROR_LABEL_MAX_CHARS as nat, "unknown error"@),
{
    let mut status = String::new();
    push_text(&mut status, "Could not save session: ");
    let label = display_error_label(error);
    push_text(&mut status, label.as_str());
    status
}

/// Status after a buffer was saved, noting edits made since; bounded to
/// `SAVE_COMPLETION_STATUS_MAX_CHARS`.
pub fn save_completion_status(path: &str, still_dirty: bool) -> (status: String)
    ensures
        status@ == label_spec(
            "Saved "@ + label_spec(path@, DISPLAY_PATH_LABEL_MAX_CHARS as nat, "(unnamed)"@)
                + (if still_dirty { "; newer edits remain unsaved"@ } else { Seq::<char>::empty() }),
            SAVE_COMPLETION_STATUS_MAX_CHARS as nat,
            ""@,
        ),
{
    let mut status = String::new();
    push_text(&mut status, "Saved ");
    let label = display_path_label(path);
    push_text(&mut status, label.as_str());
    if still_dirty {
        push_text(&mut status, "; newer edits remain unsaved");
    } else {
        assert(status@ =~= status@ + Seq::<char>::empty());
    }
    sanitized_label(status.as_str(), SAVE_COMPLETION_STATUS_MAX_CHARS, "")
}

/// Status shown when a project search starts: the query as a bounded
/// single-line label in backticks.
pub fn project_search_start_status(query: &str) -> (status: String)
    ensures
        status@ == "Searching for `"@ + label_spec(query@, MAX_PROJECT_SEARCH_STATUS_QUERY_CHARS as nat, ""@) + seq!['`'],
{
    let mut status = String::new();
    push_text(&mut status, "Searching for `");
    let label = sanitized_label(query, MAX_PROJECT_SEARCH_STATUS_QUERY_CHARS, "");
    push_text(&mut status, label.as_str());
    push_char(&mut status, '`');
    status
}

/// Status for the selected project search match: position, path label, line
/// and column.
pub fn project_search_match_status(
    selected_index: usize,
    result_count: usize,
    path: &str,
    line: usize,
    column: usize,
) -> (status: String)
    ensures
        status@ == "Project match "@ + decimal_spec(selected_index as nat) + seq!['/'] + decimal_spec(result_count as nat)
            + " at "@ + label_spec(path@, DISPLAY_PATH_LABEL_MAX_CHARS as nat, "(unnamed)"@) + seq![':']
            + decimal_spec(line as nat) + seq![':'] + decimal_spec(column as nat),
{
    let mut status = String::new();
    push_text(&mut status, "Project match ");
    push_decimal(&mut status, selected_index);
    push_char(&mut status, '/');
    push_decimal(&mut status, result_count);
    push_text(&mut status, " at ");
    let label = display_path_label(path);
    push_text(&mut status, label.as_str());
    push_char(&mut status, ':');
    push_decimal(&mut status, line);
    push_char(&mut status, ':');
    push_decimal(&mut status, column);
    status
}

/// The label of a terminal failure: bounded single-line text, `terminal error`
/// when nothing is left.
pub fn terminal_failure_label(label: &str) -> (text: String)
    ensures
        text@ == label_spec(label@, TERMINAL_FAILURE_LABEL_MAX_CHARS as nat, "terminal error"@),
{
    sanitized_label(label, TERMINAL_FAILURE_LABEL_MAX_CHARS, "terminal error")
}

/// The terminal line reporting a failure: `\r\n<label>: <detail>\r\n` with the
/// label and the detail sanitised and bounded.
pub open spec fn failure_message_spec(label: Seq<char>, detail: Seq<char>) -> Seq<char> {
    seq!['\r', '\n'] + label_spec(label, TERMINAL_FAILURE_LABEL_MAX_CHARS as nat, "terminal error"@)
        + seq![':', ' '] + label_spec(detail, DISPLAY_ERROR_LABEL_MAX_CHARS as nat, "unknown error"@)
        + seq!['\r', '\n']
}

/// The terminal line reporting a failure (see `failure_message_spec`).
pub fn terminal_failure_message(label: &str, detail: &str) -> (message: String)
    ensures
        message@ == failure_message_spec(label@, detail@),
{
    let mut message = String::new();
    push_char(&mut message, '\r');
    push_char(&mut message, '\n');
    let l = terminal_failure_label(label);
    push_text(&mut message, l.as_str());
    push_char(&mut message, ':');
    push_char(&mut message, ' ');
    let d = display_error_label(detail);
    push_text(&mut message, d.as_str());
    push_char(&mut message, '\r');
    push_char(&mut message, '\n');
    proof {
        assert(message@ =~= seq!['\r', '\n'] + l@ + seq![':', ' '] + d@ + seq!['\r', '\n']);
    }
    message
}

/// Status after a watcher batch: overflow asks for a full refresh and names
/// how many open buffer paths are checked; otherwise a status is given only
/// when dirty buffers changed on disk.
pub open spec fn watcher_status_spec(
    overflowed: bool,
    open_buffer_paths_added: nat,
    project_changes: nat,
    dirty_changes: nat,
) -> Option<Seq<char>> {
    if overflowed {
        Some("Filesystem watcher missed changes; refreshing workspace and checking "@
            + count_label_spec(open_buffer_paths_added, "open buffer path"@, "open buffer paths"@))
    } else if dirty_changes == 0 {
        None
    } else {
        Some(count_label_spec(project_changes, "filesystem change"@, "filesystem changes"@)
            + " detected; "@
            + count_label_spec(dirty_changes, "dirty buffer"@, "dirty buffers"@)
            + " changed on disk"@)
    }
}

/// The status after a watcher batch (see `watcher_status_spec`).
pub fn file_watcher_status(
    overflowed: bool,
    open_buffer_paths_added: usize,
    project_changes: usize,
    dirty_changes: usize,
) -> (status: Option<String>)
    ensures
        opt_view(status) == watcher_status_spec(overflowed, open_buffer_paths_added as nat,
            project_changes as nat, dirty_changes as nat),
{
    if overflowed {
        let mut status = String::new();
        push_text(&mut status, "Filesystem watcher missed changes; refreshing workspace and checking ");
        let count = count_label(open_buffer_paths_added, "open buffer path", "open buffer paths");
        push_text(&mut status, count.as_str());
        return Some(status);
    }
    if dirty_changes == 0 {
        return None;
    }
    let mut status = count_label(project_changes, "filesystem change", "filesystem changes");
    push_text(&mut status, " detected; ");
    let dirty = count_label(dirty_changes, "dirty buffer", "dirty buffers");
    push_text(&mut status, dirty.as_str());
    push_text(&mut status, " changed on disk");
    Some(status)
}

/// Label with the number of settings search results.
pub fn settings_search_count_label(count: usize) -> (label: String)
    ensures
        label@ == count_label_spec(count as nat, "result"@, "results"@),
{
    count_label(count, "result", "results")
}

/// The note about terminals in the settings-saved status.
pub open spec fn terminal_note_spec(changed: bool, restarted: nat) -> Seq<char> {
    if restarted > 0 {
        "; restarted "@ + decimal_spec(restarted)
            + (if restarted == 1 { " terminal with the selected provider"@ } else { " terminals with the selected provider"@ })
    } else if changed {
        "; new terminals use the selected provider"@
    } else {
        Seq::<char>::empty()
    }
}

/// The note about language servers in the settings-saved status.
pub open spec fn lsp_note_spec(changed: bool, reopened: nat) -> Seq<char> {
    let buffers = if reopened == 1 { " LSP buffer"@ } else { " LSP buffers"@ };
    if changed {
        "; LSP servers updated"@ + (if reopened > 0 { "; reopened "@ + decimal_spec(reopened) + buffers } else { Seq::<char>::empty() })
    } else if reopened > 0 {
        "; retried "@ + decimal_spec(reopened) + buffers
    } else {
        Seq::<char>::empty()
    }
}

fn push_terminal_note(status: &mut String, changed: bool, restarted: usize)
    ensures
        final(status)@ == old(status)@ + terminal_note_spec(changed, restarted as nat),
{
    if restarted > 0 {
        push_text(status, "; restarted ");
        push_decimal(status, restarted);
        if restarted == 1 {
            push_text(status, " terminal with the selected provider");
        } else {
            push_text(status, " terminals with the selected provider");
        }
    } else if changed {
        push_text(status, "; new terminals use the selected provider");
    } else {
        assert(old(status)@ =~= old(status)@ + Seq::<char>::empty());
    }
}

fn push_buffer_count(status: &mut String, reopened: usize)
    ensures
        final(status)@ == old(status)@ + decimal_spec(reopened as nat)
            + (if reopened == 1 { " LSP buffer"@ } else { " LSP buffers"@ }),
{
    push_decimal(status, reopened);
    if reopened == 1 {
        push_text(status, " LSP buffer");
    } else {
        push_text(status, " LSP buffers");
    }
}

fn push_lsp_note(status: &mut String, changed: bool, reopened: usize)
    ensures
        final(status)@ == old(status)@ + lsp_note_spec(changed, reopened as nat),
{
    if changed {
        push_text(status, "; LSP servers updated");
        if reopened > 0 {
            push_text(status, "; reopened ");
            push_buffer_count(status, reopened);
        } else {
            assert(final(status)@ =~= final(status)@ + Seq::<char>::empty());
        }
    } else if reopened > 0 {
        push_text(status, "; retried ");
        push_buffer_count(status, reopened);
    } else {
        assert(old(status)@ =~= old(status)@ + Seq::<char>::empty());
    }
}

/// Status after settings were saved, noting what the save restarted or
/// reopened.
pub fn settings_save_success_status(
    apply_note: Option<&str>,
    terminal_shell_profile_changed: bool,
    restarted_terminal_sessions: usize,
    lsp_server_configs_changed: bool,
    reopened_lsp_buffers: usize,
) -> (status: String)
    ensures
        status@ == "Saved settings"@
            + (match apply_note { Some(n) => "; "@ + n@, None => Seq::<char>::empty() })
            + terminal_note_spec(terminal_shell_profile_changed, restarted_terminal_sessions as nat)
            + lsp_note_spec(lsp_server_configs_changed, reopened_lsp_buffers as nat),
{
    let mut status = String::new();
    push_text(&mut status, "Saved settings");
    match apply_note {
        Some(note) => {
            push_text(&mut status, "; ");
            push_text(&mut status, note);
        },
        None => {
            assert(status@ =~= status@ + Seq::<char>::empty());
        },
    }
    push_terminal_note(&mut status, terminal_shell_profile_changed, restarted_terminal_sessions);
    push_lsp_note(&mut status, lsp_server_configs_changed, reopened_lsp_buffers);
    status
}


/// A character a label may show: no control character, no format control,
/// no line or paragraph separator.
pub open spec fn label_safe(ch: char) -> bool {
    !control_spec(ch) && !format_control_spec(ch) && ch != '\u{2028}' && ch != '\u{2029}'
}

/// Collapsed text shows only label-safe characters.
pub proof fn lemma_collapse_is_label_safe(value: Seq<char>)
    ensures
        forall|i: int| 0 <= i < collapse_spec(value).len() ==> label_safe(#[trigger] collapse_spec(value)[i]),
    decreases value.len(),
{
    if value.len() > 0 {
        lemma_collapse_is_label_safe(value.drop_last());
        let out = collapse_spec(value.drop_last());
        let ch = value.last();
        assert(label_safe(' '));
        assert(!format_control_spec(ch) ==> label_safe(label_char(ch)));
        assert forall|i: int| 0 <= i < collapse_spec(value).len() implies label_safe(#[trigger] collapse_spec(value)[i]) by {
            if i < out.len() {
                assert(collapse_spec(value)[i] == out[i]);
            }
        }
    }
}

/// Every label is a single line of at most `max` characters showing no
/// control, format or separator characters (given a fallback that obeys the
/// same rules).
pub proof fn lemma_label_is_single_line_and_bounded(value: Seq<char>, max: nat, fallback: Seq<char>)
    requires
        max >= 3,
        fallback.len() <= max,
        forall|i: int| 0 <= i < fallback.len() ==> label_safe(#[trigger] fallback[i]),
    ensures
        label_spec(value, max, fallback).len() <= max,
        forall|i: int| 0 <= i < label_spec(value, max, fallback).len()
            ==> label_safe(#[trigger] label_spec(value, max, fallback)[i]),
{
    let collapsed = collapse_spec(value);
    lemma_collapse_is_label_safe(value);
    lemma_trim_end_is_prefix(collapsed);
    let text = trim_end_spec(collapsed);
    assert forall|i: int| 0 <= i < text.len() implies label_safe(#[trigger] text[i]) by {
        assert(text[i] == collapsed[i]);
    }
    let label = label_spec(value, max, fallback);
    if text.len() > 0 && text.len() > max {
        assert forall|i: int| 0 <= i < label.len() implies label_safe(#[trigger] label[i]) by {
            if i < max - 3 {
                assert(label[i] == text[i]);
            } else {
                assert(label[i] == '.');
            }
        }
    }
}

} // verus!
