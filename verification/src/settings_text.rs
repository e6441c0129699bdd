//! Bounded, sanitised text for settings inputs and labels: bidi and
//! zero-width format controls are dropped, control characters become spaces
//! (line breaks and tabs survive in multi-line mode), long values are cut and
//! marked with `...`.
use vstd::prelude::*;
use vstd::string::*;
use crate::text::{push_text, str_chars, string_from_chars};

verus! {

/// Values longer than this are cut when shown as labels.
pub const SETTINGS_DISPLAY_TEXT_MAX_CHARS: usize = 240;
/// Text inputs keep at most this many characters.
pub const SETTINGS_TEXT_INPUT_MAX_CHARS: usize = 8192;

/// Bidi embedding/override/isolate marks, zero-width marks and the BOM.
pub open spec fn format_control_spec(ch: char) -> bool {
    let c = ch as u32;
    c == 0x061c || (0x200b <= c <= 0x200f) || (0x202a <= c <= 0x202e) || (0x2066 <= c <= 0x2069) || c == 0xfeff
}

/// Unicode general category Cc (`char::is_control`).
pub open spec fn control_spec(ch: char) -> bool {
    let c = ch as u32;
    c <= 0x1f || (0x7f <= c <= 0x9f)
}

/// The Unicode `White_Space` property (`char::is_whitespace`).
pub open spec fn whitespace_spec(ch: char) -> bool {
    let c = ch as u32;
    (0x09 <= c <= 0x0d) || c == 0x20 || c == 0x85 || c == 0xa0 || c == 0x1680
        || (0x2000 <= c <= 0x200a) || c == 0x2028 || c == 0x2029 || c == 0x202f || c == 0x205f
        || c == 0x3000
}

/// Whether `ch` is a format control that settings text drops.
pub fn is_settings_format_control(ch: char) -> (b: bool)
    ensures
        b == format_control_spec(ch),
{
    let c = ch as u32;
    c == 0x061c || (0x200b <= c && c <= 0x200f) || (0x202a <= c && c <= 0x202e) || (0x2066 <= c && c <= 0x2069)
        || c == 0xfeff
}

/// `char::is_control`: general category Cc.
pub fn is_control_char(ch: char) -> (b: bool)
    ensures
        b == control_spec(ch),
{
    let c = ch as u32;
    c <= 0x1f || (0x7f <= c && c <= 0x9f)
}

/// `char::is_whitespace`: the Unicode `White_Space` property.
pub fn is_whitespace_char(ch: char) -> (b: bool)
    ensures
        b == whitespace_spec(ch),
{
    let c = ch as u32;
    (0x09 <= c && c <= 0x0d) || c == 0x20 || c == 0x85 || c == 0xa0 || c == 0x1680
        || (0x2000 <= c && c <= 0x200a) || c == 0x2028 || c == 0x2029 || c == 0x202f || c == 0x205f
        || c == 0x3000
}

/// The character written for `ch`: line breaks become `\n` and tabs stay in
/// multi-line mode, a tab becomes a space otherwise, other control characters
/// and the Unicode line/paragraph separators become spaces.
pub open spec fn replacement_spec(ch: char, allow_newlines: bool) -> char {
    if allow_newlines && (ch == '\r' || ch == '\n') {
        '\n'
    } else if allow_newlines && ch == '\t' {
        '\t'
    } else if ch == '\t' {
        ' '
    } else if control_spec(ch) || ch == '\u{2028}' || ch == '\u{2029}' {
        ' '
    } else {
        ch
    }
}

fn replacement_char(ch: char, allow_newlines: bool) -> (r: char)
    ensures
        r == replacement_spec(ch, allow_newlines),
{
    if allow_newlines && (ch == '\r' || ch == '\n') {
        '\n'
    } else if allow_newlines && ch == '\t' {
        '\t'
    } else if ch == '\t' {
        ' '
    } else if is_control_char(ch) || ch == '\u{2028}' || ch == '\u{2029}' {
        ' '
    } else {
        ch
    }
}

/// Scan state: output so far, whether a character was cut off, and whether
/// the previous input character was `\r`.
pub type ScanState = (Seq<char>, bool, bool);

/// One input character: a `\n` right after `\r` is folded into it in
/// multi-line mode, format controls are dropped, and once `max` characters
/// were written the next one marks the text as cut and ends the scan.
pub open spec fn scan_step(st: ScanState, ch: char, max: nat, allow_newlines: bool) -> ScanState {
    let (out, truncated, prev_cr) = st;
    if truncated {
        st
    } else if allow_newlines && ch == '\n' && prev_cr {
        (out, false, false)
    } else if format_control_spec(ch) {
        (out, false, ch == '\r')
    } else if out.len() >= max {
        (out, true, ch == '\r')
    } else {
        (out.push(replacement_spec(ch, allow_newlines)), false, ch == '\r')
    }
}

/// The scan of `value` starting from output `init`.
pub open spec fn scan_from(init: Seq<char>, value: Seq<char>, max: nat, allow_newlines: bool) -> ScanState
    decreases value.len(),
{
    if value.len() == 0 {
        (init, false, false)
    } else {
        scan_step(scan_from(init, value.drop_last(), max, allow_newlines), value.last(), max, allow_newlines)
    }
}

/// `value` without leading white space.
pub open spec fn trim_start_spec(value: Seq<char>) -> Seq<char>
    decreases value.len(),
{
    if value.len() > 0 && whitespace_spec(value[0]) {
        trim_start_spec(value.drop_first())
    } else {
        value
    }
}

/// `value` without trailing white space.
pub open spec fn trim_end_spec(value: Seq<char>) -> Seq<char>
    decreases value.len(),
{
    if value.len() > 0 && whitespace_spec(value.last()) {
        trim_end_spec(value.drop_last())
    } else {
        value
    }
}

/// `str::trim`.
pub open spec fn trim_spec(value: Seq<char>) -> Seq<char> {
    trim_end_spec(trim_start_spec(value))
}

pub open spec fn ellipsis() -> Seq<char> {
    seq!['.', '.', '.']
}

/// Cut text keeps its first `max - 3` characters followed by `...`.
pub open spec fn mark_cut(out: Seq<char>, truncated: bool, max: nat) -> Seq<char> {
    if truncated && max > 3 {
        out.take(max - 3) + ellipsis()
    } else {
        out
    }
}

/// The sanitised, bounded form of `value` (see the module documentation).
pub open spec fn bounded_text_spec(value: Seq<char>, max: nat, allow_newlines: bool, trim_edges: bool) -> Seq<char> {
    if max == 0 {
        seq![]
    } else {
        let (out, truncated, _) = scan_from(seq![], value, max, allow_newlines);
        let marked = mark_cut(out, truncated, max);
        if trim_edges {
            trim_spec(marked)
        } else {
            marked
        }
    }
}

proof fn lemma_scan_len(init: Seq<char>, value: Seq<char>, max: nat, nl: bool)
    requires
        init.len() <= max,
    ensures
        scan_from(init, value, max, nl).0.len() <= max,
        scan_from(init, value, max, nl).1 ==> scan_from(init, value, max, nl).0.len() == max,
    decreases value.len(),
{
    if value.len() > 0 {
        lemma_scan_len(init, value.drop_last(), max, nl);
    }
}

/// Continues a scan over the characters of `value`, from state `st`.
fn scan_chars(
    out: &mut Vec<char>,
    value: &Vec<char>,
    max: usize,
    allow_newlines: bool,
) -> (truncated: bool)
    requires
        old(out)@.len() <= max,
    ensures
        (final(out)@, truncated) == ({
            let st = scan_from(old(out)@, value@, max as nat, allow_newlines);
            (st.0, st.1)
        }),
{
    let ghost init = out@;
    let mut truncated = false;
    let mut previous_was_cr = false;
    let mut i: usize = 0;
    while i < value.len()
        invariant
            i <= value@.len(),
            init == old(out)@,
            out@.len() <= max,
            (out@, truncated, previous_was_cr) == scan_from(init, value@.subrange(0, i as int), max as nat, allow_newlines),
            !truncated,
        decreases value.len() - i,
    {
        let ch = value[i];
        proof {
            assert(value@.subrange(0, i + 1).drop_last() =~= value@.subrange(0, i as int));
        }
        if allow_newlines && ch == '\n' && previous_was_cr {
            previous_was_cr = false;
        } else {
            previous_was_cr = ch == '\r';
            if !is_settings_format_control(ch) {
                if out.len() >= max {
                    proof {
                        let j = i + 1;
                        assert(scan_from(init, value@.subrange(0, j as int), max as nat, allow_newlines).1);
                        lemma_scan_stays_cut(init, value@, j as int, max as nat, allow_newlines);
                    }
                    return true;
                }
                out.push(replacement_char(ch, allow_newlines));
            }
        }
        i = i + 1;
    }
    assert(value@.subrange(0, value.len() as int) =~= value@);
    false
}

proof fn lemma_scan_stays_cut(init: Seq<char>, value: Seq<char>, j: int, max: nat, nl: bool)
    requires
        0 <= j <= value.len(),
        scan_from(init, value.subrange(0, j), max, nl).1,
    ensures
        scan_from(init, value, max, nl) == scan_from(init, value.subrange(0, j), max, nl),
    decreases value.len() - j,
{
    if j < value.len() {
        assert(value.subrange(0, j + 1).drop_last() =~= value.subrange(0, j));
        lemma_scan_stays_cut(init, value, j + 1, max, nl);
    } else {
        assert(value.subrange(0, j) =~= value);
    }
}

/// Keeps the first `max_chars` characters of `value`.
pub fn truncate_to_chars(value: &mut String, max_chars: usize)
    ensures
        final(value)@ == (if old(value)@.len() > max_chars { old(value)@.take(max_chars as int) } else { old(value)@ }),
{
    let chars = str_chars(value.as_str());
    if chars.len() > max_chars {
        let mut kept: Vec<char> = Vec::new();
        let mut i: usize = 0;
        while i < max_chars
            invariant
                i <= max_chars < chars@.len(),
                kept@ == chars@.take(i as int),
            decreases max_chars - i,
        {
            kept.push(chars[i]);
            i = i + 1;
            assert(kept@ =~= chars@.take(i as int));
        }
        *value = string_from_chars(&kept);
    }
}

/// Index of the first character that is not white space.
fn trim_start_index(chars: &Vec<char>) -> (start: usize)
    ensures
        start <= chars@.len(),
        trim_start_spec(chars@) == chars@.subrange(start as int, chars@.len() as int),
{
    let mut start: usize = 0;
    assert(chars@.subrange(0, chars@.len() as int) =~= chars@);
    while start < chars.len() && is_whitespace_char(chars[start])
        invariant
            start <= chars@.len(),
            trim_start_spec(chars@) == trim_start_spec(chars@.subrange(start as int, chars@.len() as int)),
        decreases chars.len() - start,
    {
        assert(chars@.subrange(start as int, chars@.len() as int).drop_first()
            =~= chars@.subrange(start + 1, chars@.len() as int));
        start = start + 1;
    }
    start
}

/// Trims leading and trailing white space in place.
pub fn trim_string_in_place(value: &mut String)
    ensures
        final(value)@ == trim_spec(old(value)@),
{
    let chars = str_chars(value.as_str());
    let start = trim_start_index(&chars);
    let mut end = chars.len();
    let ghost rest = chars@.subrange(start as int, chars@.len() as int);
    assert(rest.subrange(0, rest.len() as int) =~= rest);
    while end > start && is_whitespace_char(chars[end - 1])
        invariant
            start <= end <= chars@.len(),
            rest == chars@.subrange(start as int, chars@.len() as int),
            trim_end_spec(rest) == trim_end_spec(chars@.subrange(start as int, end as int)),
        decreases end,
    {
        assert(chars@.subrange(start as int, end as int).drop_last() =~= chars@.subrange(start as int, end - 1));
        end = end - 1;
    }
    let mut kept: Vec<char> = Vec::new();
    let mut i = start;
    while i < end
        invariant
            start <= i <= end <= chars@.len(),
            kept@ == chars@.subrange(start as int, i as int),
        decreases end - i,
    {
        kept.push(chars[i]);
        i = i + 1;
        assert(kept@ =~= chars@.subrange(start as int, i as int));
    }
    *value = string_from_chars(&kept);
}

/// Sanitises and bounds `value` (see `bounded_text_spec`).
pub fn bounded_settings_text(value: &str, max_chars: usize, allow_newlines: bool, trim_edges: bool) -> (text: String)
    ensures
        text@ == bounded_text_spec(value@, max_chars as nat, allow_newlines, trim_edges),
{
    if max_chars == 0 {
        return String::new();
    }
    let chars = str_chars(value);
    let mut out: Vec<char> = Vec::new();
    let truncated = scan_chars(&mut out, &chars, max_chars, allow_newlines);
    proof {
        lemma_scan_len(seq![], value@, max_chars as nat, allow_newlines);
    }
    let mut output = string_from_chars(&out);
    if truncated && max_chars > 3 {
        truncate_to_chars(&mut output, max_chars - 3);
        push_text(&mut output, "...");
        proof {
            reveal_strlit("...");
            assert("..."@ =~= ellipsis());
        }
    }
    if trim_edges {
        trim_string_in_place(&mut output);
    }
    output
}

/// A label for `value`: single line, trimmed and bounded to `max_chars`;
/// when nothing is left, the same treatment of `fallback`.
pub fn bounded_settings_display_text(value: &str, max_chars: usize, fallback: &str) -> (text: String)
    ensures
        text@ == (if bounded_text_spec(value@, max_chars as nat, false, true).len() > 0 {
            bounded_text_spec(value@, max_chars as nat, false, true)
        } else {
            bounded_text_spec(fallback@, max_chars as nat, false, true)
        }),
{
    let display = bounded_settings_text(value, max_chars, false, true);
    if display.unicode_len() == 0 {
        bounded_settings_text(fallback, max_chars, false, true)
    } else {
        display
    }
}

/// A single-line text input value: one line, bounded to
/// `SETTINGS_TEXT_INPUT_MAX_CHARS`, edges kept.
pub fn bounded_settings_singleline_input(value: &str) -> (text: String)
    ensures
        text@ == bounded_text_spec(value@, SETTINGS_TEXT_INPUT_MAX_CHARS as nat, false, false),
{
    bounded_settings_text(value, SETTINGS_TEXT_INPUT_MAX_CHARS, false, false)
}

/// A multi-line text input value: line breaks kept as `\n`, bounded to
/// `SETTINGS_TEXT_INPUT_MAX_CHARS`, edges kept.
pub fn bounded_settings_multiline_input(value: &str) -> (text: String)
    ensures
        text@ == bounded_text_spec(value@, SETTINGS_TEXT_INPUT_MAX_CHARS as nat, true, false),
{
    bounded_settings_text(value, SETTINGS_TEXT_INPUT_MAX_CHARS, true, false)
}

/// The scan of a list of lines joined by `\n`: before each line after the
/// first a `\n` is written (or the text is cut when it is full), then the line
/// is scanned in multi-line mode.
pub open spec fn join_scan(values: Seq<Seq<char>>, max: nat) -> (Seq<char>, bool)
    decreases values.len(),
{
    if values.len() == 0 {
        (seq![], false)
    } else {
        let (out, truncated) = join_scan(values.drop_last(), max);
        if truncated {
            (out, true)
        } else if values.len() > 1 && out.len() >= max {
            (out, true)
        } else {
            let start = if values.len() > 1 { out.push('\n') } else { out };
            let st = scan_from(start, values.last(), max, true);
            (st.0, st.1)
        }
    }
}

/// The characters of each string slice.
pub open spec fn strs_chars(values: Seq<&str>) -> Seq<Seq<char>> {
    values.map_values(|v: &str| v@)
}

proof fn lemma_join_scan_len(values: Seq<Seq<char>>, max: nat)
    ensures
        join_scan(values, max).0.len() <= max,
        join_scan(values, max).1 ==> join_scan(values, max).0.len() == max,
    decreases values.len(),
{
    if values.len() > 0 {
        lemma_join_scan_len(values.drop_last(), max);
        let (out, truncated) = join_scan(values.drop_last(), max);
        if !truncated && !(values.len() > 1 && out.len() >= max) {
            let start = if values.len() > 1 { out.push('\n') } else { out };
            lemma_scan_len(start, values.last(), max, true);
        }
    }
}

/// Runs `join_scan` over the lines.
fn join_lines_scan(values: &[&str], max: usize) -> (res: (Vec<char>, bool))
    ensures
        (res.0@, res.1) == join_scan(strs_chars(values@), max as nat),
{
    let ghost all = strs_chars(values@);
    let mut out: Vec<char> = Vec::new();
    let mut index: usize = 0;
    while index < values.len()
        invariant
            index <= values@.len(),
            all == strs_chars(values@),
            (out@, false) == join_scan(all.subrange(0, index as int), max as nat),
        decreases values.len() - index,
    {
        proof {
            assert(all.subrange(0, index + 1).drop_last() =~= all.subrange(0, index as int));
            assert(all.subrange(0, index + 1).last() == values@[index as int]@);
            lemma_join_scan_len(all.subrange(0, index as int), max as nat);
        }
        if index > 0 {
            if out.len() >= max {
                proof {
                    lemma_join_stays_cut(all, index + 1, max as nat);
                }
                return (out, true);
            }
            out.push('\n');
        }
        let chars = str_chars(values[index]);
        let cut = scan_chars(&mut out, &chars, max, true);
        if cut {
            proof {
                lemma_join_stays_cut(all, index + 1, max as nat);
            }
            return (out, true);
        }
        index = index + 1;
    }
    assert(all.subrange(0, values@.len() as int) =~= all);
    (out, false)
}

/// Joins lines with `\n` into one multi-line input value bounded to
/// `SETTINGS_TEXT_INPUT_MAX_CHARS` (see `join_scan`); cut text ends in `...`.
pub fn bounded_settings_multiline_join(values: &[&str]) -> (text: String)
    ensures
        text@ == ({
            let (out, truncated) = join_scan(strs_chars(values@), SETTINGS_TEXT_INPUT_MAX_CHARS as nat);
            mark_cut(out, truncated, SETTINGS_TEXT_INPUT_MAX_CHARS as nat)
        }),
{
    let max = SETTINGS_TEXT_INPUT_MAX_CHARS;
    let (out, truncated) = join_lines_scan(values, max);
    proof {
        lemma_join_scan_len(strs_chars(values@), max as nat);
    }
    let mut output = string_from_chars(&out);
    if truncated {
        truncate_to_chars(&mut output, max - 3);
        push_text(&mut output, "...");
        proof {
            reveal_strlit("...");
            assert("..."@ =~= ellipsis());
        }
    }
    output
}

proof fn lemma_join_stays_cut(values: Seq<Seq<char>>, j: int, max: nat)
    requires
        0 <= j <= values.len(),
        join_scan(values.subrange(0, j), max).1,
    ensures
        join_scan(values, max) == join_scan(values.subrange(0, j), max),
    decreases values.len() - j,
{
    if j < values.len() {
        assert(values.subrange(0, j + 1).drop_last() =~= values.subrange(0, j));
        lemma_join_stays_cut(values, j + 1, max);
    } else {
        assert(values.subrange(0, j) =~= values);
    }
}

/// The label for the update source: the configured repository as a bounded
/// single-line label, or the default repository marked `(default)`.
pub fn developer_update_source_label(repository: &str) -> (label: String)
    ensures
        label@ == (if bounded_text_spec(repository@, SETTINGS_DISPLAY_TEXT_MAX_CHARS as nat, false, true).len() > 0 {
            bounded_text_spec(repository@, SETTINGS_DISPLAY_TEXT_MAX_CHARS as nat, false, true)
        } else {
            bounded_text_spec("kaevris/kuroya (default)"@, SETTINGS_DISPLAY_TEXT_MAX_CHARS as nat, false, true)
        }),
{
    let default_label = "kaevris/kuroya (default)";
    bounded_settings_display_text(repository, SETTINGS_DISPLAY_TEXT_MAX_CHARS, default_label)
}

/// Dropping trailing white space keeps a prefix.
pub proof fn lemma_trim_end_is_prefix(value: Seq<char>)
    ensures
        trim_end_spec(value).len() <= value.len(),
        trim_end_spec(value) == value.subrange(0, trim_end_spec(value).len() as int),
    decreases value.len(),
{
    if value.len() > 0 && whitespace_spec(value.last()) {
        lemma_trim_end_is_prefix(value.drop_last());
        assert(value.drop_last().subrange(0, trim_end_spec(value).len() as int)
            =~= value.subrange(0, trim_end_spec(value).len() as int));
    } else {
        assert(value.subrange(0, value.len() as int) =~= value);
    }
}

/// Dropping leading white space keeps a suffix.
pub proof fn lemma_trim_start_is_suffix(value: Seq<char>)
    ensures
        trim_start_spec(value).len() <= value.len(),
        trim_start_spec(value) == value.subrange(value.len() - trim_start_spec(value).len(), value.len() as int),
    decreases value.len(),
{
    if value.len() > 0 && whitespace_spec(value[0]) {
        lemma_trim_start_is_suffix(value.drop_first());
        assert(value.drop_first().subrange(value.drop_first().len() - trim_start_spec(value).len(), value.drop_first().len() as int)
            =~= value.subrange(value.len() - trim_start_spec(value).len(), value.len() as int));
    } else {
        assert(value.subrange(0, value.len() as int) =~= value);
    }
}

/// A character that sanitised settings text may show: never a format
/// control or `\r`; a control character only when line breaks are kept, and
/// then only `\n` or a tab.
pub open spec fn settings_text_safe(ch: char, allow_newlines: bool) -> bool {
    &&& !format_control_spec(ch)
    &&& ch != '\r'
    &&& control_spec(ch) ==> allow_newlines && (ch == '\n' || ch == '\t')
    &&& ch != '\u{2028}' && ch != '\u{2029}'
}

/// The scan writes only safe characters.
pub proof fn lemma_scan_is_safe(value: Seq<char>, max: nat, nl: bool)
    ensures
        forall|i: int| 0 <= i < scan_from(seq![], value, max, nl).0.len()
            ==> settings_text_safe(#[trigger] scan_from(seq![], value, max, nl).0[i], nl),
    decreases value.len(),
{
    if value.len() > 0 {
        lemma_scan_is_safe(value.drop_last(), max, nl);
        let prev = scan_from(seq![], value.drop_last(), max, nl).0;
        let ch = value.last();
        assert(!format_control_spec(ch) ==> settings_text_safe(replacement_spec(ch, nl), nl));
        assert forall|i: int| 0 <= i < scan_from(seq![], value, max, nl).0.len()
            implies settings_text_safe(#[trigger] scan_from(seq![], value, max, nl).0[i], nl) by {
            if i < prev.len() {
                assert(scan_from(seq![], value, max, nl).0[i] == prev[i]);
            }
        }
    }
}

/// Sanitised settings text never exceeds `max` characters and shows only
/// safe characters: no bidi or zero-width controls, no `\r`, and no line
/// breaks in single-line mode.
pub proof fn lemma_bounded_text_is_sanitized_and_bounded(value: Seq<char>, max: nat, allow_newlines: bool, trim_edges: bool)
    ensures
        bounded_text_spec(value, max, allow_newlines, trim_edges).len() <= max,
        forall|i: int| 0 <= i < bounded_text_spec(value, max, allow_newlines, trim_edges).len()
            ==> settings_text_safe(#[trigger] bounded_text_spec(value, max, allow_newlines, trim_edges)[i], allow_newlines),
{
    if max > 0 {
        let (out, truncated, _) = scan_from(seq![], value, max, allow_newlines);
        lemma_scan_len(seq![], value, max, allow_newlines);
        lemma_scan_is_safe(value, max, allow_newlines);
        let marked = mark_cut(out, truncated, max);
        assert(settings_text_safe('.', allow_newlines));
        assert forall|i: int| 0 <= i < marked.len() implies settings_text_safe(#[trigger] marked[i], allow_newlines) by {
            if truncated && max > 3 {
                if i < max - 3 {
                    assert(marked[i] == out[i]);
                } else {
                    assert(marked[i] == '.');
                }
            } else {
                assert(marked[i] == out[i]);
            }
        }
        if trim_edges {
            let s = trim_start_spec(marked);
            lemma_trim_start_is_suffix(marked);
            lemma_trim_end_is_prefix(s);
            let r = trim_end_spec(s);
            assert forall|i: int| 0 <= i < r.len() implies settings_text_safe(#[trigger] r[i], allow_newlines) by {
                assert(r[i] == s[i]);
                assert(s[i] == marked[marked.len() - s.len() + i]);
            }
        }
    }
}

} // verus!
