//! Column and capacity arithmetic for laying out a line with tab stops.
use vstd::prelude::*;
use vstd::string::*;
use crate::session_save::strs_view;
use crate::text::push_char;

verus! {

/// Visual columns of text without tabs: one per character.
pub fn text_columns_without_tabs(text: &str) -> (columns: usize)
    ensures
        columns == text@.len(),
{
    text.unicode_len()
}

/// Bytes taken by `c` in UTF-8.
pub open spec fn utf8_width(c: char) -> nat {
    let v = c as u32;
    if v < 0x80 {
        1
    } else if v < 0x800 {
        2
    } else if v < 0x10000 {
        3
    } else {
        4
    }
}

/// Spaces a tab at `column` expands to: up to the next multiple of
/// `tab_width`.
pub open spec fn tab_spaces(column: nat, tab_width: nat) -> nat
    recommends
        tab_width > 0,
{
    (tab_width - column % tab_width) as nat
}

/// Capacity and visual column after laying out `text` with tabs expanded to
/// spaces: a tab adds its spaces to both, any other character its UTF-8
/// width to the capacity and one column.
pub open spec fn expand_scan(text: Seq<char>, tab_width: nat) -> (nat, nat)
    decreases text.len(),
{
    if text.len() == 0 {
        (0, 0)
    } else {
        let (capacity, column) = expand_scan(text.drop_last(), tab_width);
        let c = text.last();
        if c == '\t' {
            let spaces = tab_spaces(column, tab_width);
            (capacity + spaces, column + spaces)
        } else {
            (capacity + utf8_width(c), column + 1)
        }
    }
}

/// The tab width used: at least one.
pub open spec fn effective_tab_width(tab_width: usize) -> nat {
    if tab_width == 0 { 1 } else { tab_width as nat }
}

/// The UTF-8 width of `c`.
pub fn char_utf8_width(c: char) -> (width: usize)
    ensures
        width == utf8_width(c),
{
    let v = c as u32;
    if v < 0x80 {
        1
    } else if v < 0x800 {
        2
    } else if v < 0x10000 {
        3
    } else {
        4
    }
}

/// Bytes needed for `text` once its tabs are expanded to spaces at tab
/// stops every `tab_width` columns (a width of zero counts as one).
pub fn expanded_text_capacity(text: &str, tab_width: usize) -> (capacity: usize)
    requires
        expand_scan(text@, effective_tab_width(tab_width)).0 <= usize::MAX,
    ensures
        capacity == expand_scan(text@, effective_tab_width(tab_width)).0,
{
    let width: usize = if tab_width == 0 { 1 } else { tab_width };
    let ghost tw = effective_tab_width(tab_width);
    let n = text.unicode_len();
    let mut capacity: usize = 0;
    let mut column: usize = 0;
    let mut i: usize = 0;
    while i < n
        invariant
            n == text@.len(),
            i <= n,
            width == tw,
            tw > 0,
            expand_scan(text@, tw).0 <= usize::MAX,
            (capacity as nat, column as nat) == expand_scan(text@.subrange(0, i as int), tw),
            column <= capacity,
        decreases n - i,
    {
        let c = text.get_char(i);
        let ghost prefix = text@.subrange(0, i + 1);
        assert(prefix.drop_last() =~= text@.subrange(0, i as int));
        proof {
            lemma_expand_scan_prefix_bounded(text@, tw, i + 1);
        }
        if c == '\t' {
            let spaces = width - column % width;
            capacity = capacity + spaces;
            column = column + spaces;
        } else {
            capacity = capacity + char_utf8_width(c);
            column = column + 1;
        }
        i = i + 1;
    }
    assert(text@.subrange(0, n as int) =~= text@);
    capacity
}

/// The capacity of a prefix never exceeds that of the whole text, and the
/// column never exceeds the capacity.
pub proof fn lemma_expand_scan_prefix_bounded(text: Seq<char>, tab_width: nat, k: int)
    requires
        0 <= k <= text.len(),
        tab_width > 0,
    ensures
        expand_scan(text.subrange(0, k), tab_width).0 <= expand_scan(text, tab_width).0,
        expand_scan(text.subrange(0, k), tab_width).1 <= expand_scan(text.subrange(0, k), tab_width).0,
    decreases text.len(),
{
    if text.len() == 0 {
        assert(text.subrange(0, k) =~= text);
    } else if k == text.len() {
        assert(text.subrange(0, k) =~= text);
        lemma_expand_scan_column_bounded(text, tab_width);
    } else {
        assert(text.drop_last().subrange(0, k) =~= text.subrange(0, k));
        lemma_expand_scan_prefix_bounded(text.drop_last(), tab_width, k);
    }
}

/// The column never exceeds the capacity.
pub proof fn lemma_expand_scan_column_bounded(text: Seq<char>, tab_width: nat)
    requires
        tab_width > 0,
    ensures
        expand_scan(text, tab_width).1 <= expand_scan(text, tab_width).0,
    decreases text.len(),
{
    if text.len() > 0 {
        lemma_expand_scan_column_bounded(text.drop_last(), tab_width);
    }
}

/// The tab width used when none is configured.
pub const DEFAULT_TAB_WIDTH: usize = 4;
/// Tab widths above this are cut to it.
pub const MAX_TAB_WIDTH: usize = 32;

/// The tab width a layout uses: the default for zero, at most
/// `MAX_TAB_WIDTH`.
pub fn normalize_tab_width(tab_width: usize) -> (width: usize)
    ensures
        width == (if tab_width == 0 {
            DEFAULT_TAB_WIDTH
        } else if tab_width > MAX_TAB_WIDTH {
            MAX_TAB_WIDTH
        } else {
            tab_width
        }),
{
    if tab_width == 0 {
        DEFAULT_TAB_WIDTH
    } else if tab_width > MAX_TAB_WIDTH {
        MAX_TAB_WIDTH
    } else {
        tab_width
    }
}

/// `n` spaces.
pub open spec fn spaces_spec(n: nat) -> Seq<char> {
    Seq::new(n, |i: int| ' ')
}

/// A string of `spaces` spaces.
pub fn spaces_text(spaces: usize) -> (text: String)
    ensures
        text@ == spaces_spec(spaces as nat),
{
    let mut text = String::new();
    let mut i: usize = 0;
    while i < spaces
        invariant
            i <= spaces,
            text@ == spaces_spec(i as nat),
        decreases spaces - i,
    {
        push_char(&mut text, ' ');
        i = i + 1;
        assert(text@ =~= spaces_spec(i as nat));
    }
    text
}

/// Lays out `text` from visual column `start`: the finished runs, the
/// characters read since the last tab, and the column reached. A tab ends
/// the pending run (when it is not empty) and adds a run of the spaces up to
/// the next tab stop.
pub open spec fn runs_scan(text: Seq<char>, start: nat, tab_width: nat) -> (Seq<Seq<char>>, Seq<char>, nat)
    decreases text.len(),
{
    if text.len() == 0 {
        (seq![], seq![], start)
    } else {
        let (runs, pending, column) = runs_scan(text.drop_last(), start, tab_width);
        let c = text.last();
        if c == '\t' {
            let spaces = tab_spaces(column, tab_width);
            let done = if pending.len() > 0 { runs.push(pending) } else { runs };
            (done.push(spaces_spec(spaces)), seq![], column + spaces)
        } else {
            (runs, pending.push(c), column + 1)
        }
    }
}

/// The runs `text` is laid out in from column `start`, and the column
/// reached: text without tabs is one run; otherwise the tab-free stretches
/// and the spaces of each tab, in order, with no empty stretch.
pub open spec fn tab_runs_spec(text: Seq<char>, start: nat, tab_width: nat) -> (Seq<Seq<char>>, nat) {
    if !text.contains('\t') {
        (seq![text], start + text.len())
    } else {
        let (runs, pending, column) = runs_scan(text, start, tab_width);
        (if pending.len() > 0 { runs.push(pending) } else { runs }, column)
    }
}

/// `text` with each tab replaced by the spaces up to the next tab stop,
/// starting at column `start`, and the column reached.
pub open spec fn expanded_spec(text: Seq<char>, start: nat, tab_width: nat) -> (Seq<char>, nat)
    decreases text.len(),
{
    if text.len() == 0 {
        (seq![], start)
    } else {
        let (out, column) = expanded_spec(text.drop_last(), start, tab_width);
        let c = text.last();
        if c == '\t' {
            let spaces = tab_spaces(column, tab_width);
            (out + spaces_spec(spaces), column + spaces)
        } else {
            (out.push(c), column + 1)
        }
    }
}

/// The runs joined into one text.
pub open spec fn joined_runs(runs: Seq<Seq<char>>) -> Seq<char>
    decreases runs.len(),
{
    if runs.len() == 0 {
        seq![]
    } else {
        joined_runs(runs.drop_last()) + runs.last()
    }
}

/// The scan keeps the expansion: finished runs followed by the pending
/// characters are the expanded text, at the same column; the column only
/// grows.
pub proof fn lemma_runs_scan_expands(text: Seq<char>, start: nat, tab_width: nat)
    ensures
        joined_runs(runs_scan(text, start, tab_width).0) + runs_scan(text, start, tab_width).1
            == expanded_spec(text, start, tab_width).0,
        runs_scan(text, start, tab_width).2 == expanded_spec(text, start, tab_width).1,
        runs_scan(text, start, tab_width).2 >= start,
        !text.contains('\t') ==> runs_scan(text, start, tab_width).2 == start + text.len(),
    decreases text.len(),
{
    if text.len() > 0 {
        let rest = text.drop_last();
        lemma_runs_scan_expands(rest, start, tab_width);
        let (runs, pending, column) = runs_scan(rest, start, tab_width);
        if text.last() == '\t' {
            let spaces = spaces_spec(tab_spaces(column, tab_width));
            if pending.len() > 0 {
                let a = runs.push(pending);
                let b = a.push(spaces);
                assert(b.drop_last() =~= a);
                assert(joined_runs(b) == joined_runs(a) + spaces);
                assert(a.drop_last() =~= runs);
                assert(joined_runs(a) == joined_runs(runs) + pending);
                assert(joined_runs(b) =~= joined_runs(runs) + pending + spaces);
            } else {
                let b = runs.push(spaces);
                assert(b.drop_last() =~= runs);
                assert(joined_runs(b) == joined_runs(runs) + spaces);
                assert(pending =~= Seq::<char>::empty());
            }
            assert(joined_runs(runs_scan(text, start, tab_width).0) + seq![] =~= expanded_spec(text, start, tab_width).0);
        } else {
            assert(joined_runs(runs) + pending.push(text.last()) =~= (joined_runs(runs) + pending).push(text.last()));
            if !text.contains('\t') {
                assert forall|i: int| 0 <= i < rest.len() implies rest[i] != '\t' by {
                    assert(text[i] == rest[i]);
                }
            }
        }
    }
}

/// Laying a line out in runs loses nothing: joined, the runs are the line
/// with every tab expanded to the spaces up to its tab stop, and the column
/// reached is that of the expanded text.
pub proof fn lemma_tab_runs_join_to_the_expanded_text(text: Seq<char>, start: nat, tab_width: nat)
    ensures
        joined_runs(tab_runs_spec(text, start, tab_width).0) == expanded_spec(text, start, tab_width).0,
        tab_runs_spec(text, start, tab_width).1 == expanded_spec(text, start, tab_width).1,
{
    lemma_runs_scan_expands(text, start, tab_width);
    if !text.contains('\t') {
        lemma_no_tab_expands_to_itself(text, start, tab_width);
        let one = seq![text];
        assert(one.drop_last() =~= Seq::<Seq<char>>::empty());
        assert(joined_runs(one) == joined_runs(one.drop_last()) + one.last());
        assert(joined_runs(one) =~= text);
    } else {
        let (runs, pending, column) = runs_scan(text, start, tab_width);
        if pending.len() > 0 {
            assert(runs.push(pending).drop_last() =~= runs);
        } else {
            assert(joined_runs(runs) + pending =~= joined_runs(runs));
        }
    }
}

/// Text without tabs expands to itself.
pub proof fn lemma_no_tab_expands_to_itself(text: Seq<char>, start: nat, tab_width: nat)
    requires
        !text.contains('\t'),
    ensures
        expanded_spec(text, start, tab_width) == (text, start + text.len()),
    decreases text.len(),
{
    if text.len() > 0 {
        let rest = text.drop_last();
        assert forall|i: int| 0 <= i < rest.len() implies rest[i] != '\t' by {
            assert(text[i] == rest[i]);
        }
        assert(text[text.len() - 1] == text.last());
        lemma_no_tab_expands_to_itself(rest, start, tab_width);
        assert(rest.push(text.last()) =~= text);
    }
}

/// Splits `text` into the runs a layout appends, starting at column
/// `visual_column` (see `tab_runs_spec`); returns the runs and the column
/// reached. A tab width of zero counts as one.
pub fn tab_expansion_runs(text: &str, visual_column: usize, tab_width: usize) -> (laid: (Vec<String>, usize))
    requires
        runs_scan(text@, visual_column as nat, effective_tab_width(tab_width)).2 <= usize::MAX,
    ensures
        (strs_view(laid.0@), laid.1 as nat) == tab_runs_spec(text@, visual_column as nat, effective_tab_width(tab_width)),
{
    let width: usize = if tab_width == 0 { 1 } else { tab_width };
    let ghost tw = effective_tab_width(tab_width);
    let n = text.unicode_len();
    let mut runs: Vec<String> = Vec::new();
    let mut pending = String::new();
    let mut column = visual_column;
    let mut has_tab = false;
    let mut i: usize = 0;
    proof {
        lemma_runs_scan_expands(text@, visual_column as nat, tw);
    }
    while i < n
        invariant
            n == text@.len(),
            i <= n,
            width == tw,
            tw > 0,
            runs_scan(text@, visual_column as nat, tw).2 <= usize::MAX,
            (strs_view(runs@), pending@, column as nat) == runs_scan(text@.take(i as int), visual_column as nat, tw),
            has_tab == text@.take(i as int).contains('\t'),
        decreases n - i,
    {
        let c = text.get_char(i);
        let ghost prefix = text@.take(i + 1);
        assert(prefix.drop_last() =~= text@.take(i as int));
        assert(prefix.last() == c);
        proof {
            lemma_runs_scan_column_monotone(text@, visual_column as nat, tw, i + 1);
        }
        if c == '\t' {
            let spaces = width - column % width;
            if pending.unicode_len() > 0 {
                let ghost before = strs_view(runs@);
                let mut done = String::new();
                std::mem::swap(&mut pending, &mut done);
                runs.push(done);
                assert(strs_view(runs@) =~= before.push(runs@[runs@.len() - 1]@));
            }
            let ghost before2 = strs_view(runs@);
            runs.push(spaces_text(spaces));
            assert(strs_view(runs@) =~= before2.push(spaces_spec(spaces as nat)));
            column = column + spaces;
            has_tab = true;
            assert(prefix.contains('\t')) by {
                assert(prefix[i as int] == '\t');
            }
        } else {
            push_char(&mut pending, c);
            column = column + 1;
            assert(has_tab == prefix.contains('\t')) by {
                if prefix.contains('\t') {
                    let k = choose|k: int| 0 <= k < prefix.len() && prefix[k] == '\t';
                    assert(k < i);
                    assert(text@.take(i as int)[k] == '\t');
                }
                if has_tab {
                    let k = choose|k: int| 0 <= k < text@.take(i as int).len() && text@.take(i as int)[k] == '\t';
                    assert(prefix[k] == '\t');
                }
            }
        }
        i = i + 1;
    }
    assert(text@.take(n as int) =~= text@);
    if !has_tab {
        let mut whole: Vec<String> = Vec::new();
        whole.push(text.to_owned());
        assert(strs_view(whole@) =~= seq![text@]);
        return (whole, column);
    }
    if pending.unicode_len() > 0 {
        let ghost before = strs_view(runs@);
        runs.push(pending);
        assert(strs_view(runs@) =~= before.push(runs@[runs@.len() - 1]@));
    }
    (runs, column)
}

/// The column of a prefix's scan is at most that of the whole text.
pub proof fn lemma_runs_scan_column_monotone(text: Seq<char>, start: nat, tab_width: nat, k: int)
    requires
        0 <= k <= text.len(),
    ensures
        runs_scan(text.take(k), start, tab_width).2 <= runs_scan(text, start, tab_width).2,
    decreases text.len() - k,
{
    if k < text.len() {
        let longer = text.take(k + 1);
        assert(longer.drop_last() =~= text.take(k));
        lemma_runs_scan_column_monotone(text, start, tab_width, k + 1);
    } else {
        assert(text.take(k) =~= text);
    }
}

} // verus!
