//! Lexical path handling over `/`-separated path strings: splitting into
//! components, lexical normalisation, comparison keys and containment.
use vstd::prelude::*;
use crate::text::{push_char, str_chars, str_equal, string_from_chars};
use vstd::string::*;

verus! {

/// Splits `p` on `/`, dropping empty parts. Returns the finished parts and the
/// part still being read.
pub open spec fn split_parts(p: Seq<char>) -> (Seq<Seq<char>>, Seq<char>)
    decreases p.len(),
{
    if p.len() == 0 {
        (seq![], seq![])
    } else {
        let (parts, cur) = split_parts(p.drop_last());
        if p.last() == '/' {
            if cur.len() > 0 {
                (parts.push(cur), seq![])
            } else {
                (parts, seq![])
            }
        } else {
            (parts, cur.push(p.last()))
        }
    }
}

/// The non-empty `/`-separated components of `p`, in order.
pub open spec fn path_components(p: Seq<char>) -> Seq<Seq<char>> {
    let (parts, cur) = split_parts(p);
    if cur.len() > 0 {
        parts.push(cur)
    } else {
        parts
    }
}

/// A path is rooted when it starts with `/`.
pub open spec fn path_is_rooted(p: Seq<char>) -> bool {
    p.len() > 0 && p[0] == '/'
}

pub open spec fn dot() -> Seq<char> {
    seq!['.']
}

pub open spec fn dotdot() -> Seq<char> {
    seq!['.', '.']
}

/// One step of lexical normalisation: `.` is dropped, `..` removes the last
/// normal component or, when there is none, is kept for relative paths and
/// dropped for rooted ones.
pub open spec fn norm_step(rooted: bool, stack: Seq<Seq<char>>, c: Seq<char>) -> Seq<Seq<char>> {
    if c == dot() {
        stack
    } else if c == dotdot() {
        if stack.len() > 0 && stack.last() != dotdot() {
            stack.drop_last()
        } else if !rooted {
            stack.push(c)
        } else {
            stack
        }
    } else {
        stack.push(c)
    }
}

/// The components left after lexically normalising `comps`.
pub open spec fn norm_components(rooted: bool, comps: Seq<Seq<char>>) -> Seq<Seq<char>>
    decreases comps.len(),
{
    if comps.len() == 0 {
        seq![]
    } else {
        norm_step(rooted, norm_components(rooted, comps.drop_last()), comps.last())
    }
}

/// The normalised components of path `p`.
pub open spec fn normalized_components(p: Seq<char>) -> Seq<Seq<char>> {
    norm_components(path_is_rooted(p), path_components(p))
}

/// Joins components with `/`.
pub open spec fn join_components(comps: Seq<Seq<char>>) -> Seq<char>
    decreases comps.len(),
{
    if comps.len() == 0 {
        seq![]
    } else if comps.len() == 1 {
        comps[0]
    } else {
        join_components(comps.drop_last()) + seq!['/'] + comps.last()
    }
}

/// Text of a lexically normalised path: a leading `/` for rooted paths, the
/// components joined by `/`, and `.` for an empty relative result.
pub open spec fn lexical_normalized_text(p: Seq<char>) -> Seq<char> {
    let comps = normalized_components(p);
    if path_is_rooted(p) {
        seq!['/'] + join_components(comps)
    } else if comps.len() == 0 {
        dot()
    } else {
        join_components(comps)
    }
}

/// Replaces every backslash of a component by `/`.
pub open spec fn slash_text(c: Seq<char>) -> Seq<char> {
    c.map_values(|ch: char| if ch == '\\' { '/' } else { ch })
}

/// Drops trailing `/` characters while more than one character is left.
pub open spec fn strip_trailing_slashes(k: Seq<char>) -> Seq<char>
    decreases k.len(),
{
    if k.len() > 1 && k.last() == '/' {
        strip_trailing_slashes(k.drop_last())
    } else {
        k
    }
}

/// The comparison key of a path: its normalised components (backslashes
/// turned into `/`) joined by `/`, led by `/` for a rooted path with at least
/// one component, without trailing separators.
pub open spec fn path_key(p: Seq<char>) -> Seq<char> {
    let comps = normalized_components(p).map_values(|c: Seq<char>| slash_text(c));
    let joined = if path_is_rooted(p) && comps.len() > 0 {
        seq!['/'] + join_components(comps)
    } else {
        join_components(comps)
    };
    strip_trailing_slashes(joined)
}

/// Two paths match when their keys are equal.
pub open spec fn paths_match_spec(left: Seq<char>, right: Seq<char>) -> bool {
    path_key(left) == path_key(right)
}

/// `path` is `folder` or lies below it, compared by keys; an empty folder key
/// contains nothing.
pub open spec fn path_is_or_inside_spec(path: Seq<char>, folder: Seq<char>) -> bool {
    let p = path_key(path);
    let f = path_key(folder);
    f.len() > 0 && (p == f || (p.len() > f.len() && p.subrange(0, f.len() as int) == f
        && p[f.len() as int] == '/'))
}

/// The character sequences held by a vector of character vectors.
pub open spec fn char_vecs_view(v: Seq<Vec<char>>) -> Seq<Seq<char>> {
    v.map_values(|x: Vec<char>| x@)
}

/// Splits a path into its non-empty components.
pub fn split_path_components(p: &str) -> (comps: Vec<Vec<char>>)
    ensures
        char_vecs_view(comps@) == path_components(p@),
{
    let chars = str_chars(p);
    let mut parts: Vec<Vec<char>> = Vec::new();
    let mut cur: Vec<char> = Vec::new();
    let mut i: usize = 0;
    while i < chars.len()
        invariant
            i <= chars.len(),
            chars@ == p@,
            (char_vecs_view(parts@), cur@) == split_parts(p@.subrange(0, i as int)),
        decreases chars.len() - i,
    {
        let c = chars[i];
        proof {
            assert(p@.subrange(0, i + 1).drop_last() =~= p@.subrange(0, i as int));
        }
        if c == '/' {
            if cur.len() > 0 {
                let ghost old_parts = char_vecs_view(parts@);
                let finished = cur;
                parts.push(finished);
                cur = Vec::new();
                proof {
                    assert(char_vecs_view(parts@) =~= old_parts.push(finished@));
                    assert(cur@ =~= Seq::<char>::empty());
                }
            } else {
                proof {
                    assert(cur@ =~= Seq::<char>::empty());
                }
            }
        } else {
            cur.push(c);
        }
        i = i + 1;
    }
    assert(p@.subrange(0, chars.len() as int) =~= p@);
    if cur.len() > 0 {
        let ghost old_parts = char_vecs_view(parts@);
        let last = cur;
        parts.push(last);
        assert(char_vecs_view(parts@) =~= old_parts.push(last@));
    }
    parts
}

/// Whether `p` starts with `/`.
pub fn path_rooted(p: &str) -> (rooted: bool)
    ensures
        rooted == path_is_rooted(p@),
{
    let n = p.unicode_len();
    n > 0 && p.get_char(0) == '/'
}


/// Whether a component is `.`.
pub fn component_is_dot(c: &Vec<char>) -> (b: bool)
    ensures
        b == (c@ == dot()),
{
    let b = c.len() == 1 && c[0] == '.';
    proof {
        if c@.len() == 1 && c@[0] == '.' {
            assert(c@ =~= dot());
        }
    }
    b
}

/// Whether a component is `..`.
pub fn component_is_dotdot(c: &Vec<char>) -> (b: bool)
    ensures
        b == (c@ == dotdot()),
{
    let b = c.len() == 2 && c[0] == '.' && c[1] == '.';
    proof {
        if c@.len() == 2 && c@[0] == '.' && c@[1] == '.' {
            assert(c@ =~= dotdot());
        }
    }
    b
}

/// Lexically normalises a component list (see `norm_step`).
pub fn normalize_components(rooted: bool, comps: &Vec<Vec<char>>) -> (out: Vec<Vec<char>>)
    ensures
        char_vecs_view(out@) == norm_components(rooted, char_vecs_view(comps@)),
{
    let mut out: Vec<Vec<char>> = Vec::new();
    let mut i: usize = 0;
    while i < comps.len()
        invariant
            i <= comps.len(),
            char_vecs_view(out@) == norm_components(rooted, char_vecs_view(comps@).subrange(0, i as int)),
        decreases comps.len() - i,
    {
        let ghost before = char_vecs_view(out@);
        let c = &comps[i];
        proof {
            assert(char_vecs_view(comps@).subrange(0, i + 1).drop_last()
                =~= char_vecs_view(comps@).subrange(0, i as int));
            assert(char_vecs_view(comps@).subrange(0, i + 1).last() == c@);
        }
        if component_is_dot(c) {
        } else if component_is_dotdot(c) {
            let n = out.len();
            if n > 0 && !component_is_dotdot(&out[n - 1]) {
                out.pop();
                assert(char_vecs_view(out@) =~= before.drop_last());
            } else if !rooted {
                out.push(c.clone());
                assert(char_vecs_view(out@) =~= before.push(c@));
            }
        } else {
            out.push(c.clone());
            assert(char_vecs_view(out@) =~= before.push(c@));
        }
        i = i + 1;
    }
    assert(char_vecs_view(comps@).subrange(0, comps.len() as int) =~= char_vecs_view(comps@));
    out
}

/// Appends `src` to `dst`.
pub fn extend_chars(dst: &mut Vec<char>, src: &Vec<char>)
    ensures
        final(dst)@ == old(dst)@ + src@,
{
    let mut i: usize = 0;
    let ghost start = dst@;
    while i < src.len()
        invariant
            i <= src.len(),
            dst@ == start + src@.subrange(0, i as int),
        decreases src.len() - i,
    {
        dst.push(src[i]);
        i = i + 1;
        assert(dst@ =~= start + src@.subrange(0, i as int));
    }
    assert(src@.subrange(0, src.len() as int) =~= src@);
}

/// Joins components with `/`.
pub fn join_component_chars(comps: &Vec<Vec<char>>) -> (out: Vec<char>)
    ensures
        out@ == join_components(char_vecs_view(comps@)),
{
    let mut out: Vec<char> = Vec::new();
    let mut i: usize = 0;
    while i < comps.len()
        invariant
            i <= comps.len(),
            out@ == join_components(char_vecs_view(comps@).subrange(0, i as int)),
        decreases comps.len() - i,
    {
        proof {
            let s = char_vecs_view(comps@).subrange(0, i + 1);
            assert(s.drop_last() =~= char_vecs_view(comps@).subrange(0, i as int));
            if i == 0 {
                assert(out@ =~= Seq::<char>::empty());
            }
        }
        if i > 0 {
            out.push('/');
        }
        extend_chars(&mut out, &comps[i]);
        proof {
            let s = char_vecs_view(comps@).subrange(0, i + 1);
            if i == 0 {
                assert(out@ =~= s[0]);
            } else {
                assert(out@ =~= join_components(s.drop_last()) + seq!['/'] + s.last());
            }
        }
        i = i + 1;
    }
    assert(char_vecs_view(comps@).subrange(0, comps.len() as int) =~= char_vecs_view(comps@));
    out
}

/// Lexically normalises a path: `.` components disappear, `..` removes the
/// preceding normal component (or is kept at the start of a relative path),
/// and an empty relative result becomes `.`.
pub fn lexical_normalize_startup_path(path: &str) -> (normalized: String)
    ensures
        normalized@ == lexical_normalized_text(path@),
{
    let rooted = path_rooted(path);
    let comps = split_path_components(path);
    let normalized = normalize_components(rooted, &comps);
    let joined = join_component_chars(&normalized);
    let mut out: Vec<char> = Vec::new();
    if rooted {
        out.push('/');
        extend_chars(&mut out, &joined);
        assert(out@ =~= seq!['/'] + joined@);
    } else if normalized.len() == 0 {
        out.push('.');
        assert(out@ =~= dot());
    } else {
        out = joined;
    }
    string_from_chars(&out)
}

/// Whether two character vectors hold the same characters.
pub fn chars_equal(a: &Vec<char>, b: &Vec<char>) -> (eq: bool)
    ensures
        eq == (a@ == b@),
{
    if a.len() != b.len() {
        return false;
    }
    let mut i: usize = 0;
    while i < a.len()
        invariant
            i <= a.len(),
            a.len() == b.len(),
            a@.subrange(0, i as int) == b@.subrange(0, i as int),
        decreases a.len() - i,
    {
        if a[i] != b[i] {
            assert(a@[i as int] != b@[i as int]);
            return false;
        }
        assert(a@.subrange(0, i + 1) =~= a@.subrange(0, i as int).push(a@[i as int]));
        assert(b@.subrange(0, i + 1) =~= b@.subrange(0, i as int).push(b@[i as int]));
        i = i + 1;
    }
    assert(a@ =~= a@.subrange(0, a.len() as int));
    assert(b@ =~= b@.subrange(0, b.len() as int));
    true
}

/// Whether `a` holds `f` starting at position `start`.
pub open spec fn occurs_at(a: Seq<char>, f: Seq<char>, start: int) -> bool {
    0 <= start && start + f.len() <= a.len() && a.subrange(start, start + f.len()) == f
}

/// Whether `a[start..start + f.len()]` equals `f`.
pub fn chars_occur_at(a: &Vec<char>, f: &Vec<char>, start: usize) -> (b: bool)
    ensures
        b == occurs_at(a@, f@, start as int),
{
    if start > a.len() || f.len() > a.len() - start {
        return false;
    }
    let mut i: usize = 0;
    while i < f.len()
        invariant
            i <= f.len(),
            start + f.len() <= a.len(),
            a@.subrange(start as int, start + i) == f@.subrange(0, i as int),
        decreases f.len() - i,
    {
        if a[start + i] != f[i] {
            assert(a@.subrange(start as int, start + f.len())[i as int] != f@[i as int]);
            return false;
        }
        assert(a@.subrange(start as int, start + i + 1)
            =~= a@.subrange(start as int, start + i).push(a@[start + i]));
        assert(f@.subrange(0, i + 1) =~= f@.subrange(0, i as int).push(f@[i as int]));
        i = i + 1;
    }
    assert(f@ =~= f@.subrange(0, f.len() as int));
    true
}

/// Appends `text` to `key`, turning backslashes into `/`.
pub fn push_normalized_path_key_text(key: &mut String, text: &str)
    ensures
        final(key)@ == old(key)@ + slash_text(text@),
{
    let chars = str_chars(text);
    let mut i: usize = 0;
    let ghost start = key@;
    while i < chars.len()
        invariant
            i <= chars.len(),
            chars@ == text@,
            key@ == start + slash_text(text@.subrange(0, i as int)),
        decreases chars.len() - i,
    {
        let c = chars[i];
        if c == '\\' {
            push_char(key, '/');
        } else {
            push_char(key, c);
        }
        i = i + 1;
        assert(slash_text(text@.subrange(0, i as int))
            =~= slash_text(text@.subrange(0, i - 1)).push(if c == '\\' { '/' } else { c }));
    }
    assert(text@.subrange(0, chars.len() as int) =~= text@);
}

/// Component-wise backslash replacement.
pub fn slash_component(c: &Vec<char>) -> (out: Vec<char>)
    ensures
        out@ == slash_text(c@),
{
    let mut out: Vec<char> = Vec::new();
    let mut i: usize = 0;
    while i < c.len()
        invariant
            i <= c.len(),
            out@ == slash_text(c@.subrange(0, i as int)),
        decreases c.len() - i,
    {
        if c[i] == '\\' {
            out.push('/');
        } else {
            out.push(c[i]);
        }
        i = i + 1;
        assert(out@ =~= slash_text(c@.subrange(0, i as int)));
    }
    assert(c@.subrange(0, c.len() as int) =~= c@);
    out
}

/// The key of a path as characters (see `path_key`).
pub fn path_key_chars(path: &str) -> (key: Vec<char>)
    ensures
        key@ == path_key(path@),
{
    let rooted = path_rooted(path);
    let comps = split_path_components(path);
    let normalized = normalize_components(rooted, &comps);
    let ghost nview = char_vecs_view(normalized@);
    let mut slashed: Vec<Vec<char>> = Vec::new();
    let mut i: usize = 0;
    while i < normalized.len()
        invariant
            i <= normalized.len(),
            nview == char_vecs_view(normalized@),
            char_vecs_view(slashed@) == nview.subrange(0, i as int).map_values(|c: Seq<char>| slash_text(c)),
        decreases normalized.len() - i,
    {
        let ghost before = char_vecs_view(slashed@);
        let next = slash_component(&normalized[i]);
        slashed.push(next);
        assert(char_vecs_view(slashed@) =~= before.push(next@));
        assert(nview.subrange(0, i + 1) =~= nview.subrange(0, i as int).push(nview[i as int]));
        assert(nview[i as int] == normalized@[i as int]@);
        i = i + 1;
        assert(char_vecs_view(slashed@) =~= nview.subrange(0, i as int).map_values(|c: Seq<char>| slash_text(c)));
    }
    assert(nview.subrange(0, normalized.len() as int) =~= nview);
    let joined = join_component_chars(&slashed);
    let mut key: Vec<char> = Vec::new();
    if rooted && slashed.len() > 0 {
        key.push('/');
        extend_chars(&mut key, &joined);
        assert(key@ =~= seq!['/'] + joined@);
    } else {
        key = joined;
    }
    let ghost unstripped = key@;
    while key.len() > 1 && key[key.len() - 1] == '/'
        invariant
            strip_trailing_slashes(key@) == strip_trailing_slashes(unstripped),
        decreases key.len(),
    {
        let ghost before = key@;
        key.pop();
        assert(key@ =~= before.drop_last());
    }
    key
}

/// The comparison key of a path (see `path_key`).
pub fn normalized_path_key(path: &str) -> (key: String)
    ensures
        key@ == path_key(path@),
{
    let key = path_key_chars(path);
    string_from_chars(&key)
}

/// Whether two paths have the same key.
pub fn paths_match(left: &str, right: &str) -> (matched: bool)
    ensures
        matched == paths_match_spec(left@, right@),
{
    let l = path_key_chars(left);
    let r = path_key_chars(right);
    chars_equal(&l, &r)
}

/// The path a comparison key is computed from: the path as the file system
/// resolved it (`canonical`), or, when it could not, the path normalised
/// lexically.
pub open spec fn resolved_path_spec(canonical: Option<Seq<char>>, path: Seq<char>) -> Seq<char> {
    match canonical {
        Some(c) => c,
        None => lexical_normalized_text(path),
    }
}

/// The comparison key of a path given what resolving it on the file system
/// gave (`None` when that failed): the key of the resolved path, or of the
/// lexically normalised path.
pub fn resolved_path_key(canonical: Option<&str>, path: &str) -> (key: String)
    ensures
        key@ == path_key(resolved_path_spec(
            match canonical { Some(c) => Some(c@), None => None },
            path@,
        )),
{
    match canonical {
        Some(c) => normalized_path_key(c),
        None => {
            let lexical = lexical_normalize_startup_path(path);
            normalized_path_key(lexical.as_str())
        },
    }
}

/// Whether two paths have the same key once each is resolved as
/// `resolved_path_key` does.
pub fn resolved_paths_match(
    left: &str,
    left_canonical: Option<&str>,
    right: &str,
    right_canonical: Option<&str>,
) -> (matched: bool)
    ensures
        matched == (path_key(resolved_path_spec(match left_canonical { Some(c) => Some(c@), None => None }, left@))
            == path_key(resolved_path_spec(match right_canonical { Some(c) => Some(c@), None => None }, right@))),
{
    let l = resolved_path_key(left_canonical, left);
    let r = resolved_path_key(right_canonical, right);
    str_equal(l.as_str(), r.as_str())
}

/// Whether `path` is `folder` or lies below it (see `path_is_or_inside_spec`).
pub fn path_is_or_inside(path: &str, folder: &str) -> (inside: bool)
    ensures
        inside == path_is_or_inside_spec(path@, folder@),
{
    let p = path_key_chars(path);
    let f = path_key_chars(folder);
    if f.len() == 0 {
        return false;
    }
    if chars_equal(&p, &f) {
        return true;
    }
    let below = p.len() > f.len() && chars_occur_at(&p, &f, 0) && p[f.len()] == '/';
    proof {
        if p@.len() > f@.len() {
            assert(occurs_at(p@, f@, 0) == (p@.subrange(0, f@.len() as int) == f@));
        }
    }
    below
}

/// The first position at or after `from` where `f` occurs in `p`.
pub open spec fn first_occurrence_from(p: Seq<char>, f: Seq<char>, from: int) -> Option<int>
    decreases p.len() + 1 - from,
{
    if from < 0 || from + f.len() > p.len() {
        None
    } else if occurs_at(p, f, from) {
        Some(from)
    } else {
        first_occurrence_from(p, f, from + 1)
    }
}

/// An occurrence of `f` at `start` is bounded by `/` (or the ends of `p`) on
/// both sides.
pub open spec fn occurrence_at_boundaries(p: Seq<char>, f: Seq<char>, start: int) -> bool {
    let end = start + f.len();
    (start == 0 || p[start - 1] == '/') && (end == p.len() || p[end] == '/')
}

/// Scans the occurrences of `f` in `p` from `from` on, each search resuming
/// after the end of the previous occurrence, and reports whether one of the
/// visited occurrences is bounded by separators.
pub open spec fn relative_folder_search(p: Seq<char>, f: Seq<char>, from: int) -> bool
    recommends
        f.len() > 0,
    decreases p.len() - from,
    when f.len() > 0
{
    match first_occurrence_from(p, f, from) {
        None => false,
        Some(start) => {
            if start < from || start + f.len() > p.len() {
                false
            } else if occurrence_at_boundaries(p, f, start) {
                true
            } else {
                relative_folder_search(p, f, start + f.len())
            }
        },
    }
}

pub proof fn lemma_first_occurrence_bounds(p: Seq<char>, f: Seq<char>, from: int)
    requires
        from >= 0,
    ensures
        first_occurrence_from(p, f, from) matches Some(s) ==> from <= s && occurs_at(p, f, s),
        first_occurrence_from(p, f, from) is None ==> forall|s: int| from <= s ==> !occurs_at(p, f, s),
    decreases p.len() + 1 - from,
{
    if from < 0 || from + f.len() > p.len() {
    } else if occurs_at(p, f, from) {
    } else {
        lemma_first_occurrence_bounds(p, f, from + 1);
        assert forall|s: int| from <= s && first_occurrence_from(p, f, from + 1) is None implies !occurs_at(p, f, s) by {
            if s == from {
            }
        }
    }
}

/// Finds the first occurrence of `f` in `p` at or after `from`.
pub fn find_chars_from(p: &Vec<char>, f: &Vec<char>, from: usize) -> (found: Option<usize>)
    ensures
        found matches Some(s) ==> first_occurrence_from(p@, f@, from as int) == Some(s as int),
        found is None ==> first_occurrence_from(p@, f@, from as int) is None,
{
    if from > p.len() {
        return None;
    }
    if f.len() == 0 {
        assert(p@.subrange(from as int, from as int) =~= f@);
        return Some(from);
    }
    let mut i = from;
    while f.len() <= p.len() - i
        invariant
            from <= i <= p.len(),
            f.len() > 0,
            first_occurrence_from(p@, f@, from as int) == first_occurrence_from(p@, f@, i as int),
        decreases p.len() - i,
    {
        if chars_occur_at(p, f, i) {
            return Some(i);
        }
        i = i + 1;
    }
    None
}

/// Whether `folder` appears in `path` as a whole run of components, scanning
/// occurrences left to right (see `relative_folder_search`).
pub fn path_contains_relative_folder_key(path: &str, folder: &str) -> (contains: bool)
    requires
        folder@.len() > 0,
    ensures
        contains == relative_folder_search(path@, folder@, 0),
{
    let p = str_chars(path);
    let f = str_chars(folder);
    let mut search_from: usize = 0;
    while search_from <= p.len()
        invariant
            p@ == path@,
            f@ == folder@,
            f@.len() > 0,
            relative_folder_search(path@, folder@, 0) == relative_folder_search(path@, folder@, search_from as int),
        decreases p.len() + 1 - search_from,
    {
        match find_chars_from(&p, &f, search_from) {
            None => {
                return false;
            },
            Some(start) => {
                proof {
                    lemma_first_occurrence_bounds(p@, f@, search_from as int);
                }
                let end = start + f.len();
                let starts_at_boundary = start == 0 || p[start - 1] == '/';
                let ends_at_boundary = end == p.len() || p[end] == '/';
                if starts_at_boundary && ends_at_boundary {
                    return true;
                }
                search_from = end;
            },
        }
    }
    proof {
        assert(first_occurrence_from(path@, folder@, search_from as int) is None);
    }
    false
}

/// `path_contains_relative_folder_key` over the keys of both paths; an empty
/// folder key never matches.
pub fn path_contains_relative_folder(path: &str, folder: &str) -> (contains: bool)
    ensures
        contains == (path_key(folder@).len() > 0 && relative_folder_search(path_key(path@), path_key(folder@), 0)),
{
    let p = normalized_path_key(path);
    let f = normalized_path_key(folder);
    if f.unicode_len() == 0 {
        return false;
    }
    path_contains_relative_folder_key(p.as_str(), f.as_str())
}

/// Two workspace paths name the same folder (keys are equal).
pub fn trusted_workspace_paths_match(left: &str, right: &str) -> (matched: bool)
    ensures
        matched == paths_match_spec(left@, right@),
{
    paths_match(left, right)
}

/// `path` lies in `root` (or is `root`), judged lexically by keys.
pub fn workspace_path_contains_lexically(root: &str, path: &str) -> (contains: bool)
    ensures
        contains == path_is_or_inside_spec(path@, root@),
{
    path_is_or_inside(path, root)
}

/// Containment is by whole components: a path inside a folder, and not the
/// folder itself, continues the folder's key with a `/`. A sibling whose key
/// merely starts with the folder's characters (`/home/u/ws-old` next to
/// `/home/u/ws`) is not inside it, and a folder is inside itself.
pub proof fn lemma_inside_means_whole_components(path: Seq<char>, folder: Seq<char>)
    ensures
        path_is_or_inside_spec(path, folder) && path_key(path) != path_key(folder) ==> {
            &&& path_key(path).len() > path_key(folder).len()
            &&& path_key(path).subrange(0, path_key(folder).len() as int) == path_key(folder)
            &&& path_key(path)[path_key(folder).len() as int] == '/'
        },
        path_key(path).len() > path_key(folder).len() && path_key(folder).len() > 0
            && path_key(path).subrange(0, path_key(folder).len() as int) == path_key(folder)
            && path_key(path)[path_key(folder).len() as int] != '/'
            ==> !path_is_or_inside_spec(path, folder),
        path_key(folder).len() > 0 ==> path_is_or_inside_spec(folder, folder),
{
}

} // verus!
