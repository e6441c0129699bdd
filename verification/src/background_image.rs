//! Choosing the editor background image: which files count as supported
//! raster images, where the file dialog starts, and the status shown when the
//! chooser fails.
use vstd::prelude::*;
use vstd::string::*;
use crate::labels::{display_error_label, label_spec, DISPLAY_ERROR_LABEL_MAX_CHARS};
use crate::settings_search::ascii_lower_char;
use crate::settings_text::{trim_spec, trim_string_in_place};
use crate::text::{push_text, str_chars, string_from_chars};

verus! {

/// Extensions of the raster images the background can show.
pub open spec fn supported_extension_spec(i: int) -> Seq<char> {
    if i == 0 { "png"@ } else if i == 1 { "jpg"@ } else if i == 2 { "jpeg"@ } else if i == 3 { "gif"@ }
    else if i == 4 { "bmp"@ } else { "webp"@ }
}

/// Number of supported extensions.
pub const SUPPORTED_RASTER_IMAGE_EXTENSION_COUNT: usize = 6;

/// The supported extension number `i`.
pub fn supported_raster_image_extension(i: usize) -> (ext: &'static str)
    requires
        i < SUPPORTED_RASTER_IMAGE_EXTENSION_COUNT,
    ensures
        ext@ == supported_extension_spec(i as int),
{
    if i == 0 { "png" } else if i == 1 { "jpg" } else if i == 2 { "jpeg" } else if i == 3 { "gif" }
    else if i == 4 { "bmp" } else { "webp" }
}

/// `a` and `b` are equal when ASCII letters are compared without case.
pub open spec fn eq_ignore_ascii_case_spec(a: Seq<char>, b: Seq<char>) -> bool {
    a.len() == b.len() && forall|i: int| 0 <= i < a.len() ==> #[trigger] ascii_lower_char(a[i]) == ascii_lower_char(b[i])
}

/// The last `/`-separated part of `p` (after any trailing separators).
pub open spec fn file_name_spec(p: Seq<char>) -> Seq<char>
    decreases p.len(),
{
    if p.len() == 0 {
        p
    } else if p.last() == '/' {
        let rest = file_name_spec(p.drop_last());
        rest
    } else {
        name_tail(p)
    }
}

/// The characters after the last `/` of `p`.
pub open spec fn name_tail(p: Seq<char>) -> Seq<char>
    decreases p.len(),
{
    if p.len() == 0 {
        p
    } else if p.last() == '/' {
        Seq::<char>::empty()
    } else {
        name_tail(p.drop_last()).push(p.last())
    }
}

/// Position of the last `.` in `name`, if any.
pub open spec fn last_dot(name: Seq<char>) -> Option<int>
    decreases name.len(),
{
    if name.len() == 0 {
        None
    } else if name.last() == '.' {
        Some(name.len() - 1)
    } else {
        last_dot(name.drop_last())
    }
}

/// The extension of a path (`Path::extension`): what follows the last `.`
/// of the file name, unless the name is `..`, has no `.`, or its only `.`
/// starts it.
pub open spec fn extension_spec(p: Seq<char>) -> Option<Seq<char>> {
    let name = file_name_spec(p);
    if name == seq!['.', '.'] {
        None
    } else {
        match last_dot(name) {
            Some(d) => if d == 0 { None } else { Some(name.subrange(d + 1, name.len() as int)) },
            None => None,
        }
    }
}

/// A path names a supported raster image when its extension matches one
/// of the supported extensions, ignoring ASCII case.
pub open spec fn supported_image_spec(p: Seq<char>) -> bool {
    extension_spec(p) is Some && supported_extension(extension_spec(p).unwrap())
}

/// `ext` is one of the supported extensions, ignoring ASCII case.
pub open spec fn supported_extension(ext: Seq<char>) -> bool {
    exists|i: int| 0 <= i < SUPPORTED_RASTER_IMAGE_EXTENSION_COUNT
        && #[trigger] eq_ignore_ascii_case_spec(ext, supported_extension_spec(i))
}

/// The file name of `p` (see `file_name_spec`).
pub fn file_name_chars(p: &Vec<char>) -> (name: Vec<char>)
    ensures
        name@ == file_name_spec(p@),
{
    let mut end = p.len();
    assert(p@.subrange(0, end as int) =~= p@);
    while end > 0 && p[end - 1] == '/'
        invariant
            end <= p@.len(),
            file_name_spec(p@) == file_name_spec(p@.subrange(0, end as int)),
        decreases end,
    {
        assert(p@.subrange(0, end as int).drop_last() =~= p@.subrange(0, end - 1));
        end = end - 1;
    }
    let mut start = end;
    while start > 0 && p[start - 1] != '/'
        invariant
            start <= end <= p@.len(),
            name_tail(p@.subrange(0, end as int)) == name_tail(p@.subrange(0, start as int)) + p@.subrange(start as int, end as int),
        decreases start,
    {
        assert(p@.subrange(0, start as int).drop_last() =~= p@.subrange(0, start - 1));
        assert(p@.subrange(start - 1, end as int) =~= seq![p@[start - 1]] + p@.subrange(start as int, end as int));
        assert(name_tail(p@.subrange(0, start as int)) =~= name_tail(p@.subrange(0, start - 1)).push(p@[start - 1]));
        start = start - 1;
    }
    assert(name_tail(p@.subrange(0, start as int)) =~= Seq::<char>::empty()) by {
        if start > 0 {
            assert(p@.subrange(0, start as int).last() == '/');
        }
    }
    let mut name: Vec<char> = Vec::new();
    let mut i = start;
    while i < end
        invariant
            start <= i <= end <= p@.len(),
            name@ == p@.subrange(start as int, i as int),
        decreases end - i,
    {
        name.push(p[i]);
        i = i + 1;
        assert(name@ =~= p@.subrange(start as int, i as int));
    }
    proof {
        if end > 0 {
            assert(p@.subrange(0, end as int).last() != '/');
            assert(file_name_spec(p@.subrange(0, end as int)) == name_tail(p@.subrange(0, end as int)));
        } else {
            assert(p@.subrange(0, 0) =~= Seq::<char>::empty());
        }
        assert(name@ =~= name_tail(p@.subrange(0, end as int)));
    }
    name
}

/// The extension of `path` (see `extension_spec`).
pub fn path_extension(path: &str) -> (ext: Option<Vec<char>>)
    ensures
        match ext {
            Some(e) => extension_spec(path@) == Some(e@),
            None => extension_spec(path@) is None,
        },
{
    let chars = str_chars(path);
    let name = file_name_chars(&chars);
    if name.len() == 2 && name[0] == '.' && name[1] == '.' {
        assert(name@ =~= seq!['.', '.']);
        return None;
    }
    proof {
        if name@ == seq!['.', '.'] {
            assert(name@[0] == '.' && name@[1] == '.');
        }
    }
    let mut d = name.len();
    assert(name@.subrange(0, d as int) =~= name@);
    while d > 0 && name[d - 1] != '.'
        invariant
            d <= name@.len(),
            last_dot(name@) == last_dot(name@.subrange(0, d as int)),
        decreases d,
    {
        assert(name@.subrange(0, d as int).drop_last() =~= name@.subrange(0, d - 1));
        d = d - 1;
    }
    if d == 0 {
        assert(name@.subrange(0, 0) =~= Seq::<char>::empty());
        return None;
    }
    assert(last_dot(name@.subrange(0, d as int)) == Some(d - 1));
    if d == 1 {
        return None;
    }
    let mut ext: Vec<char> = Vec::new();
    let mut i = d;
    while i < name.len()
        invariant
            d <= i <= name@.len(),
            ext@ == name@.subrange(d as int, i as int),
        decreases name.len() - i,
    {
        ext.push(name[i]);
        i = i + 1;
        assert(ext@ =~= name@.subrange(d as int, i as int));
    }
    Some(ext)
}

/// ASCII lower case of one character.
pub fn ascii_lower(c: char) -> (lower: char)
    ensures
        lower == ascii_lower_char(c),
{
    if 'A' <= c && c <= 'Z' {
        ((c as u8) + 32) as char
    } else {
        c
    }
}

/// Whether `a` equals `b` ignoring ASCII case.
pub fn eq_ignore_ascii_case(a: &Vec<char>, b: &str) -> (eq: bool)
    ensures
        eq == eq_ignore_ascii_case_spec(a@, b@),
{
    let bc = str_chars(b);
    if a.len() != bc.len() {
        return false;
    }
    let mut i: usize = 0;
    while i < a.len()
        invariant
            i <= a@.len(),
            a@.len() == bc@.len(),
            bc@ == b@,
            forall|j: int| 0 <= j < i ==> #[trigger] ascii_lower_char(a@[j]) == ascii_lower_char(b@[j]),
        decreases a.len() - i,
    {
        if ascii_lower(a[i]) != ascii_lower(bc[i]) {
            return false;
        }
        i = i + 1;
    }
    true
}

/// Whether `path` names a supported raster image (see
/// `supported_image_spec`).
pub fn is_supported_background_image_path(path: &str) -> (supported: bool)
    ensures
        supported == supported_image_spec(path@),
{
    let ext = match path_extension(path) {
        Some(ext) => ext,
        None => return false,
    };
    let mut i: usize = 0;
    while i < SUPPORTED_RASTER_IMAGE_EXTENSION_COUNT
        invariant
            i <= SUPPORTED_RASTER_IMAGE_EXTENSION_COUNT,
            extension_spec(path@) == Some(ext@),
            forall|j: int| 0 <= j < i ==> !#[trigger] eq_ignore_ascii_case_spec(ext@, supported_extension_spec(j)),
        decreases SUPPORTED_RASTER_IMAGE_EXTENSION_COUNT - i,
    {
        let candidate = supported_raster_image_extension(i);
        if eq_ignore_ascii_case(&ext, candidate) {
            assert(eq_ignore_ascii_case_spec(ext@, supported_extension_spec(i as int)));
            return true;
        }
        i = i + 1;
    }
    false
}

/// The status shown when the background image chooser fails.
pub fn background_image_chooser_failure_status(error: &str) -> (status: String)
    ensures
        status@ == "Could not open editor background image chooser: "@
            + label_spec(error@, DISPLAY_ERROR_LABEL_MAX_CHARS as nat, "unknown error"@),
{
    let mut status = String::new();
    push_text(&mut status, "Could not open editor background image chooser: ");
    let label = display_error_label(error);
    push_text(&mut status, label.as_str());
    status
}

/// A setting path typed by the user: trimmed, `None` when blank.
pub fn optional_setting_path_from_input(input: &str) -> (path: Option<String>)
    ensures
        match path {
            Some(p) => p@ == trim_spec(input@) && trim_spec(input@).len() > 0,
            None => trim_spec(input@).len() == 0,
        },
{
    let mut trimmed = input.to_owned();
    trim_string_in_place(&mut trimmed);
    if trimmed.unicode_len() == 0 {
        None
    } else {
        Some(trimmed)
    }
}

/// The parent of `p` (`Path::parent` on `/`-separated text): `p` without its
/// last part and the separators before it; the root and the empty path have
/// none, a single relative part has the empty parent.
pub open spec fn parent_spec(p: Seq<char>) -> Option<Seq<char>> {
    let t = trim_trailing_slashes(p);
    if t.len() == 0 {
        None
    } else {
        let head = t.subrange(0, t.len() - name_tail(t).len());
        let stripped = trim_trailing_slashes(head);
        if stripped.len() == 0 && head.len() > 0 {
            Some(seq!['/'])
        } else {
            Some(stripped)
        }
    }
}

/// `p` without trailing `/`.
pub open spec fn trim_trailing_slashes(p: Seq<char>) -> Seq<char>
    decreases p.len(),
{
    if p.len() > 0 && p.last() == '/' {
        trim_trailing_slashes(p.drop_last())
    } else {
        p
    }
}

/// `name_tail` is a suffix of its argument.
pub proof fn lemma_name_tail_suffix(p: Seq<char>)
    ensures
        name_tail(p).len() <= p.len(),
        name_tail(p) == p.subrange(p.len() - name_tail(p).len(), p.len() as int),
        name_tail(p).len() < p.len() ==> p[p.len() - name_tail(p).len() - 1] == '/',
        forall|i: int| 0 <= i < name_tail(p).len() ==> #[trigger] name_tail(p)[i] != '/',
    decreases p.len(),
{
    if p.len() > 0 && p.last() != '/' {
        lemma_name_tail_suffix(p.drop_last());
        assert(name_tail(p) =~= p.subrange(p.len() - name_tail(p).len(), p.len() as int));
    }
}

/// `p` without trailing separators, as a character vector.
pub fn trim_trailing_slash_chars(p: &Vec<char>, len: usize) -> (end: usize)
    requires
        len <= p@.len(),
    ensures
        end <= len,
        p@.subrange(0, end as int) == trim_trailing_slashes(p@.subrange(0, len as int)),
{
    let mut end = len;
    while end > 0 && p[end - 1] == '/'
        invariant
            end <= len <= p@.len(),
            trim_trailing_slashes(p@.subrange(0, len as int)) == trim_trailing_slashes(p@.subrange(0, end as int)),
        decreases end,
    {
        assert(p@.subrange(0, end as int).drop_last() =~= p@.subrange(0, end - 1));
        end = end - 1;
    }
    proof {
        if end > 0 {
            assert(p@.subrange(0, end as int).last() != '/');
        } else {
            assert(p@.subrange(0, 0) =~= Seq::<char>::empty());
        }
    }
    end
}

/// The parent of `path` (see `parent_spec`).
pub fn path_parent(path: &str) -> (parent: Option<String>)
    ensures
        match parent {
            Some(p) => parent_spec(path@) == Some(p@),
            None => parent_spec(path@) is None,
        },
{
    let chars = str_chars(path);
    let t_end = trim_trailing_slash_chars(&chars, chars.len());
    assert(chars@.subrange(0, chars@.len() as int) =~= chars@);
    let ghost t = chars@.subrange(0, t_end as int);
    if t_end == 0 {
        return None;
    }
    let mut start = t_end;
    while start > 0 && chars[start - 1] != '/'
        invariant
            start <= t_end <= chars@.len(),
            t == chars@.subrange(0, t_end as int),
            name_tail(t) == name_tail(chars@.subrange(0, start as int)) + chars@.subrange(start as int, t_end as int),
        decreases start,
    {
        assert(chars@.subrange(0, start as int).drop_last() =~= chars@.subrange(0, start - 1));
        assert(chars@.subrange(start - 1, t_end as int) =~= seq![chars@[start - 1]] + chars@.subrange(start as int, t_end as int));
        assert(name_tail(chars@.subrange(0, start as int)) =~= name_tail(chars@.subrange(0, start - 1)).push(chars@[start - 1]));
        start = start - 1;
    }
    assert(name_tail(chars@.subrange(0, start as int)) =~= Seq::<char>::empty()) by {
        if start > 0 {
            assert(chars@.subrange(0, start as int).last() == '/');
        }
    }
    assert(name_tail(t).len() == t_end - start);
    assert(t.subrange(0, t.len() - name_tail(t).len()) =~= chars@.subrange(0, start as int));
    let h_end = trim_trailing_slash_chars(&chars, start);
    if h_end == 0 && start > 0 {
        let mut root = String::new();
        push_text(&mut root, "/");
        proof {
            reveal_strlit("/");
        }
        assert(root@ =~= seq!['/']);
        return Some(root);
    }
    let mut head: Vec<char> = Vec::new();
    let mut i: usize = 0;
    while i < h_end
        invariant
            i <= h_end <= chars@.len(),
            head@ == chars@.subrange(0, i as int),
        decreases h_end - i,
    {
        head.push(chars[i]);
        i = i + 1;
        assert(head@ =~= chars@.subrange(0, i as int));
    }
    Some(string_from_chars(&head))
}

/// Where the background image dialog opens: the configured image's folder
/// (the image path itself when `current_is_dir` says it is a folder), or
/// the workspace root when no image is configured or it has no parent.
pub fn background_image_dialog_initial_dir(workspace_root: &str, current: Option<&str>, current_is_dir: bool) -> (dir: String)
    ensures
        ({
            let configured = match current {
                Some(c) => if trim_spec(c@).len() > 0 { Some(trim_spec(c@)) } else { None },
                None => None,
            };
            dir@ == match configured {
                None => workspace_root@,
                Some(c) => if current_is_dir {
                    c
                } else {
                    match parent_spec(c) {
                        Some(p) => p,
                        None => workspace_root@,
                    }
                },
            }
        }),
{
    let configured = match current {
        Some(c) => optional_setting_path_from_input(c),
        None => None,
    };
    let current_path = match configured {
        Some(p) => p,
        None => return workspace_root.to_owned(),
    };
    if current_is_dir {
        return current_path;
    }
    match path_parent(current_path.as_str()) {
        Some(parent) => parent,
        None => workspace_root.to_owned(),
    }
}

/// What a chosen background image path is accepted as: `path` is the
/// chosen path made absolute and resolved, `path_is_file` whether it names a
/// file. It must be a file with a supported image extension, and is kept as
/// a setting path (trimmed, not blank).
pub open spec fn validated_background_image_spec(path: Seq<char>, path_is_file: bool) -> Result<Seq<char>, Seq<char>> {
    if !path_is_file {
        Err("Selected background image is not a file"@)
    } else if !supported_image_spec(path) {
        Err("Selected file is not a supported raster image"@)
    } else if trim_spec(path).len() == 0 {
        Err("Selected background image path contains unsupported characters"@)
    } else {
        Ok(trim_spec(path))
    }
}

/// Checks a chosen background image (see `validated_background_image_spec`).
pub fn validated_selected_background_image_path(path: &str, path_is_file: bool) -> (validated: Result<String, String>)
    ensures
        match validated {
            Ok(p) => validated_background_image_spec(path@, path_is_file) == Ok::<Seq<char>, Seq<char>>(p@),
            Err(e) => validated_background_image_spec(path@, path_is_file) == Err::<Seq<char>, Seq<char>>(e@),
        },
{
    if !path_is_file {
        return Err(String::from_str("Selected background image is not a file"));
    }
    if !is_supported_background_image_path(path) {
        return Err(String::from_str("Selected file is not a supported raster image"));
    }
    match optional_setting_path_from_input(path) {
        Some(p) => Ok(p),
        None => Err(String::from_str("Selected background image path contains unsupported characters")),
    }
}

} // verus!
