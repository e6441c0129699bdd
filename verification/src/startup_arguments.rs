//! What the editor opens at startup: the first non-empty command-line
//! argument, as a folder when it names a directory and as a file otherwise.
use vstd::prelude::*;
use crate::session_save::{opt_view, strs_view};

verus! {

/// What to open at startup.
#[derive(Debug, Clone, PartialEq, Eq)]
pub enum StartupTarget {
    File(String),
    Folder(String),
}

/// The first non-empty argument.
pub open spec fn first_non_empty(arguments: Seq<Seq<char>>) -> Option<Seq<char>>
    decreases arguments.len(),
{
    if arguments.len() == 0 {
        None
    } else if arguments[0].len() > 0 {
        Some(arguments[0])
    } else {
        first_non_empty(arguments.drop_first())
    }
}

/// The target as a kind (`true` for a folder) and its path.
pub open spec fn target_view(target: StartupTarget) -> (bool, Seq<char>) {
    match target {
        StartupTarget::File(p) => (false, p@),
        StartupTarget::Folder(p) => (true, p@),
    }
}

/// The path to open: the first argument that is not empty, if any.
pub fn startup_file_from_arguments(arguments: Vec<String>) -> (path: Option<String>)
    ensures
        opt_view(path) == first_non_empty(strs_view(arguments@)),
{
    let ghost all = strs_view(arguments@);
    let mut i: usize = 0;
    assert(all.subrange(0, all.len() as int) =~= all);
    while i < arguments.len()
        invariant
            i <= arguments.len(),
            all == strs_view(arguments@),
            first_non_empty(all) == first_non_empty(all.subrange(i as int, all.len() as int)),
        decreases arguments.len() - i,
    {
        assert(all.subrange(i as int, all.len() as int).drop_first()
            =~= all.subrange(i + 1, all.len() as int));
        if arguments[i].as_str().unicode_len() > 0 {
            let mut arguments = arguments;
            return Some(arguments.swap_remove(i));
        }
        i = i + 1;
    }
    assert(all.subrange(i as int, all.len() as int) =~= Seq::<Seq<char>>::empty());
    None
}

/// The target for a startup path: a folder when the path names a directory,
/// a file otherwise (missing paths included).
pub fn startup_target_for_path(path: String, path_is_dir: bool) -> (target: StartupTarget)
    ensures
        target_view(target) == (path_is_dir, path@),
{
    if path_is_dir {
        StartupTarget::Folder(path)
    } else {
        StartupTarget::File(path)
    }
}

} // verus!
