//! What a search of the images root looks for, and how it can fail.
//!
//! Walking the directory tree is left to the caller; this module says which
//! pattern to walk with, and under which rules a name matches it.

use crate::paths::{is_below, join_path, joined_path, stays_below};
use vstd::prelude::*;

verus! {

/// What every search is narrowed to: files below the searched directory, at
/// any depth, whose name ends in `.jpg`.
pub const IMAGE_FILES: &'static str = "**/*.jpg";

/// The rules under which a path matches a pattern.
#[derive(Clone, Copy, Debug, PartialEq, Eq, Structural)]
pub struct MatchRules {
    /// Whether upper and lower case letters are told apart.
    pub case_sensitive: bool,
    /// Whether a path separator is matched only by a separator written in
    /// the pattern, and not by a wildcard.
    pub require_literal_separator: bool,
    /// Whether a leading dot of a name is matched only by a dot written in
    /// the pattern, and not by a wildcard.
    pub require_literal_leading_dot: bool,
}

/// Why a search of the images root came back without a list of files.
#[derive(Clone, Copy, Debug, PartialEq, Eq, Structural)]
pub enum ScanError {
    /// The pattern leads out of the images root.
    OutsideRoot,
    /// The pattern could not be read as a glob pattern.
    BadPattern,
    /// A directory or file on the way could not be read.
    Unreadable,
    /// A file was found, but its creation time could not be read.
    NoTimestamp,
}

/// What a search learned of one path that matched the pattern.
#[derive(Clone, Debug)]
pub enum Entry<T> {
    /// The path names a file, described by the value.
    File(T),
    /// The path names something else, such as a directory.
    NotAFile,
    /// The path could not be examined.
    Failed(ScanError),
}

/// The rules of every search: `A.JPG` matches `*.jpg`, and wildcards match
/// separators and leading dots.
pub fn match_rules() -> (rules: MatchRules)
    ensures
        rules == (MatchRules {
            case_sensitive: false,
            require_literal_separator: false,
            require_literal_leading_dot: false,
        }),
{
    MatchRules {
        case_sensitive: false,
        require_literal_separator: false,
        require_literal_leading_dot: false,
    }
}

/// The pattern that a search for `glob` below `root` walks.
pub open spec fn pattern_text(root: Seq<char>, glob: Seq<char>) -> Seq<char> {
    joined_path(joined_path(root, glob), IMAGE_FILES@)
}

/// Whether `pattern` is what a search for `glob` below `root` starts from:
/// the pattern to walk, or `ScanError::OutsideRoot` for a `glob` that does
/// not stay below the root.
pub open spec fn is_search_pattern(
    root: Seq<char>,
    glob: Seq<char>,
    pattern: Result<String, ScanError>,
) -> bool {
    match pattern {
        Ok(text) => stays_below(glob) && text@ == pattern_text(root, glob),
        Err(error) => !stays_below(glob) && error == ScanError::OutsideRoot,
    }
}

/// The pattern to expand for the images that `glob` selects below `root`:
/// `glob` joined to `root`, and `IMAGE_FILES` joined to that. A `glob` that
/// is absolute or climbs with `..` would search outside the root, and is
/// refused with `ScanError::OutsideRoot`.
pub fn search_pattern(root: &str, glob: &str) -> (pattern: Result<String, ScanError>)
    ensures
        is_search_pattern(root@, glob@, pattern),
{
    if !is_below(glob) {
        return Err(ScanError::OutsideRoot);
    }
    let directory = join_path(root, glob);
    Ok(join_path(directory.as_str(), IMAGE_FILES))
}

/// The files among `entries`, in their order.
pub open spec fn files_of<T>(entries: Seq<Entry<T>>) -> Seq<T>
    decreases entries.len(),
{
    if entries.len() == 0 {
        Seq::empty()
    } else {
        let front = files_of(entries.drop_last());
        match entries.last() {
            Entry::File(file) => front.push(file),
            _ => front,
        }
    }
}

/// `i` is the position of the first entry of `entries` that failed.
pub open spec fn first_failure<T>(entries: Seq<Entry<T>>, i: int) -> bool {
    &&& 0 <= i < entries.len()
    &&& entries[i] is Failed
    &&& forall|j: int| 0 <= j < i ==> !((#[trigger] entries[j]) is Failed)
}

/// The outcome of a search from what it learned of each matching path: the
/// files in the order they were found, leaving out what is no file. A single
/// path that could not be examined fails the whole search, with the error of
/// the first such path.
pub fn gather<T>(entries: Vec<Entry<T>>) -> (scan: Result<Vec<T>, ScanError>)
    ensures
        match scan {
            Ok(files) => files@ == files_of(entries@) && forall|i: int|
                0 <= i < entries@.len() ==> !((#[trigger] entries@[i]) is Failed),
            Err(error) => exists|i: int|
                first_failure(entries@, i) && (#[trigger] entries@[i]) == Entry::<T>::Failed(error),
        },
{
    let ghost all = entries@;
    let mut files: Vec<T> = Vec::new();
    for entry in it: entries
        invariant
            it.seq() == all,
            files@ == files_of(all.take(it.index())),
            forall|j: int| 0 <= j < it.index() ==> !((#[trigger] all[j]) is Failed),
    {
        proof {
            assert(all.take(it.index() + 1).drop_last() =~= all.take(it.index()));
        }
        match entry {
            Entry::File(file) => {
                files.push(file);
            },
            Entry::NotAFile => {},
            Entry::Failed(error) => {
                assert(first_failure(all, it.index()));
                return Err(error);
            },
        }
    }
    assert(all.take(all.len() as int) =~= all);
    Ok(files)
}

} // verus!
