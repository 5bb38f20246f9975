//! Paths as text: joining them, and finding the place of a file below the
//! images root.
//!
//! Joining and comparing paths is the work of `std::path` and of the
//! `pathdiff` crate. Their results are given names here, so that the
//! contracts of this crate can say which call produced which text.

use vstd::prelude::*;
use vstd::std_specs::iter::IteratorSpec;
use vstd::string::*;

verus! {

/// The route under which the files of the images root are served.
pub const IMAGES_ROUTE: &'static str = "/images/";

/// The text of the path that `std::path::Path::join` builds from `base` and
/// `part`, by the path syntax of the platform the crate is built for.
pub uninterp spec fn joined_path(base: Seq<char>, part: Seq<char>) -> Seq<char>;

/// The path that `pathdiff::diff_paths` finds to lead from `base` to `path`,
/// as text, or `None` where it finds none.
pub uninterp spec fn relative_path(path: Seq<char>, base: Seq<char>) -> Option<Seq<char>>;

/// Calls `std::path::Path::join` on `base` with `part` and hands the joined
/// path back as text. Trusted: the result is `joined_path` of the two texts,
/// which says no more than that equal arguments give equal results.
#[verifier::external_body]
pub(crate) fn join_path(base: &str, part: &str) -> (joined: String)
    ensures
        joined@ == joined_path(base@, part@),
{
    std::path::Path::new(base).join(part).to_string_lossy().into_owned()
}

/// Calls `pathdiff::diff_paths` with `path` and `base` and hands the path it
/// returns back as text. Trusted: the result is `relative_path` of the two
/// texts, `None` exactly where `diff_paths` returns `None`.
#[verifier::external_body]
pub(crate) fn diff_paths(path: &str, base: &str) -> (found: Option<String>)
    ensures
        match found {
            Some(rel) => relative_path(path@, base@) == Some(rel@),
            None => relative_path(path@, base@) is None,
        },
{
    match pathdiff::diff_paths(path, base) {
        Some(rel) => Some(rel.to_string_lossy().into_owned()),
        None => None,
    }
}

/// A segment that names the parent directory starts at `start` in `path`:
/// the two characters `..`, with a `/` or an end of the text on either side.
pub open spec fn is_parent_segment(path: Seq<char>, start: int) -> bool {
    &&& 0 <= start
    &&& start + 2 <= path.len()
    &&& start == 0 || path[start - 1] == '/'
    &&& path[start] == '.'
    &&& path[start + 1] == '.'
    &&& start + 2 == path.len() || path[start + 2] == '/'
}

/// Whether the relative path `path` stays below the directory it starts
/// from: it does not begin with `/`, and none of its segments, which `/`
/// divides, is `..`.
pub open spec fn stays_below(path: Seq<char>) -> bool {
    &&& path.len() > 0 ==> path[0] != '/'
    &&& forall|start: int| 0 <= start < path.len() ==> !is_parent_segment(path, start)
}

/// Whether the relative path `path` stays below the directory it starts
/// from.
pub fn is_below(path: &str) -> (ok: bool)
    ensures
        ok == stays_below(path@),
{
    // The current segment starts at `from`; `len` counts its characters up
    // to three, and `dots` says whether all of them are dots.
    let ghost mut from: int = 0;
    let mut len: u8 = 0;
    let mut dots: bool = true;
    let mut first: bool = true;
    let mut chars = path.chars();
    let ghost mut n: int = 0;
    loop
        invariant
            0 <= from <= n <= path@.len(),
            chars.remaining() == path@.skip(n),
            chars.obeys_prophetic_iter_laws(),
            chars.decrease() is Some,
            first == (n == 0),
            n > 0 ==> path@[0] != '/',
            from == 0 || path@[from - 1] == '/',
            forall|j: int| from <= j < n ==> path@[j] != '/',
            forall|start: int| 0 <= start < from ==> !is_parent_segment(path@, start),
            len == if n - from < 3 { n - from } else { 3 },
            dots == forall|j: int| from <= j < n ==> path@[j] == '.',
        decreases chars.decrease()->0,
    {
        match chars.next() {
            Some(c) => {
                assert(c == path@[n]);
                assert(chars.remaining() == path@.skip(n + 1));
                if c == '/' {
                    if first {
                        return false;
                    }
                    if len == 2 && dots {
                        assert(is_parent_segment(path@, from));
                        return false;
                    }
                    assert(!is_parent_segment(path@, from));
                    proof {
                        from = n + 1;
                    }
                    len = 0;
                    dots = true;
                } else {
                    if len < 3 {
                        len = len + 1;
                    }
                    dots = dots && c == '.';
                }
                first = false;
                proof {
                    n = n + 1;
                }
            },
            None => {
                assert(n == path@.len());
                if len == 2 && dots {
                    assert(is_parent_segment(path@, from));
                    return false;
                }
                assert(!is_parent_segment(path@, from));
                return true;
            },
        }
    }
}

/// The address a client is sent to for the file at `relative`, a path below
/// the images root.
pub open spec fn location_text(relative: Seq<char>) -> Seq<char> {
    IMAGES_ROUTE@ + relative
}

/// The address under which the file at `relative`, a path below the images
/// root, is served.
pub fn location_for(relative: &str) -> (location: String)
    ensures
        location@ == location_text(relative@),
{
    String::from_str(IMAGES_ROUTE).concat(relative)
}

} // verus!
