//! What the service answers to a request for an image.

use crate::paths::{
    diff_paths, is_below, location_for, location_text, relative_path, stays_below,
};
use crate::search::ScanError;
use crate::select::{
    first_newest, lemma_first_newest_exists, lemma_first_newest_unique, pick_newest, pick_random,
    Candidate,
};
use vstd::prelude::*;
use vstd::string::*;

verus! {

/// The text sent along with `Reply::NotFound`.
pub const NOT_FOUND_TEXT: &'static str = "No image found";

/// The text sent along with `Reply::Failure`.
pub const FAILURE_TEXT: &'static str = "Image lookup failed";

/// An answer to a request for an image.
#[derive(Clone, Debug)]
pub enum Reply {
    /// Send the client on to `location`, for this request only.
    Redirect { location: String },
    /// No file matched.
    NotFound,
    /// The search failed, or the chosen file does not lie below the root.
    Failure,
}

/// A `Reply` as plain data.
pub enum ReplyView {
    Redirect { location: Seq<char> },
    NotFound,
    Failure,
}

impl View for Reply {
    type V = ReplyView;

    open spec fn view(&self) -> ReplyView {
        match self {
            Reply::Redirect { location } => ReplyView::Redirect { location: location@ },
            Reply::NotFound => ReplyView::NotFound,
            Reply::Failure => ReplyView::Failure,
        }
    }
}

impl ReplyView {
    /// The HTTP status of the answer.
    pub open spec fn status(self) -> int {
        match self {
            ReplyView::Redirect { .. } => 307,
            ReplyView::NotFound => 404,
            ReplyView::Failure => 500,
        }
    }

    /// The text in the body of the answer.
    pub open spec fn body(self) -> Seq<char> {
        match self {
            ReplyView::Redirect { .. } => Seq::empty(),
            ReplyView::NotFound => NOT_FOUND_TEXT@,
            ReplyView::Failure => FAILURE_TEXT@,
        }
    }

    /// Where the answer sends the client, if it sends it anywhere.
    pub open spec fn location(self) -> Option<Seq<char>> {
        match self {
            ReplyView::Redirect { location } => Some(location),
            _ => None,
        }
    }
}

impl Reply {
    /// The HTTP status of the answer: 307 for a redirect, 404 where no file
    /// matched, 500 after a failure.
    pub fn status(&self) -> (code: u16)
        ensures
            code == self@.status(),
    {
        match self {
            Reply::Redirect { .. } => 307,
            Reply::NotFound => 404,
            Reply::Failure => 500,
        }
    }

    /// The text in the body of the answer; a redirect has none.
    pub fn body(&self) -> (text: String)
        ensures
            text@ == self@.body(),
    {
        match self {
            Reply::Redirect { .. } => String::new(),
            Reply::NotFound => String::from_str(NOT_FOUND_TEXT),
            Reply::Failure => String::from_str(FAILURE_TEXT),
        }
    }

    /// Where the answer sends the client, if it sends it anywhere.
    pub fn location(&self) -> (target: Option<String>)
        ensures
            match target {
                Some(text) => self@.location() == Some(text@),
                None => self@.location() is None,
            },
    {
        match self {
            Reply::Redirect { location } => Some(location.clone()),
            _ => None,
        }
    }
}

/// The answer for a chosen file, from the path that leads to it from the
/// images root: a redirect where that path stays below the root, `Failure`
/// where it leaves the root or where there is no such path.
pub open spec fn answer_for_relative(relative: Option<Seq<char>>) -> ReplyView {
    match relative {
        Some(rel) => if stays_below(rel) {
            ReplyView::Redirect { location: location_text(rel) }
        } else {
            ReplyView::Failure
        },
        None => ReplyView::Failure,
    }
}

/// The answer once a selection has been made: `NotFound` without a file,
/// else the answer for the path that leads from `root` to the file.
pub open spec fn answer(root: Seq<char>, picked: Option<Seq<char>>) -> ReplyView {
    match picked {
        Some(image) => answer_for_relative(relative_path(image, root)),
        None => ReplyView::NotFound,
    }
}

/// The answer for a chosen file, from the path that leads to it from the
/// images root: a redirect to it below `IMAGES_ROUTE` where that path stays
/// below the root, `Failure` where it leaves the root or was not found.
pub fn reply_for_relative(relative: Option<String>) -> (reply: Reply)
    ensures
        reply@ == answer_for_relative(
            match relative {
                Some(rel) => Some(rel@),
                None => None,
            },
        ),
{
    match relative {
        Some(rel) => {
            if is_below(rel.as_str()) {
                Reply::Redirect { location: location_for(rel.as_str()) }
            } else {
                Reply::Failure
            }
        },
        None => Reply::Failure,
    }
}

/// The answer once a selection has been made among the files below `root`.
pub fn reply_for(root: &str, picked: &Option<String>) -> (reply: Reply)
    ensures
        reply@ == answer(
            root@,
            match picked {
                Some(image) => Some(image@),
                None => None,
            },
        ),
{
    match picked {
        Some(image) => reply_for_relative(diff_paths(image.as_str(), root)),
        None => Reply::NotFound,
    }
}

/// The answer to a request for the newest image, when the search below
/// `root` has found `files`.
pub open spec fn newest_answer(root: Seq<char>, files: Seq<Candidate>) -> ReplyView {
    if files.len() == 0 {
        ReplyView::NotFound
    } else {
        let i = choose|i: int| first_newest(files, i);
        answer(root, Some(files[i].path@))
    }
}

/// Whether `reply` may be given to a request for a random image, when the
/// search below `root` has found `files`: it is the answer for one of them,
/// or `NotFound` when there is none.
pub open spec fn is_random_answer(root: Seq<char>, files: Seq<String>, reply: ReplyView) -> bool {
    if files.len() == 0 {
        reply == ReplyView::NotFound
    } else {
        exists|i: int| 0 <= i < files.len() && reply == answer(root, Some((#[trigger] files[i])@))
    }
}

/// Answers a request for the newest image from the outcome of the search
/// below `root`: `Failure` after a failed search, else the answer for the
/// newest of the files found.
pub fn newest_reply(root: &str, scan: &Result<Vec<Candidate>, ScanError>) -> (reply: Reply)
    ensures
        scan is Err ==> reply@ == ReplyView::Failure,
        scan matches Ok(files) ==> reply@ == newest_answer(root@, files@),
{
    match scan {
        Ok(files) => {
            let picked = pick_newest(files);
            proof {
                if picked is Some {
                    let path = picked.unwrap();
                    let i = choose|i: int| first_newest(files@, i) && path@ == files@[i].path@;
                    let j = choose|j: int| first_newest(files@, j);
                    lemma_first_newest_unique(files@, i, j);
                }
            }
            reply_for(root, &picked)
        },
        Err(_) => Reply::Failure,
    }
}

/// Answers a request for a random image from the outcome of the search below
/// `root`: `Failure` after a failed search, else the answer for one of the
/// files found, chosen by chance.
pub fn random_reply(root: &str, scan: &Result<Vec<String>, ScanError>) -> (reply: Reply)
    ensures
        scan is Err ==> reply@ == ReplyView::Failure,
        scan matches Ok(files) ==> is_random_answer(root@, files@, reply@),
{
    match scan {
        Ok(files) => {
            let picked = pick_random(files);
            reply_for(root, &picked)
        },
        Err(_) => Reply::Failure,
    }
}

/// When a search finds no file, both kinds of request are answered with
/// `NotFound`, which is status 404 with the text `NOT_FOUND_TEXT`.
pub proof fn lemma_nothing_found(root: Seq<char>, reply: ReplyView)
    ensures
        newest_answer(root, Seq::empty()) == ReplyView::NotFound,
        is_random_answer(root, Seq::empty(), reply) <==> reply == ReplyView::NotFound,
        ReplyView::NotFound.status() == 404,
        ReplyView::NotFound.body() == NOT_FOUND_TEXT@,
{
}

/// A redirect in answer to a request for a random image leads to a file
/// that the search found, along a path that stays below the root.
pub proof fn lemma_random_answer_is_of_a_file(
    root: Seq<char>,
    files: Seq<String>,
    reply: ReplyView,
)
    requires
        is_random_answer(root, files, reply),
        reply is Redirect,
    ensures
        exists|i: int|
            0 <= i < files.len() && relative_path((#[trigger] files[i])@, root) is Some
                && stays_below(relative_path(files[i]@, root).unwrap())
                && reply == (ReplyView::Redirect {
                location: location_text(relative_path(files[i]@, root).unwrap()),
            }),
{
    let i = choose|i: int| 0 <= i < files.len() && reply == answer(root, Some((#[trigger] files[i])@));
    assert(relative_path(files[i]@, root) is Some);
}

/// The answer to a request for the newest image redirects to a file that no
/// other file found is younger than.
pub proof fn lemma_newest_answer_is_of_the_newest(root: Seq<char>, files: Seq<Candidate>, other: int)
    requires
        0 <= other < files.len(),
    ensures
        exists|i: int|
            first_newest(files, i) && files[other].created <= (#[trigger] files[i]).created
                && newest_answer(root, files) == answer(root, Some(files[i].path@)),
{
    lemma_first_newest_exists(files);
    let i = choose|i: int| first_newest(files, i);
    assert(files[other].created <= files[i].created);
}

/// No answer sends a client out of the images route: the address of every
/// redirect is `IMAGES_ROUTE` followed by a path that stays below the root.
pub proof fn lemma_redirect_stays_below(root: Seq<char>, picked: Option<Seq<char>>)
    requires
        answer(root, picked) is Redirect,
    ensures
        exists|rel: Seq<char>|
            stays_below(rel) && #[trigger] location_text(rel) == answer(
                root,
                picked,
            ).location().unwrap(),
{
    let rel = relative_path(picked.unwrap(), root).unwrap();
    assert(location_text(rel) == answer(root, picked).location().unwrap());
}

} // verus!
