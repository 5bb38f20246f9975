//! Choosing one file out of the files that a search has found.

use rand::seq::IndexedRandom;
use vstd::prelude::*;

verus! {

/// A file found by a search, with the moment it was created.
///
/// `created` counts nanoseconds from the Unix epoch and is negative for a
/// moment before it, so that a later file always has the larger number.
#[derive(Clone, Debug)]
pub struct Candidate {
    pub path: String,
    pub created: i128,
}

/// `i` is the position of the newest file of `files`: no file is younger,
/// and every file before it is strictly older.
pub open spec fn first_newest(files: Seq<Candidate>, i: int) -> bool {
    &&& 0 <= i < files.len()
    &&& forall|j: int| 0 <= j < files.len() ==> (#[trigger] files[j]).created <= files[i].created
    &&& forall|j: int| 0 <= j < i ==> (#[trigger] files[j]).created < files[i].created
}

/// Where the newest position lies once one more file stands at the end of a
/// list: at the new file when it is younger than the newest before it, and
/// where it was otherwise.
pub proof fn lemma_first_newest_grows(files: Seq<Candidate>, best: int)
    requires
        files.len() > 0,
        first_newest(files.drop_last(), best),
    ensures
        first_newest(
            files,
            if files.last().created > files[best].created {
                files.len() - 1
            } else {
                best
            },
        ),
{
    let front = files.drop_last();
    let last = files.len() - 1;
    assert forall|j: int| 0 <= j < last implies (#[trigger] files[j]).created
        <= files[best].created by {
        assert(front[j].created <= front[best].created);
    }
    assert forall|j: int| 0 <= j < best implies (#[trigger] files[j]).created
        < files[best].created by {
        assert(front[j].created < front[best].created);
    }
}

/// The position of the newest file, the first one among files of equal age.
pub fn newest_index(files: &Vec<Candidate>) -> (found: Option<usize>)
    ensures
        found is None <==> files@.len() == 0,
        found matches Some(i) ==> first_newest(files@, i as int),
{
    if files.len() == 0 {
        return None;
    }
    let mut best: usize = 0;
    let mut k: usize = 1;
    while k < files.len()
        invariant
            1 <= k <= files@.len(),
            first_newest(files@.subrange(0, k as int), best as int),
        decreases files@.len() - k,
    {
        proof {
            let grown = files@.subrange(0, k + 1);
            assert(grown.drop_last() =~= files@.subrange(0, k as int));
            lemma_first_newest_grows(grown, best as int);
        }
        if files[k].created > files[best].created {
            best = k;
        }
        k = k + 1;
    }
    assert(files@.subrange(0, k as int) =~= files@);
    Some(best)
}

/// The newest of `files`, by creation time; of several files created at the
/// same moment, the one that comes first in `files`. `None` when there is no
/// file to choose from.
pub fn pick_newest(files: &Vec<Candidate>) -> (picked: Option<String>)
    ensures
        picked is None <==> files@.len() == 0,
        picked matches Some(path) ==> exists|i: int|
            first_newest(files@, i) && path@ == (#[trigger] files@[i]).path@,
{
    match newest_index(files) {
        Some(i) => Some(files[i].path.clone()),
        None => None,
    }
}

/// There is only one position that `first_newest` accepts, so the file that
/// `pick_newest` returns is determined by the list alone.
pub proof fn lemma_first_newest_unique(files: Seq<Candidate>, i: int, j: int)
    requires
        first_newest(files, i),
        first_newest(files, j),
    ensures
        i == j,
{
    if i < j {
        assert(files[i].created < files[j].created);
        assert(files[j].created <= files[i].created);
    } else if j < i {
        assert(files[j].created < files[i].created);
        assert(files[i].created <= files[j].created);
    }
}

/// Every list that holds a file has a position that `first_newest` accepts.
pub proof fn lemma_first_newest_exists(files: Seq<Candidate>)
    requires
        files.len() > 0,
    ensures
        exists|i: int| first_newest(files, i),
    decreases files.len(),
{
    if files.len() == 1 {
        assert(first_newest(files, 0));
    } else {
        lemma_first_newest_exists(files.drop_last());
        let best = choose|i: int| first_newest(files.drop_last(), i);
        lemma_first_newest_grows(files, best);
    }
}

/// No file of a list is younger than the one at the position that
/// `first_newest` accepts.
pub proof fn lemma_newest_is_maximal(files: Seq<Candidate>, i: int, other: int)
    requires
        first_newest(files, i),
        0 <= other < files.len(),
    ensures
        files[other].created <= files[i].created,
{
}

/// Calls `choose` of rand's `IndexedRandom` on the slice of `files`, with the
/// generator that `rand::rng` hands to the calling thread. Trusted: an empty
/// slice yields `None`, and any other slice yields a reference to one of its
/// elements. Which element is left open, since it depends on chance.
#[verifier::external_body]
fn choose_one<'a>(files: &'a Vec<String>) -> (chosen: Option<&'a String>)
    ensures
        chosen is None <==> files@.len() == 0,
        chosen matches Some(file) ==> exists|i: int|
            0 <= i < files@.len() && file@ == (#[trigger] files@[i])@,
{
    files.choose(&mut rand::rng())
}

/// One of `files`, each with the same chance; `None` when there is no file to
/// choose from. Two calls on the same list may return different files.
pub fn pick_random(files: &Vec<String>) -> (picked: Option<String>)
    ensures
        picked is None <==> files@.len() == 0,
        picked matches Some(path) ==> exists|i: int|
            0 <= i < files@.len() && path@ == (#[trigger] files@[i])@,
{
    match choose_one(files) {
        Some(file) => Some(file.clone()),
        None => None,
    }
}

} // verus!
