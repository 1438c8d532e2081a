//! Finding a file in a directory or in the directories above it.

pub mod write_options;

use std::path::PathBuf;
use vstd::prelude::*;

verus! {

/// `std::path::PathBuf`, an owned file-system path.
#[verifier::external_type_specification]
#[verifier::external_body]
pub struct ExPathBuf(PathBuf);

/// `<PathBuf as Clone>::clone`: the copy is the same path.
pub assume_specification[ <PathBuf as Clone>::clone ](path: &PathBuf) -> (r: PathBuf)
    ensures
        r == *path,
;

/// The bytes that a path is made of, as `Path::as_os_str` holds them.
pub uninterp spec fn path_text(path: PathBuf) -> Seq<u8>;

/// The path that `Path::join` makes of the directory `dir` and the name
/// `name`, on the platform that the library is built for.
pub uninterp spec fn joined(dir: Seq<u8>, name: Seq<char>) -> Seq<u8>;

/// The path that `PathBuf::pop` leaves of `path`: its parent, or nothing
/// where `Path::parent` finds none (a root, a prefix, the empty path).
pub uninterp spec fn popped(path: Seq<u8>) -> Option<Seq<u8>>;

/// `Path::join`. Trusted: the result is a function of the two paths'
/// text, named [`joined`].
#[verifier::external_body]
fn join(dir: &PathBuf, name: &str) -> (r: PathBuf)
    ensures
        path_text(r) == joined(path_text(*dir), name@),
{
    dir.join(name)
}

/// `PathBuf::pop`. Trusted, as std documents it: where the path has a
/// parent, the path is truncated to it, so that it gets shorter, and the
/// result is `true`; where it has none, nothing changes and the result is
/// `false`.
#[verifier::external_body]
fn pop(path: &mut PathBuf) -> (r: bool)
    ensures
        match popped(path_text(*old(path))) {
            Some(parent) => r && path_text(*final(path)) == parent && parent.len() < path_text(
                *old(path),
            ).len(),
            None => !r && *final(path) == *old(path),
        },
{
    path.pop()
}

/// `Path::is_file`: whether the path leads to a regular file right now.
/// The answer depends on what is on disk, so nothing is claimed about it.
#[verifier::external_body]
pub(crate) fn is_file(path: &PathBuf) -> bool {
    path.is_file()
}

/// The directory `k` levels above `dir`, or nothing where the tree ends
/// before that. Level 0 is `dir` itself.
pub open spec fn ancestor(dir: Seq<u8>, k: nat) -> Option<Seq<u8>>
    decreases k,
{
    if k == 0 {
        Some(dir)
    } else {
        match ancestor(dir, (k - 1) as nat) {
            Some(below) => popped(below),
            None => None,
        }
    }
}

/// The candidate `k` levels above `start`: the path of `filename` in that
/// directory, or nothing where the tree ends before that.
pub open spec fn candidate(filename: Seq<char>, start: Seq<u8>, k: nat) -> Option<Seq<u8>> {
    match ancestor(start, k) {
        Some(dir) => Some(joined(dir, filename)),
        None => None,
    }
}

/// Whether `found` is the file `filename` in `start` or in a directory
/// above it.
pub open spec fn is_candidate(filename: Seq<char>, start: Seq<u8>, found: Seq<u8>) -> bool {
    exists|k: nat| #[trigger] candidate(filename, start, k) == Some(found)
}

/// Whether `probe` was asked about a path with the text `text` and
/// answered `answer`.
pub open spec fn answered<F: Fn(&PathBuf) -> bool>(probe: F, text: Seq<u8>, answer: bool) -> bool {
    exists|path: PathBuf|
        path_text(path) == text && #[trigger] call_ensures(probe, (&path,), answer)
}

/// Whether `probe` turned down every candidate below level `k`.
pub open spec fn turned_down_below<F: Fn(&PathBuf) -> bool>(
    probe: F,
    filename: Seq<char>,
    start: Seq<u8>,
    k: nat,
) -> bool {
    forall|j: nat|
        j < k ==> ((#[trigger] candidate(filename, start, j)) matches Some(text) && answered(
            probe,
            text,
            false,
        ))
}

/// Whether a search from `start` that asks `probe` can end with `outcome`
/// at level `k`: `probe` turned down every candidate below that level,
/// and either accepted `outcome`, the candidate of that level, or there
/// is no candidate at that level and `outcome` is nothing.
pub open spec fn is_level_of<F: Fn(&PathBuf) -> bool>(
    probe: F,
    filename: Seq<char>,
    start: Seq<u8>,
    outcome: Option<PathBuf>,
    k: nat,
) -> bool {
    &&& turned_down_below(probe, filename, start, k)
    &&& match outcome {
        Some(found) => candidate(filename, start, k) == Some(path_text(found)) && call_ensures(
            probe,
            (&found,),
            true,
        ),
        None => candidate(filename, start, k) is None,
    }
}

/// Whether a search from `start` that asks `probe` ends rightly with
/// `outcome`: with the nearest candidate that `probe` accepts, after it
/// turned down every nearer one, or with nothing, after it turned down
/// every candidate up to the topmost directory.
pub open spec fn is_closest<F: Fn(&PathBuf) -> bool>(
    probe: F,
    filename: Seq<char>,
    start: Seq<u8>,
    outcome: Option<PathBuf>,
) -> bool {
    exists|k: nat| is_level_of(probe, filename, start, outcome, k)
}

/// Whether the answer of `probe` depends on nothing but the text of the
/// path that it is asked about, as it does while the disk stays as it is.
pub open spec fn answers_by_path<F: Fn(&PathBuf) -> bool>(probe: F) -> bool {
    forall|p: PathBuf, q: PathBuf, a: bool, b: bool|
        path_text(p) == path_text(q) && #[trigger] call_ensures(probe, (&p,), a)
            && #[trigger] call_ensures(probe, (&q,), b) ==> a == b
}

/// Above the last directory there is none.
pub proof fn lemma_ancestors_end(start: Seq<u8>, last: nat, k: nat)
    requires
        ancestor(start, last) matches Some(dir) && popped(dir) is None,
        last < k,
    ensures
        ancestor(start, k) is None,
    decreases k,
{
    if last + 1 < k {
        lemma_ancestors_end(start, last, (k - 1) as nat);
    }
}

/// A search can be repeated: while the answers of the probe depend on the
/// path alone, two searches for the same name from the same directory
/// both end with nothing or both end with the same path.
pub proof fn lemma_search_is_repeatable<F: Fn(&PathBuf) -> bool>(
    probe: F,
    filename: Seq<char>,
    start: Seq<u8>,
    first: Option<PathBuf>,
    second: Option<PathBuf>,
)
    requires
        answers_by_path(probe),
        is_closest(probe, filename, start, first),
        is_closest(probe, filename, start, second),
    ensures
        first is Some <==> second is Some,
        first is Some ==> path_text(first.unwrap()) == path_text(second.unwrap()),
{
    let k1 = choose|k: nat| is_level_of(probe, filename, start, first, k);
    let k2 = choose|k: nat| is_level_of(probe, filename, start, second, k);
    if k1 < k2 {
        lemma_levels_agree(probe, filename, start, first, k1, k2);
    } else if k2 < k1 {
        lemma_levels_agree(probe, filename, start, second, k2, k1);
    }
}

/// A search that ended at one level did not pass it: while the answers of
/// the probe depend on the path alone, the probe turned down no candidate
/// at or above that level before.
pub proof fn lemma_levels_agree<F: Fn(&PathBuf) -> bool>(
    probe: F,
    filename: Seq<char>,
    start: Seq<u8>,
    outcome: Option<PathBuf>,
    k: nat,
    beyond: nat,
)
    requires
        answers_by_path(probe),
        is_level_of(probe, filename, start, outcome, k),
        k < beyond,
    ensures
        !turned_down_below(probe, filename, start, beyond),
{
    if turned_down_below(probe, filename, start, beyond) {
        // Then the candidate of level `k` was turned down, though the
        // search found it accepted or found none there.
        assert(answered(probe, candidate(filename, start, k).unwrap(), false));
    }
}

/// Finds the nearest candidate that `probe` accepts.
///
/// The search asks `probe` about one candidate per directory: first about
/// `filename` in `current_dir`, then in its parent, and so on upwards. It
/// ends with the first candidate that `probe` accepts, and with nothing
/// once `probe` has turned down the candidate of the topmost directory. It
/// asks about nothing beside or below `current_dir`.
pub fn find_closest_by<F: Fn(&PathBuf) -> bool>(
    filename: &str,
    current_dir: &PathBuf,
    probe: F,
) -> (r: Option<PathBuf>)
    requires
        forall|path: &PathBuf| call_requires(probe, (path,)),
    ensures
        is_closest(probe, filename@, path_text(*current_dir), r),
{
    let ghost start = path_text(*current_dir);
    let ghost mut level: nat = 0;
    let mut dir = current_dir.clone();
    loop
        invariant
            forall|path: &PathBuf| call_requires(probe, (path,)),
            start == path_text(*current_dir),
            ancestor(start, level) == Some(path_text(dir)),
            turned_down_below(probe, filename@, start, level),
        decreases path_text(dir).len(),
    {
        let found = join(&dir, filename);
        if probe(&found) {
            assert(is_level_of(probe, filename@, start, Some(found), level));
            return Some(found);
        }
        if !pop(&mut dir) {
            proof {
                lemma_ancestors_end(start, level, level + 1);
                assert(is_level_of(probe, filename@, start, None, level + 1));
            }
            return None;
        }
        proof {
            level = level + 1;
        }
    }
}

/// Finds the file `filename` in `current_dir` or, failing that, in the
/// nearest directory above it that holds one.
///
/// This is `find_closest_by` with the disk as the probe: the disk is asked
/// about `filename` in `current_dir`, then in its parent, and so on
/// upwards. The search ends with the first candidate that the disk
/// accepts, and with nothing once it has turned down the topmost one.
pub fn find_closest_file(filename: &str, current_dir: &PathBuf) -> (r: Option<PathBuf>)
    ensures
        is_closest_on_disk(filename@, path_text(*current_dir), r),
        r matches Some(found) ==> is_candidate(
            filename@,
            path_text(*current_dir),
            path_text(found),
        ),
{
    let r = find_closest_by(filename, current_dir, is_file);
    proof {
        lemma_closest_on_disk(filename@, path_text(*current_dir), r);
    }
    r
}

/// Whether a search from `start` that asks the disk ends rightly with
/// `outcome`: this is [`is_closest`] with `Path::is_file` as the probe.
///
/// The disk was asked about the candidates from `start` upwards, one per
/// directory, and about nothing else. It accepted `outcome` after it had
/// turned down every nearer candidate, or `outcome` is nothing and it
/// turned down every candidate up to the topmost directory. What the disk
/// answers is not known beforehand, and nothing is said about it.
pub closed spec fn is_closest_on_disk(
    filename: Seq<char>,
    start: Seq<u8>,
    outcome: Option<PathBuf>,
) -> bool {
    is_closest(is_file, filename, start, outcome)
}

/// What a search on disk tells whatever the disk answered: a path that it
/// ends with is one of the candidates, and it ends with nothing only
/// above the topmost directory, where no candidate is left.
pub proof fn lemma_closest_on_disk(filename: Seq<char>, start: Seq<u8>, outcome: Option<PathBuf>)
    requires
        is_closest_on_disk(filename, start, outcome),
    ensures
        outcome matches Some(found) ==> is_candidate(filename, start, path_text(found)),
        outcome is None ==> exists|k: nat| #[trigger] candidate(filename, start, k) is None,
{
    let k = choose|k: nat| is_level_of(is_file, filename, start, outcome, k);
    assert(is_level_of(is_file, filename, start, outcome, k));
}

} // verus!
