//! Locating existing directories above a path.

use vstd::prelude::*;

use crate::path::{is_absolute, is_proper_ancestor, iterate_parent, lemma_parent_shorter, parent, spec_is_absolute, spec_parent};

verus! {

/// `Path::exists`: whether something exists at `path` right now. Nothing is claimed about the
/// answer: it depends on the file system.
#[verifier::external_body]
pub(crate) fn path_exists(path: &str) -> bool {
    std::path::Path::new(path).exists()
}

/// `Path::is_dir`: whether a directory exists at `path` right now. Nothing is claimed about the
/// answer: it depends on the file system.
#[verifier::external_body]
pub(crate) fn path_is_dir(path: &str) -> bool {
    std::path::Path::new(path).is_dir()
}

/// Why no usable parent directory was found.
#[derive(Copy, Clone, PartialEq, Eq, Structural, Debug)]
pub enum FirstExistingParentError {
    /// No parent of the path exists.
    NoExistingParent,
    /// The nearest existing parent is not a directory.
    ParentIsNotDirectory,
}

/// The proper ancestors of `p`, nearest first: its parent, the parent's parent, and so on.
pub open spec fn spec_proper_ancestors(p: Seq<char>) -> Seq<Seq<char>>
    decreases p.len(),
{
    match spec_parent(p) {
        None => Seq::empty(),
        Some(q) => {
            proof {
                lemma_parent_shorter(p);
            }
            seq![q] + spec_proper_ancestors(q)
        },
    }
}

/// Taking the parent `k + 1` times is taking it once and then `k` times.
proof fn lemma_iterate_parent_first(p: Seq<char>, k: nat)
    ensures
        iterate_parent(p, k + 1) == match spec_parent(p) {
            Some(q) => iterate_parent(q, k),
            None => None,
        },
    decreases k,
{
    assert(iterate_parent(p, 0) == Some(p));
    if k > 0 {
        lemma_iterate_parent_first(p, (k - 1) as nat);
        assert(iterate_parent(p, k + 1) == match iterate_parent(p, k) {
            Some(x) => spec_parent(x),
            None => None,
        });
        match spec_parent(p) {
            Some(q) => {
                assert(iterate_parent(q, k) == match iterate_parent(q, (k - 1) as nat) {
                    Some(x) => spec_parent(x),
                    None => None,
                });
            },
            None => {},
        }
    } else {
        match spec_parent(p) {
            Some(q) => {
                assert(iterate_parent(q, 0) == Some(q));
            },
            None => {},
        }
    }
}

/// Each entry of [`spec_proper_ancestors`] is a proper ancestor.
proof fn lemma_proper_ancestors_are_ancestors(p: Seq<char>, i: int)
    requires
        0 <= i < spec_proper_ancestors(p).len(),
    ensures
        iterate_parent(p, (i + 1) as nat) == Some(spec_proper_ancestors(p)[i]),
        is_proper_ancestor(p, spec_proper_ancestors(p)[i]),
    decreases p.len(),
{
    let q = spec_parent(p)->0;
    lemma_parent_shorter(p);
    lemma_iterate_parent_first(p, i as nat);
    if i > 0 {
        assert(spec_proper_ancestors(p)[i] == spec_proper_ancestors(q)[i - 1]);
        lemma_proper_ancestors_are_ancestors(q, i - 1);
    } else {
        assert(iterate_parent(q, 0) == Some(q));
    }
    assert(iterate_parent(p, (i + 1) as nat) == Some(spec_proper_ancestors(p)[i]));
}

/// The proper ancestors of `path`, nearest first (see [`spec_proper_ancestors`]).
pub fn proper_ancestors(path: &str) -> (r: Vec<String>)
    ensures
        r@.len() == spec_proper_ancestors(path@).len(),
        forall|i: int| 0 <= i < r@.len() ==> #[trigger] r@[i]@ == spec_proper_ancestors(path@)[i],
{
    let mut r: Vec<String> = Vec::new();
    let mut cur = path.to_owned();
    loop
        invariant
            spec_proper_ancestors(path@) == r@.map_values(|s: String| s@) + spec_proper_ancestors(cur@),
        ensures
            r@.len() == spec_proper_ancestors(path@).len(),
            forall|i: int| 0 <= i < r@.len() ==> #[trigger] r@[i]@ == spec_proper_ancestors(path@)[i],
        decreases cur@.len(),
    {
        match parent(cur.as_str()) {
            None => {
                proof {
                    assert(spec_proper_ancestors(cur@) =~= Seq::<Seq<char>>::empty());
                    assert(spec_proper_ancestors(path@) =~= r@.map_values(|s: String| s@));
                    assert forall|i: int| 0 <= i < r@.len() implies #[trigger] r@[i]@ == spec_proper_ancestors(path@)[i] by {
                        assert(r@.map_values(|s: String| s@)[i] == r@[i]@);
                    }
                }
                return r;
            },
            Some(q) => {
                proof {
                    lemma_parent_shorter(cur@);
                    let m = r@.map_values(|s: String| s@);
                    assert(r@.push(q).map_values(|s: String| s@) =~= m.push(q@));
                    assert(m + spec_proper_ancestors(cur@) =~= m.push(q@) + spec_proper_ancestors(q@));
                }
                r.push(q.clone());
                cur = q;
            },
        }
    }
}

/// The position of the first `true` among the answers, if any.
pub fn first_existing(answers: &Vec<bool>) -> (r: Option<usize>)
    ensures
        match r {
            Some(i) => i < answers@.len() && answers@[i as int] && forall|j: int| 0 <= j < i ==> !answers@[j],
            None => forall|j: int| 0 <= j < answers@.len() ==> !answers@[j],
        },
{
    let mut i: usize = 0;
    while i < answers.len()
        invariant
            i <= answers@.len(),
            forall|j: int| 0 <= j < i ==> !answers@[j],
        decreases answers.len() - i,
    {
        if answers[i] {
            return Some(i);
        }
        i = i + 1;
    }
    None
}

/// Walks up from an absolute `path` and returns the nearest parent that exists: the proper
/// ancestors (see [`spec_proper_ancestors`]) are asked in turn whether they exist, up to the
/// first that does, and [`first_existing`] picks it from the answers. The answers depend on
/// the file system; a path without parent (the root) has none to return.
pub fn find_first_existing_parent(path: String) -> (r: Option<String>)
    requires
        spec_is_absolute(path@),
    ensures
        r matches Some(a) ==> exists|i: int|
            0 <= i < spec_proper_ancestors(path@).len() && a@ == #[trigger] spec_proper_ancestors(path@)[i],
        r matches Some(a) ==> is_proper_ancestor(path@, a@),
        spec_parent(path@) is None ==> r is None,
{
    let ancestors = proper_ancestors(path.as_str());
    let mut answers: Vec<bool> = Vec::new();
    while answers.len() < ancestors.len()
        invariant
            answers@.len() <= ancestors@.len(),
        decreases ancestors.len() - answers.len(),
    {
        let found = path_exists(ancestors[answers.len()].as_str());
        answers.push(found);
        if found {
            break;
        }
    }
    match first_existing(&answers) {
        None => None,
        Some(i) => {
            proof {
                lemma_proper_ancestors_are_ancestors(path@, i as int);
                assert(ancestors@[i as int]@ == spec_proper_ancestors(path@)[i as int]);
            }
            Some(ancestors[i].clone())
        },
    }
}

/// What `get_first_existing_parent_dir` decides from the nearest existing parent (if any) and
/// whether it is a directory.
pub fn first_existing_parent_dir_verdict(found: Option<String>, is_dir: bool) -> (r: Result<String, FirstExistingParentError>)
    ensures
        match found {
            None => r == Err::<String, FirstExistingParentError>(FirstExistingParentError::NoExistingParent),
            Some(p) => if is_dir {
                r matches Ok(d) && d@ == p@
            } else {
                r == Err::<String, FirstExistingParentError>(FirstExistingParentError::ParentIsNotDirectory)
            },
        },
{
    match found {
        None => Err(FirstExistingParentError::NoExistingParent),
        Some(p) => if is_dir {
            Ok(p)
        } else {
            Err(FirstExistingParentError::ParentIsNotDirectory)
        },
    }
}

/// The nearest existing parent of an absolute `path`, which must be a directory: found by
/// [`find_first_existing_parent`], asked whether it is a directory, and judged by
/// [`first_existing_parent_dir_verdict`]. The answers depend on the file system; a path
/// without parent (the root) has none.
pub fn get_first_existing_parent_dir(path: String) -> (r: Result<String, FirstExistingParentError>)
    requires
        spec_is_absolute(path@),
    ensures
        r matches Ok(a) ==> is_proper_ancestor(path@, a@),
        r matches Ok(a) ==> exists|i: int|
            0 <= i < spec_proper_ancestors(path@).len() && a@ == #[trigger] spec_proper_ancestors(path@)[i],
        spec_parent(path@) is None ==> r == Err::<String, FirstExistingParentError>(FirstExistingParentError::NoExistingParent),
{
    match find_first_existing_parent(path) {
        None => first_existing_parent_dir_verdict(None, false),
        Some(p) => {
            let is_dir = path_is_dir(p.as_str());
            first_existing_parent_dir_verdict(Some(p), is_dir)
        },
    }
}

/// `Path::try_exists`: whether something exists at `path` right now, or `None` where that
/// could not be found out. Nothing is claimed about the answer: it depends on the file system.
#[verifier::external_body]
pub(crate) fn path_try_exists(path: &str) -> Option<bool> {
    std::path::Path::new(path).try_exists().ok()
}

/// What `file_or_dir_is_writable_or_creatable` decides: for an existing path, the answer about
/// the path itself; for a missing one, whether a usable parent directory was found and the
/// answer about it; `false` where it could not be found out whether the path exists.
pub fn writable_or_creatable_verdict(
    present: Option<bool>,
    path_writable: bool,
    parent_dir_found: bool,
    parent_writable: bool,
) -> (r: bool)
    ensures
        r == match present {
            Some(true) => path_writable,
            Some(false) => parent_dir_found && parent_writable,
            None => false,
        },
{
    match present {
        Some(true) => path_writable,
        Some(false) => parent_dir_found && parent_writable,
        None => false,
    }
}

/// Whether the file or directory at `path` is writable or at least creatable, given `present`,
/// the answer to whether `path` exists (`None` where that could not be found out). An existing
/// path gets exactly the answer that `existing_is_writable` gives for it; a missing absolute
/// path gets the answer for its nearest existing parent directory, and `false` where there is
/// none; a missing relative path, and a path of unknown existence, get `false`.
pub fn writable_or_creatable_given_presence<F: Fn(&str) -> bool>(
    path: &str,
    present: Option<bool>,
    existing_is_writable: F,
) -> (r: bool)
    requires
        forall|p: &str| existing_is_writable.requires((p,)),
    ensures
        present == Some(true) ==> existing_is_writable.ensures((path,), r),
        present is None ==> !r,
        present == Some(false) && !spec_is_absolute(path@) ==> !r,
        present == Some(false) && spec_parent(path@) is None ==> !r,
        present == Some(false) && r ==> exists|p: &str| #[trigger] existing_is_writable.ensures((p,), true)
            && is_proper_ancestor(path@, p@),
{
    match present {
        Some(true) => {
            let w = existing_is_writable(path);
            writable_or_creatable_verdict(present, w, false, false)
        },
        Some(false) => {
            if !is_absolute(path) {
                return writable_or_creatable_verdict(present, false, false, false);
            }
            match get_first_existing_parent_dir(path.to_string()) {
                Ok(d) => {
                    let dp = d.as_str();
                    let w = existing_is_writable(dp);
                    writable_or_creatable_verdict(present, false, true, w)
                },
                Err(_) => writable_or_creatable_verdict(present, false, false, false),
            }
        },
        None => writable_or_creatable_verdict(present, false, false, false),
    }
}

/// Whether the file or directory at `path` is writable or at least creatable, as far as can be
/// told up front: the file system is asked whether `path` exists, and
/// [`writable_or_creatable_given_presence`] answers from there (an existing path is asked about
/// itself, a missing one about its nearest existing parent directory).
/// `existing_is_writable` answers for an existing path.
///
/// The answer is `false` when it cannot be found out whether `path` exists, or when a missing
/// `path` has no existing parent directory (a missing relative path counts as having none);
/// `true` only where `existing_is_writable` said so for `path` itself or for one of its
/// parents.
pub fn file_or_dir_is_writable_or_creatable<F: Fn(&str) -> bool>(path: &str, existing_is_writable: F) -> (r: bool)
    requires
        forall|p: &str| existing_is_writable.requires((p,)),
    ensures
        r ==> exists|p: &str| #[trigger] existing_is_writable.ensures((p,), true) && (p@ == path@ || is_proper_ancestor(path@, p@)),
        !spec_is_absolute(path@) && r ==> existing_is_writable.ensures((path,), true),
{
    let present = path_try_exists(path);
    let r = writable_or_creatable_given_presence(path, present, existing_is_writable);
    proof {
        if r {
            assert(present is Some);
            assert(present == Some(true) || present == Some(false));
            if present == Some(true) {
                assert(existing_is_writable.ensures((path,), r));
                assert(existing_is_writable.ensures((path,), true));
            }
        }
    }
    r
}

/// Why a file operation planned during a dry run would not work.
#[derive(Copy, Clone, PartialEq, Eq, Structural, Debug)]
pub enum DryRunError {
    /// The file exists and cannot be written, so removing it would fail.
    RemovalWouldFail,
    /// The file to be moved does not exist.
    SourceMissing,
    /// A file of an installed package that stays lies where the file would be moved to.
    DestinationExists,
    /// A file that no installed package owns lies where the file would be moved to, and it
    /// cannot be overwritten.
    DestinationNotWritable,
    /// No usable parent directory of the destination was found.
    NoUsableParent(FirstExistingParentError),
    /// The nearest existing parent directory of the destination is not writable.
    ParentNotWritable,
}

/// What `dry_remove_file` decides from whether the file exists and whether it is writable:
/// removal fails only for an existing file that cannot be written.
pub fn dry_remove_verdict(exists: bool, writable: bool) -> (r: Result<(), DryRunError>)
    ensures
        r == (if exists && !writable { Err(DryRunError::RemovalWouldFail) } else { Ok::<(), DryRunError>(()) }),
{
    if exists && !writable {
        Err(DryRunError::RemovalWouldFail)
    } else {
        Ok(())
    }
}

/// The message shown when removing a file would not work. On Windows a running REAPER is the
/// usual cause, so the user is told to exit it.
pub fn removal_failure_message(host_is_windows: bool) -> (r: String)
    ensures
        r@ == "Removing the file would not work."@ + (if host_is_windows {
            " Is REAPER running already? If yes, exit REAPER and try again."@
        } else {
            ""@
        }),
{
    let mut r = "Removing the file would not work.".to_owned();
    if host_is_windows {
        r = r.concat(" Is REAPER running already? If yes, exit REAPER and try again.");
    } else {
        proof {
            reveal_strlit("");
            assert(r@ == r@ + ""@);
        }
    }
    r
}

/// Checks, without touching anything, whether the file at `path` could be removed.
/// `existing_is_writable` answers for an existing path; it is asked about `path` only.
pub fn dry_remove_file<F: Fn(&str) -> bool>(path: &str, existing_is_writable: F) -> (r: Result<(), DryRunError>)
    requires
        forall|p: &str| existing_is_writable.requires((p,)),
    ensures
        r is Err ==> r == Err::<(), DryRunError>(DryRunError::RemovalWouldFail)
            && existing_is_writable.ensures((path,), false),
        (forall|b: bool| existing_is_writable.ensures((path,), b) ==> b) ==> r is Ok,
{
    if path_exists(path) {
        let writable = existing_is_writable(path);
        dry_remove_verdict(true, writable)
    } else {
        dry_remove_verdict(false, true)
    }
}

/// What `dry_move_file` decides, in order: the source must exist; a file already at the
/// destination must not belong to an installed package that stays, and must be writable, since
/// it gets overwritten (the new package takes it over, as ReaPack does); the destination needs
/// an existing parent directory, and that directory must be writable.
pub fn dry_move_verdict(
    src_exists: bool,
    dest_exists: bool,
    dest_managed: bool,
    dest_writable: bool,
    parent: Result<(), FirstExistingParentError>,
    parent_writable: bool,
) -> (r: Result<(), DryRunError>)
    ensures
        r == (if !src_exists {
            Err(DryRunError::SourceMissing)
        } else if dest_exists && dest_managed {
            Err(DryRunError::DestinationExists)
        } else if dest_exists && !dest_writable {
            Err(DryRunError::DestinationNotWritable)
        } else {
            match parent {
                Err(e) => Err(DryRunError::NoUsableParent(e)),
                Ok(()) => if parent_writable { Ok::<(), DryRunError>(()) } else { Err(DryRunError::ParentNotWritable) },
            }
        }),
{
    if !src_exists {
        return Err(DryRunError::SourceMissing);
    }
    if dest_exists && dest_managed {
        return Err(DryRunError::DestinationExists);
    }
    if dest_exists && !dest_writable {
        return Err(DryRunError::DestinationNotWritable);
    }
    match parent {
        Err(e) => Err(DryRunError::NoUsableParent(e)),
        Ok(()) => if parent_writable { Ok(()) } else { Err(DryRunError::ParentNotWritable) },
    }
}

/// Checks, without touching anything, whether the file at `src` could be moved to the absolute
/// path `dest`. `dest_managed` says whether a file at `dest` belongs to an installed package
/// that stays; `existing_is_writable` answers for an existing path: it is asked about an
/// existing `dest` and about the nearest existing parent of `dest`. [`dry_move_verdict`]
/// decides from the answers.
pub fn dry_move_file<F: Fn(&str) -> bool>(src: &str, dest: String, dest_managed: bool, existing_is_writable: F) -> (r: Result<(), DryRunError>)
    requires
        spec_is_absolute(dest@),
        forall|p: &str| existing_is_writable.requires((p,)),
    ensures
        r is Ok ==> exists|p: &str| #[trigger] existing_is_writable.ensures((p,), true) && is_proper_ancestor(dest@, p@),
        r == Err::<(), DryRunError>(DryRunError::ParentNotWritable) ==> exists|p: &str|
            #[trigger] existing_is_writable.ensures((p,), false) && is_proper_ancestor(dest@, p@),
        r == Err::<(), DryRunError>(DryRunError::DestinationNotWritable) ==> !dest_managed
            && exists|p: &str| #[trigger] existing_is_writable.ensures((p,), false) && p@ == dest@,
        r == Err::<(), DryRunError>(DryRunError::DestinationExists) ==> dest_managed,
{
    let src_exists = path_exists(src);
    if !src_exists {
        return dry_move_verdict(false, false, false, true, Ok(()), false);
    }
    let dest_exists = path_exists(dest.as_str());
    let mut dest_writable = true;
    if dest_exists {
        if dest_managed {
            return dry_move_verdict(true, true, true, true, Ok(()), false);
        }
        dest_writable = existing_is_writable(dest.as_str());
        if !dest_writable {
            return dry_move_verdict(true, true, false, false, Ok(()), false);
        }
    }
    match get_first_existing_parent_dir(dest) {
        Err(e) => dry_move_verdict(true, dest_exists, dest_managed, dest_writable, Err(e), false),
        Ok(d) => {
            let dp = d.as_str();
            let writable = existing_is_writable(dp);
            dry_move_verdict(true, dest_exists, dest_managed, dest_writable, Ok(()), writable)
        },
    }
}

} // verus!
