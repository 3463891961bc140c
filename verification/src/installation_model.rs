//! Weeding out package files that cannot be installed as planned.

use vstd::prelude::*;

use crate::installed_package::InstalledPackage;
use crate::platform::Platform;
use crate::reaper_platform::{spec_is_compatible, ReaperPlatform};
use crate::preparation_report::RecipeFileConflict;
use crate::text::str_eq;
use crate::version_id::VersionId;

verus! {

/// Some file of the installed packages `installed` lies at `path`.
pub open spec fn is_installed_path(installed: Seq<InstalledPackage>, path: Seq<char>) -> bool {
    exists|i: int, j: int|
        0 <= i < installed.len() && 0 <= j < installed[i].files@.len() && #[trigger] installed[i].files@[j].path@ == path
}

/// A file to be installed at the relative path `f.0` clashes with no installed file.
pub open spec fn clashes_not<T>(installed: Seq<InstalledPackage>) -> spec_fn((String, T)) -> bool {
    |f: (String, T)| !is_installed_path(installed, f.0@)
}

/// A file to be installed at the relative path `f.0` clashes with an installed file.
pub open spec fn clashes<T>(installed: Seq<InstalledPackage>) -> spec_fn((String, T)) -> bool {
    |f: (String, T)| is_installed_path(installed, f.0@)
}

/// Whether some file of `installed` lies at `path`.
fn path_is_installed(installed: &Vec<InstalledPackage>, path: &str) -> (r: bool)
    ensures
        r == is_installed_path(installed@, path@),
{
    let mut i: usize = 0;
    while i < installed.len()
        invariant
            i <= installed.len(),
            forall|a: int, b: int|
                0 <= a < i && 0 <= b < installed@[a].files@.len() ==> #[trigger] installed@[a].files@[b].path@ != path@,
        decreases installed.len() - i,
    {
        let files = &installed[i].files;
        let mut j: usize = 0;
        while j < files.len()
            invariant
                i < installed.len(),
                files == installed@[i as int].files,
                j <= files.len(),
                forall|b: int| 0 <= b < j ==> #[trigger] files@[b].path@ != path@,
            decreases files.len() - j,
        {
            if str_eq(files[j].path.as_str(), path) {
                return true;
            }
            j = j + 1;
        }
        i = i + 1;
    }
    false
}

/// Splits the files to be installed, each given by its path relative to the resource directory,
/// into those that clash with no file of the installed packages that stay and those that do;
/// both keep their order.
pub fn weed_out_conflicting_files_with_already_installed_packages<T>(
    files: Vec<(String, T)>,
    already_installed_non_replaced_packages: &Vec<InstalledPackage>,
) -> (r: (Vec<(String, T)>, Vec<(String, T)>))
    ensures
        r.0@ == files@.filter(clashes_not::<T>(already_installed_non_replaced_packages@)),
        r.1@ == files@.filter(clashes::<T>(already_installed_non_replaced_packages@)),
{
    let ghost installed = already_installed_non_replaced_packages@;
    let ghost all = files@;
    let mut rest = files;
    let mut kept: Vec<(String, T)> = Vec::new();
    let mut conflicting: Vec<(String, T)> = Vec::new();
    let ghost mut k: int = 0;
    while rest.len() > 0
        invariant
            installed == already_installed_non_replaced_packages@,
            0 <= k <= all.len(),
            rest@ == all.skip(k),
            kept@ == all.take(k).filter(clashes_not::<T>(installed)),
            conflicting@ == all.take(k).filter(clashes::<T>(installed)),
        decreases rest.len(),
    {
        let f = rest.remove(0);
        proof {
            assert(all.take(k + 1) =~= all.take(k).push(f));
            all.take(k).lemma_filter_push(f, clashes_not::<T>(installed));
            all.take(k).lemma_filter_push(f, clashes::<T>(installed));
            assert(rest@ =~= all.skip(k + 1));
            k = k + 1;
        }
        if path_is_installed(already_installed_non_replaced_packages, f.0.as_str()) {
            conflicting.push(f);
        } else {
            kept.push(f);
        }
    }
    proof {
        assert(all.take(k) =~= all);
    }
    (kept, conflicting)
}

/// The package version `v` has a file that clashes with a file of another package to be
/// installed.
pub open spec fn is_incomplete(
    conflicts: Seq<RecipeFileConflict>,
    v: ((Seq<char>, Seq<char>, Seq<char>), Seq<char>),
) -> bool {
    exists|i: int, j: int|
        0 <= i < conflicts.len() && 0 <= j < conflicts[i].conflicting_files@.len()
            && #[trigger] conflicts[i].conflicting_files@[j]@ == v
}

/// `ids` lists the version ID `v`.
pub open spec fn lists(ids: Seq<VersionId>, v: ((Seq<char>, Seq<char>, Seq<char>), Seq<char>)) -> bool {
    exists|k: int| 0 <= k < ids.len() && #[trigger] ids[k]@ == v
}

proof fn lemma_lists_push(ids: Seq<VersionId>, x: VersionId, v: ((Seq<char>, Seq<char>, Seq<char>), Seq<char>))
    ensures
        lists(ids, v) ==> lists(ids.push(x), v),
        x@ == v ==> lists(ids.push(x), v),
{
    if lists(ids, v) {
        let k = choose|k: int| 0 <= k < ids.len() && #[trigger] ids[k]@ == v;
        assert(ids.push(x)[k]@ == v);
    }
    if x@ == v {
        assert(ids.push(x)[ids.len() as int]@ == v);
    }
}

/// The package versions with at least one file in a clash between packages to be installed:
/// each listed at least once, and nothing else.
pub fn identify_incomplete_versions(file_conflicts: &Vec<RecipeFileConflict>) -> (r: Vec<VersionId>)
    ensures
        forall|k: int| 0 <= k < r@.len() ==> is_incomplete(file_conflicts@, #[trigger] r@[k]@),
        forall|i: int, j: int|
            0 <= i < file_conflicts@.len() && 0 <= j < file_conflicts@[i].conflicting_files@.len() ==> lists(
                r@,
                #[trigger] file_conflicts@[i].conflicting_files@[j]@,
            ),
{
    let mut r: Vec<VersionId> = Vec::new();
    let mut i: usize = 0;
    while i < file_conflicts.len()
        invariant
            i <= file_conflicts.len(),
            forall|k: int| 0 <= k < r@.len() ==> is_incomplete(file_conflicts@, #[trigger] r@[k]@),
            forall|a: int, b: int|
                0 <= a < i && 0 <= b < file_conflicts@[a].conflicting_files@.len() ==> lists(
                    r@,
                    #[trigger] file_conflicts@[a].conflicting_files@[b]@,
                ),
        decreases file_conflicts.len() - i,
    {
        let files = &file_conflicts[i].conflicting_files;
        let mut j: usize = 0;
        while j < files.len()
            invariant
                i < file_conflicts.len(),
                files == file_conflicts@[i as int].conflicting_files,
                j <= files.len(),
                forall|k: int| 0 <= k < r@.len() ==> is_incomplete(file_conflicts@, #[trigger] r@[k]@),
                forall|a: int, b: int|
                    0 <= a < i && 0 <= b < file_conflicts@[a].conflicting_files@.len() ==> lists(
                        r@,
                        #[trigger] file_conflicts@[a].conflicting_files@[b]@,
                    ),
                forall|b: int| 0 <= b < j ==> lists(r@, #[trigger] files@[b]@),
            decreases files.len() - j,
        {
            let v = VersionId { package_id: files[j].package_id.duplicate(), version: files[j].version.duplicate() };
            let ghost before = r@;
            proof {
                assert(file_conflicts@[i as int].conflicting_files@[j as int]@ == v@);
                assert(is_incomplete(file_conflicts@, v@));
                assert forall|a: int, b: int|
                    0 <= a < i && 0 <= b < file_conflicts@[a].conflicting_files@.len() implies lists(
                        before.push(v),
                        #[trigger] file_conflicts@[a].conflicting_files@[b]@,
                    ) by {
                    lemma_lists_push(before, v, file_conflicts@[a].conflicting_files@[b]@);
                }
                assert forall|b: int| 0 <= b < j + 1 implies lists(before.push(v), #[trigger] files@[b]@) by {
                    lemma_lists_push(before, v, files@[b]@);
                }
            }
            r.push(v);
            j = j + 1;
        }
        i = i + 1;
    }
    r
}

/// A file of the package version `s.0` belongs to a complete version.
pub open spec fn of_complete_version<T>(conflicts: Seq<RecipeFileConflict>) -> spec_fn((VersionId, T)) -> bool {
    |s: (VersionId, T)| !is_incomplete(conflicts, s.0@)
}

/// Whether `id` is among `ids`.
fn contains_version_id(ids: &Vec<VersionId>, id: &VersionId) -> (r: bool)
    ensures
        r == lists(ids@, id@),
{
    let mut k: usize = 0;
    while k < ids.len()
        invariant
            k <= ids.len(),
            forall|a: int| 0 <= a < k ==> #[trigger] ids@[a]@ != id@,
        decreases ids.len() - k,
    {
        let other = &ids[k];
        if str_eq(other.package_id.remote.as_str(), id.package_id.remote.as_str())
            && str_eq(other.package_id.category.as_str(), id.package_id.category.as_str())
            && str_eq(other.package_id.package.as_str(), id.package_id.package.as_str())
            && str_eq(other.version.as_str(), id.version.as_str()) {
            assert(ids@[k as int]@ == id@);
            return true;
        }
        k = k + 1;
    }
    false
}

/// Drops every file of a package version that is not complete, that is, that has a file in a
/// clash between packages to be installed: installing part of a package is worse than not
/// installing it. The other files stay, in their order.
pub fn remove_incomplete_versions<T>(sources: &mut Vec<(VersionId, T)>, file_conflicts: &Vec<RecipeFileConflict>)
    ensures
        final(sources)@ == old(sources)@.filter(of_complete_version::<T>(file_conflicts@)),
{
    let incomplete = identify_incomplete_versions(file_conflicts);
    let ghost all = sources@;
    let ghost c = file_conflicts@;
    let mut kept: Vec<(VersionId, T)> = Vec::new();
    let ghost mut k: int = 0;
    while sources.len() > 0
        invariant
            c == file_conflicts@,
            forall|q: int| 0 <= q < incomplete@.len() ==> is_incomplete(c, #[trigger] incomplete@[q]@),
            forall|i: int, j: int|
                0 <= i < c.len() && 0 <= j < c[i].conflicting_files@.len() ==> lists(
                    incomplete@,
                    #[trigger] c[i].conflicting_files@[j]@,
                ),
            0 <= k <= all.len(),
            sources@ == all.skip(k),
            kept@ == all.take(k).filter(of_complete_version::<T>(c)),
        decreases sources.len(),
    {
        let s = sources.remove(0);
        let found = contains_version_id(&incomplete, &s.0);
        proof {
            if found {
                let q = choose|q: int| 0 <= q < incomplete@.len() && #[trigger] incomplete@[q]@ == s.0@;
                assert(is_incomplete(c, incomplete@[q]@));
            } else if is_incomplete(c, s.0@) {
                let (i, j) = choose|i: int, j: int|
                    0 <= i < c.len() && 0 <= j < c[i].conflicting_files@.len() && #[trigger] c[i].conflicting_files@[j]@ == s.0@;
                assert(lists(incomplete@, c[i].conflicting_files@[j]@));
                assert(false);
            }
            assert(found == is_incomplete(c, s.0@));
            assert(all.take(k + 1) =~= all.take(k).push(s));
            all.take(k).lemma_filter_push(s, of_complete_version::<T>(c));
            assert(sources@ =~= all.skip(k + 1));
            k = k + 1;
        }
        if !found {
            kept.push(s);
        }
    }
    proof {
        assert(all.take(k) =~= all);
    }
    *sources = kept;
}


/// A source declared for the ReaPack platform `s.0` fits `target`; a platform this library does
/// not know (`None`) never fits.
pub open spec fn fits_platform<T>(target: ReaperPlatform) -> spec_fn((Option<Platform>, T)) -> bool {
    |s: (Option<Platform>, T)| s.0 matches Some(p) && spec_is_compatible(target, p)
}

/// The sources of a package version, each with its declared platform (`None` for one this
/// library does not know), that fit the REAPER platform `reaper_target`, in their order.
pub fn get_platform_compatible_sources<T>(sources: Vec<(Option<Platform>, T)>, reaper_target: ReaperPlatform) -> (r: Vec<
    (Option<Platform>, T),
>)
    ensures
        r@ == sources@.filter(fits_platform::<T>(reaper_target)),
{
    let ghost all = sources@;
    let mut rest = sources;
    let mut kept: Vec<(Option<Platform>, T)> = Vec::new();
    let ghost mut k: int = 0;
    while rest.len() > 0
        invariant
            0 <= k <= all.len(),
            rest@ == all.skip(k),
            kept@ == all.take(k).filter(fits_platform::<T>(reaper_target)),
        decreases rest.len(),
    {
        let s = rest.remove(0);
        proof {
            assert(all.take(k + 1) =~= all.take(k).push(s));
            all.take(k).lemma_filter_push(s, fits_platform::<T>(reaper_target));
            assert(rest@ =~= all.skip(k + 1));
            k = k + 1;
        }
        let fits = match s.0 {
            Some(p) => reaper_target.is_compatible_with_reapack_platform(p),
            None => false,
        };
        if fits {
            kept.push(s);
        }
    }
    proof {
        assert(all.take(k) =~= all);
    }
    kept
}

} // verus!
