//! The REAPER resource directory and the well-known locations within it.

use vstd::prelude::*;

use crate::file_util::{get_first_existing_parent_dir, path_exists, path_is_dir, FirstExistingParentError};
use crate::path::{is_absolute, path_join, spec_is_absolute, spec_parent, spec_path_join};

verus! {

/// Location of `reaper.ini`, relative to the resource directory.
pub const REAPER_INI_FILE_PATH: &'static str = "reaper.ini";

/// Location of the ReaPack registry database, relative to the resource directory.
pub const REAPACK_REGISTRY_DB_FILE_PATH: &'static str = "ReaPack/registry.db";

/// Location of ReaPack's repository index cache, relative to the resource directory.
pub const REAPACK_CACHE_DIR_PATH: &'static str = "ReaPack/Cache";

/// Location of `reapack.ini`, relative to the resource directory.
pub const REAPACK_INI_FILE_PATH: &'static str = "reapack.ini";

/// A REAPER resource directory (the directory that holds `reaper.ini`, `UserPlugins`,
/// `ReaPack` and so on).
#[derive(Clone, Debug)]
pub struct ReaperResourceDir(String);

impl View for ReaperResourceDir {
    type V = Seq<char>;

    closed spec fn view(&self) -> Seq<char> {
        self.0@
    }
}

impl From<String> for ReaperResourceDir {
    fn from(value: String) -> (r: Self)
        ensures
            r@ == value@,
    {
        ReaperResourceDir(value)
    }
}

impl vstd::std_specs::convert::FromSpecImpl<String> for ReaperResourceDir {
    open spec fn obeys_from_spec() -> bool {
        true
    }

    closed spec fn from_spec(v: String) -> Self {
        ReaperResourceDir(v)
    }
}

/// Why a directory cannot serve as REAPER resource directory.
#[derive(Clone, Debug)]
pub enum ResourceDirError {
    /// Something exists at the path, but it is a file.
    IsAFile,
    /// The directory is neither empty nor holds a `reaper.ini`, so it is likely the resource
    /// directory of a main installation picked by mistake.
    NotAPortableInstallation,
    /// The path doesn't exist and no parent directory of it does.
    ParentProblem(FirstExistingParentError),
    /// Making the path canonical or finding the current directory failed, with this message.
    Io(String),
}

/// Whether `dir` holds a `reaper.ini` file or, failing that, is empty (`dir_is_empty`
/// answers the latter).
pub fn contains_reaper_ini_or_is_empty<E: FnOnce(&str) -> bool>(dir: &str, dir_is_empty: E) -> (r: bool)
    requires
        dir_is_empty.requires((dir,)),
    ensures
        !r ==> dir_is_empty.ensures((dir,), false),
        (forall|b: bool| dir_is_empty.ensures((dir,), b) ==> b) ==> r,
{
    let ini = path_join(dir, REAPER_INI_FILE_PATH);
    path_exists(ini.as_str()) || dir_is_empty(dir)
}

/// Whether `dir` is a valid REAPER resource directory, that is whether `reaper.ini` exists in
/// it. The answer depends on the file system.
pub fn is_valid_reaper_resource_dir(dir: &str) -> bool {
    let ini = path_join(dir, REAPER_INI_FILE_PATH);
    path_exists(ini.as_str())
}

/// What checking a directory chosen as REAPER resource directory comes to, before its path is
/// made final.
#[derive(Copy, Clone, PartialEq, Eq, Structural, Debug)]
pub enum ResourceDirVerdict {
    /// Something exists at the path, but it is a file.
    IsAFile,
    /// The directory holds neither `reaper.ini` nor is it empty.
    NotAPortableInstallation,
    /// The directory is usable; its path is made canonical.
    Canonicalize,
    /// The path doesn't exist and is absolute: it is kept if a parent of it exists as directory.
    CheckParent,
    /// The path doesn't exist and is relative: it is joined onto the current directory.
    JoinOntoCurrentDir,
}

/// Decides how a directory chosen as REAPER resource directory is treated, from whether its
/// path exists, is a directory, holds `reaper.ini` or is empty, and is absolute.
pub fn resource_dir_verdict(exists: bool, is_dir: bool, ini_or_empty: bool, absolute: bool) -> (r: ResourceDirVerdict)
    ensures
        r == (if exists {
            if !is_dir {
                ResourceDirVerdict::IsAFile
            } else if !ini_or_empty {
                ResourceDirVerdict::NotAPortableInstallation
            } else {
                ResourceDirVerdict::Canonicalize
            }
        } else if absolute {
            ResourceDirVerdict::CheckParent
        } else {
            ResourceDirVerdict::JoinOntoCurrentDir
        }),
{
    if exists {
        if !is_dir {
            ResourceDirVerdict::IsAFile
        } else if !ini_or_empty {
            ResourceDirVerdict::NotAPortableInstallation
        } else {
            ResourceDirVerdict::Canonicalize
        }
    } else if absolute {
        ResourceDirVerdict::CheckParent
    } else {
        ResourceDirVerdict::JoinOntoCurrentDir
    }
}

impl ReaperResourceDir {
    /// Checks and resolves a directory chosen as REAPER resource directory, as
    /// [`resource_dir_verdict`] decides from what the file system answers:
    ///
    /// - An existing path must be a directory that holds `reaper.ini` or is empty (else
    ///   `IsAFile` or `NotAPortableInstallation`); it is made canonical by `canonicalize`.
    /// - A missing absolute path is kept as it is if one of its parents exists and is a
    ///   directory (else `ParentProblem`).
    /// - A missing relative path is joined onto the directory that `current_dir` gives.
    pub fn new<E, C, D>(dir: String, dir_is_empty: E, canonicalize: C, current_dir: D) -> (r: Result<Self, ResourceDirError>)
        where
            E: FnOnce(&str) -> bool,
            C: FnOnce(String) -> Result<String, String>,
            D: FnOnce() -> Result<String, String>,
        requires
            forall|p: &str| dir_is_empty.requires((p,)),
            canonicalize.requires((dir,)),
            current_dir.requires(()),
        ensures
            r matches Ok(d) ==> {
                ||| spec_is_absolute(dir@) && d@ == dir@
                ||| exists|c: String| #[trigger] canonicalize.ensures((dir,), Ok::<String, String>(c)) && d@ == c@
                ||| !spec_is_absolute(dir@) && exists|w: String|
                    #[trigger] current_dir.ensures((), Ok::<String, String>(w)) && d@ == spec_path_join(w@, dir@)
            },
            r matches Err(ResourceDirError::ParentProblem(e)) ==> spec_is_absolute(dir@) && (spec_parent(dir@) is None
                ==> e == FirstExistingParentError::NoExistingParent),
            r matches Err(ResourceDirError::NotAPortableInstallation) ==> exists|p: &str|
                #[trigger] dir_is_empty.ensures((p,), false) && p@ == dir@,
            r matches Err(ResourceDirError::Io(e)) ==> canonicalize.ensures((dir,), Err::<String, String>(e)) || (
            !spec_is_absolute(dir@) && current_dir.ensures((), Err::<String, String>(e))),
    {
        let exists = path_exists(dir.as_str());
        let is_dir = if exists {
            path_is_dir(dir.as_str())
        } else {
            false
        };
        let ini_or_empty = if exists && is_dir {
            contains_reaper_ini_or_is_empty(dir.as_str(), dir_is_empty)
        } else {
            false
        };
        let absolute = is_absolute(dir.as_str());
        match resource_dir_verdict(exists, is_dir, ini_or_empty, absolute) {
            ResourceDirVerdict::IsAFile => Err(ResourceDirError::IsAFile),
            ResourceDirVerdict::NotAPortableInstallation => Err(ResourceDirError::NotAPortableInstallation),
            ResourceDirVerdict::Canonicalize => match canonicalize(dir) {
                Ok(c) => Ok(ReaperResourceDir(c)),
                Err(e) => Err(ResourceDirError::Io(e)),
            },
            ResourceDirVerdict::CheckParent => match get_first_existing_parent_dir(dir.clone()) {
                Ok(_) => Ok(ReaperResourceDir(dir)),
                Err(e) => Err(ResourceDirError::ParentProblem(e)),
            },
            ResourceDirVerdict::JoinOntoCurrentDir => match current_dir() {
                Ok(w) => Ok(ReaperResourceDir(path_join(w.as_str(), dir.as_str()))),
                Err(e) => Err(ResourceDirError::Io(e)),
            },
        }
    }

    /// Whether `reaper.ini` exists in this directory (which makes it a valid REAPER resource
    /// directory). The answer depends on the file system; the file asked about is
    /// [`Self::reaper_ini_file`].
    pub fn contains_reaper_ini(&self) -> bool {
        let file = self.reaper_ini_file();
        path_exists(file.as_str())
    }

    /// Whether this is a valid REAPER resource directory, that is whether `reaper.ini` exists
    /// in it (the same question as [`Self::contains_reaper_ini`]).
    pub fn is_valid(&self) -> bool {
        self.contains_reaper_ini()
    }

    /// `path` joined onto this directory.
    pub fn join(&self, path: &str) -> (r: String)
        ensures
            r@ == spec_path_join(self@, path@),
    {
        path_join(self.0.as_str(), path)
    }

    /// The directory itself.
    pub fn get(&self) -> (r: &str)
        ensures
            r@ == self@,
    {
        self.0.as_str()
    }

    /// The directory itself, by value.
    pub fn into_inner(self) -> (r: String)
        ensures
            r@ == self@,
    {
        self.0
    }

    /// `reaper.ini` in this directory.
    pub fn reaper_ini_file(&self) -> (r: String)
        ensures
            r@ == spec_path_join(self@, "reaper.ini"@),
    {
        self.join(REAPER_INI_FILE_PATH)
    }

    /// `reaper-install-rev.txt` in this directory.
    pub fn reaper_install_rev_file(&self) -> (r: String)
        ensures
            r@ == spec_path_join(self@, "reaper-install-rev.txt"@),
    {
        self.join("reaper-install-rev.txt")
    }

    /// `UserPlugins` in this directory.
    pub fn user_plugins_dir(&self) -> (r: String)
        ensures
            r@ == spec_path_join(self@, "UserPlugins"@),
    {
        self.join("UserPlugins")
    }

    /// `ReaPack` in this directory.
    pub fn reapack_dir(&self) -> (r: String)
        ensures
            r@ == spec_path_join(self@, "ReaPack"@),
    {
        self.join("ReaPack")
    }

    /// `ReaPack/Cache` in this directory.
    pub fn reapack_cache_dir(&self) -> (r: String)
        ensures
            r@ == spec_path_join(self@, "ReaPack/Cache"@),
    {
        self.join(REAPACK_CACHE_DIR_PATH)
    }

    /// `ReaPack/registry.db` in this directory.
    pub fn reapack_registry_db_file(&self) -> (r: String)
        ensures
            r@ == spec_path_join(self@, "ReaPack/registry.db"@),
    {
        self.join(REAPACK_REGISTRY_DB_FILE_PATH)
    }

    /// `reapack.ini` in this directory.
    pub fn reapack_ini_file(&self) -> (r: String)
        ensures
            r@ == spec_path_join(self@, "reapack.ini"@),
    {
        self.join(REAPACK_INI_FILE_PATH)
    }

    /// `ReaBoot` in this directory: ReaBoot's own working directory.
    pub fn temp_reaboot_dir(&self) -> (r: String)
        ensures
            r@ == spec_path_join(self@, "ReaBoot"@),
    {
        self.join("ReaBoot")
    }

    /// When ReaBoot overwrites existing configuration files, it makes backups of them first.
    /// They end up in an execution-specific subdirectory of this directory.
    pub fn backup_parent_dir(&self) -> (r: String)
        ensures
            r@ == spec_path_join(spec_path_join(self@, "ReaBoot"@), "backups"@),
    {
        let temp = self.temp_reaboot_dir();
        path_join(temp.as_str(), "backups")
    }
}

/// The ReaPack registry database lies in the ReaPack directory, and so does the index cache.
pub proof fn law_reapack_files_within_reapack_dir(dir: Seq<char>)
    ensures
        spec_path_join(dir, "ReaPack/registry.db"@) == spec_path_join(spec_path_join(dir, "ReaPack"@), "registry.db"@),
        spec_path_join(dir, "ReaPack/Cache"@) == spec_path_join(spec_path_join(dir, "ReaPack"@), "Cache"@),
{
    reveal_strlit("ReaPack/registry.db");
    reveal_strlit("ReaPack");
    reveal_strlit("registry.db");
    reveal_strlit("ReaPack/Cache");
    reveal_strlit("Cache");
    let a = spec_path_join(dir, "ReaPack"@);
    if dir.len() == 0 {
    } else if dir.last() == '/' {
        assert(dir + "ReaPack/registry.db"@ =~= a + seq!['/'] + "registry.db"@);
        assert(dir + "ReaPack/Cache"@ =~= a + seq!['/'] + "Cache"@);
    } else {
        assert(dir + seq!['/'] + "ReaPack/registry.db"@ =~= a + seq!['/'] + "registry.db"@);
        assert(dir + seq!['/'] + "ReaPack/Cache"@ =~= a + seq!['/'] + "Cache"@);
    }
}

} // verus!
