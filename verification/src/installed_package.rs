//! Packages as recorded in ReaPack's registry database.

use vstd::prelude::*;

use crate::package_id::LightPackageId;
use crate::section::SectionSet;
use crate::text::concat3;
use crate::version::VersionName;

verus! {

/// Package type, numbered as in ReaPack's registry database.
#[derive(Copy, Clone, PartialEq, Eq, Structural, PartialOrd, Ord, Hash, Debug)]
pub enum PackageType {
    Script,
    Extension,
    Effect,
    Data,
    Theme,
    LangPack,
    WebInterface,
    ProjectTemplate,
    TrackTemplate,
    MidiNoteNames,
    AutomationItem,
}

/// Database number of a package type.
pub open spec fn spec_package_type_code(t: PackageType) -> i32 {
    match t {
        PackageType::Script => 1,
        PackageType::Extension => 2,
        PackageType::Effect => 3,
        PackageType::Data => 4,
        PackageType::Theme => 5,
        PackageType::LangPack => 6,
        PackageType::WebInterface => 7,
        PackageType::ProjectTemplate => 8,
        PackageType::TrackTemplate => 9,
        PackageType::MidiNoteNames => 10,
        PackageType::AutomationItem => 11,
    }
}

/// Whether a database number stands for a known package type.
pub open spec fn is_known_package_type_code(code: i32) -> bool {
    1 <= code <= 11
}

impl PackageType {
    /// Database number of this package type.
    pub fn code(&self) -> (r: i32)
        ensures
            r == spec_package_type_code(*self),
    {
        match self {
            PackageType::Script => 1,
            PackageType::Extension => 2,
            PackageType::Effect => 3,
            PackageType::Data => 4,
            PackageType::Theme => 5,
            PackageType::LangPack => 6,
            PackageType::WebInterface => 7,
            PackageType::ProjectTemplate => 8,
            PackageType::TrackTemplate => 9,
            PackageType::MidiNoteNames => 10,
            PackageType::AutomationItem => 11,
        }
    }

    /// The package type with the given database number.
    pub fn from_code(code: i32) -> (r: Option<PackageType>)
        ensures
            r matches Some(t) ==> spec_package_type_code(t) == code,
            r is Some <==> is_known_package_type_code(code),
    {
        match code {
            1 => Some(PackageType::Script),
            2 => Some(PackageType::Extension),
            3 => Some(PackageType::Effect),
            4 => Some(PackageType::Data),
            5 => Some(PackageType::Theme),
            6 => Some(PackageType::LangPack),
            7 => Some(PackageType::WebInterface),
            8 => Some(PackageType::ProjectTemplate),
            9 => Some(PackageType::TrackTemplate),
            10 => Some(PackageType::MidiNoteNames),
            11 => Some(PackageType::AutomationItem),
            _ => None,
        }
    }
}

/// Package type as read from the database: unknown numbers are kept as they are, because
/// ReaBoot reads installed packages only to learn which files ReaPack manages.
#[derive(Copy, Clone, PartialEq, Eq, Structural, Debug)]
pub enum InstalledPackageType {
    Known(PackageType),
    Unknown(i32),
}

/// Version name as read from the database: an invalid one is kept as text, because ReaBoot
/// reads installed packages only to learn which files ReaPack manages.
#[derive(Clone, Debug)]
pub enum InstalledVersionName {
    Valid(VersionName),
    Invalid(String),
}

/// Text of an installed version name.
pub open spec fn spec_installed_version_text(v: InstalledVersionName) -> Seq<char> {
    match v {
        InstalledVersionName::Valid(n) => n@,
        InstalledVersionName::Invalid(s) => s@,
    }
}

impl InstalledVersionName {
    /// The text form of this version name.
    pub fn to_display_string(&self) -> (r: String)
        ensures
            r@ == spec_installed_version_text(*self),
    {
        match self {
            InstalledVersionName::Valid(v) => v.as_str().to_owned(),
            InstalledVersionName::Invalid(s) => s.clone(),
        }
    }
}

/// A file installed by ReaPack.
#[derive(Debug)]
pub struct InstalledFile {
    /// Path relative to the REAPER resource directory.
    pub path: String,
    /// `None` means implicit section (-1 in the database, `true` in the index).
    pub sections: Option<SectionSet>,
    /// Overrides the package type.
    pub typ: Option<InstalledPackageType>,
}

/// A package installed by ReaPack.
#[derive(Debug)]
pub struct InstalledPackage {
    pub remote: String,
    pub category: String,
    pub package: String,
    pub desc: String,
    pub typ: InstalledPackageType,
    pub version: InstalledVersionName,
    pub author: String,
    pub files: Vec<InstalledFile>,
}

impl InstalledPackage {
    /// The ID of this package.
    pub fn package_id(&self) -> (r: LightPackageId<'_>)
        ensures
            r@ == (self.remote@, self.category@, self.package@),
    {
        LightPackageId { remote: self.remote.as_str(), category: self.category.as_str(), package: self.package.as_str() }
    }

    /// The text form: package name, a space, version.
    pub fn to_display_string(&self) -> (r: String)
        ensures
            r@ == self.package@ + " "@ + spec_installed_version_text(self.version),
    {
        let v = self.version.to_display_string();
        concat3(self.package.as_str(), " ", v.as_str())
    }
}

} // verus!
