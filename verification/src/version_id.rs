//! Identifiers of package versions.

use vstd::prelude::*;

use crate::package_id::{LightPackageId, PackageId};
use crate::text::concat3;
use crate::version::VersionName;

verus! {

/// Owned version ID.
#[derive(Clone, Debug)]
pub struct VersionId {
    pub package_id: PackageId,
    pub version: VersionName,
}

impl View for VersionId {
    type V = ((Seq<char>, Seq<char>, Seq<char>), Seq<char>);

    open spec fn view(&self) -> ((Seq<char>, Seq<char>, Seq<char>), Seq<char>) {
        (self.package_id@, self.version@)
    }
}

/// Borrowed version ID.
#[derive(Copy, Clone, Debug)]
pub struct LightVersionId<'a> {
    pub package_id: LightPackageId<'a>,
    pub version: &'a VersionName,
}

/// The text form of a version ID: package name, a space, version name.
pub open spec fn spec_version_id_text(package: Seq<char>, version: Seq<char>) -> Seq<char> {
    package + " "@ + version
}

impl VersionId {
    /// The borrowed form of this ID (whose package ID is [`PackageId::to_borrowed`]).
    pub fn borrowed(&self) -> (r: LightVersionId<'_>)
        ensures
            r.package_id@ == self.package_id@,
            r.version@ == self.version@,
    {
        LightVersionId { package_id: self.package_id.to_borrowed(), version: &self.version }
    }

    /// The text form of this ID: package name, a space, version name.
    pub fn to_display_string(&self) -> (r: String)
        ensures
            r@ == spec_version_id_text(self.package_id.package@, self.version@),
    {
        self.borrowed().to_display_string()
    }
}

impl<'a> LightVersionId<'a> {
    /// The text form of this ID: package name, a space, version name.
    pub fn to_display_string(&self) -> (r: String)
        ensures
            r@ == spec_version_id_text(self.package_id.package@, self.version@),
    {
        concat3(self.package_id.package, " ", self.version.as_str())
    }
}

} // verus!
