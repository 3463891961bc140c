//! Identifiers of packages: remote (repository name), category and package name.

use vstd::prelude::*;

use crate::text::str_eq;

verus! {

/// Owned package ID.
#[derive(Clone, Debug)]
pub struct PackageId {
    pub remote: String,
    pub category: String,
    pub package: String,
}

/// Borrowed package ID.
#[derive(Copy, Clone, Debug)]
pub struct LightPackageId<'a> {
    pub remote: &'a str,
    pub category: &'a str,
    pub package: &'a str,
}

impl View for PackageId {
    type V = (Seq<char>, Seq<char>, Seq<char>);

    open spec fn view(&self) -> (Seq<char>, Seq<char>, Seq<char>) {
        (self.remote@, self.category@, self.package@)
    }
}

impl<'a> View for LightPackageId<'a> {
    type V = (Seq<char>, Seq<char>, Seq<char>);

    open spec fn view(&self) -> (Seq<char>, Seq<char>, Seq<char>) {
        (self.remote@, self.category@, self.package@)
    }
}

impl PackageId {
    /// The borrowed form of this ID: the same remote, category and package name.
    pub fn to_borrowed(&self) -> (r: LightPackageId<'_>)
        ensures
            r@ == self@,
    {
        LightPackageId { remote: self.remote.as_str(), category: self.category.as_str(), package: self.package.as_str() }
    }

    /// A copy of this ID.
    pub fn duplicate(&self) -> (r: PackageId)
        ensures
            r@ == self@,
    {
        PackageId { remote: self.remote.clone(), category: self.category.clone(), package: self.package.clone() }
    }
}

impl<'a> LightPackageId<'a> {
    /// The owned form of this ID.
    pub fn to_owned(&self) -> (r: PackageId)
        ensures
            r@ == self@,
    {
        PackageId { remote: self.remote.to_owned(), category: self.category.to_owned(), package: self.package.to_owned() }
    }
}

impl PartialEq for PackageId {
    fn eq(&self, other: &Self) -> (r: bool) {
        self.remote == other.remote && self.category == other.category && self.package == other.package
    }
}

impl vstd::std_specs::cmp::PartialEqSpecImpl for PackageId {
    open spec fn obeys_eq_spec() -> bool {
        true
    }

    open spec fn eq_spec(&self, other: &Self) -> bool {
        self@ == other@
    }
}

impl Eq for PackageId {}

impl<'a> PartialEq for LightPackageId<'a> {
    fn eq(&self, other: &Self) -> (r: bool) {
        str_eq(self.remote, other.remote) && str_eq(self.category, other.category) && str_eq(self.package, other.package)
    }
}

impl<'a> vstd::std_specs::cmp::PartialEqSpecImpl for LightPackageId<'a> {
    open spec fn obeys_eq_spec() -> bool {
        true
    }

    open spec fn eq_spec(&self, other: &Self) -> bool {
        self@ == other@
    }
}

impl<'a> Eq for LightPackageId<'a> {}

/// Borrowing an ID and taking the borrowed form back to an owned one gives the same ID.
pub proof fn law_borrow_roundtrip(id: PackageId, borrowed: LightPackageId, back: PackageId)
    requires
        borrowed@ == id@,
        back@ == borrowed@,
    ensures
        back@ == id@,
{
}

} // verus!
