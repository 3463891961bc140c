//! Version names and references to package versions.

use vstd::prelude::*;

use crate::text::str_eq;

verus! {

/// Name of a version (of a package or of REAPER), as written, for example `1.2.3-pre`.
#[derive(Clone, Debug)]
pub struct VersionName {
    text: String,
}

impl View for VersionName {
    type V = Seq<char>;

    closed spec fn view(&self) -> Seq<char> {
        self.text@
    }
}

/// Why a text is not a version name.
#[derive(Copy, Clone, PartialEq, Eq, Structural, Debug)]
pub enum ParseVersionNameError {
    Empty,
}

impl VersionName {
    /// Takes `s` as a version name. Any non-empty text is accepted.
    pub fn parse(s: &str) -> (r: Result<VersionName, ParseVersionNameError>)
        ensures
            r is Err <==> s@.len() == 0,
            r matches Ok(v) ==> v@ == s@,
    {
        if s.unicode_len() == 0 {
            Err(ParseVersionNameError::Empty)
        } else {
            Ok(VersionName { text: s.to_owned() })
        }
    }

    /// The version name as written.
    pub fn as_str(&self) -> (r: &str)
        ensures
            r@ == self@,
    {
        self.text.as_str()
    }

    /// A copy of this version name.
    pub fn duplicate(&self) -> (r: VersionName)
        ensures
            r@ == self@,
    {
        VersionName { text: self.text.clone() }
    }
}

impl PartialEq for VersionName {
    fn eq(&self, other: &Self) -> (r: bool) {
        self.text == other.text
    }
}

impl vstd::std_specs::cmp::PartialEqSpecImpl for VersionName {
    open spec fn obeys_eq_spec() -> bool {
        true
    }

    open spec fn eq_spec(&self, other: &Self) -> bool {
        self@ == other@
    }
}

impl Eq for VersionName {}

/// Reference to a package version: `latest` (latest version, excluding pre-releases),
/// `latest-pre` (latest version including pre-releases) or a specific version name.
#[derive(Clone, Debug)]
pub enum VersionRef {
    /// The latest available version of a package, excluding pre-releases.
    Latest,
    /// The latest available version of a package, including pre-releases.
    LatestPre,
    /// A specific version of a package.
    Specific(VersionName),
}

/// Text of `latest`.
pub open spec fn latest_text() -> Seq<char> {
    "latest"@
}

/// Text of `latest-pre`.
pub open spec fn latest_pre_text() -> Seq<char> {
    "latest-pre"@
}

/// Abstract value of a version reference: 0 = latest, 1 = latest-pre, 2 = specific with name.
pub open spec fn version_ref_model(r: VersionRef) -> (int, Seq<char>) {
    match r {
        VersionRef::Latest => (0, Seq::empty()),
        VersionRef::LatestPre => (1, Seq::empty()),
        VersionRef::Specific(v) => (2, v@),
    }
}

/// The text form of a version reference.
pub open spec fn spec_version_ref_text(r: VersionRef) -> Seq<char> {
    match r {
        VersionRef::Latest => latest_text(),
        VersionRef::LatestPre => latest_pre_text(),
        VersionRef::Specific(v) => v@,
    }
}

/// The version reference a text stands for, if any.
pub open spec fn spec_parse_version_ref(s: Seq<char>) -> Option<(int, Seq<char>)> {
    if s == latest_text() {
        Some((0, Seq::empty()))
    } else if s == latest_pre_text() {
        Some((1, Seq::empty()))
    } else if s.len() == 0 {
        None
    } else {
        Some((2, s))
    }
}

/// Why a text is not a version reference.
#[derive(Copy, Clone, PartialEq, Eq, Structural, Debug)]
pub enum ParseVersionRefError {
    InvalidVersionRef,
}

impl VersionRef {
    /// Reads `latest`, `latest-pre` or a version name.
    pub fn parse(s: &str) -> (r: Result<VersionRef, ParseVersionRefError>)
        ensures
            match r {
                Ok(v) => spec_parse_version_ref(s@) == Some(version_ref_model(v)),
                Err(_) => spec_parse_version_ref(s@) is None,
            },
    {
        if str_eq(s, "latest") {
            Ok(VersionRef::Latest)
        } else if str_eq(s, "latest-pre") {
            Ok(VersionRef::LatestPre)
        } else {
            match VersionName::parse(s) {
                Ok(v) => Ok(VersionRef::Specific(v)),
                Err(_) => Err(ParseVersionRefError::InvalidVersionRef),
            }
        }
    }

    /// The text form: `latest`, `latest-pre` or the version name.
    pub fn to_text(&self) -> (r: String)
        ensures
            r@ == spec_version_ref_text(*self),
    {
        match self {
            VersionRef::Latest => "latest".to_owned(),
            VersionRef::LatestPre => "latest-pre".to_owned(),
            VersionRef::Specific(v) => v.as_str().to_owned(),
        }
    }

    /// A copy of this version reference.
    pub fn duplicate(&self) -> (r: VersionRef)
        ensures
            version_ref_model(r) == version_ref_model(*self),
    {
        match self {
            VersionRef::Latest => VersionRef::Latest,
            VersionRef::LatestPre => VersionRef::LatestPre,
            VersionRef::Specific(v) => VersionRef::Specific(v.duplicate()),
        }
    }
}

impl Default for VersionRef {
    /// Without further information, the latest stable version is meant.
    fn default() -> (r: Self)
        ensures
            r is Latest,
    {
        VersionRef::Latest
    }
}

impl From<VersionName> for VersionRef {
    fn from(value: VersionName) -> (r: Self)
        ensures
            r == VersionRef::Specific(value),
    {
        VersionRef::Specific(value)
    }
}

impl vstd::std_specs::convert::FromSpecImpl<VersionName> for VersionRef {
    open spec fn obeys_from_spec() -> bool {
        true
    }

    open spec fn from_spec(v: VersionName) -> Self {
        VersionRef::Specific(v)
    }
}

impl PartialEq for VersionRef {
    fn eq(&self, other: &Self) -> (r: bool) {
        match (self, other) {
            (VersionRef::Latest, VersionRef::Latest) => true,
            (VersionRef::LatestPre, VersionRef::LatestPre) => true,
            (VersionRef::Specific(a), VersionRef::Specific(b)) => str_eq(a.as_str(), b.as_str()),
            _ => false,
        }
    }
}

impl vstd::std_specs::cmp::PartialEqSpecImpl for VersionRef {
    open spec fn obeys_eq_spec() -> bool {
        true
    }

    open spec fn eq_spec(&self, other: &Self) -> bool {
        version_ref_model(*self) == version_ref_model(*other)
    }
}

impl Eq for VersionRef {}

/// Reading the text form of a version reference gives that reference back, unless it's a
/// specific version literally named `latest` or `latest-pre`.
pub proof fn law_version_ref_text_roundtrip(r: VersionRef)
    requires
        spec_version_ref_text(r) != latest_text(),
        spec_version_ref_text(r) != latest_pre_text(),
        r matches VersionRef::Specific(v) ==> v@.len() > 0,
    ensures
        spec_parse_version_ref(spec_version_ref_text(r)) == Some(version_ref_model(r)),
{
}

/// Whatever text is read as a version reference is its text form.
pub proof fn law_version_ref_parse_roundtrip(s: Seq<char>)
    requires
        spec_parse_version_ref(s) is Some,
    ensures
        ({
            let (kind, name) = spec_parse_version_ref(s)->0;
            &&& kind == 0 ==> s == latest_text()
            &&& kind == 1 ==> s == latest_pre_text()
            &&& kind == 2 ==> s == name
        }),
{
}

} // verus!
