//! Package URLs: a repository index URL plus a fragment that names a package and a version.
//!
//! - **PACKAGE_URL =** `{REPOSITORY_INDEX_URL}#{PACKAGE_VERSION_REF}`
//! - **PACKAGE_VERSION_REF =** `p={PACKAGE_PATH}&v={VERSION_REF}`
//! - **PACKAGE_PATH =** `{CATEGORY}/{PACKAGE_NAME}`
//! - **VERSION_REF =** `{VERSION_NAME}` or `latest` or `latest-pre`
//!
//! Example: `https://github.com/ReaTeam/ReaScripts/raw/master/index.xml#p=Various/rodilab_Color%20palette.lua&v=1.2.3-pre`

use vstd::prelude::*;

use crate::path::{last_index_of, lemma_last_index_bounds, lemma_last_index_of, lemma_last_index_of_none};
use crate::text::{rfind_char, str_eq};
use crate::version::{spec_parse_version_ref, version_ref_model, VersionRef};

verus! {

/// `url::ParseError`, the reason why a text is not a URL.
#[verifier::external_type_specification]
#[verifier::external_body]
pub struct ExUrlParseError(url::ParseError);

/// What `url::Url::parse` makes of a text: the serialization of the parsed URL, or `None` if
/// the text is not an absolute URL.
pub uninterp spec fn spec_url_parse(input: Seq<char>) -> Option<Seq<char>>;

/// `url::Url::parse`, handing back the serialization of the parsed URL (`String::from`).
/// Claims only that the result is [`spec_url_parse`] of the input.
#[verifier::external_body]
pub(crate) fn parse_url(input: &str) -> (r: Result<String, url::ParseError>)
    ensures
        match r {
            Ok(s) => spec_url_parse(input@) == Some(s@),
            Err(_) => spec_url_parse(input@) is None,
        },
{
    match url::Url::parse(input) {
        Ok(u) => Ok(String::from(u)),
        Err(e) => Err(e),
    }
}

/// What `url::form_urlencoded::parse` makes of a text: its `&`-separated name/value pairs,
/// `+` and percent-escapes decoded.
pub uninterp spec fn spec_form_urlencoded_parse(input: Seq<char>) -> Seq<(Seq<char>, Seq<char>)>;

/// The pairs of strings as character sequences.
pub open spec fn pairs_view(v: Seq<(String, String)>) -> Seq<(Seq<char>, Seq<char>)> {
    v.map_values(|p: (String, String)| (p.0@, p.1@))
}

/// `url::form_urlencoded::parse` on the bytes of `input`, each pair turned into owned strings.
/// Claims only that the result is [`spec_form_urlencoded_parse`] of the input.
#[verifier::external_body]
fn form_urlencoded_pairs(input: &str) -> (r: Vec<(String, String)>)
    ensures
        pairs_view(r@) == spec_form_urlencoded_parse(input@),
{
    url::form_urlencoded::parse(input.as_bytes()).into_owned().collect()
}

/// What `url::Url::parse` makes of a text, split at the fragment: the serialization of the URL
/// with the fragment removed (`Url::set_fragment(None)`) and the fragment (`Url::fragment`),
/// or `None` if the text is not an absolute URL.
pub uninterp spec fn spec_url_split_fragment(input: Seq<char>) -> Option<(Seq<char>, Option<Seq<char>>)>;

/// `url::Url::parse`, then `Url::fragment` and `Url::set_fragment(None)`: the URL without its
/// fragment (`String::from`) and the fragment. Claims only that the result is
/// [`spec_url_split_fragment`] of the input.
#[verifier::external_body]
fn parse_url_split_fragment(input: &str) -> (r: Result<(String, Option<String>), url::ParseError>)
    ensures
        match r {
            Ok((base, fragment)) => spec_url_split_fragment(input@) == Some(
                (
                    base@,
                    match fragment {
                        Some(f) => Some(f@),
                        None => None,
                    },
                ),
            ),
            Err(_) => spec_url_split_fragment(input@) is None,
        },
{
    match url::Url::parse(input) {
        Ok(mut u) => {
            let fragment = u.fragment().map(String::from);
            u.set_fragment(None);
            Ok((String::from(u), fragment))
        },
        Err(e) => Err(e),
    }
}

/// Why a text is not a package URL.
#[derive(Debug)]
pub enum ParsePackageUrlError {
    /// The text is not a URL.
    InvalidUrl(url::ParseError),
    /// The URL has no fragment.
    MissingFragmentIdentifier,
    /// The fragment has no `p`.
    MissingPackagePath,
    /// The package path has no `/`.
    InvalidPackagePath,
    /// The version reference is not valid.
    InvalidVersionRef,
}

/// A package path identifies a package within a repository index, without referring to a
/// version: `{CATEGORY}/{PACKAGE_NAME}`.
#[derive(Clone, Debug)]
pub struct PackagePath {
    /// May contain `/` characters.
    category: String,
    /// The package name is a file name, so it doesn't contain `/` characters.
    package_name: String,
}

impl View for PackagePath {
    type V = (Seq<char>, Seq<char>);

    closed spec fn view(&self) -> (Seq<char>, Seq<char>) {
        (self.category@, self.package_name@)
    }
}

/// The package path a text stands for: everything before the last `/` is the category,
/// everything after it the package name.
pub open spec fn spec_parse_package_path(s: Seq<char>) -> Option<(Seq<char>, Seq<char>)> {
    let i = last_index_of(s, '/');
    if i < 0 {
        None
    } else {
        Some((s.subrange(0, i), s.subrange(i + 1, s.len() as int)))
    }
}

impl PackagePath {
    /// Reads `{CATEGORY}/{PACKAGE_NAME}`, split at the last `/`.
    pub fn parse(s: &str) -> (r: Result<PackagePath, ParsePackageUrlError>)
        ensures
            match r {
                Ok(p) => spec_parse_package_path(s@) == Some(p@),
                Err(e) => spec_parse_package_path(s@) is None && e is InvalidPackagePath,
            },
    {
        let n = s.unicode_len();
        match rfind_char(s, '/') {
            None => {
                proof {
                    lemma_last_index_of_none(s@, '/');
                }
                Err(ParsePackageUrlError::InvalidPackagePath)
            },
            Some(i) => {
                proof {
                    lemma_last_index_of(s@, '/', i as int);
                }
                let category = s.substring_char(0, i).to_owned();
                let package_name = s.substring_char(i + 1, n).to_owned();
                Ok(PackagePath { category, package_name })
            },
        }
    }

    /// The category.
    pub fn category(&self) -> (r: &str)
        ensures
            r@ == self@.0,
    {
        self.category.as_str()
    }

    /// The package name.
    pub fn package_name(&self) -> (r: &str)
        ensures
            r@ == self@.1,
    {
        self.package_name.as_str()
    }

    /// A copy of this package path.
    pub fn duplicate(&self) -> (r: PackagePath)
        ensures
            r@ == self@,
    {
        PackagePath { category: self.category.clone(), package_name: self.package_name.clone() }
    }
}

/// A package version reference identifies a version of a package within a repository index:
/// `p={PACKAGE_PATH}&v={VERSION_REF}`.
///
/// - It's built like a URL query string: `=`-delimited key-value pairs separated by `&`,
///   encoded with `application/x-www-form-urlencoded`.
/// - `p` is required.
/// - `v` is optional and defaults to `latest`.
/// - Unknown keys are ignored.
#[derive(Clone, Debug)]
pub struct PackageVersionRef {
    package_path: PackagePath,
    version_ref: VersionRef,
}

impl View for PackageVersionRef {
    type V = ((Seq<char>, Seq<char>), (int, Seq<char>));

    closed spec fn view(&self) -> ((Seq<char>, Seq<char>), (int, Seq<char>)) {
        (self.package_path@, version_ref_model(self.version_ref))
    }
}

/// Error kinds of reading a package version reference, as a number: 0 missing package path,
/// 1 invalid package path, 2 invalid version reference.
pub open spec fn error_kind(e: ParsePackageUrlError) -> int {
    match e {
        ParsePackageUrlError::MissingPackagePath => 0,
        ParsePackageUrlError::InvalidPackagePath => 1,
        ParsePackageUrlError::InvalidVersionRef => 2,
        ParsePackageUrlError::MissingFragmentIdentifier => 3,
        ParsePackageUrlError::InvalidUrl(_) => 4,
    }
}

/// State while reading the pairs: the package path read so far and the version reference.
pub type PairsState = (Option<(Seq<char>, Seq<char>)>, (int, Seq<char>));

/// The version reference `latest` as abstract value.
pub open spec fn latest_model() -> (int, Seq<char>) {
    (0, Seq::empty())
}

/// One pair applied to the state: `p` sets the package path, `v` the version reference,
/// other keys change nothing. The result is the error kind if a value is invalid.
pub open spec fn apply_pair(st: PairsState, pair: (Seq<char>, Seq<char>)) -> Result<PairsState, int> {
    if pair.0 == "p"@ {
        match spec_parse_package_path(pair.1) {
            None => Err(1),
            Some(pp) => Ok((Some(pp), st.1)),
        }
    } else if pair.0 == "v"@ {
        match spec_parse_version_ref(pair.1) {
            None => Err(2),
            Some(v) => Ok((st.0, v)),
        }
    } else {
        Ok(st)
    }
}

/// The first `n` pairs applied in order, starting without package path and with `latest`;
/// stops at the first invalid value.
pub open spec fn apply_pairs(pairs: Seq<(Seq<char>, Seq<char>)>, n: nat) -> Result<PairsState, int>
    decreases n,
{
    if n == 0 {
        Ok((None, latest_model()))
    } else {
        match apply_pairs(pairs, (n - 1) as nat) {
            Err(e) => Err(e),
            Ok(st) => apply_pair(st, pairs[n - 1]),
        }
    }
}

/// The package version reference that a sequence of key/value pairs stands for, or the error
/// kind.
pub open spec fn spec_version_ref_from_pairs(pairs: Seq<(Seq<char>, Seq<char>)>) -> Result<
    ((Seq<char>, Seq<char>), (int, Seq<char>)),
    int,
> {
    match apply_pairs(pairs, pairs.len()) {
        Err(e) => Err(e),
        Ok(st) => match st.0 {
            None => Err(0),
            Some(pp) => Ok((pp, st.1)),
        },
    }
}

impl PackageVersionRef {
    /// Builds the reference from already decoded key/value pairs, in their order: `p` sets the
    /// package path, `v` the version reference (the last one of each wins), other keys are
    /// ignored. The first invalid value ends the reading with its error.
    pub fn from_pairs(pairs: &Vec<(String, String)>) -> (r: Result<PackageVersionRef, ParsePackageUrlError>)
        ensures
            match r {
                Ok(v) => spec_version_ref_from_pairs(pairs_view(pairs@)) == Ok::<_, int>(v@),
                Err(e) => spec_version_ref_from_pairs(pairs_view(pairs@)) == Err::<((Seq<char>, Seq<char>), (int, Seq<char>)), int>(error_kind(e)),
            },
    {
        let ghost pv = pairs_view(pairs@);
        let mut package_path: Option<PackagePath> = None;
        let mut version_ref = VersionRef::Latest;
        let mut i: usize = 0;
        while i < pairs.len()
            invariant
                pv == pairs_view(pairs@),
                i <= pairs@.len(),
                apply_pairs(pv, i as nat) == Ok::<PairsState, int>((
                    match package_path {
                        Some(p) => Some(p@),
                        None => None,
                    },
                    version_ref_model(version_ref),
                )),
            decreases pairs.len() - i,
        {
            let key = pairs[i].0.as_str();
            let value = pairs[i].1.as_str();
            assert(pv[i as int] == (key@, value@));
            if str_eq(key, "p") {
                match PackagePath::parse(value) {
                    Ok(p) => {
                        package_path = Some(p);
                    },
                    Err(e) => {
                        assert(apply_pairs(pv, (i + 1) as nat) == Err::<PairsState, int>(1));
                        proof {
                            lemma_apply_pairs_error_sticks(pv, (i + 1) as nat, pv.len());
                        }
                        return Err(e);
                    },
                }
            } else if str_eq(key, "v") {
                match VersionRef::parse(value) {
                    Ok(v) => {
                        version_ref = v;
                    },
                    Err(_) => {
                        assert(apply_pairs(pv, (i + 1) as nat) == Err::<PairsState, int>(2));
                        proof {
                            lemma_apply_pairs_error_sticks(pv, (i + 1) as nat, pv.len());
                        }
                        return Err(ParsePackageUrlError::InvalidVersionRef);
                    },
                }
            }
            i = i + 1;
        }
        assert(pv.len() == pairs@.len());
        match package_path {
            None => Err(ParsePackageUrlError::MissingPackagePath),
            Some(p) => Ok(PackageVersionRef { package_path: p, version_ref }),
        }
    }

    /// Reads `p={PACKAGE_PATH}&v={VERSION_REF}` (form-urlencoded).
    pub fn parse(s: &str) -> (r: Result<PackageVersionRef, ParsePackageUrlError>)
        ensures
            match r {
                Ok(v) => spec_version_ref_from_pairs(spec_form_urlencoded_parse(s@)) == Ok::<_, int>(v@),
                Err(e) => spec_version_ref_from_pairs(spec_form_urlencoded_parse(s@)) == Err::<((Seq<char>, Seq<char>), (int, Seq<char>)), int>(error_kind(e)),
            },
    {
        let pairs = form_urlencoded_pairs(s);
        Self::from_pairs(&pairs)
    }

    /// The package path.
    pub fn package_path(&self) -> (r: &PackagePath)
        ensures
            r@ == self@.0,
    {
        &self.package_path
    }

    /// The version reference.
    pub fn version_ref(&self) -> (r: &VersionRef)
        ensures
            version_ref_model(*r) == self@.1,
    {
        &self.version_ref
    }

    /// The category of the package path.
    pub fn category(&self) -> (r: &str)
        ensures
            r@ == self@.0.0,
    {
        self.package_path().category()
    }

    /// The package name of the package path.
    pub fn package_name(&self) -> (r: &str)
        ensures
            r@ == self@.0.1,
    {
        self.package_path().package_name()
    }

    /// A copy of this reference.
    pub fn duplicate(&self) -> (r: PackageVersionRef)
        ensures
            r@ == self@,
    {
        PackageVersionRef { package_path: self.package_path.duplicate(), version_ref: self.version_ref.duplicate() }
    }
}

/// Reading pairs fails only with an invalid package path or version reference.
proof fn lemma_apply_pairs_error_kinds(pairs: Seq<(Seq<char>, Seq<char>)>, n: nat)
    ensures
        apply_pairs(pairs, n) matches Err(e) ==> e == 1 || e == 2,
    decreases n,
{
    if n > 0 {
        lemma_apply_pairs_error_kinds(pairs, (n - 1) as nat);
    }
}

/// Once reading the pairs has failed, it stays failed with the same error.
proof fn lemma_apply_pairs_error_sticks(pairs: Seq<(Seq<char>, Seq<char>)>, m: nat, n: nat)
    requires
        m <= n,
        apply_pairs(pairs, m) is Err,
    ensures
        apply_pairs(pairs, n) == apply_pairs(pairs, m),
    decreases n - m,
{
    if m < n {
        lemma_apply_pairs_error_sticks(pairs, m, (n - 1) as nat);
    }
}


/// A package URL: a repository index URL (without `#`) plus a package version reference,
/// which is the URL's fragment.
#[derive(Clone, Debug)]
pub struct PackageUrl {
    /// Repository index URL, without fragment.
    repository_url: String,
    /// Package version reference.
    package_version_ref: PackageVersionRef,
}

impl View for PackageUrl {
    type V = (Seq<char>, ((Seq<char>, Seq<char>), (int, Seq<char>)));

    closed spec fn view(&self) -> (Seq<char>, ((Seq<char>, Seq<char>), (int, Seq<char>))) {
        (self.repository_url@, self.package_version_ref@)
    }
}

/// The package URL that a text stands for (`None` when the text is not a URL), as repository
/// URL (the URL without its fragment) plus the reading of the fragment (or the error code of a
/// missing fragment, see [`error_kind`]).
pub open spec fn spec_parse_package_url(input: Seq<char>) -> Option<
    Result<(Seq<char>, ((Seq<char>, Seq<char>), (int, Seq<char>))), int>,
> {
    match spec_url_split_fragment(input) {
        None => None,
        Some((repo, None)) => Some(Err(3)),
        Some((repo, Some(fragment))) => Some(
            match spec_version_ref_from_pairs(spec_form_urlencoded_parse(fragment)) {
                Err(e) => Err(e),
                Ok(v) => Ok((repo, v)),
            },
        ),
    }}

impl PackageUrl {
    /// Reads a package URL: the text is parsed as URL, its fragment as package version
    /// reference, and the URL without fragment becomes the repository URL.
    pub fn parse(input: &str) -> (r: Result<PackageUrl, ParsePackageUrlError>)
        ensures
            match r {
                Ok(u) => spec_parse_package_url(input@) == Some(Ok::<_, int>(u@)),
                Err(ParsePackageUrlError::InvalidUrl(_)) => spec_parse_package_url(input@) is None,
                Err(e) => spec_parse_package_url(input@) == Some(
                    Err::<(Seq<char>, ((Seq<char>, Seq<char>), (int, Seq<char>))), int>(error_kind(e)),
                ),
            },
    {
        let (repository_url, fragment) = match parse_url_split_fragment(input) {
            Ok(parts) => parts,
            Err(e) => return Err(ParsePackageUrlError::InvalidUrl(e)),
        };
        let fragment = match fragment {
            Some(f) => f,
            None => return Err(ParsePackageUrlError::MissingFragmentIdentifier),
        };
        let package_version_ref = match PackageVersionRef::parse(fragment.as_str()) {
            Ok(v) => v,
            Err(e) => {
                proof {
                    lemma_apply_pairs_error_kinds(spec_form_urlencoded_parse(fragment@), spec_form_urlencoded_parse(fragment@).len());
                }
                return Err(e);
            },
        };
        Ok(PackageUrl { repository_url, package_version_ref })
    }

    /// Builds a package URL from its parts.
    pub fn from_parts(repository_url: String, package_version_ref: PackageVersionRef) -> (r: PackageUrl)
        ensures
            r@ == (repository_url@, package_version_ref@),
    {
        PackageUrl { repository_url, package_version_ref }
    }

    /// The repository index URL.
    pub fn repository_url(&self) -> (r: &str)
        ensures
            r@ == self@.0,
    {
        self.repository_url.as_str()
    }

    /// The package version reference.
    pub fn package_version_ref(&self) -> (r: &PackageVersionRef)
        ensures
            r@ == self@.1,
    {
        &self.package_version_ref
    }

    /// The package path.
    pub fn package_path(&self) -> (r: &PackagePath)
        ensures
            r@ == self@.1.0,
    {
        self.package_version_ref().package_path()
    }

    /// The version reference.
    pub fn version_ref(&self) -> (r: &VersionRef)
        ensures
            version_ref_model(*r) == self@.1.1,
    {
        self.package_version_ref().version_ref()
    }

    /// The category of the package.
    pub fn category(&self) -> (r: &str)
        ensures
            r@ == self@.1.0.0,
    {
        self.package_path().category()
    }

    /// The name of the package.
    pub fn package_name(&self) -> (r: &str)
        ensures
            r@ == self@.1.0.1,
    {
        self.package_path().package_name()
    }

    /// A copy of this package URL.
    pub fn duplicate(&self) -> (r: PackageUrl)
        ensures
            r@ == self@,
    {
        PackageUrl { repository_url: self.repository_url.clone(), package_version_ref: self.package_version_ref.duplicate() }
    }
}

impl PackageVersionRef {
    /// Builds a package version reference from its parts.
    pub fn from_parts(package_path: PackagePath, version_ref: VersionRef) -> (r: PackageVersionRef)
        ensures
            r@ == (package_path@, version_ref_model(version_ref)),
    {
        PackageVersionRef { package_path, version_ref }
    }
}

impl PackagePath {
    /// Builds a package path from category and package name.
    pub fn from_parts(category: String, package_name: String) -> (r: PackagePath)
        ensures
            r@ == (category@, package_name@),
    {
        PackagePath { category, package_name }
    }
}


/// A package path splits at its last `/`: the package name holds no `/`, and category, `/`
/// and package name give back the text.
pub proof fn law_package_path_split(s: Seq<char>)
    requires
        spec_parse_package_path(s) is Some,
    ensures
        ({
            let (category, name) = spec_parse_package_path(s)->0;
            &&& forall|j: int| 0 <= j < name.len() ==> name[j] != '/'
            &&& category + seq!['/'] + name == s
        }),
{
    let i = last_index_of(s, '/');
    lemma_last_index_bounds(s, '/');
    lemma_last_index_is_last(s, '/');
    let (category, name) = spec_parse_package_path(s)->0;
    assert forall|j: int| 0 <= j < name.len() implies name[j] != '/' by {
        assert(name[j] == s[i + 1 + j]);
    }
    assert(category + seq!['/'] + name =~= s);
}

proof fn lemma_last_index_is_last(s: Seq<char>, c: char)
    ensures
        forall|j: int| last_index_of(s, c) < j < s.len() ==> s[j] != c,
    decreases s.len(),
{
    if s.len() > 0 && s.last() != c {
        lemma_last_index_is_last(s.drop_last(), c);
        lemma_last_index_bounds(s, c);
        assert forall|j: int| last_index_of(s, c) < j < s.len() implies s[j] != c by {
            if j < s.len() - 1 {
                assert(s[j] == s.drop_last()[j]);
            }
        }
    }
}

/// A pair whose key is neither `p` nor `v`.
pub open spec fn is_unknown_pair(pair: (Seq<char>, Seq<char>)) -> bool {
    pair.0 != "p"@ && pair.0 != "v"@
}

proof fn lemma_insert_unknown(pairs: Seq<(Seq<char>, Seq<char>)>, j: int, u: (Seq<char>, Seq<char>), m: nat)
    requires
        0 <= j <= pairs.len(),
        is_unknown_pair(u),
        m <= pairs.len(),
    ensures
        m <= j ==> apply_pairs(pairs.insert(j, u), m) == apply_pairs(pairs, m),
        m >= j ==> apply_pairs(pairs.insert(j, u), m + 1) == apply_pairs(pairs, m),
    decreases m,
{
    let ins = pairs.insert(j, u);
    if m > 0 {
        lemma_insert_unknown(pairs, j, u, (m - 1) as nat);
        if m <= j {
            assert(ins[m - 1] == pairs[m - 1]);
        } else {
            assert(ins[m as int] == pairs[m - 1]);
        }
    }
    if m == j {
        lemma_insert_unknown_step(pairs, j, u);
    }
}

proof fn lemma_insert_unknown_step(pairs: Seq<(Seq<char>, Seq<char>)>, j: int, u: (Seq<char>, Seq<char>))
    requires
        0 <= j <= pairs.len(),
        is_unknown_pair(u),
    ensures
        apply_pairs(pairs.insert(j, u), (j + 1) as nat) == apply_pairs(pairs.insert(j, u), j as nat),
        apply_pairs(pairs.insert(j, u), j as nat) == apply_pairs(pairs, j as nat),
    decreases j,
{
    let ins = pairs.insert(j, u);
    assert(ins[j] == u);
    lemma_prefix_agree(pairs, ins, j as nat);
}

proof fn lemma_prefix_agree(a: Seq<(Seq<char>, Seq<char>)>, b: Seq<(Seq<char>, Seq<char>)>, n: nat)
    requires
        n <= a.len(),
        n <= b.len(),
        forall|i: int| 0 <= i < n ==> a[i] == b[i],
    ensures
        apply_pairs(a, n) == apply_pairs(b, n),
    decreases n,
{
    if n > 0 {
        lemma_prefix_agree(a, b, (n - 1) as nat);
    }
}

/// Keys other than `p` and `v` are ignored: inserting such a pair anywhere doesn't change
/// what the pairs are read as.
pub proof fn law_unknown_keys_ignored(pairs: Seq<(Seq<char>, Seq<char>)>, j: int, u: (Seq<char>, Seq<char>))
    requires
        0 <= j <= pairs.len(),
        is_unknown_pair(u),
    ensures
        spec_version_ref_from_pairs(pairs.insert(j, u)) == spec_version_ref_from_pairs(pairs),
{
    lemma_insert_unknown(pairs, j, u, pairs.len());
}

proof fn lemma_no_p_no_path(pairs: Seq<(Seq<char>, Seq<char>)>, n: nat)
    requires
        n <= pairs.len(),
        forall|i: int| 0 <= i < pairs.len() ==> (#[trigger] pairs[i]).0 != "p"@,
    ensures
        apply_pairs(pairs, n) matches Ok(st) ==> st.0 is None,
    decreases n,
{
    if n > 0 {
        lemma_no_p_no_path(pairs, (n - 1) as nat);
        assert(pairs[n - 1].0 != "p"@);
    }
}

/// `p` is required: without a `p` pair there's no package version reference.
pub proof fn law_package_path_required(pairs: Seq<(Seq<char>, Seq<char>)>)
    requires
        forall|i: int| 0 <= i < pairs.len() ==> (#[trigger] pairs[i]).0 != "p"@,
    ensures
        spec_version_ref_from_pairs(pairs) is Err,
{
    lemma_no_p_no_path(pairs, pairs.len());
}

proof fn lemma_no_v_latest(pairs: Seq<(Seq<char>, Seq<char>)>, n: nat)
    requires
        n <= pairs.len(),
        forall|i: int| 0 <= i < pairs.len() ==> (#[trigger] pairs[i]).0 != "v"@,
    ensures
        apply_pairs(pairs, n) matches Ok(st) ==> st.1 == latest_model(),
    decreases n,
{
    if n > 0 {
        lemma_no_v_latest(pairs, (n - 1) as nat);
        assert(pairs[n - 1].0 != "v"@);
    }
}

/// `v` is optional and defaults to `latest`.
pub proof fn law_version_defaults_to_latest(pairs: Seq<(Seq<char>, Seq<char>)>)
    requires
        forall|i: int| 0 <= i < pairs.len() ==> (#[trigger] pairs[i]).0 != "v"@,
        spec_version_ref_from_pairs(pairs) is Ok,
    ensures
        spec_version_ref_from_pairs(pairs)->Ok_0.1 == latest_model(),
{
    lemma_no_v_latest(pairs, pairs.len());
}

proof fn lemma_suffix_agree(a: Seq<(Seq<char>, Seq<char>)>, b: Seq<(Seq<char>, Seq<char>)>, m: nat, n: nat)
    requires
        m <= n <= a.len(),
        a.len() == b.len(),
        apply_pairs(a, m) == apply_pairs(b, m),
        forall|i: int| m <= i < a.len() ==> a[i] == b[i],
    ensures
        apply_pairs(a, n) == apply_pairs(b, n),
    decreases n - m,
{
    if m < n {
        lemma_suffix_agree(a, b, m, (n - 1) as nat);
    }
}

/// The order of a `p` pair and a `v` pair next to each other doesn't matter when both values
/// are valid.
pub proof fn law_adjacent_p_v_order_irrelevant(
    pairs: Seq<(Seq<char>, Seq<char>)>,
    i: int,
    p_value: Seq<char>,
    v_value: Seq<char>,
)
    requires
        0 <= i <= pairs.len(),
        spec_parse_package_path(p_value) is Some,
        spec_parse_version_ref(v_value) is Some,
    ensures
        spec_version_ref_from_pairs(pairs.insert(i, ("v"@, v_value)).insert(i, ("p"@, p_value)))
            == spec_version_ref_from_pairs(pairs.insert(i, ("p"@, p_value)).insert(i, ("v"@, v_value))),
{
    reveal_strlit("p");
    reveal_strlit("v");
    let a = pairs.insert(i, ("v"@, v_value)).insert(i, ("p"@, p_value));
    let b = pairs.insert(i, ("p"@, p_value)).insert(i, ("v"@, v_value));
    assert(a.len() == b.len());
    lemma_prefix_agree(a, b, i as nat);
    assert(a[i] == ("p"@, p_value));
    assert(a[i + 1] == ("v"@, v_value));
    assert(b[i] == ("v"@, v_value));
    assert(b[i + 1] == ("p"@, p_value));
    assert("p"@[0] != "v"@[0]);
    assert("p"@ != "v"@);
    let pp = spec_parse_package_path(p_value)->0;
    let vv = spec_parse_version_ref(v_value)->0;
    assert(apply_pairs(a, (i + 1) as nat) == match apply_pairs(a, i as nat) {
        Err(e) => Err(e),
        Ok(st) => apply_pair(st, a[i]),
    });
    assert(apply_pairs(a, (i + 2) as nat) == match apply_pairs(a, (i + 1) as nat) {
        Err(e) => Err(e),
        Ok(st) => apply_pair(st, a[i + 1]),
    });
    assert(apply_pairs(b, (i + 1) as nat) == match apply_pairs(b, i as nat) {
        Err(e) => Err(e),
        Ok(st) => apply_pair(st, b[i]),
    });
    assert(apply_pairs(b, (i + 2) as nat) == match apply_pairs(b, (i + 1) as nat) {
        Err(e) => Err(e),
        Ok(st) => apply_pair(st, b[i + 1]),
    });
    match apply_pairs(a, i as nat) {
        Err(e) => {},
        Ok(st) => {
            assert(apply_pair(st, a[i]) == Ok::<PairsState, int>((Some(pp), st.1)));
            assert(apply_pair(st, b[i]) == Ok::<PairsState, int>((st.0, vv)));
            assert(apply_pair((Some(pp), st.1), a[i + 1]) == Ok::<PairsState, int>((Some(pp), vv)));
            assert(apply_pair((st.0, vv), b[i + 1]) == Ok::<PairsState, int>((Some(pp), vv)));
        },
    }
    assert(apply_pairs(a, (i + 2) as nat) == apply_pairs(b, (i + 2) as nat));
    assert forall|k: int| i + 2 <= k < a.len() implies a[k] == b[k] by {
        assert(a[k] == pairs[k - 2]);
        assert(b[k] == pairs[k - 2]);
    }
    lemma_suffix_agree(a, b, (i + 2) as nat, a.len());
}

} // verus!
