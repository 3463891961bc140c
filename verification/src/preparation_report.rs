//! What the preparation of an installation found out, package by package, and how it is
//! summarized.

use vstd::prelude::*;

use crate::display_util::spec_join;
use crate::installed_package::InstalledPackage;
use crate::package_id::PackageId;
use crate::package_url::PackageUrl;
use crate::recipe::strings_view;
use crate::text::{concat2, concat3};
use crate::version::{version_ref_model, VersionName, VersionRef};
use crate::version_id::VersionId;

verus! {

/// Why a package named by a package URL could not be found.
#[derive(Copy, Clone, PartialEq, Eq, Structural, Debug)]
pub enum PackageDescError {
    RepositoryIndexUnavailable,
    PackageCategoryNotFound,
    PackageNotFound,
    PackageHasUnknownType,
    PackageHasNoStableVersion,
    PackageHasNoVersionsAtAll,
    PackageVersionNotFound,
}

/// The message for each [`PackageDescError`].
pub open spec fn spec_package_desc_error_message(e: PackageDescError) -> Seq<char> {
    match e {
        PackageDescError::RepositoryIndexUnavailable => "Repository is unavailable"@,
        PackageDescError::PackageCategoryNotFound => "Desired package category was not found"@,
        PackageDescError::PackageNotFound => "Desired package was not found"@,
        PackageDescError::PackageHasUnknownType => "Package has unknown type"@,
        PackageDescError::PackageHasNoStableVersion => "Desired package has no stable version yet"@,
        PackageDescError::PackageHasNoVersionsAtAll => "Desired package has no versions at all"@,
        PackageDescError::PackageVersionNotFound => "Desired package version was not found"@,
    }
}

impl PackageDescError {
    /// The message that describes this error.
    pub fn message(&self) -> (r: &'static str)
        ensures
            r@ == spec_package_desc_error_message(*self),
    {
        match self {
            PackageDescError::RepositoryIndexUnavailable => "Repository is unavailable",
            PackageDescError::PackageCategoryNotFound => "Desired package category was not found",
            PackageDescError::PackageNotFound => "Desired package was not found",
            PackageDescError::PackageHasUnknownType => "Package has unknown type",
            PackageDescError::PackageHasNoStableVersion => "Desired package has no stable version yet",
            PackageDescError::PackageHasNoVersionsAtAll => "Desired package has no versions at all",
            PackageDescError::PackageVersionNotFound => "Desired package version was not found",
        }
    }
}

/// What became of a package in the preparation phase.
#[derive(Debug)]
pub enum PackagePrepStatus {
    /// Mentioned in the recipes but not found in the repository index.
    NotFoundInRepo(PackageDescError),
    /// Unclear which version to install: these versions compete.
    VersionConflict(Vec<VersionName>),
    /// Has an unsupported package type override or no files to install on this operating
    /// system.
    Incompatible,
    /// A file would go to the same place as a file of another package to be installed.
    ConflictWithOtherPackagesToBeInstalled { relative_path: String },
    /// A file would go to the same place as a file of an already installed package.
    ConflictWithAlreadyInstalledFiles { relative_path: String, installed_package_id: PackageId },
    /// Some files could not be downloaded; the message says why.
    DownloadFailed(String),
    /// Simulating the installation failed; the message says why.
    TempInstallFailed(String),
    /// Nothing failed; the package will be added.
    ToBeAdded,
    /// Nothing failed; the package will replace this installed version.
    ToBeReplaced { old_version: String },
}

/// The three kinds of outcome.
#[derive(Copy, Clone, PartialEq, Eq, Structural, Debug)]
pub enum PackageStatusCategory {
    Failure,
    Replacement,
    Addition,
}

/// The abstract value of a [`PackagePrepStatus`].
pub enum StatusView {
    NotFoundInRepo(PackageDescError),
    VersionConflict(Seq<Seq<char>>),
    Incompatible,
    ConflictWithOtherPackagesToBeInstalled(Seq<char>),
    ConflictWithAlreadyInstalledFiles(Seq<char>, (Seq<char>, Seq<char>, Seq<char>)),
    DownloadFailed(Seq<char>),
    TempInstallFailed(Seq<char>),
    ToBeAdded,
    ToBeReplaced(Seq<char>),
}

/// The views of a sequence of version names.
pub open spec fn version_names_view(v: Seq<VersionName>) -> Seq<Seq<char>> {
    v.map_values(|n: VersionName| n@)
}

impl View for PackagePrepStatus {
    type V = StatusView;

    open spec fn view(&self) -> StatusView {
        match self {
            PackagePrepStatus::NotFoundInRepo(e) => StatusView::NotFoundInRepo(*e),
            PackagePrepStatus::VersionConflict(v) => StatusView::VersionConflict(version_names_view(v@)),
            PackagePrepStatus::Incompatible => StatusView::Incompatible,
            PackagePrepStatus::ConflictWithOtherPackagesToBeInstalled { relative_path } => StatusView::ConflictWithOtherPackagesToBeInstalled(
                relative_path@,
            ),
            PackagePrepStatus::ConflictWithAlreadyInstalledFiles { relative_path, installed_package_id } =>
                StatusView::ConflictWithAlreadyInstalledFiles(relative_path@, installed_package_id@),
            PackagePrepStatus::DownloadFailed(m) => StatusView::DownloadFailed(m@),
            PackagePrepStatus::TempInstallFailed(m) => StatusView::TempInstallFailed(m@),
            PackagePrepStatus::ToBeAdded => StatusView::ToBeAdded,
            PackagePrepStatus::ToBeReplaced { old_version } => StatusView::ToBeReplaced(old_version@),
        }
    }
}

/// The category of a status: additions, replacements, and everything else is a failure.
pub open spec fn spec_category(s: StatusView) -> PackageStatusCategory {
    match s {
        StatusView::ToBeAdded => PackageStatusCategory::Addition,
        StatusView::ToBeReplaced(_) => PackageStatusCategory::Replacement,
        _ => PackageStatusCategory::Failure,
    }
}

/// The text shown for a status.
pub open spec fn spec_status_text(s: StatusView) -> Seq<char> {
    match s {
        StatusView::NotFoundInRepo(e) => spec_package_desc_error_message(e),
        StatusView::VersionConflict(v) => "Competing version requirements: "@ + spec_join(v, ","@),
        StatusView::Incompatible => "Incompatible with operating system or ReaBoot"@,
        StatusView::ConflictWithOtherPackagesToBeInstalled(p) => "File conflict with other package to be installed: "@ + p,
        StatusView::ConflictWithAlreadyInstalledFiles(p, id) => "File `"@ + p + "` conflicts with already installed package `"@ + id.2
            + "`"@,
        StatusView::DownloadFailed(m) => "Download error: "@ + m,
        StatusView::TempInstallFailed(m) => "Simulated installation failed: "@ + m,
        StatusView::ToBeAdded => "Addition"@,
        StatusView::ToBeReplaced(v) => "Replacement of "@ + v,
    }
}

/// The names joined with `,`.
fn join_version_names(v: &Vec<VersionName>) -> (r: String)
    ensures
        r@ == spec_join(version_names_view(v@), ","@),
{
    let mut r = String::new();
    let mut i: usize = 0;
    while i < v.len()
        invariant
            i <= v.len(),
            r@ == spec_join(version_names_view(v@.take(i as int)), ","@),
        decreases v.len() - i,
    {
        assert(version_names_view(v@.take(i + 1)).drop_last() =~= version_names_view(v@.take(i as int)));
        if i > 0 {
            r = r.concat(",");
        }
        r = r.concat(v[i].as_str());
        assert(r@ =~= spec_join(version_names_view(v@.take(i + 1)), ","@));
        i = i + 1;
    }
    assert(v@.take(v.len() as int) =~= v@);
    r
}

impl PackagePrepStatus {
    /// The category of this status.
    pub fn category(&self) -> (r: PackageStatusCategory)
        ensures
            r == spec_category(self@),
    {
        match self {
            PackagePrepStatus::ToBeAdded => PackageStatusCategory::Addition,
            PackagePrepStatus::ToBeReplaced { .. } => PackageStatusCategory::Replacement,
            _ => PackageStatusCategory::Failure,
        }
    }

    /// The text shown for this status.
    pub fn to_display_string(&self) -> (r: String)
        ensures
            r@ == spec_status_text(self@),
    {
        match self {
            PackagePrepStatus::NotFoundInRepo(e) => e.message().to_owned(),
            PackagePrepStatus::VersionConflict(versions) => {
                let csv = join_version_names(versions);
                concat2("Competing version requirements: ", csv.as_str())
            },
            PackagePrepStatus::Incompatible => "Incompatible with operating system or ReaBoot".to_owned(),
            PackagePrepStatus::ConflictWithOtherPackagesToBeInstalled { relative_path } => concat2(
                "File conflict with other package to be installed: ",
                relative_path.as_str(),
            ),
            PackagePrepStatus::ConflictWithAlreadyInstalledFiles { relative_path, installed_package_id } => {
                let a = concat3("File `", relative_path.as_str(), "` conflicts with already installed package `");
                concat3(a.as_str(), installed_package_id.package.as_str(), "`")
            },
            PackagePrepStatus::DownloadFailed(m) => concat2("Download error: ", m.as_str()),
            PackagePrepStatus::TempInstallFailed(m) => concat2("Simulated installation failed: ", m.as_str()),
            PackagePrepStatus::ToBeAdded => "Addition".to_owned(),
            PackagePrepStatus::ToBeReplaced { old_version } => concat2("Replacement of ", old_version.as_str()),
        }
    }
}


/// A file download: where from, where to, and the multihash the content should have.
#[derive(Clone, Debug)]
pub struct Download {
    pub url: String,
    pub file: String,
    pub expected_multihash: Option<String>,
}

impl Download {
    pub fn new(url: String, file: String, expected_multihash: Option<String>) -> (r: Self)
        ensures
            r.url == url,
            r.file == file,
            r.expected_multihash == expected_multihash,
    {
        Download { url, file, expected_multihash }
    }
}

/// The download of a tool (REAPER or ReaPack) in a given version.
#[derive(Clone, Debug)]
pub struct ToolDownload {
    pub version: String,
    pub download: Download,
}

impl ToolDownload {
    pub fn new(version: String, download: Download) -> (r: Self)
        ensures
            r.version == version,
            r.download == download,
    {
        ToolDownload { version, download }
    }
}

/// A tool that gets installed or updated.
#[derive(Debug)]
pub struct ToolingChange {
    pub name: String,
    pub download: ToolDownload,
}

impl ToolingChange {
    pub fn new(name: String, download: ToolDownload) -> (r: Self)
        ensures
            r.name == name,
            r.download == download,
    {
        ToolingChange { name, download }
    }
}

/// What became of one package.
#[derive(Debug)]
pub struct PackagePreparationOutcome {
    pub package_id: PackageId,
    pub version: Option<VersionRef>,
    pub status: PackagePrepStatus,
    /// A donation URL; only for packages that are added, not for replacements.
    pub donation_url: Option<String>,
}

/// The abstract value of a [`PackagePreparationOutcome`].
pub struct OutcomeView {
    pub package_id: (Seq<char>, Seq<char>, Seq<char>),
    pub version: Option<(int, Seq<char>)>,
    pub status: StatusView,
    pub donation_url: Option<Seq<char>>,
}

/// The model of an optional version reference.
pub open spec fn opt_version_ref_model(v: Option<VersionRef>) -> Option<(int, Seq<char>)> {
    match v {
        Some(v) => Some(version_ref_model(v)),
        None => None,
    }
}

/// The view of an optional string.
pub open spec fn opt_text(s: Option<String>) -> Option<Seq<char>> {
    match s {
        Some(s) => Some(s@),
        None => None,
    }
}

impl View for PackagePreparationOutcome {
    type V = OutcomeView;

    open spec fn view(&self) -> OutcomeView {
        OutcomeView {
            package_id: self.package_id@,
            version: opt_version_ref_model(self.version),
            status: self.status@,
            donation_url: opt_text(self.donation_url),
        }
    }
}

/// The views of a sequence of outcomes.
pub open spec fn outcomes_view(s: Seq<PackagePreparationOutcome>) -> Seq<OutcomeView> {
    s.map_values(|o: PackagePreparationOutcome| o@)
}

/// How many outcomes fall into category `c`.
pub open spec fn count_category(s: Seq<OutcomeView>, c: PackageStatusCategory) -> nat
    decreases s.len(),
{
    if s.len() == 0 {
        0
    } else {
        count_category(s.drop_last(), c) + if spec_category(s.last().status) == c {
            1nat
        } else {
            0nat
        }
    }
}

/// What the preparation found out.
#[derive(Debug)]
pub struct PreparationReport {
    pub package_preparation_outcomes: Vec<PackagePreparationOutcome>,
    pub tooling_changes: Vec<ToolingChange>,
    /// Removals without replacement.
    pub package_removals: Vec<InstalledPackage>,
}

/// How many packages failed, will be replaced and will be added.
#[derive(Copy, Clone, PartialEq, Eq, Structural, Debug)]
pub struct PreparationReportSummary {
    pub failures: usize,
    pub replacements: usize,
    pub additions: usize,
}

impl Default for PreparationReportSummary {
    fn default() -> (r: Self)
        ensures
            r.failures == 0 && r.replacements == 0 && r.additions == 0,
    {
        PreparationReportSummary { failures: 0, replacements: 0, additions: 0 }
    }
}

impl PreparationReport {
    /// Counts the outcomes of each category.
    pub fn summary(&self) -> (r: PreparationReportSummary)
        ensures
            r.failures == count_category(outcomes_view(self.package_preparation_outcomes@), PackageStatusCategory::Failure),
            r.replacements == count_category(outcomes_view(self.package_preparation_outcomes@), PackageStatusCategory::Replacement),
            r.additions == count_category(outcomes_view(self.package_preparation_outcomes@), PackageStatusCategory::Addition),
    {
        let outcomes = &self.package_preparation_outcomes;
        let mut summary = PreparationReportSummary::default();
        let mut i: usize = 0;
        while i < outcomes.len()
            invariant
                i <= outcomes.len(),
                summary.failures + summary.replacements + summary.additions == i,
                summary.failures == count_category(outcomes_view(outcomes@.take(i as int)), PackageStatusCategory::Failure),
                summary.replacements == count_category(outcomes_view(outcomes@.take(i as int)), PackageStatusCategory::Replacement),
                summary.additions == count_category(outcomes_view(outcomes@.take(i as int)), PackageStatusCategory::Addition),
            decreases outcomes.len() - i,
        {
            assert(outcomes_view(outcomes@.take(i + 1)).drop_last() =~= outcomes_view(outcomes@.take(i as int)));
            assert(outcomes_view(outcomes@.take(i + 1)).last() == outcomes@[i as int]@);
            match outcomes[i].status.category() {
                PackageStatusCategory::Failure => {
                    summary.failures = summary.failures + 1;
                },
                PackageStatusCategory::Replacement => {
                    summary.replacements = summary.replacements + 1;
                },
                PackageStatusCategory::Addition => {
                    summary.additions = summary.additions + 1;
                },
            }
            i = i + 1;
        }
        assert(outcomes@.take(outcomes.len() as int) =~= outcomes@);
        summary
    }
}

/// Every outcome is counted in exactly one category.
pub proof fn law_summary_counts_every_outcome(s: Seq<OutcomeView>)
    ensures
        count_category(s, PackageStatusCategory::Failure) + count_category(s, PackageStatusCategory::Replacement)
            + count_category(s, PackageStatusCategory::Addition) == s.len(),
    decreases s.len(),
{
    if s.len() > 0 {
        law_summary_counts_every_outcome(s.drop_last());
    }
}


/// A package URL whose package could not be found; `remote` is the name of the repository
/// where it was looked up, if its index was available.
pub struct PackageUrlFailure {
    pub remote: Option<String>,
    pub package_url: PackageUrl,
    pub error: PackageDescError,
}

/// Several versions of one package were asked for.
pub struct VersionConflict {
    pub package_id: PackageId,
    pub conflicting_versions: Vec<VersionName>,
}

/// Files of several packages to be installed would go to the same `relative_path`; the
/// package versions they belong to, one per file.
pub struct RecipeFileConflict {
    pub relative_path: String,
    pub conflicting_files: Vec<VersionId>,
}

/// A file of a package version to be installed would go to `relative_path`, where a file of
/// the installed package `installed_package_id` already is.
pub struct InstalledFileConflict {
    pub new_file: VersionId,
    pub relative_path: String,
    pub installed_package_id: PackageId,
}

/// Everything that went wrong before any package file was downloaded.
pub struct PreDownloadFailures {
    pub package_descriptors_with_failures: Vec<PackageUrlFailure>,
    pub version_conflicts: Vec<VersionConflict>,
    pub incompatible_versions: Vec<VersionId>,
    pub recipe_file_conflicts: Vec<RecipeFileConflict>,
    pub conflicts_with_already_installed_files: Vec<InstalledFileConflict>,
}

/// A file of a package version could not be downloaded; `error` says why.
pub struct PackageDownloadFailure {
    pub version_id: VersionId,
    pub error: String,
}

/// Simulating the installation of a package version failed; `error` says why.
pub struct TempInstallFailure {
    pub version_id: VersionId,
    pub error: String,
}

/// A package version ready to be installed: replacing an installed version (whose version
/// text is `to_be_removed`) or added, with the first donation URL of the package, if any.
pub struct SinglePackageInstallationPlan {
    pub version_id: VersionId,
    pub to_be_removed: Option<String>,
    pub donation_url: Option<String>,
}

/// The outcome of a package URL that could not be resolved: the remote is the repository
/// name, or the repository URL where the index was unavailable.
pub open spec fn not_found_view(f: PackageUrlFailure) -> OutcomeView {
    OutcomeView {
        package_id: (
            match f.remote {
                Some(r) => r@,
                None => f.package_url@.0,
            },
            f.package_url@.1.0.0,
            f.package_url@.1.0.1,
        ),
        version: Some(f.package_url@.1.1),
        status: StatusView::NotFoundInRepo(f.error),
        donation_url: None,
    }
}

/// The outcome of a version conflict.
pub open spec fn version_conflict_view(c: VersionConflict) -> OutcomeView {
    OutcomeView {
        package_id: c.package_id@,
        version: None,
        status: StatusView::VersionConflict(version_names_view(c.conflicting_versions@)),
        donation_url: None,
    }
}

/// An outcome about a specific package version.
pub open spec fn version_outcome_view(v: VersionId, status: StatusView, donation_url: Option<Seq<char>>) -> OutcomeView {
    OutcomeView { package_id: v.package_id@, version: Some((2, v.version@)), status, donation_url }
}

/// The outcomes of the files of a file conflict among packages to be installed.
pub open spec fn recipe_conflict_views(c: RecipeFileConflict) -> Seq<OutcomeView> {
    c.conflicting_files@.map_values(
        |f: VersionId| version_outcome_view(f, StatusView::ConflictWithOtherPackagesToBeInstalled(c.relative_path@), None),
    )
}

/// The outcomes of all files of all such conflicts, conflict after conflict.
pub open spec fn recipe_conflicts_views(cs: Seq<RecipeFileConflict>) -> Seq<OutcomeView>
    decreases cs.len(),
{
    if cs.len() == 0 {
        Seq::empty()
    } else {
        recipe_conflicts_views(cs.drop_last()) + recipe_conflict_views(cs.last())
    }
}

/// The outcome of a conflict with an already installed file.
pub open spec fn installed_conflict_view(c: InstalledFileConflict) -> OutcomeView {
    version_outcome_view(c.new_file, StatusView::ConflictWithAlreadyInstalledFiles(c.relative_path@, c.installed_package_id@), None)
}

/// The outcome of a package that is ready: a replacement (without donation URL) or an
/// addition (with the package's donation URL).
pub open spec fn plan_view(a: SinglePackageInstallationPlan) -> OutcomeView {
    match a.to_be_removed {
        Some(old) => version_outcome_view(a.version_id, StatusView::ToBeReplaced(old@), None),
        None => version_outcome_view(a.version_id, StatusView::ToBeAdded, opt_text(a.donation_url)),
    }
}

/// All outcomes, in this order: unresolvable package URLs, version conflicts, incompatible
/// versions, file conflicts among packages to be installed, conflicts with installed files,
/// failed downloads, failed simulated installations, and finally the ready packages.
pub open spec fn report_outcomes(
    f: PreDownloadFailures,
    download_errors: Seq<PackageDownloadFailure>,
    temp_install_failures: Seq<TempInstallFailure>,
    plans: Seq<SinglePackageInstallationPlan>,
) -> Seq<OutcomeView> {
    f.package_descriptors_with_failures@.map_values(|x: PackageUrlFailure| not_found_view(x))
        + f.version_conflicts@.map_values(|x: VersionConflict| version_conflict_view(x))
        + f.incompatible_versions@.map_values(|x: VersionId| version_outcome_view(x, StatusView::Incompatible, None))
        + recipe_conflicts_views(f.recipe_file_conflicts@)
        + f.conflicts_with_already_installed_files@.map_values(|x: InstalledFileConflict| installed_conflict_view(x))
        + download_errors.map_values(|x: PackageDownloadFailure| version_outcome_view(x.version_id, StatusView::DownloadFailed(x.error@), None))
        + temp_install_failures.map_values(
        |x: TempInstallFailure| version_outcome_view(x.version_id, StatusView::TempInstallFailed(x.error@), None),
    ) + plans.map_values(|x: SinglePackageInstallationPlan| plan_view(x))
}

fn copy_string(s: &String) -> (r: String)
    ensures
        r@ == s@,
{
    s.clone()
}

fn copy_opt_string(s: &Option<String>) -> (r: Option<String>)
    ensures
        opt_text(r) == opt_text(*s),
{
    match s {
        Some(x) => Some(x.clone()),
        None => None,
    }
}

fn copy_version_names(v: &Vec<VersionName>) -> (r: Vec<VersionName>)
    ensures
        version_names_view(r@) == version_names_view(v@),
{
    let mut r: Vec<VersionName> = Vec::new();
    let mut i: usize = 0;
    while i < v.len()
        invariant
            i <= v.len(),
            version_names_view(r@) == version_names_view(v@.take(i as int)),
        decreases v.len() - i,
    {
        let n = v[i].duplicate();
        let ghost before = r@;
        r.push(n);
        assert(version_names_view(r@) =~= version_names_view(before).push(v@[i as int]@));
        assert(v@.take(i + 1) =~= v@.take(i as int).push(v@[i as int]));
        assert(version_names_view(r@) =~= version_names_view(v@.take(i + 1)));
        i = i + 1;
    }
    assert(v@.take(v.len() as int) =~= v@);
    r
}

/// An outcome about the package version `v`.
fn version_outcome(v: &VersionId, status: PackagePrepStatus, donation_url: Option<String>) -> (r: PackagePreparationOutcome)
    ensures
        r@ == version_outcome_view(*v, status@, opt_text(donation_url)),
{
    let version: VersionRef = VersionRef::from(v.version.duplicate());
    PackagePreparationOutcome { package_id: v.package_id.duplicate(), version: Some(version), status, donation_url }
}

/// Appends `o` to `out`.
fn push_outcome(out: &mut Vec<PackagePreparationOutcome>, o: PackagePreparationOutcome)
    ensures
        outcomes_view(final(out)@) == outcomes_view(old(out)@).push(o@),
{
    out.push(o);
    assert(outcomes_view(out@) =~= outcomes_view(old(out)@).push(o@));
}

impl PreparationReport {
    /// Gathers the outcome of every package, in the order of [`report_outcomes`].
    pub fn new(
        tooling_changes: Vec<ToolingChange>,
        pre_download_failures: PreDownloadFailures,
        download_errors: Vec<PackageDownloadFailure>,
        temp_install_failures: Vec<TempInstallFailure>,
        packages_to_be_removed: Vec<InstalledPackage>,
        package_installation_plans: Vec<SinglePackageInstallationPlan>,
    ) -> (r: Self)
        ensures
            outcomes_view(r.package_preparation_outcomes@) == report_outcomes(
                pre_download_failures,
                download_errors@,
                temp_install_failures@,
                package_installation_plans@,
            ),
            r.tooling_changes == tooling_changes,
            r.package_removals == packages_to_be_removed,
    {
        let f = &pre_download_failures;
        let mut out: Vec<PackagePreparationOutcome> = Vec::new();
        let ghost target = report_outcomes(pre_download_failures, download_errors@, temp_install_failures@, package_installation_plans@);
        // package URLs that could not be resolved
        let v = &f.package_descriptors_with_failures;
        let mut i: usize = 0;
        while i < v.len()
            invariant
                i <= v.len(),
                outcomes_view(out@) == v@.take(i as int).map_values(|x: PackageUrlFailure| not_found_view(x)),
            decreases v.len() - i,
        {
            let failure = &v[i];
            let remote = match &failure.remote {
                Some(r) => copy_string(r),
                None => failure.package_url.repository_url().to_owned(),
            };
            let package_id = PackageId {
                remote,
                category: failure.package_url.category().to_owned(),
                package: failure.package_url.package_name().to_owned(),
            };
            let o = PackagePreparationOutcome {
                package_id,
                version: Some(failure.package_url.version_ref().duplicate()),
                status: PackagePrepStatus::NotFoundInRepo(failure.error),
                donation_url: None,
            };
            push_outcome(&mut out, o);
            assert(v@.take(i + 1).map_values(|x: PackageUrlFailure| not_found_view(x)) =~= v@.take(i as int).map_values(
                |x: PackageUrlFailure| not_found_view(x),
            ).push(not_found_view(v@[i as int])));
            i = i + 1;
        }
        assert(v@.take(v.len() as int) =~= v@);
        let ghost s1 = outcomes_view(out@);
        // version conflicts
        let v = &f.version_conflicts;
        let mut i: usize = 0;
        while i < v.len()
            invariant
                i <= v.len(),
                outcomes_view(out@) == s1 + v@.take(i as int).map_values(|x: VersionConflict| version_conflict_view(x)),
            decreases v.len() - i,
        {
            let c = &v[i];
            let o = PackagePreparationOutcome {
                package_id: c.package_id.duplicate(),
                version: None,
                status: PackagePrepStatus::VersionConflict(copy_version_names(&c.conflicting_versions)),
                donation_url: None,
            };
            push_outcome(&mut out, o);
            assert(v@.take(i + 1).map_values(|x: VersionConflict| version_conflict_view(x)) =~= v@.take(i as int).map_values(
                |x: VersionConflict| version_conflict_view(x),
            ).push(version_conflict_view(v@[i as int])));
            i = i + 1;
        }
        assert(v@.take(v.len() as int) =~= v@);
        let ghost s2 = outcomes_view(out@);
        // incompatible versions
        let v = &f.incompatible_versions;
        let mut i: usize = 0;
        while i < v.len()
            invariant
                i <= v.len(),
                outcomes_view(out@) == s2 + v@.take(i as int).map_values(
                    |x: VersionId| version_outcome_view(x, StatusView::Incompatible, None),
                ),
            decreases v.len() - i,
        {
            let o = version_outcome(&v[i], PackagePrepStatus::Incompatible, None);
            push_outcome(&mut out, o);
            assert(v@.take(i + 1).map_values(|x: VersionId| version_outcome_view(x, StatusView::Incompatible, None))
                =~= v@.take(i as int).map_values(|x: VersionId| version_outcome_view(x, StatusView::Incompatible, None)).push(
                version_outcome_view(v@[i as int], StatusView::Incompatible, None),
            ));
            i = i + 1;
        }
        assert(v@.take(v.len() as int) =~= v@);
        let ghost s3 = outcomes_view(out@);
        // file conflicts among packages to be installed
        let v = &f.recipe_file_conflicts;
        let mut i: usize = 0;
        while i < v.len()
            invariant
                i <= v.len(),
                outcomes_view(out@) == s3 + recipe_conflicts_views(v@.take(i as int)),
            decreases v.len() - i,
        {
            let c = &v[i];
            let ghost before = outcomes_view(out@);
            let files = &c.conflicting_files;
            let mut j: usize = 0;
            while j < files.len()
                invariant
                    j <= files.len(),
                    outcomes_view(out@) == before + files@.take(j as int).map_values(
                        |x: VersionId| version_outcome_view(x, StatusView::ConflictWithOtherPackagesToBeInstalled(c.relative_path@), None),
                    ),
                decreases files.len() - j,
            {
                let status = PackagePrepStatus::ConflictWithOtherPackagesToBeInstalled { relative_path: copy_string(&c.relative_path) };
                let o = version_outcome(&files[j], status, None);
                push_outcome(&mut out, o);
                assert(files@.take(j + 1).map_values(
                    |x: VersionId| version_outcome_view(x, StatusView::ConflictWithOtherPackagesToBeInstalled(c.relative_path@), None),
                ) =~= files@.take(j as int).map_values(
                    |x: VersionId| version_outcome_view(x, StatusView::ConflictWithOtherPackagesToBeInstalled(c.relative_path@), None),
                ).push(version_outcome_view(files@[j as int], StatusView::ConflictWithOtherPackagesToBeInstalled(c.relative_path@), None)));
                j = j + 1;
            }
            assert(files@.take(files.len() as int) =~= files@);
            assert(v@.take(i + 1).drop_last() =~= v@.take(i as int));
            assert(outcomes_view(out@) =~= s3 + recipe_conflicts_views(v@.take(i + 1)));
            i = i + 1;
        }
        assert(v@.take(v.len() as int) =~= v@);
        let ghost s4 = outcomes_view(out@);
        // conflicts with installed files
        let v = &f.conflicts_with_already_installed_files;
        let mut i: usize = 0;
        while i < v.len()
            invariant
                i <= v.len(),
                outcomes_view(out@) == s4 + v@.take(i as int).map_values(|x: InstalledFileConflict| installed_conflict_view(x)),
            decreases v.len() - i,
        {
            let c = &v[i];
            let status = PackagePrepStatus::ConflictWithAlreadyInstalledFiles {
                relative_path: copy_string(&c.relative_path),
                installed_package_id: c.installed_package_id.duplicate(),
            };
            let o = version_outcome(&c.new_file, status, None);
            push_outcome(&mut out, o);
            assert(v@.take(i + 1).map_values(|x: InstalledFileConflict| installed_conflict_view(x)) =~= v@.take(i as int).map_values(
                |x: InstalledFileConflict| installed_conflict_view(x),
            ).push(installed_conflict_view(v@[i as int])));
            i = i + 1;
        }
        assert(v@.take(v.len() as int) =~= v@);
        let ghost s5 = outcomes_view(out@);
        // failed downloads
        let v = &download_errors;
        let mut i: usize = 0;
        while i < v.len()
            invariant
                i <= v.len(),
                outcomes_view(out@) == s5 + v@.take(i as int).map_values(
                    |x: PackageDownloadFailure| version_outcome_view(x.version_id, StatusView::DownloadFailed(x.error@), None),
                ),
            decreases v.len() - i,
        {
            let o = version_outcome(&v[i].version_id, PackagePrepStatus::DownloadFailed(copy_string(&v[i].error)), None);
            push_outcome(&mut out, o);
            assert(v@.take(i + 1).map_values(
                |x: PackageDownloadFailure| version_outcome_view(x.version_id, StatusView::DownloadFailed(x.error@), None),
            ) =~= v@.take(i as int).map_values(
                |x: PackageDownloadFailure| version_outcome_view(x.version_id, StatusView::DownloadFailed(x.error@), None),
            ).push(version_outcome_view(v@[i as int].version_id, StatusView::DownloadFailed(v@[i as int].error@), None)));
            i = i + 1;
        }
        assert(v@.take(v.len() as int) =~= v@);
        let ghost s6 = outcomes_view(out@);
        // failed simulated installations
        let v = &temp_install_failures;
        let mut i: usize = 0;
        while i < v.len()
            invariant
                i <= v.len(),
                outcomes_view(out@) == s6 + v@.take(i as int).map_values(
                    |x: TempInstallFailure| version_outcome_view(x.version_id, StatusView::TempInstallFailed(x.error@), None),
                ),
            decreases v.len() - i,
        {
            let o = version_outcome(&v[i].version_id, PackagePrepStatus::TempInstallFailed(copy_string(&v[i].error)), None);
            push_outcome(&mut out, o);
            assert(v@.take(i + 1).map_values(
                |x: TempInstallFailure| version_outcome_view(x.version_id, StatusView::TempInstallFailed(x.error@), None),
            ) =~= v@.take(i as int).map_values(
                |x: TempInstallFailure| version_outcome_view(x.version_id, StatusView::TempInstallFailed(x.error@), None),
            ).push(version_outcome_view(v@[i as int].version_id, StatusView::TempInstallFailed(v@[i as int].error@), None)));
            i = i + 1;
        }
        assert(v@.take(v.len() as int) =~= v@);
        let ghost s7 = outcomes_view(out@);
        // ready packages
        let v = &package_installation_plans;
        let mut i: usize = 0;
        while i < v.len()
            invariant
                i <= v.len(),
                outcomes_view(out@) == s7 + v@.take(i as int).map_values(|x: SinglePackageInstallationPlan| plan_view(x)),
            decreases v.len() - i,
        {
            let a = &v[i];
            let o = match &a.to_be_removed {
                Some(old) => version_outcome(&a.version_id, PackagePrepStatus::ToBeReplaced { old_version: copy_string(old) }, None),
                None => version_outcome(&a.version_id, PackagePrepStatus::ToBeAdded, copy_opt_string(&a.donation_url)),
            };
            push_outcome(&mut out, o);
            assert(v@.take(i + 1).map_values(|x: SinglePackageInstallationPlan| plan_view(x)) =~= v@.take(i as int).map_values(
                |x: SinglePackageInstallationPlan| plan_view(x),
            ).push(plan_view(v@[i as int])));
            i = i + 1;
        }
        assert(v@.take(v.len() as int) =~= v@);
        assert(outcomes_view(out@) =~= target);
        PreparationReport { package_preparation_outcomes: out, tooling_changes, package_removals: packages_to_be_removed }
    }
}


/// Only packages that are added carry a donation URL; replacements and failures never do.
pub proof fn law_donation_only_for_additions(
    f: PreDownloadFailures,
    download_errors: Seq<PackageDownloadFailure>,
    temp_install_failures: Seq<TempInstallFailure>,
    plans: Seq<SinglePackageInstallationPlan>,
    k: int,
)
    requires
        0 <= k < report_outcomes(f, download_errors, temp_install_failures, plans).len(),
        report_outcomes(f, download_errors, temp_install_failures, plans)[k].donation_url is Some,
    ensures
        report_outcomes(f, download_errors, temp_install_failures, plans)[k].status is ToBeAdded,
{
    lemma_recipe_conflicts_no_donation(f.recipe_file_conflicts@);
    let all = report_outcomes(f, download_errors, temp_install_failures, plans);
    let head = all.len() - plans.len();
    if k >= head {
        assert(all[k] == plan_view(plans[k - head]));
    } else {
        assert(all[k].donation_url is None);
    }
}

proof fn lemma_recipe_conflicts_no_donation(cs: Seq<RecipeFileConflict>)
    ensures
        forall|k: int| 0 <= k < recipe_conflicts_views(cs).len() ==> (#[trigger] recipe_conflicts_views(cs)[k]).donation_url is None,
    decreases cs.len(),
{
    if cs.len() > 0 {
        lemma_recipe_conflicts_no_donation(cs.drop_last());
    }
}

} // verus!
