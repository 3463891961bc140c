//! The decisions an installation takes between its steps: whether REAPER needs to be prepared,
//! what the report lists as tooling changes, whether to apply the prepared changes, how REAPER
//! gets installed, and which stage the installation ends in.

use vstd::prelude::*;

use crate::installation_stage::{spec_stage_rank, InstallationStage};
use crate::package_url::PackageUrl;
use crate::path::{path_join, spec_path_join};
use crate::installed_package::{InstalledFile, InstalledPackage, InstalledPackageType, InstalledVersionName, PackageType};
use crate::recipe::contains_string;
use crate::report_markdown::{spec_report_markdown, PreparationReportAsMarkdown, PreparationReportMarkdownOptions};
use crate::section::{convert_index_section_to_model, known_section_bits, Section};
use crate::version_id::VersionId;
use crate::text::{concat2, decimal, spec_decimal};
use crate::preparation_report::{
    count_category, outcomes_view, Download, PackageStatusCategory, PreparationReport, ToolDownload, ToolingChange,
};

verus! {

/// The abstract value of a tool download: version, URL, file and expected multihash.
pub open spec fn tool_download_view(d: ToolDownload) -> (Seq<char>, Seq<char>, Seq<char>, Option<Seq<char>>) {
    (
        d.version@,
        d.download.url@,
        d.download.file@,
        match d.download.expected_multihash {
            Some(h) => Some(h@),
            None => None,
        },
    )
}

/// A copy of a tool download.
pub fn duplicate_tool_download(d: &ToolDownload) -> (r: ToolDownload)
    ensures
        tool_download_view(r) == tool_download_view(*d),
{
    let hash = match &d.download.expected_multihash {
        Some(h) => Some(h.clone()),
        None => None,
    };
    ToolDownload::new(d.version.clone(), Download::new(d.download.url.clone(), d.download.file.clone(), hash))
}

/// What preparing REAPER came to.
#[derive(Debug)]
pub enum ReaperPreparationOutcome {
    /// It's a main REAPER install, and automatic REAPER installation is not supported for that.
    InstallManually(ToolDownload),
    /// It's a portable REAPER install, but extracting the executables failed with `error`.
    InstallManuallyDueToError(ToolDownload, String),
    /// REAPER has been extracted: the executable and its files (or the bundle `REAPER.app`) have
    /// been placed into `dir_containing_reaper`.
    InstallByMovingFromExtractedReaper { download: ToolDownload, dir_containing_reaper: String },
    /// A main REAPER install on Windows, done by the installer.
    InstallMainViaInstaller(ToolDownload),
}

/// Whether REAPER has to be downloaded and prepared: only if the installation starts off before
/// REAPER is installed.
pub fn reaper_needs_preparation(initial_installation_stage: &InstallationStage) -> (r: bool)
    ensures
        r == (spec_stage_rank(*initial_installation_stage) < spec_stage_rank(InstallationStage::InstalledReaper)),
{
    initial_installation_stage.rank() < InstallationStage::InstalledReaper.rank()
}

/// The tooling changes to report for the outcome of preparing REAPER: REAPER with its download
/// where it is going to be installed by moving or by its installer, nothing otherwise.
pub fn reaper_tooling_changes(outcome: Option<&ReaperPreparationOutcome>) -> (r: Vec<ToolingChange>)
    ensures
        match outcome {
            Some(ReaperPreparationOutcome::InstallByMovingFromExtractedReaper { download, .. })
            | Some(ReaperPreparationOutcome::InstallMainViaInstaller(download)) => {
                &&& r@.len() == 1
                &&& r@[0].name@ == "REAPER"@
                &&& tool_download_view(r@[0].download) == tool_download_view(*download)
            },
            _ => r@.len() == 0,
        },
{
    let mut changes: Vec<ToolingChange> = Vec::new();
    match outcome {
        Some(ReaperPreparationOutcome::InstallByMovingFromExtractedReaper { download, .. }) => {
            changes.push(ToolingChange::new("REAPER".to_owned(), duplicate_tool_download(download)));
        },
        Some(ReaperPreparationOutcome::InstallMainViaInstaller(download)) => {
            changes.push(ToolingChange::new("REAPER".to_owned(), duplicate_tool_download(download)));
        },
        _ => {},
    }
    changes
}

/// What happens once everything has been prepared and reported.
#[derive(Copy, Clone, PartialEq, Eq, Structural, Debug)]
pub enum NextStep {
    /// A dry run ends with the report; nothing is installed.
    ReportOnly,
    /// Some packages failed and failures are not to be skipped: the installation fails with the
    /// report.
    FailBecausePackagesFailed,
    /// The prepared changes are applied.
    ApplyChanges,
}

/// Decides what happens after the preparation report: a dry run only reports; otherwise failed
/// packages stop the installation unless they are to be skipped.
pub fn next_step_after_preparation(
    dry_run: bool,
    skip_failed_packages: bool,
    report: &PreparationReport,
) -> (r: NextStep)
    ensures
        r == (if dry_run {
            NextStep::ReportOnly
        } else if !skip_failed_packages && count_category(
            outcomes_view(report.package_preparation_outcomes@),
            PackageStatusCategory::Failure,
        ) > 0 {
            NextStep::FailBecausePackagesFailed
        } else {
            NextStep::ApplyChanges
        }),
{
    if dry_run {
        return NextStep::ReportOnly;
    }
    if !skip_failed_packages && report.summary().failures > 0 {
        return NextStep::FailBecausePackagesFailed;
    }
    NextStep::ApplyChanges
}

/// Work on the file system that installing REAPER takes.
#[derive(Debug)]
pub enum ReaperInstallAction {
    /// Run the Windows installer at this path.
    RunWindowsInstaller(String),
    /// Move the extracted REAPER from this directory into the portable resource directory.
    MovePortable(String),
    /// Move the extracted REAPER from this directory into place as main installation.
    MoveMain(String),
}

/// The abstract value of a [`ReaperInstallAction`]: which action (0 installer, 1 portable, 2
/// main) and its path.
pub open spec fn install_action_view(a: ReaperInstallAction) -> (int, Seq<char>) {
    match a {
        ReaperInstallAction::RunWindowsInstaller(p) => (0, p@),
        ReaperInstallAction::MovePortable(p) => (1, p@),
        ReaperInstallAction::MoveMain(p) => (2, p@),
    }
}

/// The action that installs REAPER for `outcome` (none where it must be installed manually),
/// given whether the installation is portable.
pub open spec fn spec_install_action(outcome: ReaperPreparationOutcome, portable: bool) -> Option<(int, Seq<char>)> {
    match outcome {
        ReaperPreparationOutcome::InstallManually(_) => None,
        ReaperPreparationOutcome::InstallManuallyDueToError(_, _) => None,
        ReaperPreparationOutcome::InstallMainViaInstaller(d) => Some((0, d.download.file@)),
        ReaperPreparationOutcome::InstallByMovingFromExtractedReaper { dir_containing_reaper, .. } => Some(
            (if portable { 1int } else { 2int }, dir_containing_reaper@),
        ),
    }
}

/// The download of the outcome of preparing REAPER.
pub open spec fn outcome_download(outcome: ReaperPreparationOutcome) -> ToolDownload {
    match outcome {
        ReaperPreparationOutcome::InstallManually(d) => d,
        ReaperPreparationOutcome::InstallManuallyDueToError(d, _) => d,
        ReaperPreparationOutcome::InstallMainViaInstaller(d) => d,
        ReaperPreparationOutcome::InstallByMovingFromExtractedReaper { download, .. } => download,
    }
}

/// Installs REAPER as prepared, with `perform` doing the work on the file system. Returns the
/// REAPER installer that the user has to run by hand: where installation is manual anyway, or
/// where `perform` failed; `None` where REAPER got installed.
pub fn install_reaper<F: Fn(&ReaperInstallAction) -> Result<(), String>>(
    outcome: &ReaperPreparationOutcome,
    portable: bool,
    perform: F,
) -> (r: Option<String>)
    requires
        forall|a: &ReaperInstallAction| perform.requires((a,)),
    ensures
        match spec_install_action(*outcome, portable) {
            None => r matches Some(f) && f@ == outcome_download(*outcome).download.file@,
            Some(action) => match r {
                Some(f) => f@ == outcome_download(*outcome).download.file@ && exists|a: &ReaperInstallAction, e: String|
                    install_action_view(*a) == action && #[trigger] perform.ensures((a,), Err(e)),
                None => exists|a: &ReaperInstallAction|
                    install_action_view(*a) == action && #[trigger] perform.ensures((a,), Ok(())),
            },
        },
{
    let (action, download) = match outcome {
        ReaperPreparationOutcome::InstallManually(d) => return Some(d.download.file.clone()),
        ReaperPreparationOutcome::InstallManuallyDueToError(d, _) => return Some(d.download.file.clone()),
        ReaperPreparationOutcome::InstallMainViaInstaller(d) => (
            ReaperInstallAction::RunWindowsInstaller(d.download.file.clone()),
            d,
        ),
        ReaperPreparationOutcome::InstallByMovingFromExtractedReaper { download, dir_containing_reaper } => {
            let action = if portable {
                ReaperInstallAction::MovePortable(dir_containing_reaper.clone())
            } else {
                ReaperInstallAction::MoveMain(dir_containing_reaper.clone())
            };
            (action, download)
        },
    };
    let a = &action;
    let res = perform(a);
    assert(perform.ensures((a,), res));
    match res {
        Ok(u) => {
            assert(res == Ok::<(), String>(()));
            None
        },
        Err(e) => {
            assert(perform.ensures((a,), Err::<(), String>(e)));
            Some(download.download.file.clone())
        },
    }
}

/// `s` without repetitions: each element where it occurs first.
pub open spec fn spec_dedup(s: Seq<Seq<char>>) -> Seq<Seq<char>>
    decreases s.len(),
{
    if s.len() == 0 {
        s
    } else {
        let d = spec_dedup(s.drop_last());
        if d.contains(s.last()) {
            d
        } else {
            d.push(s.last())
        }
    }
}

/// The repository URLs of the package URLs, in order.
pub open spec fn repository_urls(package_urls: Seq<PackageUrl>) -> Seq<Seq<char>> {
    package_urls.map_values(|u: PackageUrl| u@.0)
}

/// The repository indexes to download for the package URLs: each repository URL once, in the
/// order of first mention, the `i`-th to the file named `i` in `cache_dir`.
pub fn repository_index_downloads(package_urls: &Vec<PackageUrl>, cache_dir: &str) -> (r: Vec<(String, String)>)
    ensures
        r@.len() == spec_dedup(repository_urls(package_urls@)).len(),
        forall|i: int| 0 <= i < r@.len() ==> {
            &&& (#[trigger] r@[i]).0@ == spec_dedup(repository_urls(package_urls@))[i]
            &&& r@[i].1@ == spec_path_join(cache_dir@, spec_decimal(i as nat))
        },
{
    let mut urls: Vec<String> = Vec::new();
    let mut k: usize = 0;
    while k < package_urls.len()
        invariant
            k <= package_urls.len(),
            urls@.map_values(|x: String| x@) == spec_dedup(repository_urls(package_urls@.take(k as int))),
        decreases package_urls.len() - k,
    {
        let url = package_urls[k].repository_url();
        let ghost before = urls@.map_values(|x: String| x@);
        proof {
            assert(repository_urls(package_urls@.take(k + 1)).drop_last() =~= repository_urls(package_urls@.take(k as int)));
            assert(repository_urls(package_urls@.take(k + 1)).last() == url@);
        }
        if !contains_string(&urls, url) {
            urls.push(url.to_owned());
            assert(urls@.map_values(|x: String| x@) =~= before.push(url@));
        }
        k = k + 1;
    }
    assert(package_urls@.take(package_urls.len() as int) =~= package_urls@);
    let ghost d = urls@.map_values(|x: String| x@);
    let mut r: Vec<(String, String)> = Vec::new();
    let mut i: usize = 0;
    while i < urls.len()
        invariant
            i <= urls.len(),
            d == urls@.map_values(|x: String| x@),
            r@.len() == i,
            forall|j: int| 0 <= j < i ==> {
                &&& (#[trigger] r@[j]).0@ == d[j]
                &&& r@[j].1@ == spec_path_join(cache_dir@, spec_decimal(j as nat))
            },
        decreases urls.len() - i,
    {
        let name = decimal(i);
        let file = path_join(cache_dir, name.as_str());
        r.push((urls[i].clone(), file));
        i = i + 1;
    }
    r
}

/// The downloaded indexes that are kept, from `(url, name)` per download, where the name is
/// `None` for an index that could not be downloaded or read or has no name: those with a name
/// that no earlier kept index has, in order, as `(url, name)`.
pub open spec fn spec_kept_indexes(results: Seq<(Seq<char>, Option<Seq<char>>)>) -> Seq<(Seq<char>, Seq<char>)>
    decreases results.len(),
{
    if results.len() == 0 {
        Seq::empty()
    } else {
        let kept = spec_kept_indexes(results.drop_last());
        match results.last().1 {
            Some(n) => if kept.map_values(|k: (Seq<char>, Seq<char>)| k.1).contains(n) {
                kept
            } else {
                kept.push((results.last().0, n))
            },
            None => kept,
        }
    }
}

/// The views of `(url, name)` results.
pub open spec fn results_view(results: Seq<(String, Option<String>)>) -> Seq<(Seq<char>, Option<Seq<char>>)> {
    results.map_values(
        |p: (String, Option<String>)|
            (
                p.0@,
                match p.1 {
                    Some(n) => Some(n@),
                    None => None,
                },
            ),
    )
}

/// Picks the downloaded indexes to use (see [`spec_kept_indexes`]): when several URLs give an
/// index of the same name, the first one wins. Each kept index goes to the cache file named
/// after it: `(url, name, name + ".xml")`.
pub fn select_downloaded_indexes(results: &Vec<(String, Option<String>)>) -> (r: Vec<(String, String, String)>)
    ensures
        r@.len() == spec_kept_indexes(results_view(results@)).len(),
        forall|i: int| 0 <= i < r@.len() ==> {
            &&& (#[trigger] r@[i]).0@ == spec_kept_indexes(results_view(results@))[i].0
            &&& r@[i].1@ == spec_kept_indexes(results_view(results@))[i].1
            &&& r@[i].2@ == spec_kept_indexes(results_view(results@))[i].1 + ".xml"@
        },
{
    let mut r: Vec<(String, String, String)> = Vec::new();
    let mut names: Vec<String> = Vec::new();
    let mut k: usize = 0;
    while k < results.len()
        invariant
            k <= results.len(),
            r@.len() == names@.len(),
            r@.len() == spec_kept_indexes(results_view(results@.take(k as int))).len(),
            forall|i: int| 0 <= i < r@.len() ==> {
                &&& (#[trigger] r@[i]).0@ == spec_kept_indexes(results_view(results@.take(k as int)))[i].0
                &&& r@[i].1@ == spec_kept_indexes(results_view(results@.take(k as int)))[i].1
                &&& names@[i]@ == r@[i].1@
                &&& r@[i].2@ == r@[i].1@ + ".xml"@
            },
        decreases results.len() - k,
    {
        let ghost prev = spec_kept_indexes(results_view(results@.take(k as int)));
        proof {
            assert(results_view(results@.take(k + 1)).drop_last() =~= results_view(results@.take(k as int)));
            assert forall|i: int| 0 <= i < names@.len() implies #[trigger] names@[i]@ == prev[i].1 by {
                assert(r@[i].1@ == prev[i].1);
            }
            assert(names@.map_values(|x: String| x@) =~= prev.map_values(|p: (Seq<char>, Seq<char>)| p.1));
        }
        match &results[k].1 {
            None => {},
            Some(name) => {
                if !contains_string(&names, name.as_str()) {
                    let file = concat2(name.as_str(), ".xml");
                    r.push((results[k].0.clone(), name.clone(), file));
                    names.push(name.clone());
                }
            },
        }
        k = k + 1;
    }
    assert(results@.take(results.len() as int) =~= results@);
    r
}

/// A file of a package version to install: its path relative to the resource directory, the
/// sections its source declares (`None` for implicit ones; in the list, `None` for a section
/// name this library does not know) and its package type override.
pub type NewFile = (String, Option<Vec<Option<Section>>>, Option<PackageType>);

/// `f` is the installed file recorded for the new file `n`.
pub open spec fn records_file(n: NewFile, f: InstalledFile) -> bool {
    &&& f.path@ == n.0@
    &&& match n.1 {
        None => f.sections is None,
        Some(v) => f.sections matches Some(set) && set.wf() && set.spec_bits() == known_section_bits(v@),
    }
    &&& f.typ == match n.2 {
        Some(t) => Some(InstalledPackageType::Known(t)),
        None => None,
    }
}

/// The record of an installed package that installing a package version adds to ReaPack's
/// registry: the version's package ID, its description and author (empty where the index gives
/// none), its package type and version name, and one file per new file, in order.
pub fn installed_package_record(
    version_id: &VersionId,
    desc: Option<String>,
    typ: PackageType,
    author: Option<String>,
    files: Vec<NewFile>,
) -> (r: InstalledPackage)
    ensures
        r.remote@ == version_id.package_id.remote@,
        r.category@ == version_id.package_id.category@,
        r.package@ == version_id.package_id.package@,
        r.desc@ == match desc {
            Some(d) => d@,
            None => Seq::empty(),
        },
        r.typ == InstalledPackageType::Known(typ),
        r.version matches InstalledVersionName::Valid(v) && v@ == version_id.version@,
        r.author@ == match author {
            Some(a) => a@,
            None => Seq::empty(),
        },
        r.files@.len() == files@.len(),
        forall|i: int| 0 <= i < files@.len() ==> records_file(files@[i], #[trigger] r.files@[i]),
{
    let ghost all = files@;
    let mut rest = files;
    let mut recorded: Vec<InstalledFile> = Vec::new();
    while rest.len() > 0
        invariant
            recorded@.len() + rest@.len() == all.len(),
            rest@ == all.skip(recorded@.len() as int),
            forall|i: int| 0 <= i < recorded@.len() ==> records_file(all[i], #[trigger] recorded@[i]),
        decreases rest@.len(),
    {
        let ghost k: int = recorded@.len() as int;
        let n = rest.remove(0);
        assert(rest@ =~= all.skip(k + 1));
        assert(n == all[k]);
        let sections = convert_index_section_to_model(&n.1);
        let file_typ = match n.2 {
            Some(t) => Some(InstalledPackageType::Known(t)),
            None => None,
        };
        recorded.push(InstalledFile { path: n.0, sections, typ: file_typ });
    }
    InstalledPackage {
        remote: version_id.package_id.remote.clone(),
        category: version_id.package_id.category.clone(),
        package: version_id.package_id.package.clone(),
        desc: match desc {
            Some(d) => d,
            None => String::new(),
        },
        typ: InstalledPackageType::Known(typ),
        version: InstalledVersionName::Valid(version_id.version.duplicate()),
        author: match author {
            Some(a) => a,
            None => String::new(),
        },
        files: recorded,
    }
}

/// A task of an installation that is reported as it progresses, such as one download.
#[derive(Clone, Debug)]
pub struct InstallerTask {
    pub label: String,
}

/// What an installation came to.
#[derive(Debug)]
pub struct InstallationOutcome {
    pub preparation_report: PreparationReport,
    /// Whether anything was installed (not so in a dry run).
    pub actually_installed_things: bool,
    /// The REAPER installer that the user has to run by hand, if any.
    pub manual_reaper_install_path: Option<String>,
}

/// Why an installation failed.
#[derive(Debug)]
pub enum InstallError {
    /// Nothing was installed because some packages failed; the report says which.
    SomePackagesFailed(PreparationReport),
    /// Another error, by its message.
    Other(String),
}

/// The message of an installation error.
pub open spec fn spec_install_error_message(e: InstallError) -> Seq<char> {
    match e {
        InstallError::SomePackagesFailed(_) => "ReaBoot didn't install anything because some packages failed."@,
        InstallError::Other(m) => m@,
    }
}

impl InstallError {
    /// The message of this error.
    pub fn message(&self) -> (r: String)
        ensures
            r@ == spec_install_error_message(*self),
    {
        match self {
            InstallError::SomePackagesFailed(_) => "ReaBoot didn't install anything because some packages failed.".to_owned(),
            InstallError::Other(m) => m.clone(),
        }
    }
}

/// What the installation comes to right after the preparation report, as `step` decides: a dry
/// run ends with the report and nothing installed (and no REAPER installer to run by hand);
/// failed packages that are not to be skipped end it with the error that carries the report;
/// otherwise (`None`) the prepared changes are applied next.
pub fn finish_after_preparation(step: NextStep, report: PreparationReport) -> (r: Option<
    Result<InstallationOutcome, InstallError>,
>)
    ensures
        step == NextStep::ReportOnly ==> (r matches Some(Ok(o)) && !o.actually_installed_things
            && o.manual_reaper_install_path is None && o.preparation_report == report),
        step == NextStep::FailBecausePackagesFailed ==> (r matches Some(Err(InstallError::SomePackagesFailed(rep)))
            && rep == report),
        step == NextStep::ApplyChanges ==> r is None,
{
    match step {
        NextStep::ReportOnly => Some(
            Ok(InstallationOutcome { preparation_report: report, actually_installed_things: false, manual_reaper_install_path: None }),
        ),
        NextStep::FailBecausePackagesFailed => Some(Err(InstallError::SomePackagesFailed(report))),
        NextStep::ApplyChanges => None,
    }
}

/// What the end of an installation shows: the report, if there is one (on success, and when
/// packages failed), whether things were actually installed, and the REAPER installer to run by
/// hand, if any. Another error has no report.
pub fn installation_done_parts(result: Result<InstallationOutcome, InstallError>) -> (r: (
    Option<PreparationReport>,
    bool,
    Option<String>,
))
    ensures
        match result {
            Ok(o) => r.0 == Some(o.preparation_report) && r.1 == o.actually_installed_things && r.2
                == o.manual_reaper_install_path,
            Err(InstallError::SomePackagesFailed(rep)) => r.0 == Some(rep) && !r.1 && r.2 is None,
            Err(InstallError::Other(_)) => r.0 is None && !r.1 && r.2 is None,
        },
{
    match result {
        Ok(o) => (Some(o.preparation_report), o.actually_installed_things, o.manual_reaper_install_path),
        Err(InstallError::SomePackagesFailed(rep)) => (Some(rep), false, None),
        Err(InstallError::Other(_)) => (None, false, None),
    }
}

/// Whether some package outcome of the report carries a donation link.
pub fn report_contains_donation_links(report: &PreparationReport) -> (r: bool)
    ensures
        r == exists|i: int|
            0 <= i < report.package_preparation_outcomes@.len()
                && (#[trigger] report.package_preparation_outcomes@[i]).donation_url is Some,
{
    let outcomes = &report.package_preparation_outcomes;
    let mut i: usize = 0;
    while i < outcomes.len()
        invariant
            i <= outcomes@.len(),
            outcomes == &report.package_preparation_outcomes,
            forall|j: int| 0 <= j < i ==> (#[trigger] outcomes@[j]).donation_url is None,
        decreases outcomes.len() - i,
    {
        if outcomes[i].donation_url.is_some() {
            return true;
        }
        i = i + 1;
    }
    false
}

/// The options of the report shown at the end of an installation in the graphical frontend:
/// no main heading, donation links shown.
pub open spec fn done_report_options(actually_installed_things: bool) -> PreparationReportMarkdownOptions {
    PreparationReportMarkdownOptions {
        include_main_heading: false,
        include_donation_links: true,
        actually_installed_things,
        optimize_for_termimad: false,
    }
}

/// The Markdown of the report shown at the end of an installation in the graphical frontend,
/// and whether it holds donation links.
pub fn done_report_markdown(report: &PreparationReport, actually_installed_things: bool) -> (r: (String, bool))
    ensures
        r.0@ == spec_report_markdown(
            outcomes_view(report.package_preparation_outcomes@),
            report.tooling_changes@,
            report.package_removals@,
            done_report_options(actually_installed_things),
        ),
        r.1 == exists|i: int|
            0 <= i < report.package_preparation_outcomes@.len()
                && (#[trigger] report.package_preparation_outcomes@[i]).donation_url is Some,
{
    let options = PreparationReportMarkdownOptions {
        include_main_heading: false,
        include_donation_links: true,
        actually_installed_things,
        optimize_for_termimad: false,
    };
    let markdown = PreparationReportAsMarkdown::new(report, options).to_display_string();
    (markdown, report_contains_donation_links(report))
}

/// The stage an installation ends in: finished, or failed with the error's message.
pub fn final_installation_stage(result: &Result<InstallationOutcome, InstallError>) -> (r: InstallationStage)
    ensures
        match result {
            Ok(_) => r == InstallationStage::Finished,
            Err(e) => r matches InstallationStage::Failed { display_msg } && display_msg@ == spec_install_error_message(*e),
        },
{
    match result {
        Ok(_) => InstallationStage::Finished,
        Err(e) => InstallationStage::Failed { display_msg: e.message() },
    }
}

} // verus!
