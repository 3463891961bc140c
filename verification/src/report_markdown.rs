//! The preparation report as Markdown.

use vstd::prelude::*;

use crate::installed_package::{spec_installed_version_text, InstalledPackage};
use crate::preparation_report::{
    count_category, opt_version_ref_model, outcomes_view, spec_category, spec_status_text, OutcomeView, PackagePrepStatus,
    PackagePreparationOutcome, PackageStatusCategory, PreparationReport, StatusView, ToolingChange,
};
use crate::text::{decimal, spec_decimal};
use crate::version::VersionRef;

verus! {

/// How to render the report.
#[derive(Copy, Clone, Debug)]
pub struct PreparationReportMarkdownOptions {
    /// Whether to include the main heading.
    pub include_main_heading: bool,
    /// Whether to show donation links (as HTML, to open them in a new tab).
    pub include_donation_links: bool,
    /// Whether the packages have actually been installed (`true`), or installation failed or
    /// this was just a dry run (`false`).
    pub actually_installed_things: bool,
    /// Whether to shape the tables for Termimad, which needs extra border rows.
    pub optimize_for_termimad: bool,
}

/// The report together with the options to render it.
pub struct PreparationReportAsMarkdown<'a> {
    report: &'a PreparationReport,
    options: PreparationReportMarkdownOptions,
}

/// A second-level heading: `## {count} {label}`, with a plural `s` for more than one, then
/// `suffix`.
pub open spec fn spec_heading(label: Seq<char>, count: nat, suffix: Seq<char>) -> Seq<char> {
    "\n## "@ + spec_decimal(count) + " "@ + label + (if count > 1 {
        "s"@
    } else {
        Seq::empty()
    }) + suffix + "\n"@
}

/// The header of a table with three columns.
pub open spec fn spec_table_header(termimad: bool, l1: Seq<char>, l2: Seq<char>, l3: Seq<char>) -> Seq<char> {
    (if termimad {
        "|:-|:-|:-\n"@
    } else {
        Seq::empty()
    }) + "|**"@ + l1 + "**|**"@ + l2 + "**|**"@ + l3 + "**\n"@ + "|:-|:-|:-\n"@
}

/// The border below a table row, which only Termimad needs.
pub open spec fn spec_divider(termimad: bool) -> Seq<char> {
    if termimad {
        "|-|-|-\n"@
    } else {
        Seq::empty()
    }
}

/// The text of a version reference model.
pub open spec fn spec_model_text(m: (int, Seq<char>)) -> Seq<char> {
    if m.0 == 0 {
        "latest"@
    } else if m.0 == 1 {
        "latest-pre"@
    } else {
        m.1
    }
}

/// A table row: package name, version (or `-`), and `label3`.
pub open spec fn spec_row(o: OutcomeView, label3: Seq<char>, termimad: bool) -> Seq<char> {
    "| "@ + o.package_id.2 + " | "@ + match o.version {
        Some(m) => spec_model_text(m),
        None => "-"@,
    } + " | "@ + label3 + "\n"@ + spec_divider(termimad)
}

/// A name in bold, then the version if there is one.
pub open spec fn spec_name_and_version(name: Seq<char>, version: Option<Seq<char>>) -> Seq<char> {
    "**"@ + name + "**"@ + match version {
        Some(v) => " "@ + v,
        None => Seq::empty(),
    }
}

/// A package's name and version, with its category in parentheses.
pub open spec fn spec_package_version(id: (Seq<char>, Seq<char>, Seq<char>), version: Option<Seq<char>>) -> Seq<char> {
    spec_name_and_version(id.2, version) + " ("@ + id.1 + ")"@
}

/// A link that opens in a new tab.
pub open spec fn spec_link(url: Seq<char>) -> Seq<char> {
    "<a href=\""@ + url + "\" target=\"_blank\">Donate</a>"@
}

/// Rows of the failed packages.
pub open spec fn spec_failure_rows(os: Seq<OutcomeView>, termimad: bool) -> Seq<char>
    decreases os.len(),
{
    if os.len() == 0 {
        Seq::empty()
    } else {
        spec_failure_rows(os.drop_last(), termimad) + if spec_category(os.last().status) == PackageStatusCategory::Failure {
            spec_row(os.last(), spec_status_text(os.last().status), termimad)
        } else {
            Seq::empty()
        }
    }
}

/// Rows of the replaced packages, with the replaced version.
pub open spec fn spec_replacement_rows(os: Seq<OutcomeView>, termimad: bool) -> Seq<char>
    decreases os.len(),
{
    if os.len() == 0 {
        Seq::empty()
    } else {
        spec_replacement_rows(os.drop_last(), termimad) + match os.last().status {
            StatusView::ToBeReplaced(old) => spec_row(os.last(), old, termimad),
            _ => Seq::empty(),
        }
    }
}

/// A row for every outcome, with its donation link if it has one.
pub open spec fn spec_donation_rows(os: Seq<OutcomeView>, termimad: bool) -> Seq<char>
    decreases os.len(),
{
    if os.len() == 0 {
        Seq::empty()
    } else {
        spec_donation_rows(os.drop_last(), termimad) + match os.last().donation_url {
            Some(url) => spec_row(os.last(), spec_link(url), termimad),
            None => spec_row(os.last(), Seq::empty(), termimad),
        }
    }
}

/// List items of the added packages: package name, version and category.
pub open spec fn spec_addition_lines(os: Seq<OutcomeView>) -> Seq<char>
    decreases os.len(),
{
    if os.len() == 0 {
        Seq::empty()
    } else {
        let o = os.last();
        spec_addition_lines(os.drop_last()) + if spec_category(o.status) == PackageStatusCategory::Addition {
            "- "@ + spec_package_version(
                (o.package_id.0, o.package_id.1, o.package_id.2),
                match o.version {
                    Some(m) => Some(spec_model_text(m)),
                    None => None,
                },
            ) + "\n"@
        } else {
            Seq::empty()
        }
    }
}

/// List items of the tooling changes.
pub open spec fn spec_tooling_lines(cs: Seq<ToolingChange>) -> Seq<char>
    decreases cs.len(),
{
    if cs.len() == 0 {
        Seq::empty()
    } else {
        spec_tooling_lines(cs.drop_last()) + "- "@ + spec_name_and_version(cs.last().name@, Some(cs.last().download.version@))
            + "\n"@
    }
}

/// List items of the package removals.
pub open spec fn spec_removal_lines(rs: Seq<InstalledPackage>) -> Seq<char>
    decreases rs.len(),
{
    if rs.len() == 0 {
        Seq::empty()
    } else {
        let r = rs.last();
        spec_removal_lines(rs.drop_last()) + "- "@ + spec_package_version(
            (r.remote@, r.category@, r.package@),
            Some(spec_installed_version_text(r.version)),
        ) + "\n"@
    }
}

/// The failures section: a table of the failed packages with their errors.
pub open spec fn spec_failures_section(os: Seq<OutcomeView>, termimad: bool) -> Seq<char> {
    let f = count_category(os, PackageStatusCategory::Failure);
    if f > 0 {
        spec_heading("package failure"@, f, Seq::empty()) + spec_table_header(termimad, "Package"@, "Version"@, "Error"@)
            + spec_failure_rows(os, termimad)
    } else {
        Seq::empty()
    }
}

/// The suffix of the headings of changes that were not made.
pub open spec fn spec_skipped_suffix(actually_installed_things: bool) -> Seq<char> {
    if actually_installed_things {
        Seq::empty()
    } else {
        " **[SKIPPED]**"@
    }
}

/// The tooling section: a list of the tools installed or updated.
pub open spec fn spec_tooling_section(tooling: Seq<ToolingChange>, skipped: Seq<char>) -> Seq<char> {
    if tooling.len() > 0 {
        spec_heading("tooling change"@, tooling.len(), skipped) + spec_tooling_lines(tooling)
    } else {
        Seq::empty()
    }
}

/// The removals section: a list of the packages removed without replacement.
pub open spec fn spec_removals_section(removals: Seq<InstalledPackage>, skipped: Seq<char>) -> Seq<char> {
    if removals.len() > 0 {
        spec_heading("package removal"@, removals.len(), skipped) + spec_removal_lines(removals)
    } else {
        Seq::empty()
    }
}

/// The replacements section: a table of the replaced packages and the versions they replace.
pub open spec fn spec_replacements_section(os: Seq<OutcomeView>, termimad: bool, skipped: Seq<char>) -> Seq<char> {
    let rp = count_category(os, PackageStatusCategory::Replacement);
    if rp > 0 {
        spec_heading("package replacement"@, rp, skipped) + spec_table_header(
            termimad,
            "Package"@,
            "Version"@,
            "Replaces previously installed version"@,
        ) + spec_replacement_rows(os, termimad)
    } else {
        Seq::empty()
    }
}

/// The additions section: with donation links a table with a row for every outcome, else a
/// list of the added packages.
pub open spec fn spec_additions_section(os: Seq<OutcomeView>, termimad: bool, donation_links: bool, skipped: Seq<char>) -> Seq<char> {
    let a = count_category(os, PackageStatusCategory::Addition);
    if a > 0 {
        spec_heading("package addition"@, a, skipped) + if donation_links {
            spec_table_header(termimad, "Package"@, "Version"@, "Donate"@) + spec_donation_rows(os, termimad)
        } else {
            spec_addition_lines(os)
        }
    } else {
        Seq::empty()
    }
}

/// Whether there is nothing at all to report.
pub open spec fn spec_nothing_to_report(os: Seq<OutcomeView>, tooling: Seq<ToolingChange>, removals: Seq<InstalledPackage>) -> bool {
    &&& count_category(os, PackageStatusCategory::Failure) == 0
    &&& tooling.len() == 0
    &&& removals.len() == 0
    &&& count_category(os, PackageStatusCategory::Replacement) == 0
    &&& count_category(os, PackageStatusCategory::Addition) == 0
}

/// The whole report: main heading (if asked for), then the sections for failures, tooling
/// changes, removals, replacements and additions, each only where there is something to
/// report, or a note that nothing had to change.
pub open spec fn spec_report_markdown(
    os: Seq<OutcomeView>,
    tooling: Seq<ToolingChange>,
    removals: Seq<InstalledPackage>,
    opts: PreparationReportMarkdownOptions,
) -> Seq<char> {
    let tm = opts.optimize_for_termimad;
    let skipped = spec_skipped_suffix(opts.actually_installed_things);
    let main = if opts.include_main_heading {
        "\n# Installation report\n"@
    } else {
        Seq::empty()
    };
    let nothing = if spec_nothing_to_report(os, tooling, removals) {
        "No changes were necessary."@
    } else {
        Seq::empty()
    };
    main + spec_failures_section(os, tm) + spec_tooling_section(tooling, skipped) + spec_removals_section(removals, skipped)
        + spec_replacements_section(os, tm, skipped) + spec_additions_section(os, tm, opts.include_donation_links, skipped)
        + nothing
}

fn heading(label: &str, count: usize, suffix: &str) -> (r: String)
    ensures
        r@ == spec_heading(label@, count as nat, suffix@),
{
    let n = decimal(count);
    let mut r = "\n## ".to_owned();
    r = r.concat(n.as_str());
    r = r.concat(" ");
    r = r.concat(label);
    if count > 1 {
        r = r.concat("s");
    }
    r = r.concat(suffix);
    r = r.concat("\n");
    r
}

fn table_header(termimad: bool, l1: &str, l2: &str, l3: &str) -> (r: String)
    ensures
        r@ == spec_table_header(termimad, l1@, l2@, l3@),
{
    let mut r = String::new();
    if termimad {
        r = r.concat("|:-|:-|:-\n");
    }
    r = r.concat("|**");
    r = r.concat(l1);
    r = r.concat("**|**");
    r = r.concat(l2);
    r = r.concat("**|**");
    r = r.concat(l3);
    r = r.concat("**\n");
    r = r.concat("|:-|:-|:-\n");
    r
}

fn version_text(v: &Option<VersionRef>) -> (r: String)
    ensures
        r@ == match opt_version_ref_model(*v) {
            Some(m) => spec_model_text(m),
            None => "-"@,
        },
{
    match v {
        Some(v) => v.to_text(),
        None => "-".to_owned(),
    }
}

fn row(o: &PackagePreparationOutcome, label3: &str, termimad: bool) -> (r: String)
    ensures
        r@ == spec_row(o@, label3@, termimad),
{
    let v = version_text(&o.version);
    let mut r = "| ".to_owned();
    r = r.concat(o.package_id.package.as_str());
    r = r.concat(" | ");
    r = r.concat(v.as_str());
    r = r.concat(" | ");
    r = r.concat(label3);
    r = r.concat("\n");
    if termimad {
        r = r.concat("|-|-|-\n");
    }
    r
}

fn write_name_and_version(name: &str, version: Option<&str>) -> (r: String)
    ensures
        r@ == spec_name_and_version(
            name@,
            match version {
                Some(v) => Some(v@),
                None => None,
            },
        ),
{
    let mut r = "**".to_owned();
    r = r.concat(name);
    r = r.concat("**");
    if let Some(v) = version {
        r = r.concat(" ");
        r = r.concat(v);
    }
    r
}

fn package_version(category: &str, name: &str, version: Option<&str>) -> (r: String)
    ensures
        r@ == spec_name_and_version(
            name@,
            match version {
                Some(v) => Some(v@),
                None => None,
            },
        ) + " ("@ + category@ + ")"@,
{
    let mut r = write_name_and_version(name, version);
    r = r.concat(" (");
    r = r.concat(category);
    r = r.concat(")");
    r
}

fn link(url: &str) -> (r: String)
    ensures
        r@ == spec_link(url@),
{
    let mut r = "<a href=\"".to_owned();
    r = r.concat(url);
    r = r.concat("\" target=\"_blank\">Donate</a>");
    r
}

fn failure_rows(os: &Vec<PackagePreparationOutcome>, termimad: bool) -> (r: String)
    ensures
        r@ == spec_failure_rows(outcomes_view(os@), termimad),
{
    let mut r = String::new();
    let mut i: usize = 0;
    while i < os.len()
        invariant
            i <= os.len(),
            r@ == spec_failure_rows(outcomes_view(os@.take(i as int)), termimad),
        decreases os.len() - i,
    {
        assert(outcomes_view(os@.take(i + 1)).drop_last() =~= outcomes_view(os@.take(i as int)));
        assert(outcomes_view(os@.take(i + 1)).last() == os@[i as int]@);
        let o = &os[i];
        if o.status.category() == PackageStatusCategory::Failure {
            let text = o.status.to_display_string();
            let line = row(o, text.as_str(), termimad);
            r = r.concat(line.as_str());
        }
        i = i + 1;
    }
    assert(os@.take(os.len() as int) =~= os@);
    r
}

fn replacement_rows(os: &Vec<PackagePreparationOutcome>, termimad: bool) -> (r: String)
    ensures
        r@ == spec_replacement_rows(outcomes_view(os@), termimad),
{
    let mut r = String::new();
    let mut i: usize = 0;
    while i < os.len()
        invariant
            i <= os.len(),
            r@ == spec_replacement_rows(outcomes_view(os@.take(i as int)), termimad),
        decreases os.len() - i,
    {
        assert(outcomes_view(os@.take(i + 1)).drop_last() =~= outcomes_view(os@.take(i as int)));
        assert(outcomes_view(os@.take(i + 1)).last() == os@[i as int]@);
        let o = &os[i];
        if let PackagePrepStatus::ToBeReplaced { old_version } = &o.status {
            let line = row(o, old_version.as_str(), termimad);
            r = r.concat(line.as_str());
        }
        i = i + 1;
    }
    assert(os@.take(os.len() as int) =~= os@);
    r
}

fn donation_rows(os: &Vec<PackagePreparationOutcome>, termimad: bool) -> (r: String)
    ensures
        r@ == spec_donation_rows(outcomes_view(os@), termimad),
{
    let mut r = String::new();
    let mut i: usize = 0;
    while i < os.len()
        invariant
            i <= os.len(),
            r@ == spec_donation_rows(outcomes_view(os@.take(i as int)), termimad),
        decreases os.len() - i,
    {
        assert(outcomes_view(os@.take(i + 1)).drop_last() =~= outcomes_view(os@.take(i as int)));
        assert(outcomes_view(os@.take(i + 1)).last() == os@[i as int]@);
        let o = &os[i];
        let line = match &o.donation_url {
            Some(url) => {
                let l = link(url.as_str());
                row(o, l.as_str(), termimad)
            },
            None => {
                proof {
                    reveal_strlit("");
                }
                row(o, "", termimad)
            },
        };
        r = r.concat(line.as_str());
        i = i + 1;
    }
    assert(os@.take(os.len() as int) =~= os@);
    r
}

fn addition_lines(os: &Vec<PackagePreparationOutcome>) -> (r: String)
    ensures
        r@ == spec_addition_lines(outcomes_view(os@)),
{
    let mut r = String::new();
    let mut i: usize = 0;
    while i < os.len()
        invariant
            i <= os.len(),
            r@ == spec_addition_lines(outcomes_view(os@.take(i as int))),
        decreases os.len() - i,
    {
        assert(outcomes_view(os@.take(i + 1)).drop_last() =~= outcomes_view(os@.take(i as int)));
        assert(outcomes_view(os@.take(i + 1)).last() == os@[i as int]@);
        let o = &os[i];
        if o.status.category() == PackageStatusCategory::Addition {
            let id = o.package_id.to_borrowed();
            let line = match &o.version {
                Some(v) => {
                    let t = v.to_text();
                    package_version(id.category, id.package, Some(t.as_str()))
                },
                None => package_version(id.category, id.package, None),
            };
            r = r.concat("- ");
            r = r.concat(line.as_str());
            r = r.concat("\n");
        }
        i = i + 1;
    }
    assert(os@.take(os.len() as int) =~= os@);
    r
}

fn tooling_lines(cs: &Vec<ToolingChange>) -> (r: String)
    ensures
        r@ == spec_tooling_lines(cs@),
{
    let mut r = String::new();
    let mut i: usize = 0;
    while i < cs.len()
        invariant
            i <= cs.len(),
            r@ == spec_tooling_lines(cs@.take(i as int)),
        decreases cs.len() - i,
    {
        assert(cs@.take(i + 1).drop_last() =~= cs@.take(i as int));
        let c = &cs[i];
        let line = write_name_and_version(c.name.as_str(), Some(c.download.version.as_str()));
        r = r.concat("- ");
        r = r.concat(line.as_str());
        r = r.concat("\n");
        i = i + 1;
    }
    assert(cs@.take(cs.len() as int) =~= cs@);
    r
}

fn removal_lines(rs: &Vec<InstalledPackage>) -> (r: String)
    ensures
        r@ == spec_removal_lines(rs@),
{
    let mut r = String::new();
    let mut i: usize = 0;
    while i < rs.len()
        invariant
            i <= rs.len(),
            r@ == spec_removal_lines(rs@.take(i as int)),
        decreases rs.len() - i,
    {
        assert(rs@.take(i + 1).drop_last() =~= rs@.take(i as int));
        let p = &rs[i];
        let id = p.package_id();
        let v = p.version.to_display_string();
        let line = package_version(id.category, id.package, Some(v.as_str()));
        assert(line@ == spec_package_version((p.remote@, p.category@, p.package@), Some(spec_installed_version_text(p.version))));
        r = r.concat("- ");
        r = r.concat(line.as_str());
        r = r.concat("\n");
        i = i + 1;
    }
    assert(rs@.take(rs.len() as int) =~= rs@);
    r
}

fn failures_section(os: &Vec<PackagePreparationOutcome>, failures: usize, termimad: bool) -> (r: String)
    requires
        failures == count_category(outcomes_view(os@), PackageStatusCategory::Failure),
    ensures
        r@ == spec_failures_section(outcomes_view(os@), termimad),
{
    if failures > 0 {
        proof {
            reveal_strlit("");
        }
        let h = heading("package failure", failures, "");
        let t = table_header(termimad, "Package", "Version", "Error");
        let rows = failure_rows(os, termimad);
        let r = h.concat(t.as_str()).concat(rows.as_str());
        assert(r@ =~= h@ + t@ + rows@);
        r
    } else {
        String::new()
    }
}

fn tooling_section(tooling: &Vec<ToolingChange>, skipped: &str) -> (r: String)
    ensures
        r@ == spec_tooling_section(tooling@, skipped@),
{
    if tooling.len() > 0 {
        let h = heading("tooling change", tooling.len(), skipped);
        let lines = tooling_lines(tooling);
        h.concat(lines.as_str())
    } else {
        String::new()
    }
}

fn removals_section(removals: &Vec<InstalledPackage>, skipped: &str) -> (r: String)
    ensures
        r@ == spec_removals_section(removals@, skipped@),
{
    if removals.len() > 0 {
        let h = heading("package removal", removals.len(), skipped);
        let lines = removal_lines(removals);
        h.concat(lines.as_str())
    } else {
        String::new()
    }
}

fn replacements_section(os: &Vec<PackagePreparationOutcome>, replacements: usize, termimad: bool, skipped: &str) -> (r: String)
    requires
        replacements == count_category(outcomes_view(os@), PackageStatusCategory::Replacement),
    ensures
        r@ == spec_replacements_section(outcomes_view(os@), termimad, skipped@),
{
    if replacements > 0 {
        let h = heading("package replacement", replacements, skipped);
        let t = table_header(termimad, "Package", "Version", "Replaces previously installed version");
        let rows = replacement_rows(os, termimad);
        let r = h.concat(t.as_str()).concat(rows.as_str());
        assert(r@ =~= h@ + t@ + rows@);
        r
    } else {
        String::new()
    }
}

fn additions_section(
    os: &Vec<PackagePreparationOutcome>,
    additions: usize,
    termimad: bool,
    donation_links: bool,
    skipped: &str,
) -> (r: String)
    requires
        additions == count_category(outcomes_view(os@), PackageStatusCategory::Addition),
    ensures
        r@ == spec_additions_section(outcomes_view(os@), termimad, donation_links, skipped@),
{
    if additions > 0 {
        let h = heading("package addition", additions, skipped);
        if donation_links {
            let t = table_header(termimad, "Package", "Version", "Donate");
            let rows = donation_rows(os, termimad);
            let r = h.concat(t.as_str()).concat(rows.as_str());
            assert(r@ =~= h@ + t@ + rows@);
            r
        } else {
            let lines = addition_lines(os);
            h.concat(lines.as_str())
        }
    } else {
        String::new()
    }
}

impl<'a> PreparationReportAsMarkdown<'a> {

    pub fn new(report: &'a PreparationReport, options: PreparationReportMarkdownOptions) -> (r: Self)
        ensures
            r.report() == report,
            r.options() == options,
    {
        PreparationReportAsMarkdown { report, options }
    }

    /// The report being rendered.
    pub closed spec fn report(&self) -> &'a PreparationReport {
        self.report
    }

    /// The options it is rendered with.
    pub closed spec fn options(&self) -> PreparationReportMarkdownOptions {
        self.options
    }

    /// The report as Markdown.
    pub fn to_display_string(&self) -> (r: String)
        ensures
            r@ == spec_report_markdown(
                outcomes_view(self.report().package_preparation_outcomes@),
                self.report().tooling_changes@,
                self.report().package_removals@,
                self.options(),
            ),
    {
        let report = self.report;
        let opts = self.options;
        let tm = opts.optimize_for_termimad;
        let summary = report.summary();
        let os = &report.package_preparation_outcomes;
        let skipped = if opts.actually_installed_things {
            ""
        } else {
            " **[SKIPPED]**"
        };
        proof {
            reveal_strlit("");
            reveal_strlit(" **[SKIPPED]**");
        }
        assert(skipped@ == spec_skipped_suffix(opts.actually_installed_things));
        let sec_main = if opts.include_main_heading {
            "\n# Installation report\n".to_owned()
        } else {
            String::new()
        };
        let sec_fail = failures_section(os, summary.failures, tm);
        let sec_tools = tooling_section(&report.tooling_changes, skipped);
        let sec_rem = removals_section(&report.package_removals, skipped);
        let sec_repl = replacements_section(os, summary.replacements, tm, skipped);
        let sec_add = additions_section(os, summary.additions, tm, opts.include_donation_links, skipped);
        let nothing = summary.failures == 0 && report.tooling_changes.len() == 0 && report.package_removals.len() == 0
            && summary.replacements == 0 && summary.additions == 0;
        let sec_none = if nothing {
            "No changes were necessary.".to_owned()
        } else {
            String::new()
        };
        let r = sec_main.concat(sec_fail.as_str()).concat(sec_tools.as_str()).concat(sec_rem.as_str()).concat(
            sec_repl.as_str(),
        ).concat(sec_add.as_str()).concat(sec_none.as_str());
        assert(r@ =~= sec_main@ + sec_fail@ + sec_tools@ + sec_rem@ + sec_repl@ + sec_add@ + sec_none@);
        r
    }
}

} // verus!
