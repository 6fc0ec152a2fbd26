//! The reports of the tools that look at one project: what was cleaned, which
//! dependencies are outdated, and what the audit found.

use vstd::prelude::*;
use crate::execution::concat_text;
use crate::groups::{copy_text, copy_texts};
use crate::paths::{file_name_or, name_or};
use crate::seqs::{collect, lemma_collect_step, lemma_deep_vec};
use crate::text::same_text;

verus! {

broadcast use lemma_deep_vec;

/// What cleaning a project gave.
#[derive(Debug, Clone)]
pub struct CleanResult {
    pub path: String,
    pub name: String,
    pub freed_bytes: u64,
    pub success: bool,
    pub error: Option<String>,
}

pub struct CleanResultModel {
    pub path: Seq<char>,
    pub name: Seq<char>,
    pub freed_bytes: u64,
    pub success: bool,
    pub error: Option<Seq<char>>,
}

impl DeepView for CleanResult {
    type V = CleanResultModel;

    open spec fn deep_view(&self) -> CleanResultModel {
        CleanResultModel {
            path: self.path@,
            name: self.name@,
            freed_bytes: self.freed_bytes,
            success: self.success,
            error: self.error.deep_view(),
        }
    }
}

/// How the attempt to clean a project went.
#[derive(Debug, Clone)]
pub enum CleanAttempt {
    /// The project has no build-output directory.
    NothingToClean,
    /// What was to be removed is gone, or was not there.
    Removed,
    /// The removal failed for the given reason.
    Failed(String),
}

/// The bytes that a removal is taken to have freed: all of the size known
/// before where the whole build output went, half of it where only the debug
/// part went. A size that is not known counts as zero.
pub open spec fn freed_estimate(debug_only: bool, size_hint: Option<u64>) -> u64 {
    let before: u64 = match size_hint {
        Some(s) => s,
        None => 0,
    };
    if debug_only {
        (before / 2) as u64
    } else {
        before
    }
}

/// The bytes that a removal is taken to have freed.
pub fn estimate_freed(debug_only: bool, size_hint: Option<u64>) -> (r: u64)
    ensures
        r == freed_estimate(debug_only, size_hint),
{
    let before: u64 = match size_hint {
        Some(s) => s,
        None => 0,
    };
    if debug_only {
        before / 2
    } else {
        before
    }
}

/// The report on an attempt to clean a project.
pub open spec fn clean_report(
    project_path: Seq<char>,
    debug_only: bool,
    size_hint: Option<u64>,
    attempt: CleanAttempt,
) -> CleanResultModel {
    let name = name_or(project_path, "unknown"@);
    match attempt {
        CleanAttempt::NothingToClean => CleanResultModel {
            path: project_path,
            name: name,
            freed_bytes: 0,
            success: true,
            error: None,
        },
        CleanAttempt::Removed => CleanResultModel {
            path: project_path,
            name: name,
            freed_bytes: freed_estimate(debug_only, size_hint),
            success: true,
            error: None,
        },
        CleanAttempt::Failed(e) => CleanResultModel {
            path: project_path,
            name: name,
            freed_bytes: 0,
            success: false,
            error: Some(e@),
        },
    }
}

/// The report on an attempt to clean a project.
pub fn clean_result(
    project_path: String,
    debug_only: bool,
    size_hint: Option<u64>,
    attempt: CleanAttempt,
) -> (r: CleanResult)
    ensures
        r.deep_view() == clean_report(project_path@, debug_only, size_hint, attempt),
{
    let name = file_name_or(project_path.as_str(), "unknown");
    match attempt {
        CleanAttempt::NothingToClean => CleanResult {
            path: project_path,
            name,
            freed_bytes: 0,
            success: true,
            error: None,
        },
        CleanAttempt::Removed => CleanResult {
            path: project_path,
            name,
            freed_bytes: estimate_freed(debug_only, size_hint),
            success: true,
            error: None,
        },
        CleanAttempt::Failed(e) => CleanResult {
            path: project_path,
            name,
            freed_bytes: 0,
            success: false,
            error: Some(e),
        },
    }
}

/// The size known for the project at a position of a list, where sizes were
/// given and the list of sizes reaches that far.
pub fn size_hint_at(hints: &Option<Vec<u64>>, i: usize) -> (r: Option<u64>)
    ensures
        r == match *hints {
            Some(h) => if i < h@.len() {
                Some(h@[i as int])
            } else {
                None
            },
            None => None,
        },
{
    match hints {
        Some(h) => if i < h.len() {
            Some(h[i])
        } else {
            None
        },
        None => None,
    }
}

/// A dependency of which a newer version exists.
#[derive(Debug, Clone)]
pub struct OutdatedDep {
    pub name: String,
    pub current: String,
    pub latest: String,
    /// `Normal`, `Development` or `Build`.
    pub kind: String,
}

pub struct OutdatedDepModel {
    pub name: Seq<char>,
    pub current: Seq<char>,
    pub latest: Seq<char>,
    pub kind: Seq<char>,
}

impl DeepView for OutdatedDep {
    type V = OutdatedDepModel;

    open spec fn deep_view(&self) -> OutdatedDepModel {
        OutdatedDepModel {
            name: self.name@,
            current: self.current@,
            latest: self.latest@,
            kind: self.kind@,
        }
    }
}

/// One dependency as the tool reports it.
#[derive(Debug, Clone)]
pub struct OutdatedEntry {
    pub name: String,
    /// The version that the project uses.
    pub project: String,
    pub latest: String,
    pub kind: Option<String>,
}

pub struct OutdatedEntryModel {
    pub name: Seq<char>,
    pub project: Seq<char>,
    pub latest: Seq<char>,
    pub kind: Option<Seq<char>>,
}

impl DeepView for OutdatedEntry {
    type V = OutdatedEntryModel;

    open spec fn deep_view(&self) -> OutdatedEntryModel {
        OutdatedEntryModel {
            name: self.name@,
            project: self.project@,
            latest: self.latest@,
            kind: self.kind.deep_view(),
        }
    }
}

/// The outdated dependency that a reported one is: none where the project
/// uses the latest version; the kind is `Normal` where none is reported.
pub open spec fn outdated_of() -> spec_fn(OutdatedEntryModel) -> Option<OutdatedDepModel> {
    |e: OutdatedEntryModel|
        if e.project == e.latest {
            None
        } else {
            Some(
                OutdatedDepModel {
                    name: e.name,
                    current: e.project,
                    latest: e.latest,
                    kind: match e.kind {
                        Some(k) => k,
                        None => "Normal"@,
                    },
                },
            )
        }
}

/// The outdated ones among the reported dependencies, in the order of the
/// report.
pub fn outdated_deps(entries: &Vec<OutdatedEntry>) -> (r: Vec<OutdatedDep>)
    ensures
        r.deep_view() == collect(entries.deep_view(), outdated_of()),
{
    let mut out: Vec<OutdatedDep> = Vec::new();
    let mut i: usize = 0;
    assert(entries.deep_view().take(0) =~= Seq::<OutdatedEntryModel>::empty());
    assert(out.deep_view() =~= Seq::<OutdatedDepModel>::empty());
    while i < entries.len()
        invariant
            i <= entries.len(),
            out.deep_view() == collect(entries.deep_view().take(i as int), outdated_of()),
        decreases entries.len() - i,
    {
        proof {
            lemma_collect_step(entries.deep_view(), outdated_of(), i as int);
            assert(entries.deep_view()[i as int] == entries@[i as int].deep_view());
        }
        let e = &entries[i];
        if !same_text(e.project.as_str(), e.latest.as_str()) {
            let ghost before = out.deep_view();
            let dep = OutdatedDep {
                name: e.name.clone(),
                current: e.project.clone(),
                latest: e.latest.clone(),
                kind: match &e.kind {
                    Some(k) => k.clone(),
                    None => "Normal".to_owned(),
                },
            };
            out.push(dep);
            assert(out.deep_view() =~= before.push(dep.deep_view()));
        }
        i += 1;
    }
    assert(entries.deep_view().take(entries.len() as int) =~= entries.deep_view());
    out
}

/// The outdated dependencies of a project, or why they are not known.
#[derive(Debug, Clone)]
pub struct OutdatedResult {
    pub project_path: String,
    pub project_name: String,
    pub dependencies: Vec<OutdatedDep>,
    pub success: bool,
    pub error: Option<String>,
}

pub struct OutdatedResultModel {
    pub project_path: Seq<char>,
    pub project_name: Seq<char>,
    pub dependencies: Seq<OutdatedDepModel>,
    pub success: bool,
    pub error: Option<Seq<char>>,
}

impl DeepView for OutdatedResult {
    type V = OutdatedResultModel;

    open spec fn deep_view(&self) -> OutdatedResultModel {
        OutdatedResultModel {
            project_path: self.project_path@,
            project_name: self.project_name@,
            dependencies: self.dependencies.deep_view(),
            success: self.success,
            error: self.error.deep_view(),
        }
    }
}

/// How the look for outdated dependencies went.
#[derive(Debug, Clone)]
pub enum OutdatedOutcome {
    /// The tool could not be started.
    NotStarted(String),
    /// The tool ended with a failure and left this on its error stream.
    ToolFailed(String),
    /// The tool's report could not be read.
    Unreadable(String),
    /// The tool reported these dependencies.
    Reported(Vec<OutdatedEntry>),
}

/// The report on a look for outdated dependencies that failed.
pub open spec fn failed_outdated(
    project_path: Seq<char>,
    message: Seq<char>,
) -> OutdatedResultModel {
    OutdatedResultModel {
        project_path: project_path,
        project_name: name_or(project_path, "unknown"@),
        dependencies: Seq::empty(),
        success: false,
        error: Some(message),
    }
}

/// The report on the outdated dependencies of a project.
pub open spec fn outdated_report(
    project_path: Seq<char>,
    outcome: OutdatedOutcome,
) -> OutdatedResultModel {
    match outcome {
        OutdatedOutcome::NotStarted(e) => failed_outdated(
            project_path,
            "Failed to run cargo outdated: "@ + e@,
        ),
        OutdatedOutcome::ToolFailed(stderr) => failed_outdated(project_path, stderr@),
        OutdatedOutcome::Unreadable(e) => failed_outdated(
            project_path,
            "Failed to parse output: "@ + e@,
        ),
        OutdatedOutcome::Reported(entries) => OutdatedResultModel {
            project_path: project_path,
            project_name: name_or(project_path, "unknown"@),
            dependencies: collect(entries.deep_view(), outdated_of()),
            success: true,
            error: None,
        },
    }
}

/// The report on the outdated dependencies of a project.
pub fn outdated_result(project_path: String, outcome: OutdatedOutcome) -> (r: OutdatedResult)
    ensures
        r.deep_view() == outdated_report(project_path@, outcome),
{
    let project_name = file_name_or(project_path.as_str(), "unknown");
    let none: Vec<OutdatedDep> = Vec::new();
    assert(none.deep_view() =~= Seq::<OutdatedDepModel>::empty());
    match outcome {
        OutdatedOutcome::NotStarted(e) => OutdatedResult {
            project_path,
            project_name,
            dependencies: none,
            success: false,
            error: Some(concat_text("Failed to run cargo outdated: ", e.as_str())),
        },
        OutdatedOutcome::ToolFailed(stderr) => OutdatedResult {
            project_path,
            project_name,
            dependencies: none,
            success: false,
            error: Some(stderr),
        },
        OutdatedOutcome::Unreadable(e) => OutdatedResult {
            project_path,
            project_name,
            dependencies: none,
            success: false,
            error: Some(concat_text("Failed to parse output: ", e.as_str())),
        },
        OutdatedOutcome::Reported(entries) => OutdatedResult {
            project_path,
            project_name,
            dependencies: outdated_deps(&entries),
            success: true,
            error: None,
        },
    }
}

/// A known vulnerability of a package.
#[derive(Debug, Clone)]
pub struct Vulnerability {
    pub id: String,
    pub package: String,
    pub version: String,
    pub title: String,
    pub description: String,
    pub severity: String,
    pub url: Option<String>,
    pub patched_versions: Vec<String>,
}

pub struct VulnerabilityModel {
    pub id: Seq<char>,
    pub package: Seq<char>,
    pub version: Seq<char>,
    pub title: Seq<char>,
    pub description: Seq<char>,
    pub severity: Seq<char>,
    pub url: Option<Seq<char>>,
    pub patched_versions: Seq<Seq<char>>,
}

impl DeepView for Vulnerability {
    type V = VulnerabilityModel;

    open spec fn deep_view(&self) -> VulnerabilityModel {
        VulnerabilityModel {
            id: self.id@,
            package: self.package@,
            version: self.version@,
            title: self.title@,
            description: self.description@,
            severity: self.severity@,
            url: self.url.deep_view(),
            patched_versions: self.patched_versions.deep_view(),
        }
    }
}

/// A warning of the audit about a package.
#[derive(Debug, Clone)]
pub struct AuditWarning {
    pub kind: String,
    pub package: String,
    pub version: String,
    pub title: String,
    pub advisory_id: String,
    pub url: Option<String>,
}

pub struct AuditWarningModel {
    pub kind: Seq<char>,
    pub package: Seq<char>,
    pub version: Seq<char>,
    pub title: Seq<char>,
    pub advisory_id: Seq<char>,
    pub url: Option<Seq<char>>,
}

impl DeepView for AuditWarning {
    type V = AuditWarningModel;

    open spec fn deep_view(&self) -> AuditWarningModel {
        AuditWarningModel {
            kind: self.kind@,
            package: self.package@,
            version: self.version@,
            title: self.title@,
            advisory_id: self.advisory_id@,
            url: self.url.deep_view(),
        }
    }
}

/// An advisory as the audit reports it.
#[derive(Debug, Clone)]
pub struct Advisory {
    pub id: String,
    pub title: String,
    pub description: String,
    pub url: Option<String>,
    pub cvss: Option<String>,
}

/// A vulnerability as the audit reports it.
#[derive(Debug, Clone)]
pub struct ReportedVulnerability {
    pub advisory: Advisory,
    pub package_name: String,
    pub package_version: String,
    /// The patched versions, where the report lists versions.
    pub patched: Option<Vec<String>>,
}

/// A warning as the audit reports it.
#[derive(Debug, Clone)]
pub struct ReportedWarning {
    pub kind: String,
    pub package_name: String,
    pub package_version: String,
    pub advisory: Advisory,
}

/// The warnings of a report by their kind.
#[derive(Debug, Clone)]
pub struct ReportedWarnings {
    pub unmaintained: Option<Vec<ReportedWarning>>,
    pub unsound: Option<Vec<ReportedWarning>>,
    pub yanked: Option<Vec<ReportedWarning>>,
}

/// The report of the audit.
#[derive(Debug, Clone)]
pub struct AuditReport {
    pub vulnerabilities: Vec<ReportedVulnerability>,
    pub warnings: Option<ReportedWarnings>,
}

/// The vulnerability that a reported one is: the severity is `unknown` where
/// the advisory gives no score, and no version is patched where none is listed.
pub open spec fn vulnerability_of(v: ReportedVulnerability) -> VulnerabilityModel {
    VulnerabilityModel {
        id: v.advisory.id@,
        package: v.package_name@,
        version: v.package_version@,
        title: v.advisory.title@,
        description: v.advisory.description@,
        severity: match v.advisory.cvss {
            Some(c) => c@,
            None => "unknown"@,
        },
        url: v.advisory.url.deep_view(),
        patched_versions: match v.patched {
            Some(p) => p.deep_view(),
            None => Seq::empty(),
        },
    }
}

/// The warning that a reported one is.
pub open spec fn warning_of(w: ReportedWarning) -> AuditWarningModel {
    AuditWarningModel {
        kind: w.kind@,
        package: w.package_name@,
        version: w.package_version@,
        title: w.advisory.title@,
        advisory_id: w.advisory.id@,
        url: w.advisory.url.deep_view(),
    }
}

/// The warnings of a list that may be missing.
pub open spec fn warnings_in(list: Option<Vec<ReportedWarning>>) -> Seq<AuditWarningModel> {
    match list {
        Some(l) => l@.map_values(|w: ReportedWarning| warning_of(w)),
        None => Seq::empty(),
    }
}

/// The warnings of a report: the unmaintained packages, then the unsound, then
/// the yanked ones.
pub open spec fn warnings_of(warnings: Option<ReportedWarnings>) -> Seq<AuditWarningModel> {
    match warnings {
        Some(w) => warnings_in(w.unmaintained) + warnings_in(w.unsound) + warnings_in(w.yanked),
        None => Seq::empty(),
    }
}

/// The vulnerability that a reported one is.
pub fn vulnerability_from(v: &ReportedVulnerability) -> (r: Vulnerability)
    ensures
        r.deep_view() == vulnerability_of(*v),
{
    Vulnerability {
        id: v.advisory.id.clone(),
        package: v.package_name.clone(),
        version: v.package_version.clone(),
        title: v.advisory.title.clone(),
        description: v.advisory.description.clone(),
        severity: match &v.advisory.cvss {
            Some(c) => c.clone(),
            None => "unknown".to_owned(),
        },
        url: copy_text(&v.advisory.url),
        patched_versions: match &v.patched {
            Some(p) => copy_texts(p),
            None => {
                let none: Vec<String> = Vec::new();
                assert(none.deep_view() =~= Seq::<Seq<char>>::empty());
                none
            },
        },
    }
}

/// The warning that a reported one is.
pub fn warning_from(w: &ReportedWarning) -> (r: AuditWarning)
    ensures
        r.deep_view() == warning_of(*w),
{
    AuditWarning {
        kind: w.kind.clone(),
        package: w.package_name.clone(),
        version: w.package_version.clone(),
        title: w.advisory.title.clone(),
        advisory_id: w.advisory.id.clone(),
        url: copy_text(&w.advisory.url),
    }
}

/// Appends the warnings of a list that may be missing.
pub fn add_warnings(out: &mut Vec<AuditWarning>, list: &Option<Vec<ReportedWarning>>)
    ensures
        final(out).deep_view() == old(out).deep_view() + warnings_in(*list),
{
    let ghost start = out.deep_view();
    match list {
        Some(l) => {
            let mut i: usize = 0;
            assert(start + warnings_in(*list).take(0) =~= start);
            while i < l.len()
                invariant
                    i <= l.len(),
                    *list == Some(*l),
                    out.deep_view() == start + warnings_in(*list).take(i as int),
                decreases l.len() - i,
            {
                let ghost before = out.deep_view();
                let w = warning_from(&l[i]);
                out.push(w);
                assert(out.deep_view() =~= before.push(w.deep_view()));
                assert(warnings_in(*list).take(i + 1) =~= warnings_in(*list).take(i as int).push(
                    warning_of(l@[i as int]),
                ));
                i += 1;
            }
            assert(warnings_in(*list).take(l.len() as int) =~= warnings_in(*list));
        },
        None => {
            assert(start + Seq::<AuditWarningModel>::empty() =~= start);
        },
    }
}

/// The vulnerabilities and the warnings of a report of the audit.
pub fn audit_findings(report: &AuditReport) -> (r: (Vec<Vulnerability>, Vec<AuditWarning>))
    ensures
        r.0.deep_view() == report.vulnerabilities@.map_values(
            |v: ReportedVulnerability| vulnerability_of(v),
        ),
        r.1.deep_view() == warnings_of(report.warnings),
{
    let mut vulnerabilities: Vec<Vulnerability> = Vec::new();
    let mut i: usize = 0;
    while i < report.vulnerabilities.len()
        invariant
            i <= report.vulnerabilities.len(),
            vulnerabilities.len() == i,
            forall|k: int|
                0 <= k < i ==> (#[trigger] vulnerabilities@[k]).deep_view() == vulnerability_of(
                    report.vulnerabilities@[k],
                ),
        decreases report.vulnerabilities.len() - i,
    {
        vulnerabilities.push(vulnerability_from(&report.vulnerabilities[i]));
        i += 1;
    }
    assert(vulnerabilities.deep_view() =~= report.vulnerabilities@.map_values(
        |v: ReportedVulnerability| vulnerability_of(v),
    ));
    let mut warnings: Vec<AuditWarning> = Vec::new();
    assert(warnings.deep_view() =~= Seq::<AuditWarningModel>::empty());
    match &report.warnings {
        Some(w) => {
            add_warnings(&mut warnings, &w.unmaintained);
            add_warnings(&mut warnings, &w.unsound);
            add_warnings(&mut warnings, &w.yanked);
            assert(Seq::<AuditWarningModel>::empty() + warnings_in(w.unmaintained) =~= warnings_in(
                w.unmaintained,
            ));
        },
        None => {},
    }
    (vulnerabilities, warnings)
}

/// What the audit found in a project, or why that is not known.
#[derive(Debug, Clone)]
pub struct AuditResult {
    pub project_path: String,
    pub project_name: String,
    pub vulnerabilities: Vec<Vulnerability>,
    pub warnings: Vec<AuditWarning>,
    pub success: bool,
    pub error: Option<String>,
}

pub struct AuditResultModel {
    pub project_path: Seq<char>,
    pub project_name: Seq<char>,
    pub vulnerabilities: Seq<VulnerabilityModel>,
    pub warnings: Seq<AuditWarningModel>,
    pub success: bool,
    pub error: Option<Seq<char>>,
}

impl DeepView for AuditResult {
    type V = AuditResultModel;

    open spec fn deep_view(&self) -> AuditResultModel {
        AuditResultModel {
            project_path: self.project_path@,
            project_name: self.project_name@,
            vulnerabilities: self.vulnerabilities.deep_view(),
            warnings: self.warnings.deep_view(),
            success: self.success,
            error: self.error.deep_view(),
        }
    }
}

/// How the audit went.
#[derive(Debug, Clone)]
pub enum AuditOutcome {
    /// The tool could not be started.
    NotStarted(String),
    /// The tool's report could not be read; what the reader said, and what
    /// the tool left on its error stream.
    Unreadable { error: String, stderr: String },
    /// The tool gave this report.
    Reported(AuditReport),
}

/// The report on an audit that failed.
pub open spec fn failed_audit(project_path: Seq<char>, message: Seq<char>) -> AuditResultModel {
    AuditResultModel {
        project_path: project_path,
        project_name: name_or(project_path, "unknown"@),
        vulnerabilities: Seq::empty(),
        warnings: Seq::empty(),
        success: false,
        error: Some(message),
    }
}

/// The report on the audit of a project.
pub open spec fn audit_report(project_path: Seq<char>, outcome: AuditOutcome) -> AuditResultModel {
    match outcome {
        AuditOutcome::NotStarted(e) => failed_audit(
            project_path,
            "Failed to run cargo audit: "@ + e@,
        ),
        AuditOutcome::Unreadable { error, stderr } => failed_audit(
            project_path,
            error@ + ". Stderr: "@ + stderr@,
        ),
        AuditOutcome::Reported(report) => AuditResultModel {
            project_path: project_path,
            project_name: name_or(project_path, "unknown"@),
            vulnerabilities: report.vulnerabilities@.map_values(
                |v: ReportedVulnerability| vulnerability_of(v),
            ),
            warnings: warnings_of(report.warnings),
            success: true,
            error: None,
        },
    }
}

/// The report on the audit of a project.
pub fn audit_result(project_path: String, outcome: AuditOutcome) -> (r: AuditResult)
    ensures
        r.deep_view() == audit_report(project_path@, outcome),
{
    let project_name = file_name_or(project_path.as_str(), "unknown");
    match outcome {
        AuditOutcome::NotStarted(e) => {
            let r = AuditResult {
                project_path,
                project_name,
                vulnerabilities: Vec::new(),
                warnings: Vec::new(),
                success: false,
                error: Some(concat_text("Failed to run cargo audit: ", e.as_str())),
            };
            assert(r.vulnerabilities.deep_view() =~= Seq::<VulnerabilityModel>::empty());
            assert(r.warnings.deep_view() =~= Seq::<AuditWarningModel>::empty());
            r
        },
        AuditOutcome::Unreadable { error, stderr } => {
            let head = concat_text(error.as_str(), ". Stderr: ");
            let r = AuditResult {
                project_path,
                project_name,
                vulnerabilities: Vec::new(),
                warnings: Vec::new(),
                success: false,
                error: Some(concat_text(head.as_str(), stderr.as_str())),
            };
            assert(r.vulnerabilities.deep_view() =~= Seq::<VulnerabilityModel>::empty());
            assert(r.warnings.deep_view() =~= Seq::<AuditWarningModel>::empty());
            r
        },
        AuditOutcome::Reported(report) => {
            let (vulnerabilities, warnings) = audit_findings(&report);
            AuditResult {
                project_path,
                project_name,
                vulnerabilities,
                warnings,
                success: true,
                error: None,
            }
        },
    }
}

} // verus!
