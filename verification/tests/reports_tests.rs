use rust_helper::licenses::{license_infos, license_result, LicenseEntry, LicenseOutcome};
use rust_helper::reports::{
    audit_findings, audit_result, clean_result, outdated_deps, outdated_result, size_hint_at,
    Advisory, AuditOutcome, AuditReport, CleanAttempt, OutdatedEntry, OutdatedOutcome,
    ReportedVulnerability, ReportedWarning, ReportedWarnings,
};

fn entry(name: &str, project: &str, latest: &str, kind: Option<&str>) -> OutdatedEntry {
    OutdatedEntry {
        name: name.to_string(),
        project: project.to_string(),
        latest: latest.to_string(),
        kind: kind.map(String::from),
    }
}

#[test]
fn only_outdated_dependencies_are_listed() {
    let deps = outdated_deps(&vec![
        entry("uptodate-crate", "1.0.0", "1.0.0", Some("Normal")),
        entry("outdated-crate", "0.9.0", "1.0.0", Some("Development")),
        entry("no-kind", "1.0.0", "2.0.0", None),
    ]);
    assert_eq!(deps.len(), 2);
    assert_eq!(deps[0].name, "outdated-crate");
    assert_eq!(deps[0].current, "0.9.0");
    assert_eq!(deps[0].latest, "1.0.0");
    assert_eq!(deps[0].kind, "Development");
    assert_eq!(deps[1].kind, "Normal");
}

#[test]
fn outdated_results_say_what_went_wrong() {
    let r = outdated_result(
        "/w/app".to_string(),
        OutdatedOutcome::NotStarted("no cargo".to_string()),
    );
    assert!(!r.success);
    assert_eq!(r.project_name, "app");
    assert_eq!(r.error.as_deref(), Some("Failed to run cargo outdated: no cargo"));
    let r = outdated_result("/".to_string(), OutdatedOutcome::ToolFailed("boom".to_string()));
    assert_eq!(r.project_name, "unknown");
    assert_eq!(r.error.as_deref(), Some("boom"));
    let r = outdated_result(
        "/w/app".to_string(),
        OutdatedOutcome::Unreadable("JSON parse error: x".to_string()),
    );
    assert_eq!(r.error.as_deref(), Some("Failed to parse output: JSON parse error: x"));
    let r = outdated_result(
        "/w/app".to_string(),
        OutdatedOutcome::Reported(vec![entry("a", "1", "2", None)]),
    );
    assert!(r.success);
    assert_eq!(r.dependencies.len(), 1);
    assert_eq!(r.error, None);
}

#[test]
fn cleaning_estimates_what_was_freed() {
    let full = clean_result("/w/app".to_string(), false, Some(1001), CleanAttempt::Removed);
    assert_eq!(full.freed_bytes, 1001);
    assert!(full.success);
    assert_eq!(full.name, "app");
    let partial = clean_result("/w/app".to_string(), true, Some(1001), CleanAttempt::Removed);
    assert_eq!(partial.freed_bytes, 500);
    let unknown = clean_result("/w/app".to_string(), true, None, CleanAttempt::Removed);
    assert_eq!(unknown.freed_bytes, 0);
    let nothing = clean_result("/w/app".to_string(), false, Some(9), CleanAttempt::NothingToClean);
    assert_eq!(nothing.freed_bytes, 0);
    assert!(nothing.success);
    let failed = clean_result(
        "/w/app".to_string(),
        false,
        Some(9),
        CleanAttempt::Failed("denied".to_string()),
    );
    assert!(!failed.success);
    assert_eq!(failed.freed_bytes, 0);
    assert_eq!(failed.error.as_deref(), Some("denied"));
    assert_eq!(size_hint_at(&Some(vec![1, 2]), 1), Some(2));
    assert_eq!(size_hint_at(&Some(vec![1, 2]), 2), None);
    assert_eq!(size_hint_at(&None, 0), None);
}

fn advisory(id: &str, cvss: Option<&str>) -> Advisory {
    Advisory {
        id: id.to_string(),
        title: format!("title of {}", id),
        description: "description".to_string(),
        url: None,
        cvss: cvss.map(String::from),
    }
}

fn warning(kind: &str, id: &str) -> ReportedWarning {
    ReportedWarning {
        kind: kind.to_string(),
        package_name: "old-crate".to_string(),
        package_version: "0.1.0".to_string(),
        advisory: advisory(id, None),
    }
}

#[test]
fn audit_findings_keep_the_order_of_the_report() {
    let report = AuditReport {
        vulnerabilities: vec![
            ReportedVulnerability {
                advisory: advisory("RUSTSEC-2021-0001", Some("HIGH")),
                package_name: "vulnerable-crate".to_string(),
                package_version: "1.0.0".to_string(),
                patched: Some(vec!["1.0.1".to_string(), "1.1.0".to_string()]),
            },
            ReportedVulnerability {
                advisory: advisory("RUSTSEC-2021-0002", None),
                package_name: "other".to_string(),
                package_version: "2.0.0".to_string(),
                patched: None,
            },
        ],
        warnings: Some(ReportedWarnings {
            unmaintained: Some(vec![warning("unmaintained", "A")]),
            unsound: None,
            yanked: Some(vec![warning("yanked", "B"), warning("yanked", "C")]),
        }),
    };
    let (vulns, warnings) = audit_findings(&report);
    assert_eq!(vulns.len(), 2);
    assert_eq!(vulns[0].id, "RUSTSEC-2021-0001");
    assert_eq!(vulns[0].package, "vulnerable-crate");
    assert_eq!(vulns[0].severity, "HIGH");
    assert_eq!(vulns[0].patched_versions, vec!["1.0.1", "1.1.0"]);
    assert_eq!(vulns[1].severity, "unknown");
    assert!(vulns[1].patched_versions.is_empty());
    let ids: Vec<&str> = warnings.iter().map(|w| w.advisory_id.as_str()).collect();
    assert_eq!(ids, vec!["A", "B", "C"]);
    assert_eq!(warnings[0].kind, "unmaintained");
    assert_eq!(warnings[0].package, "old-crate");

    let r = audit_result("/w/app".to_string(), AuditOutcome::Reported(report));
    assert!(r.success);
    assert_eq!(r.vulnerabilities.len(), 2);
    assert_eq!(r.warnings.len(), 3);
    let r = audit_result(
        "/w/app".to_string(),
        AuditOutcome::Unreadable {
            error: "JSON parse error: x".to_string(),
            stderr: "warn".to_string(),
        },
    );
    assert_eq!(r.error.as_deref(), Some("JSON parse error: x. Stderr: warn"));
    let r = audit_result("/w/app".to_string(), AuditOutcome::NotStarted("gone".to_string()));
    assert_eq!(r.error.as_deref(), Some("Failed to run cargo audit: gone"));
}

#[test]
fn packages_without_a_license_are_unknown() {
    let entries = vec![
        LicenseEntry {
            name: "serde".to_string(),
            version: "1.0.200".to_string(),
            authors: Some("Erick Tryzelaar <erick.tryzelaar@gmail.com>".to_string()),
            repository: Some("https://github.com/serde-rs/serde".to_string()),
            license: Some("MIT OR Apache-2.0".to_string()),
        },
        LicenseEntry {
            name: "mystery-crate".to_string(),
            version: "0.1.0".to_string(),
            authors: None,
            repository: None,
            license: None,
        },
    ];
    let licenses = license_infos(&entries);
    assert_eq!(licenses.len(), 2);
    assert_eq!(licenses[0].name, "serde");
    assert_eq!(licenses[0].license, "MIT OR Apache-2.0");
    assert_eq!(licenses[1].license, "Unknown");
    assert!(licenses[1].authors.is_none());
    let r = license_result("/".to_string(), LicenseOutcome::Reported(entries));
    assert!(r.success);
    assert_eq!(r.project_name, "/");
    let r = license_result("/w/app".to_string(), LicenseOutcome::NotStarted("x".to_string()));
    assert_eq!(r.error.as_deref(), Some("Failed to run cargo-license: x"));
    assert_eq!(r.project_name, "app");
}
