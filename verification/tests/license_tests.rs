use rust_helper::licenses::{
    check_all_licenses_sync, is_problematic_license, LicenseInfo, LicenseResult,
};

#[test]
fn test_is_problematic_license_gpl() {
    assert!(is_problematic_license("GPL-3.0"));
    assert!(is_problematic_license("GPL-2.0"));
    assert!(is_problematic_license("LGPL-3.0"));
    assert!(is_problematic_license("AGPL-3.0"));
}

#[test]
fn test_is_problematic_license_copyleft() {
    assert!(is_problematic_license("SSPL"));
    assert!(is_problematic_license("CC-BY-NC"));
    assert!(is_problematic_license("BUSL"));
}

#[test]
fn test_is_problematic_license_permissive() {
    assert!(!is_problematic_license("MIT"));
    assert!(!is_problematic_license("Apache-2.0"));
    assert!(!is_problematic_license("BSD-3-Clause"));
    assert!(!is_problematic_license("ISC"));
}

#[test]
fn test_is_problematic_license_case_insensitive() {
    assert!(is_problematic_license("gpl-3.0"));
    assert!(is_problematic_license("GPL-3.0"));
    assert!(is_problematic_license("Gpl-3.0"));
}

#[test]
fn problematic_license_goes_by_unicode_upper_case() {
    // the upper-case form of a sharp s is `SS`
    assert!(is_problematic_license("\u{df}pl"));
    assert!(is_problematic_license("elastic-2.0"));
    assert!(is_problematic_license("MIT with commons clause"));
    assert!(!is_problematic_license(""));
}

fn info(name: &str, version: &str, license: &str) -> LicenseInfo {
    LicenseInfo {
        name: name.to_string(),
        version: version.to_string(),
        license: license.to_string(),
        authors: None,
        repository: None,
    }
}

fn result(name: &str, success: bool, licenses: Vec<LicenseInfo>) -> LicenseResult {
    LicenseResult {
        project_path: format!("/work/{}", name),
        project_name: name.to_string(),
        licenses,
        success,
        error: None,
    }
}

#[test]
fn license_groups_dedupe_and_put_problematic_first() {
    let a = result(
        "a",
        true,
        vec![
            info("serde", "1.0.0", "MIT"),
            info("tokio", "1.0.0", "MIT"),
            info("readline", "8.0.0", "GPL-3.0"),
            info("anyhow", "1.0.0", "MIT"),
        ],
    );
    let b = result(
        "b",
        true,
        vec![info("serde", "1.0.0", "MIT"), info("ring", "0.17.0", "ISC")],
    );
    let c = result("c", false, vec![info("ghost", "0.0.1", "AGPL-3.0")]);
    let analysis = check_all_licenses_sync(vec![a, b, c]);
    assert_eq!(analysis.projects.len(), 3);
    let names: Vec<&str> = analysis
        .license_groups
        .iter()
        .map(|g| g.license.as_str())
        .collect();
    assert_eq!(names, vec!["GPL-3.0", "MIT", "ISC"]);
    assert_eq!(
        analysis.license_groups[1].packages,
        vec!["anyhow@1.0.0", "serde@1.0.0", "tokio@1.0.0"]
    );
    assert!(analysis.license_groups[0].is_problematic);
    assert!(!analysis.license_groups[1].is_problematic);
    assert_eq!(analysis.total_packages, 5);
    assert_eq!(analysis.problematic_count, 1);
}

#[test]
fn license_analysis_of_nothing_is_empty() {
    let analysis = check_all_licenses_sync(Vec::new());
    assert!(analysis.license_groups.is_empty());
    assert_eq!(analysis.total_packages, 0);
    assert_eq!(analysis.problematic_count, 0);
}
