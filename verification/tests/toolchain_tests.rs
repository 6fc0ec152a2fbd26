use rust_helper::toolchains::{
    analyze_toolchains_sync, parse_rustc_version, parse_rustup_toolchain_list,
    summarize_toolchains, ToolchainInfo, ToolchainSource,
};

#[test]
fn commands_test_parse_rustup_toolchain_list_basic() {
    let output = "stable-x86_64-apple-darwin (default)\nnightly-x86_64-apple-darwin";
    let (toolchains, default, active) = parse_rustup_toolchain_list(output);
    assert_eq!(toolchains.len(), 2);
    assert_eq!(toolchains[0], "stable-x86_64-apple-darwin");
    assert_eq!(toolchains[1], "nightly-x86_64-apple-darwin");
    assert_eq!(default, Some("stable-x86_64-apple-darwin".to_string()));
    // Default is also considered active
    assert_eq!(active, Some("stable-x86_64-apple-darwin".to_string()));
}

#[test]
fn commands_test_parse_rustup_toolchain_list_with_active() {
    let output = "stable-x86_64-apple-darwin (default)\nnightly-x86_64-apple-darwin (active)";
    let (toolchains, default, active) = parse_rustup_toolchain_list(output);
    assert_eq!(toolchains.len(), 2);
    assert_eq!(default, Some("stable-x86_64-apple-darwin".to_string()));
    assert_eq!(active, Some("nightly-x86_64-apple-darwin".to_string()));
}

#[test]
fn commands_test_parse_rustup_toolchain_list_empty() {
    let output = "";
    let (toolchains, default, active) = parse_rustup_toolchain_list(output);
    assert!(toolchains.is_empty());
    assert!(default.is_none());
    assert!(active.is_none());
}

#[test]
fn commands_test_parse_rustup_toolchain_list_multiple() {
    let output = "stable-x86_64-apple-darwin (default)\nnightly-x86_64-apple-darwin\nbeta-x86_64-apple-darwin\n1.70.0-x86_64-apple-darwin";
    let (toolchains, default, active) = parse_rustup_toolchain_list(output);
    assert_eq!(toolchains.len(), 4);
    assert_eq!(default, Some("stable-x86_64-apple-darwin".to_string()));
    // Default is also active when no explicit (active) marker
    assert_eq!(active, Some("stable-x86_64-apple-darwin".to_string()));
}

#[test]
fn commands_test_parse_rustup_toolchain_list_no_default() {
    let output = "stable-x86_64-apple-darwin\nnightly-x86_64-apple-darwin";
    let (toolchains, default, active) = parse_rustup_toolchain_list(output);
    assert_eq!(toolchains.len(), 2);
    assert!(default.is_none());
    assert!(active.is_none());
}

#[test]
fn text_test_parse_rustup_toolchain_list_basic() {
    let output = "stable-x86_64-apple-darwin (default)\nnightly-x86_64-apple-darwin";
    let (toolchains, default, active) = parse_rustup_toolchain_list(output);
    assert_eq!(toolchains.len(), 2);
    assert_eq!(toolchains[0], "stable-x86_64-apple-darwin");
    assert_eq!(toolchains[1], "nightly-x86_64-apple-darwin");
    assert_eq!(default, Some("stable-x86_64-apple-darwin".to_string()));
    assert_eq!(active, Some("stable-x86_64-apple-darwin".to_string()));
}

#[test]
fn text_test_parse_rustup_toolchain_list_with_active() {
    let output = "stable-x86_64-apple-darwin (default)\nnightly-x86_64-apple-darwin (active)";
    let (toolchains, default, active) = parse_rustup_toolchain_list(output);
    assert_eq!(toolchains.len(), 2);
    assert_eq!(default, Some("stable-x86_64-apple-darwin".to_string()));
    assert_eq!(active, Some("nightly-x86_64-apple-darwin".to_string()));
}

#[test]
fn text_test_parse_rustup_toolchain_list_empty() {
    let output = "";
    let (toolchains, default, active) = parse_rustup_toolchain_list(output);
    assert!(toolchains.is_empty());
    assert!(default.is_none());
    assert!(active.is_none());
}

#[test]
fn text_test_parse_rustup_toolchain_list_multiple() {
    let output = "stable-x86_64-apple-darwin (default)\nnightly-x86_64-apple-darwin\nbeta-x86_64-apple-darwin\n1.70.0-x86_64-apple-darwin";
    let (toolchains, default, active) = parse_rustup_toolchain_list(output);
    assert_eq!(toolchains.len(), 4);
    assert_eq!(default, Some("stable-x86_64-apple-darwin".to_string()));
    assert_eq!(active, Some("stable-x86_64-apple-darwin".to_string()));
}

#[test]
fn text_test_parse_rustup_toolchain_list_no_default() {
    let output = "stable-x86_64-apple-darwin\nnightly-x86_64-apple-darwin";
    let (toolchains, default, active) = parse_rustup_toolchain_list(output);
    assert_eq!(toolchains.len(), 2);
    assert!(default.is_none());
    assert!(active.is_none());
}

#[test]
fn rustup_list_skips_lines_without_a_name() {
    let output = "\n  (default)  \nstable (active) (default)\r\n\nbeta\r\n";
    let (toolchains, default, active) = parse_rustup_toolchain_list(output);
    assert_eq!(toolchains, vec!["stable", "beta"]);
    assert_eq!(default, Some("stable".to_string()));
    assert_eq!(active, Some("stable".to_string()));
}

#[test]
fn test_parse_rustc_version_homebrew() {
    let output = "rustc 1.92.0 (abc123 2024-01-15) (Homebrew)";
    let (version, is_homebrew) = parse_rustc_version(output);
    assert_eq!(version, Some("1.92.0".to_string()));
    assert!(is_homebrew);
}

#[test]
fn test_parse_rustc_version_rustup() {
    let output = "rustc 1.82.0 (f6e511eec 2024-10-15)";
    let (version, is_homebrew) = parse_rustc_version(output);
    assert_eq!(version, Some("1.82.0".to_string()));
    assert!(!is_homebrew);
}

#[test]
fn test_parse_rustc_version_nightly() {
    let output = "rustc 1.83.0-nightly (abc123 2024-09-01)";
    let (version, is_homebrew) = parse_rustc_version(output);
    assert_eq!(version, Some("1.83.0-nightly".to_string()));
    assert!(!is_homebrew);
}

#[test]
fn test_parse_rustc_version_empty() {
    let output = "";
    let (version, is_homebrew) = parse_rustc_version(output);
    assert!(version.is_none());
    assert!(!is_homebrew);
}

fn info(name: &str, toolchain: Option<&str>, msrv: Option<&str>) -> ToolchainInfo {
    ToolchainInfo {
        project_path: format!("/work/{}", name),
        project_name: name.to_string(),
        toolchain: toolchain.map(String::from),
        msrv: msrv.map(String::from),
        channel: toolchain.map(String::from),
    }
}

#[test]
fn shared_toolchain_and_msrv_are_no_mismatch() {
    let infos = vec![
        info("a", Some("stable"), Some("1.70")),
        info("b", Some("stable"), Some("1.70")),
        info("c", None, None),
        info("d", Some("stable"), Some("1.70")),
    ];
    let analysis = summarize_toolchains(infos);
    assert!(!analysis.has_mismatches);
    assert_eq!(analysis.toolchain_groups.len(), 1);
    assert_eq!(analysis.toolchain_groups[0].version, "stable");
    assert_eq!(analysis.toolchain_groups[0].projects, vec!["a", "b", "d"]);
    assert_eq!(analysis.msrv_groups.len(), 1);
    assert_eq!(analysis.projects.len(), 4);
}

#[test]
fn a_second_msrv_is_a_mismatch() {
    let infos = vec![
        info("a", Some("stable"), Some("1.70")),
        info("b", Some("stable"), Some("1.74")),
        info("c", Some("stable"), Some("1.74")),
    ];
    let analysis = summarize_toolchains(infos);
    assert!(analysis.has_mismatches);
    assert_eq!(analysis.toolchain_groups.len(), 1);
    // the larger group comes first
    assert_eq!(analysis.msrv_groups[0].version, "1.74");
    assert_eq!(analysis.msrv_groups[0].projects, vec!["b", "c"]);
    assert_eq!(analysis.msrv_groups[1].version, "1.70");
}

#[test]
fn no_projects_are_no_mismatch() {
    let analysis = summarize_toolchains(Vec::new());
    assert!(!analysis.has_mismatches);
    assert!(analysis.toolchain_groups.is_empty());
    assert!(analysis.msrv_groups.is_empty());
}

#[test]
fn toolchain_sources_are_read_in_order() {
    let sources = vec![
        ToolchainSource {
            project_path: "/work/one".to_string(),
            toolchain_toml: Some("[toolchain]\nchannel = \"nightly\"\n".to_string()),
            toolchain_plain: Some("stable\n".to_string()),
            manifest: Some("[package]\nname = \"one\"\nrust-version = \"1.70\"\n".to_string()),
        },
        ToolchainSource {
            project_path: "/work/two".to_string(),
            toolchain_toml: Some("[toolchain]\n".to_string()),
            toolchain_plain: Some("  stable \n".to_string()),
            manifest: Some("not a manifest".to_string()),
        },
        ToolchainSource {
            project_path: "/work/three".to_string(),
            toolchain_toml: None,
            toolchain_plain: Some(" \n".to_string()),
            manifest: None,
        },
    ];
    let analysis = analyze_toolchains_sync(&sources);
    assert_eq!(analysis.projects[0].project_name, "one");
    assert_eq!(analysis.projects[0].toolchain.as_deref(), Some("nightly"));
    assert_eq!(analysis.projects[0].channel.as_deref(), Some("nightly"));
    assert_eq!(analysis.projects[0].msrv.as_deref(), Some("1.70"));
    assert_eq!(analysis.projects[1].toolchain.as_deref(), Some("stable"));
    assert_eq!(analysis.projects[1].msrv, None);
    assert_eq!(analysis.projects[2].toolchain, None);
    assert!(analysis.has_mismatches);
}
