use rust_helper::dependencies::{
    analyze_dependencies_sync, summarize_dependencies, DepUse, ProjectManifest,
};

fn project(path: &str, manifest: &str) -> ProjectManifest {
    ProjectManifest { project_path: path.to_string(), manifest: Some(manifest.to_string()) }
}

fn used(name: &str, version: &str, project: &str) -> DepUse {
    DepUse { name: name.to_string(), version: version.to_string(), project: project.to_string() }
}

#[test]
fn two_versions_of_serde_are_a_mismatch() {
    let projects = vec![
        project("/work/one", "[dependencies]\nserde = \"1.0\"\n"),
        project("/work/two", "[dependencies]\nserde = \"1.2\"\n"),
    ];
    let analysis = analyze_dependencies_sync(&projects);
    assert_eq!(analysis.total_unique_deps, 1);
    let serde = &analysis.dependencies[0];
    assert_eq!(serde.name, "serde");
    assert_eq!(serde.versions.len(), 2);
    assert_eq!(serde.versions[0].version, "1.0");
    assert_eq!(serde.versions[0].projects, vec!["one"]);
    assert_eq!(serde.versions[1].version, "1.2");
    assert_eq!(serde.versions[1].projects, vec!["two"]);
    assert_eq!(serde.project_count, 2);
    assert!(analysis.deps_with_mismatches >= 1);
    assert_eq!(analysis.deps_with_mismatches, 1);
}

#[test]
fn dependencies_of_all_three_tables_are_merged() {
    let manifest = r#"
[dependencies]
serde = { version = "1.0", features = ["derive"] }
local = { path = "../local" }
remote = { git = "https://example.org/remote" }

[dev-dependencies]
serde = "1.0"
tempfile = "3"

[build-dependencies]
cc = "1"
"#;
    let analysis = analyze_dependencies_sync(&vec![
        project("/work/app", manifest),
        project("/work/lib", "[dependencies]\ncc = \"1\"\ntempfile = \"3\"\nserde = \"1.0\"\n"),
        project("/work/broken", "[dependencies\n"),
        project("/work/odd", "dependencies = 3\n[dev-dependencies]\nserde = \"9\"\n"),
        ProjectManifest { project_path: "/work/missing".to_string(), manifest: None },
    ]);
    let names: Vec<&str> = analysis.dependencies.iter().map(|d| d.name.as_str()).collect();
    // most used first; dependencies used equally often in the order of first use
    assert_eq!(names, vec!["serde", "tempfile", "cc"]);
    assert_eq!(analysis.dependencies[0].project_count, 3);
    assert_eq!(analysis.dependencies[0].versions.len(), 1);
    assert_eq!(analysis.dependencies[0].versions[0].projects, vec!["app", "app", "lib"]);
    assert_eq!(analysis.total_unique_deps, 3);
    assert_eq!(analysis.deps_with_mismatches, 0);
}

#[test]
fn no_projects_no_dependencies() {
    let analysis = analyze_dependencies_sync(&Vec::new());
    assert!(analysis.dependencies.is_empty());
    assert_eq!(analysis.total_unique_deps, 0);
    assert_eq!(analysis.deps_with_mismatches, 0);
}

#[test]
fn project_count_is_the_sum_over_versions() {
    let uses = vec![
        used("a", "1", "p"),
        used("b", "1", "p"),
        used("a", "2", "q"),
        used("a", "1", "r"),
        used("b", "1", "q"),
    ];
    let analysis = summarize_dependencies(&uses);
    for dep in &analysis.dependencies {
        let sum: usize = dep.versions.iter().map(|v| v.projects.len()).sum();
        assert_eq!(dep.project_count, sum);
    }
    assert_eq!(analysis.dependencies[0].name, "a");
    assert_eq!(analysis.dependencies[0].versions[0].projects, vec!["p", "r"]);
    assert_eq!(analysis.deps_with_mismatches, 1);
}
