use rust_helper::discovery::{
    ancestor_manifest_paths, checked_dir_size, find_workspace_roots, get_dir_size,
    get_last_modified, is_in_build_output, is_manifest_path, is_workspace_member,
    member_patterns, scan_projects, scan_projects_sync, GlobExpansion, ManifestFacts,
    ManifestFile, TreeSnapshot, WalkedEntry,
};

fn facts(path: &str, content: &str) -> ManifestFacts {
    ManifestFacts {
        path: path.to_string(),
        content: Some(content.to_string()),
        target_entries: Vec::new(),
        modified: Vec::new(),
    }
}

fn file(size: u64) -> WalkedEntry {
    WalkedEntry { is_file: true, size }
}

fn dir(size: u64) -> WalkedEntry {
    WalkedEntry { is_file: false, size }
}

fn snapshot(manifests: Vec<ManifestFacts>) -> TreeSnapshot {
    TreeSnapshot { manifests, globs: Vec::new(), ancestor_manifests: Vec::new() }
}

#[test]
fn test_get_dir_size_nonexistent() {
    // a directory that is not there has no entries
    let size = get_dir_size(&Vec::new());
    assert_eq!(size, 0);
}

#[test]
fn test_get_last_modified_nonexistent() {
    let ts = get_last_modified(&Vec::new());
    assert_eq!(ts, 0);
}

#[test]
fn dir_size_adds_regular_files_only() {
    let entries = vec![dir(4096), file(10), file(0), dir(4096), file(1_000_000)];
    assert_eq!(get_dir_size(&entries), 1_000_010);
    assert_eq!(checked_dir_size(&entries), Some(1_000_010));
    assert_eq!(checked_dir_size(&vec![file(u64::MAX), dir(7), file(1)]), None);
    assert_eq!(checked_dir_size(&vec![file(u64::MAX), dir(7)]), Some(u64::MAX));
}

#[test]
fn last_modified_is_the_latest_time() {
    assert_eq!(get_last_modified(&vec![5, 1_700_000_000, 3]), 1_700_000_000);
    assert_eq!(get_last_modified(&vec![0]), 0);
}

#[test]
fn manifest_paths_go_by_their_last_component() {
    assert!(is_manifest_path("/work/a/Cargo.toml"));
    assert!(is_manifest_path("Cargo.toml"));
    assert!(!is_manifest_path("/work/a/Cargo.lock"));
    assert!(!is_manifest_path("/work/Cargo.toml/src"));
    assert!(is_in_build_output("/work/a/target/package/x/Cargo.toml"));
    assert!(is_in_build_output("target/Cargo.toml"));
    assert!(!is_in_build_output("/work/targets/Cargo.toml"));
}

#[test]
fn no_manifests_no_projects() {
    assert!(scan_projects_sync(&snapshot(Vec::new())).is_empty());
    let stray = ManifestFacts {
        path: "/work/a/README.md".to_string(),
        content: Some("[package]\nname = \"a\"\n".to_string()),
        target_entries: Vec::new(),
        modified: Vec::new(),
    };
    assert!(scan_projects_sync(&snapshot(vec![stray])).is_empty());
}

#[test]
fn workspace_members_are_resolved_from_literals_and_globs() {
    let root = facts(
        "/R/Cargo.toml",
        "[workspace]\nmembers = [\"a\", \"pkgs/*\"]\n",
    );
    let globs = vec![GlobExpansion {
        pattern: "/R/pkgs/*".to_string(),
        matches: vec!["/R/pkgs/x".to_string(), "/R/pkgs/y".to_string()],
    }];
    assert_eq!(
        member_patterns(&root.path, &root.content),
        vec!["/R/pkgs/*".to_string()]
    );
    let members = find_workspace_roots(&vec![root], &globs);
    assert_eq!(members, vec!["/R/a", "/R/pkgs/x", "/R/pkgs/y"]);
    assert!(is_workspace_member(&members, "/R/pkgs/x"));
    assert!(is_workspace_member(&members, "/R/a/"));
    assert!(!is_workspace_member(&members, "/R/pkgs"));
    assert!(!is_workspace_member(&members, "/R"));
}

#[test]
fn a_manifest_in_build_output_declares_no_member() {
    let text = "[workspace]\nmembers = [\"/R/loose\", \"/R/pkgs/*\"]\n";
    let globs = vec![GlobExpansion {
        pattern: "/R/pkgs/*".to_string(),
        matches: vec!["/R/pkgs/x".to_string()],
    }];

    // outside build output the same text declares both members
    let plain = facts("/R/w/Cargo.toml", text);
    assert_eq!(
        member_patterns(&plain.path, &plain.content),
        vec!["/R/pkgs/*".to_string()]
    );
    assert_eq!(
        find_workspace_roots(&vec![plain], &globs),
        vec!["/R/loose", "/R/pkgs/x"]
    );

    // under `target` it declares none and asks for no pattern
    let built = facts("/R/target/package/w/Cargo.toml", text);
    assert!(member_patterns(&built.path, &built.content).is_empty());
    let members = find_workspace_roots(&vec![built], &globs);
    assert!(members.is_empty());
    assert!(!is_workspace_member(&members, "/R/loose"));
    assert!(!is_workspace_member(&members, "/R/pkgs/x"));
}

#[test]
fn a_project_listed_only_in_build_output_is_no_member() {
    let text = "[workspace]\nmembers = [\"/R/loose\", \"/R/pkgs/*\"]\n";
    let above = vec![ManifestFile {
        path: "/R/Cargo.toml".to_string(),
        content: Some("[workspace]\n".to_string()),
    }];
    let globs = vec![GlobExpansion {
        pattern: "/R/pkgs/*".to_string(),
        matches: vec!["/R/pkgs/x".to_string()],
    }];
    let tree = TreeSnapshot {
        manifests: vec![
            facts("/R/loose/Cargo.toml", "[package]\nname = \"loose\"\n"),
            facts("/R/target/package/w/Cargo.toml", text),
            facts("/R/pkgs/x/Cargo.toml", "[package]\nname = \"x\"\n"),
        ],
        globs: globs.clone(),
        ancestor_manifests: above.clone(),
    };
    let projects = scan_projects_sync(&tree);
    assert_eq!(projects.len(), 2);
    for p in &projects {
        assert!(!p.is_workspace_member, "{} is no member", p.path);
        assert_eq!(p.workspace_root, None);
    }
    assert_eq!(projects[0].path, "/R/loose");
    assert_eq!(projects[1].path, "/R/pkgs/x");

    // the same list in a manifest outside build output makes both members
    let tree = TreeSnapshot {
        manifests: vec![
            facts("/R/loose/Cargo.toml", "[package]\nname = \"loose\"\n"),
            facts("/R/w/Cargo.toml", text),
            facts("/R/pkgs/x/Cargo.toml", "[package]\nname = \"x\"\n"),
        ],
        globs,
        ancestor_manifests: above,
    };
    let projects = scan_projects_sync(&tree);
    assert_eq!(projects.len(), 3);
    assert_eq!(projects[0].path, "/R/loose");
    assert!(projects[0].is_workspace_member);
    assert_eq!(projects[0].workspace_root.as_deref(), Some("/R"));
    assert_eq!(projects[2].path, "/R/pkgs/x");
    assert!(projects[2].is_workspace_member);
    assert_eq!(projects[2].workspace_root.as_deref(), Some("/R"));
}

#[test]
fn discovery_is_the_same_without_the_manifests_in_build_output() {
    let root_text = "[workspace]\nmembers = [\"a\"]\n";
    let with = TreeSnapshot {
        manifests: vec![
            facts("/R/Cargo.toml", root_text),
            facts("/R/target/debug/w/Cargo.toml", "[workspace]\nmembers = [\"/R/b\"]\n"),
            facts("/R/a/Cargo.toml", "[package]\nname = \"a\"\n"),
            facts("/R/b/Cargo.toml", "[package]\nname = \"b\"\n"),
        ],
        globs: Vec::new(),
        ancestor_manifests: Vec::new(),
    };
    let without = TreeSnapshot {
        manifests: vec![
            facts("/R/Cargo.toml", root_text),
            facts("/R/a/Cargo.toml", "[package]\nname = \"a\"\n"),
            facts("/R/b/Cargo.toml", "[package]\nname = \"b\"\n"),
        ],
        globs: Vec::new(),
        ancestor_manifests: Vec::new(),
    };
    let left = scan_projects_sync(&with);
    let right = scan_projects_sync(&without);
    assert_eq!(left.len(), 3);
    assert_eq!(left.len(), right.len());
    for (l, r) in left.iter().zip(right.iter()) {
        assert_eq!(l.name, r.name);
        assert_eq!(l.path, r.path);
        assert_eq!(l.is_workspace_member, r.is_workspace_member);
        assert_eq!(l.workspace_root, r.workspace_root);
    }
    assert!(left.iter().any(|p| p.path == "/R/a" && p.is_workspace_member));
    assert!(left.iter().any(|p| p.path == "/R/b" && !p.is_workspace_member));
}

#[test]
fn a_pattern_without_expansion_matches_nothing() {
    let root = facts("/R/Cargo.toml", "[workspace]\nmembers = [\"pkgs/*\"]\n");
    assert!(find_workspace_roots(&vec![root], &Vec::new()).is_empty());
}

#[test]
fn discovery_lists_projects_by_name_with_their_workspace() {
    let mut root = facts(
        "/R/Cargo.toml",
        "[workspace]\nmembers = [\"a\", \"pkgs/*\"]\n",
    );
    root.modified = vec![10, 30, 20];
    let mut a = facts(
        "/R/a/Cargo.toml",
        "[package]\nname = \"Zeta\"\n[dependencies]\nserde = \"1\"\nlog = \"0.4\"\n",
    );
    a.target_entries = vec![file(100), dir(4096), file(23)];
    let x = facts("/R/pkgs/x/Cargo.toml", "[package]\nname = \"alpha\"\n");
    let y = facts("/R/pkgs/y/Cargo.toml", "[package]\nname = \"Beta\"\n");
    let loose = facts("/R/loose/Cargo.toml", "[package]\nname = \"beta\"\n");
    let built = facts(
        "/R/a/target/package/a-0.1.0/Cargo.toml",
        "[package]\nname = \"copy\"\n",
    );
    let broken = facts("/R/broken/Cargo.toml", "[package\nname = ");
    let unreadable = ManifestFacts {
        path: "/R/locked/Cargo.toml".to_string(),
        content: None,
        target_entries: Vec::new(),
        modified: Vec::new(),
    };
    let tree = TreeSnapshot {
        manifests: vec![root, a, x, y, loose, built, broken, unreadable],
        globs: vec![GlobExpansion {
            pattern: "/R/pkgs/*".to_string(),
            matches: vec!["/R/pkgs/x".to_string(), "/R/pkgs/y".to_string()],
        }],
        ancestor_manifests: vec![
            ManifestFile {
                path: "/R/pkgs/Cargo.toml".to_string(),
                content: None,
            },
            ManifestFile {
                path: "/R/Cargo.toml".to_string(),
                content: Some("[workspace]\nmembers = [\"a\", \"pkgs/*\"]\n".to_string()),
            },
        ],
    };
    let projects = scan_projects_sync(&tree);
    let names: Vec<&str> = projects.iter().map(|p| p.name.as_str()).collect();
    // by name without regard to case; equal names in the order of the walk
    assert_eq!(names, vec!["alpha", "Beta", "beta", "unknown", "Zeta"]);

    let alpha = &projects[0];
    assert_eq!(alpha.path, "/R/pkgs/x");
    assert!(alpha.is_workspace_member);
    assert_eq!(alpha.workspace_root.as_deref(), Some("/R"));

    let loose = &projects[2];
    assert_eq!(loose.path, "/R/loose");
    assert!(!loose.is_workspace_member);
    assert_eq!(loose.workspace_root, None);

    let root = &projects[3];
    assert_eq!(root.path, "/R");
    assert_eq!(root.dep_count, 0);
    assert_eq!(root.last_modified, 30);
    assert!(!root.is_workspace_member);

    let zeta = &projects[4];
    assert_eq!(zeta.path, "/R/a");
    assert_eq!(zeta.target_size, 123);
    assert_eq!(zeta.dep_count, 2);
    assert_eq!(zeta.workspace_root.as_deref(), Some("/R"));

    // a second run over the same snapshot gives the same list
    let again = scan_projects_sync(&tree);
    assert_eq!(again.len(), projects.len());
    for (p, q) in projects.iter().zip(again.iter()) {
        assert_eq!(p.name, q.name);
        assert_eq!(p.path, q.path);
        assert_eq!(p.target_size, q.target_size);
        assert_eq!(p.dep_count, q.dep_count);
        assert_eq!(p.last_modified, q.last_modified);
        assert_eq!(p.is_workspace_member, q.is_workspace_member);
        assert_eq!(p.workspace_root, q.workspace_root);
    }
}

#[test]
fn a_member_without_a_root_above_it_has_none() {
    // the workspace lists a path that lies beside it, not below it
    let root = facts("/R/ws/Cargo.toml", "[workspace]\nmembers = [\"../side\"]\n");
    let side = facts("/R/ws/../side/Cargo.toml", "[package]\nname = \"side\"\n");
    let projects = scan_projects_sync(&snapshot(vec![root, side]));
    let side = projects.iter().find(|p| p.name == "side").unwrap();
    assert!(side.is_workspace_member);
    assert_eq!(side.workspace_root, None);
}

#[test]
fn a_nested_member_takes_the_nearest_root() {
    let outer = facts("/R/Cargo.toml", "[workspace]\nmembers = [\"mid\", \"mid/leaf\"]\n");
    let mid = facts("/R/mid/Cargo.toml", "[package]\nname = \"mid\"\n");
    let leaf = facts("/R/mid/leaf/Cargo.toml", "[package]\nname = \"leaf\"\n");
    let projects = scan_projects_sync(&snapshot(vec![outer, mid, leaf]));
    let leaf = projects.iter().find(|p| p.name == "leaf").unwrap();
    // `/R/mid` is a member path itself, so it is met first
    assert_eq!(leaf.workspace_root.as_deref(), Some("/R/mid"));
    let mid = projects.iter().find(|p| p.name == "mid").unwrap();
    assert_eq!(mid.workspace_root, None);
}

#[test]
fn sizes_that_do_not_fit_are_refused() {
    let mut a = facts("/R/a/Cargo.toml", "[package]\nname = \"a\"\n");
    a.target_entries = vec![file(u64::MAX), file(1)];
    assert!(scan_projects(&snapshot(vec![a])).is_none());
    let b = facts("/R/b/Cargo.toml", "[package]\nname = \"b\"\n");
    assert_eq!(scan_projects(&snapshot(vec![b])).unwrap().len(), 1);
}

#[test]
fn manifests_above_a_project_are_named_nearest_first() {
    assert_eq!(
        ancestor_manifest_paths("/R/pkgs/x"),
        vec!["/R/pkgs/Cargo.toml", "/R/Cargo.toml", "/Cargo.toml"]
    );
    assert!(ancestor_manifest_paths("/").is_empty());
}
