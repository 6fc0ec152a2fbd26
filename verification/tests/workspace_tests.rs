use rust_helper::discovery::{GlobExpansion, ManifestFile};
use rust_helper::workspace::{
    find_parent_workspace, get_workspace_info, FileProbe, WorkspaceSnapshot,
};

fn probe(path: &str, content: Option<&str>) -> FileProbe {
    FileProbe {
        path: path.to_string(),
        exists: true,
        content: content.map(String::from),
    }
}

#[test]
fn a_workspace_lists_the_members_that_are_there() {
    let snapshot = WorkspaceSnapshot {
        project_path: "/R".to_string(),
        manifest: Some(
            "[workspace]\nmembers = [\"a\", \"gone\", 3, \"pkgs/*\", \".\"]\n[package]\nname = \"root\"\n"
                .to_string(),
        ),
        ancestor_manifests: Vec::new(),
        globs: vec![GlobExpansion {
            pattern: "/R/pkgs/*".to_string(),
            matches: vec![
                "/R/pkgs/x".to_string(),
                "/R/pkgs/notes.txt".to_string(),
                "/R/pkgs/y".to_string(),
            ],
        }],
        member_manifests: vec![
            probe("/R/a/Cargo.toml", Some("[package]\nname = \"alpha\"\n")),
            probe("/R/pkgs/x/Cargo.toml", Some("[package]\n")),
            probe("/R/pkgs/y/Cargo.toml", None),
            FileProbe {
                path: "/R/gone/Cargo.toml".to_string(),
                exists: false,
                content: None,
            },
            probe("/R/./Cargo.toml", Some("[package]\nname = \"root\"\n")),
        ],
    };
    let info = get_workspace_info(&snapshot);
    assert!(info.is_workspace);
    assert_eq!(info.root_path.as_deref(), Some("/R"));
    assert!(!info.is_member_of_workspace);
    let members: Vec<(&str, &str, bool)> = info
        .members
        .iter()
        .map(|m| (m.name.as_str(), m.path.as_str(), m.is_current))
        .collect();
    assert_eq!(
        members,
        vec![
            ("alpha", "/R/a", false),
            ("x", "/R/pkgs/x", false),
            ("y", "/R/pkgs/y", false),
            ("root", "/R/.", true),
        ]
    );
}

#[test]
fn a_member_knows_the_workspace_above_it() {
    let files = vec![
        ManifestFile { path: "/R/pkgs/Cargo.toml".to_string(), content: None },
        ManifestFile {
            path: "/R/Cargo.toml".to_string(),
            content: Some("[workspace]\nmembers = [\"a\", \"pkgs/*\"]\n".to_string()),
        },
    ];
    let globs = vec![GlobExpansion {
        pattern: "/R/pkgs/*".to_string(),
        matches: vec!["/R/pkgs/x".to_string()],
    }];
    assert_eq!(
        find_parent_workspace("/R/pkgs/x", &files, &globs),
        Some(("/R".to_string(), "R".to_string()))
    );
    assert_eq!(
        find_parent_workspace("/R/a", &files, &globs),
        Some(("/R".to_string(), "R".to_string()))
    );
    assert_eq!(find_parent_workspace("/R/b", &files, &globs), None);

    let snapshot = WorkspaceSnapshot {
        project_path: "/R/pkgs/x".to_string(),
        manifest: Some("[package]\nname = \"x\"\n".to_string()),
        ancestor_manifests: files,
        globs,
        member_manifests: Vec::new(),
    };
    let info = get_workspace_info(&snapshot);
    assert!(!info.is_workspace);
    assert!(info.members.is_empty());
    assert!(info.is_member_of_workspace);
    assert_eq!(info.parent_workspace_path.as_deref(), Some("/R"));
    assert_eq!(info.parent_workspace_name.as_deref(), Some("R"));
}

#[test]
fn the_topmost_directory_is_no_workspace() {
    let files = vec![ManifestFile {
        path: "/Cargo.toml".to_string(),
        content: Some("[workspace]\nmembers = [\"x\"]\n".to_string()),
    }];
    assert_eq!(find_parent_workspace("/x", &files, &Vec::new()), None);
}
