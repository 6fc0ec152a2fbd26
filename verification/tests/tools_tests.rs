use rust_helper::execution::ProcessOutput;
use rust_helper::ide::{
    file_launch, installed_ides, is_terminal_editor, known_ides, project_launch, IdeLaunch,
};
use rust_helper::numbers::{decimal_of, parse_u32};
use rust_helper::text::{chars_of, string_of};
use rust_helper::tools::{
    binary_name, binary_sizes, doc_index_path, doc_result, install_arguments, install_result,
    known_tools, required_tools, BinaryInfo, DocOutcome, InstallOutcome,
};

#[test]
fn seven_tools_are_known() {
    let tools = known_tools();
    assert_eq!(tools.len(), 7);
    assert_eq!(tools[0].name, "cargo-outdated");
    assert_eq!(tools[0].command, "outdated");
    assert_eq!(tools[6].install_cmd, "cargo install --locked cargo-nextest");
    assert!(tools.iter().all(|t| !t.installed));
    let probed = required_tools(&vec![true, false, true]);
    assert_eq!(probed.len(), 7);
    assert!(probed[0].installed);
    assert!(!probed[1].installed);
    assert!(probed[2].installed);
    assert!(!probed[6].installed);
    assert_eq!(probed[2].description, "Security vulnerability scanner");
}

#[test]
fn only_installations_are_run() {
    assert_eq!(
        install_arguments("cargo install  cargo-audit"),
        Some(vec!["install".to_string(), "cargo-audit".to_string()])
    );
    assert_eq!(
        install_arguments("cargo install --locked cargo-nextest").unwrap().len(),
        3
    );
    assert_eq!(install_arguments("cargo install"), None);
    assert_eq!(install_arguments("rm -rf /"), None);
    assert_eq!(install_arguments("cargo uninstall x"), None);
    let refused = install_result("rm -rf /".to_string(), InstallOutcome::Refused);
    assert!(!refused.success);
    assert_eq!(refused.stderr, "Invalid install command");
    assert_eq!(refused.exit_code, Some(1));
    assert_eq!(refused.command, "rm -rf /");
    let ran = install_result(
        "cargo install x".to_string(),
        InstallOutcome::Ran(ProcessOutput {
            exit_code: Some(0),
            stdout: "ok".to_string(),
            stderr: String::new(),
        }),
    );
    assert!(ran.success);
    let broke = install_result(
        "cargo install x".to_string(),
        InstallOutcome::NotStarted("no cargo".to_string()),
    );
    assert_eq!(broke.stderr, "no cargo");
    assert_eq!(broke.exit_code, Some(1));
}

#[test]
fn documents_are_filed_under_the_crate_name() {
    assert_eq!(
        doc_index_path("/w/app", Some("[package]\nname = \"my-little-app\"\n")).as_deref(),
        Some("/w/app/target/doc/my_little_app/index.html")
    );
    assert_eq!(doc_index_path("/w/app", Some("[workspace]\n")), None);
    assert_eq!(doc_index_path("/w/app", None), None);
    let done = doc_result(DocOutcome::Generated(None));
    assert!(done.success);
    assert_eq!(
        done.error.as_deref(),
        Some("Documentation generated but index.html not found")
    );
    let failed = doc_result(DocOutcome::NotRun);
    assert!(!failed.success);
    assert_eq!(failed.error.as_deref(), Some("Failed to run cargo doc"));
}

#[test]
fn binaries_are_named_after_their_source() {
    assert_eq!(binary_name("tool.rs").as_deref(), Some("tool"));
    assert_eq!(binary_name("tool.rs.rs").as_deref(), Some("tool"));
    assert_eq!(binary_name("notes.txt"), None);
    assert_eq!(binary_name("tool.rs"), Some("tool.rs".trim_end_matches(".rs").to_string()));
}

#[test]
fn binary_sizes_are_added_up() {
    let binaries = vec![
        BinaryInfo { name: "a".to_string(), debug_size: Some(10), release_size: None },
        BinaryInfo { name: "b".to_string(), debug_size: Some(5), release_size: None },
        BinaryInfo { name: "c".to_string(), debug_size: None, release_size: Some(0) },
    ];
    let sizes = binary_sizes(binaries).unwrap();
    assert_eq!(sizes.debug, Some(15));
    assert_eq!(sizes.release, None);
    assert_eq!(sizes.binaries.len(), 3);
    let huge = vec![
        BinaryInfo { name: "a".to_string(), debug_size: Some(u64::MAX), release_size: None },
        BinaryInfo { name: "b".to_string(), debug_size: Some(1), release_size: None },
    ];
    assert!(binary_sizes(huge).is_none());
}

#[test]
fn editors_are_started_by_their_kind() {
    assert_eq!(known_ides().len(), 14);
    let mut found = vec![false; 14];
    found[0] = true;
    found[12] = true;
    let installed = installed_ides(&found);
    assert_eq!(installed.len(), 2);
    assert_eq!(installed[0].command, "code");
    assert_eq!(installed[1].id, "vim");
    assert!(is_terminal_editor("nvim"));
    assert!(!is_terminal_editor("code"));

    match file_launch("/w/a.rs", 12, "code") {
        IdeLaunch::Direct { program, args } => {
            assert_eq!(program, "code");
            assert_eq!(args, vec!["--goto", "/w/a.rs:12"]);
        }
        _ => panic!("run directly"),
    }
    match file_launch("/w/a.rs", 12, "rustrover") {
        IdeLaunch::Direct { args, .. } => assert_eq!(args, vec!["--line", "12", "/w/a.rs"]),
        _ => panic!("run directly"),
    }
    match file_launch("/w/a.rs", 12, "zed") {
        IdeLaunch::Direct { args, .. } => assert_eq!(args, vec!["/w/a.rs:12"]),
        _ => panic!("run directly"),
    }
    match file_launch("/w/a.rs", 12, "something-else") {
        IdeLaunch::Direct { program, args } => {
            assert_eq!(program, "something-else");
            assert_eq!(args, vec!["/w/a.rs"]);
        }
        _ => panic!("run directly"),
    }
    match file_launch("/w/a.rs", 12, "vim") {
        IdeLaunch::Terminal { script } => assert_eq!(
            script,
            format!(
                r#"tell application "Terminal"
                    activate
                    do script "{} +{} '{}'"
                end tell"#,
                "vim", 12, "/w/a.rs"
            )
        ),
        _ => panic!("run in the terminal"),
    }
    match project_launch("/w/app", "emacs") {
        IdeLaunch::Terminal { script } => assert_eq!(
            script,
            format!(
                r#"tell application "Terminal"
                    activate
                    do script "cd '{}' && {}"
                end tell"#,
                "/w/app", "emacs"
            )
        ),
        _ => panic!("run in the terminal"),
    }
    match project_launch("/w/app", "code") {
        IdeLaunch::Direct { program, args } => {
            assert_eq!(program, "code");
            assert_eq!(args, vec!["/w/app"]);
        }
        _ => panic!("run directly"),
    }
}

#[test]
fn numbers_are_written_and_read_in_decimal() {
    for n in [0u64, 7, 10, 99, 100, 4294967295, u64::MAX] {
        assert_eq!(string_of(&decimal_of(n)), n.to_string());
    }
    for text in ["0", "+0", "42", "0042", "4294967295", "4294967296", "", "+", "-1", "1a", " 1"] {
        assert_eq!(parse_u32(&chars_of(text)), text.parse::<u32>().ok());
    }
}
