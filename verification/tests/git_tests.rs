use rust_helper::git::{
    actions_info, actions_status, badge_url, count_filled_lines, count_lines, git_info,
    git_stats, github_url, listing_message, parse_count, parse_tag_line, repository_url,
};

#[test]
fn remotes_at_github_have_a_web_address() {
    assert_eq!(
        github_url("git@github.com:owner/repo.git").as_deref(),
        Some("https://github.com/owner/repo")
    );
    assert_eq!(
        github_url("https://github.com/owner/repo.git").as_deref(),
        Some("https://github.com/owner/repo")
    );
    // every `.git` goes, not only the one at the end
    assert_eq!(
        github_url("https://github.com/owner/my.github.io").as_deref(),
        Some("https://github.com/owner/myhub.io")
    );
    assert_eq!(github_url("https://gitlab.com/owner/repo.git"), None);
}

#[test]
fn repository_addresses_lose_the_suffix_at_the_end_only() {
    assert_eq!(
        repository_url(" git@github.com:owner/my.github.io.git\n").as_deref(),
        Some("https://github.com/owner/my.github.io")
    );
    assert_eq!(
        repository_url("https://github.com/owner/repo.git.git").as_deref(),
        Some("https://github.com/owner/repo")
    );
    assert_eq!(repository_url("ssh://git@github.com/owner/repo"), None);
}

#[test]
fn counts_are_read_from_trimmed_text() {
    assert_eq!(parse_count(" 42\n"), 42);
    assert_eq!(parse_count("+7"), 7);
    assert_eq!(parse_count("007"), 7);
    assert_eq!(parse_count("4294967295"), u32::MAX);
    assert_eq!(parse_count("4294967296"), 0);
    assert_eq!(parse_count("-1"), 0);
    assert_eq!(parse_count("1 2"), 0);
    assert_eq!(parse_count(""), 0);
    assert_eq!(parse_count("+"), 0);
    for text in ["12", " 3 ", "x", "+", "", "99999999999", "0x10", "1_000"] {
        assert_eq!(parse_count(text), text.trim().parse::<u32>().unwrap_or(0));
    }
}

#[test]
fn lines_are_counted() {
    assert_eq!(count_lines(""), 0);
    assert_eq!(count_lines("a\nb\n"), 2);
    assert_eq!(count_lines("a\n\nb"), 3);
    assert_eq!(count_filled_lines("a\n\nb\n\n"), 2);
}

#[test]
fn git_info_is_built_from_command_output() {
    let info = git_info(Some("git@github.com:o/r.git\n"), Some("17\n"));
    assert_eq!(info.remote_url.as_deref(), Some("git@github.com:o/r.git"));
    assert_eq!(info.github_url.as_deref(), Some("https://github.com/o/r"));
    assert_eq!(info.commit_count, 17);
    let none = git_info(None, None);
    assert_eq!(none.remote_url, None);
    assert_eq!(none.github_url, None);
    assert_eq!(none.commit_count, 0);
}

#[test]
fn git_stats_count_lines_of_output() {
    let stats = git_stats(
        Some("    10\tAnn\n     2\tBob\n"),
        Some("12\n"),
        Some("* main\n  dev\n  remotes/origin/main\n"),
        Some("v1\n\nv2\n"),
        Some("2024-01-01T00:00:00+00:00\n"),
    );
    assert_eq!(stats.contributors, 2);
    assert_eq!(stats.commits, 12);
    assert_eq!(stats.branches, 3);
    assert_eq!(stats.tags, 2);
    assert_eq!(stats.first_commit_date.as_deref(), Some("2024-01-01T00:00:00+00:00"));
    let empty = git_stats(None, None, None, None, None);
    assert_eq!(empty.contributors + empty.commits + empty.branches + empty.tags, 0);
}

#[test]
fn tag_lines_have_three_parts() {
    assert_eq!(
        parse_tag_line("v1.0|2024-01-01T10:00:00+00:00|abc1234"),
        Some((
            "v1.0".to_string(),
            "2024-01-01T10:00:00+00:00".to_string(),
            "abc1234".to_string()
        ))
    );
    assert_eq!(
        parse_tag_line("a||c|d"),
        Some(("a".to_string(), String::new(), "c|d".to_string()))
    );
    assert_eq!(parse_tag_line("v1.0|2024"), None);
    assert_eq!(parse_tag_line(""), None);
}

#[test]
fn tag_messages_follow_the_name() {
    assert_eq!(
        listing_message("v1.0            First release\n", "v1.0").as_deref(),
        Some("First release")
    );
    assert_eq!(listing_message("v1.0", "v1.0").as_deref(), Some(""));
    assert_eq!(listing_message("other text", "v1.0"), None);
}

#[test]
fn workflows_are_the_yaml_files() {
    let names = vec![
        "ci.yml".to_string(),
        "README.md".to_string(),
        "release.yaml".to_string(),
        ".yml".to_string(),
    ];
    let status = actions_status(Some(&names), Some("https://github.com/o/r"));
    assert!(status.has_workflows);
    assert_eq!(status.workflows, vec!["ci.yml", "release.yaml", ".yml"]);
    assert_eq!(
        status.badge_url.as_deref(),
        Some("https://github.com/o/r/actions/workflows/ci.yml/badge.svg")
    );
    let none = actions_status(None, Some("https://github.com/o/r"));
    assert!(!none.has_workflows);
    assert_eq!(none.badge_url, None);
    assert_eq!(
        badge_url("https://github.com/o/r"),
        "https://github.com/o/r/actions/workflows/ci.yml/badge.svg"
    );

    // by extension, a file named `.yml` has none
    let info = actions_info(&names, Some("git@github.com:o/r.git\n"));
    assert_eq!(info.workflow_files, vec!["ci.yml", "release.yaml"]);
    assert!(info.has_workflows);
    assert_eq!(info.github_url.as_deref(), Some("https://github.com/o/r"));
    assert_eq!(info.actions_url.as_deref(), Some("https://github.com/o/r/actions"));
    let bare = actions_info(&Vec::new(), None);
    assert!(!bare.has_workflows);
    assert_eq!(bare.actions_url, None);
}
