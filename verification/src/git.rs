//! What the version control of a project tells: its remote, its counts, its
//! tags and its workflows.

use vstd::prelude::*;
use crate::edit::{
    after_prefix, replace_all, replaced, strip_prefix, trim, trim_end_matches, trimmed,
    without_trailing,
};
use crate::execution::concat_text;
use crate::numbers::{parse_u32, parsed_u32};
use crate::paths::{has_extension, path_extension};
use crate::seqs::{collect, lemma_collect_step, lemma_deep_vec};
use crate::split::{lines, split_lines};
use crate::text::{
    begins_with, chars_of, contains, ends_with, find_first, finishes_with, first_occurrence,
    has_within, joined, lemma_chars_deep_view, slice_of, starts_with, string_of,
};

verus! {

broadcast use {lemma_deep_vec, lemma_chars_deep_view};

/// The remote of a project and the number of its commits.
#[derive(Debug, Clone)]
pub struct GitInfo {
    pub remote_url: Option<String>,
    pub github_url: Option<String>,
    pub commit_count: u32,
}

pub struct GitInfoModel {
    pub remote_url: Option<Seq<char>>,
    pub github_url: Option<Seq<char>>,
    pub commit_count: u32,
}

impl DeepView for GitInfo {
    type V = GitInfoModel;

    open spec fn deep_view(&self) -> GitInfoModel {
        GitInfoModel {
            remote_url: self.remote_url.deep_view(),
            github_url: self.github_url.deep_view(),
            commit_count: self.commit_count,
        }
    }
}

/// A tag of a project.
#[derive(Debug, Clone)]
pub struct GitTag {
    pub name: String,
    pub message: String,
    pub date: String,
    pub commit_hash: String,
}

pub struct GitTagModel {
    pub name: Seq<char>,
    pub message: Seq<char>,
    pub date: Seq<char>,
    pub commit_hash: Seq<char>,
}

impl DeepView for GitTag {
    type V = GitTagModel;

    open spec fn deep_view(&self) -> GitTagModel {
        GitTagModel {
            name: self.name@,
            message: self.message@,
            date: self.date@,
            commit_hash: self.commit_hash@,
        }
    }
}

/// The counts of a project's history.
#[derive(Debug, Clone)]
pub struct GitStats {
    pub contributors: u32,
    pub commits: u32,
    pub branches: u32,
    pub tags: u32,
    pub first_commit_date: Option<String>,
}

pub struct GitStatsModel {
    pub contributors: u32,
    pub commits: u32,
    pub branches: u32,
    pub tags: u32,
    pub first_commit_date: Option<Seq<char>>,
}

impl DeepView for GitStats {
    type V = GitStatsModel;

    open spec fn deep_view(&self) -> GitStatsModel {
        GitStatsModel {
            contributors: self.contributors,
            commits: self.commits,
            branches: self.branches,
            tags: self.tags,
            first_commit_date: self.first_commit_date.deep_view(),
        }
    }
}

/// The address of a remote on the web: for a remote at `github.com`, the
/// remote with `git@github.com:` replaced by `https://github.com/` and without
/// any `.git`; none for another remote.
pub open spec fn web_address(remote: Seq<char>) -> Option<Seq<char>> {
    if contains(remote, "github.com"@) {
        Some(
            replaced(
                replaced(remote, "git@github.com:"@, "https://github.com/"@),
                ".git"@,
                Seq::empty(),
            ),
        )
    } else {
        None
    }
}

/// The address of a remote on the web, for a remote at `github.com`.
pub fn github_url(remote: &str) -> (r: Option<String>)
    ensures
        r.deep_view() == web_address(remote@),
{
    let text = chars_of(remote);
    if has_within(&text, &chars_of("github.com")) {
        let nothing: Vec<char> = Vec::new();
        let a = replace_all(&text, &chars_of("git@github.com:"), &chars_of("https://github.com/"));
        let b = replace_all(&a, &chars_of(".git"), &nothing);
        Some(string_of(&b))
    } else {
        None
    }
}

/// The count that a text gives once the white space around it is cut; zero
/// where what is left is no count.
pub open spec fn count_in(text: Seq<char>) -> u32 {
    match parsed_u32(trimmed(text)) {
        Some(n) => n,
        None => 0,
    }
}

/// The count that a text gives; zero where it gives none.
pub fn parse_count(text: &str) -> (r: u32)
    ensures
        r == count_in(text@),
{
    match parse_u32(&trim(&chars_of(text))) {
        Some(n) => n,
        None => 0,
    }
}

/// A number of lines as a count, cut down to 32 bits.
pub open spec fn as_count(n: nat) -> u32 {
    (n % 0x1_0000_0000) as u32
}

/// A number of lines as a count.
pub fn count_from(n: usize) -> (r: u32)
    ensures
        r == as_count(n as nat),
{
    ((n as u64) % 0x1_0000_0000) as u32
}

/// The number of lines of a text.
pub fn count_lines(text: &str) -> (r: u32)
    ensures
        r == as_count(lines(text@).len()),
{
    let all = split_lines(&chars_of(text));
    assert(all.deep_view().len() == all.len());
    count_from(all.len())
}

/// A line that is not empty.
pub open spec fn filled() -> spec_fn(Seq<char>) -> Option<Seq<char>> {
    |l: Seq<char>|
        if l.len() > 0 {
            Some(l)
        } else {
            None
        }
}

/// The number of lines of a text that are not empty.
pub fn count_filled_lines(text: &str) -> (r: u32)
    ensures
        r == as_count(collect(lines(text@), filled()).len()),
{
    let all = split_lines(&chars_of(text));
    let ghost ls = lines(text@);
    let mut n: usize = 0;
    let mut i: usize = 0;
    assert(ls.take(0) =~= Seq::<Seq<char>>::empty());
    while i < all.len()
        invariant
            i <= all.len(),
            all.deep_view() == ls,
            n <= i,
            n == collect(ls.take(i as int), filled()).len(),
        decreases all.len() - i,
    {
        proof {
            lemma_collect_step(ls, filled(), i as int);
            assert(ls[i as int] == all@[i as int]@);
        }
        if all[i].len() > 0 {
            n += 1;
        }
        i += 1;
    }
    assert(ls.take(all.len() as int) =~= ls);
    count_from(n)
}

/// A text without the white space around it, where there is a text.
pub open spec fn trimmed_text(text: Option<Seq<char>>) -> Option<Seq<char>> {
    match text {
        Some(t) => Some(trimmed(t)),
        None => None,
    }
}

/// A text without the white space around it, where there is a text.
pub fn trim_text(text: Option<&str>) -> (r: Option<String>)
    ensures
        r.deep_view() == trimmed_text(text.deep_view()),
{
    match text {
        Some(t) => Some(string_of(&trim(&chars_of(t)))),
        None => None,
    }
}

/// What is known of a project's remote: its address where the query for it
/// succeeded, the address on the web, and the number of commits where the count
/// succeeded.
pub open spec fn info_of(remote: Option<Seq<char>>, count: Option<Seq<char>>) -> GitInfoModel {
    GitInfoModel {
        remote_url: trimmed_text(remote),
        github_url: match remote {
            Some(r) => web_address(trimmed(r)),
            None => None,
        },
        commit_count: match count {
            Some(c) => count_in(c),
            None => 0,
        },
    }
}

/// The remote of a project, from the output of the query for the remote and of
/// the count of commits; each is `None` where the command failed.
pub fn git_info(remote: Option<&str>, count: Option<&str>) -> (r: GitInfo)
    ensures
        r.deep_view() == info_of(remote.deep_view(), count.deep_view()),
{
    let remote_url = trim_text(remote);
    let github_url = match &remote_url {
        Some(u) => github_url(u.as_str()),
        None => None,
    };
    let commit_count = match count {
        Some(c) => parse_count(c),
        None => 0,
    };
    GitInfo { remote_url, github_url, commit_count }
}

/// The counts of a project's history, from the outputs of the commands that
/// list contributors, count commits, list branches and list tags, and from the
/// date of the first commit. An output is `None` where the command could not
/// be run and counts as zero.
pub open spec fn stats_of(
    contributors: Option<Seq<char>>,
    commits: Option<Seq<char>>,
    branches: Option<Seq<char>>,
    tags: Option<Seq<char>>,
    first_commit: Option<Seq<char>>,
) -> GitStatsModel {
    GitStatsModel {
        contributors: match contributors {
            Some(t) => as_count(lines(t).len()),
            None => 0,
        },
        commits: match commits {
            Some(t) => count_in(t),
            None => 0,
        },
        branches: match branches {
            Some(t) => as_count(lines(t).len()),
            None => 0,
        },
        tags: match tags {
            Some(t) => as_count(collect(lines(t), filled()).len()),
            None => 0,
        },
        first_commit_date: trimmed_text(first_commit),
    }
}

/// The counts of a project's history, from the outputs of the commands.
pub fn git_stats(
    contributors: Option<&str>,
    commits: Option<&str>,
    branches: Option<&str>,
    tags: Option<&str>,
    first_commit: Option<&str>,
) -> (r: GitStats)
    ensures
        r.deep_view() == stats_of(
            contributors.deep_view(),
            commits.deep_view(),
            branches.deep_view(),
            tags.deep_view(),
            first_commit.deep_view(),
        ),
{
    GitStats {
        contributors: match contributors {
            Some(t) => count_lines(t),
            None => 0,
        },
        commits: match commits {
            Some(t) => parse_count(t),
            None => 0,
        },
        branches: match branches {
            Some(t) => count_lines(t),
            None => 0,
        },
        tags: match tags {
            Some(t) => count_filled_lines(t),
            None => 0,
        },
        first_commit_date: trim_text(first_commit),
    }
}

/// The three parts of a line that holds two bars at least: what stands before
/// the first bar, what stands between the first and the second, and the rest.
pub open spec fn three_parts(line: Seq<char>) -> Option<(Seq<char>, Seq<char>, Seq<char>)> {
    match first_occurrence(line, "|"@, 0) {
        Some(a) => match first_occurrence(line, "|"@, a + 1) {
            Some(b) => Some(
                (line.subrange(0, a), line.subrange(a + 1, b), line.subrange(b + 1, line.len() as int)),
            ),
            None => None,
        },
        None => None,
    }
}

/// The name, the date and the commit of a tag, from a line that lists them
/// with bars between them.
pub fn parse_tag_line(line: &str) -> (r: Option<(String, String, String)>)
    ensures
        match (r, three_parts(line@)) {
            (Some(t), Some(p)) => t.0@ == p.0 && t.1@ == p.1 && t.2@ == p.2,
            (None, None) => true,
            _ => false,
        },
{
    let text = chars_of(line);
    let bar = chars_of("|");
    let total: usize = text.len();
    proof {
        reveal_strlit("|");
        assert(bar@.len() == 1);
    }
    match find_first(&text, &bar, 0) {
        Some(a) => match find_first(&text, &bar, a + 1) {
            Some(b) => Some(
                (
                    string_of(&slice_of(&text, 0, a)),
                    string_of(&slice_of(&text, a + 1, b)),
                    string_of(&slice_of(&text, b + 1, text.len())),
                ),
            ),
            None => None,
        },
        None => None,
    }
}

/// The message of a tag in a listing that gives the tag's name and then its
/// message: what follows the name, without the white space around it. None
/// where the listing does not start with the name.
pub open spec fn message_listed(listing: Seq<char>, name: Seq<char>) -> Option<Seq<char>> {
    match after_prefix(trimmed(listing), name) {
        Some(rest) => Some(trimmed(rest)),
        None => None,
    }
}

/// The message of a tag in a listing that starts with the tag's name.
pub fn listing_message(listing: &str, name: &str) -> (r: Option<String>)
    ensures
        r.deep_view() == message_listed(listing@, name@),
{
    match strip_prefix(&trim(&chars_of(listing)), &chars_of(name)) {
        Some(rest) => Some(string_of(&trim(&rest))),
        None => None,
    }
}

/// The text of an output without the white space around it; empty where the
/// command failed.
pub open spec fn text_or_empty(output: Option<Seq<char>>) -> Seq<char> {
    match output {
        Some(t) => trimmed(t),
        None => Seq::empty(),
    }
}

/// The text of an output without the white space around it.
pub fn trimmed_or_empty(output: Option<&str>) -> (r: String)
    ensures
        r@ == text_or_empty(output.deep_view()),
{
    match output {
        Some(t) => string_of(&trim(&chars_of(t))),
        None => String::new(),
    }
}

/// The tag that a line of the list of references gives, with the message that
/// the query for it printed; none where the line has no three parts.
pub open spec fn tag_of_line(line: Seq<char>, message: Option<Seq<char>>) -> Option<GitTagModel> {
    match three_parts(line) {
        Some(p) => Some(
            GitTagModel { name: p.0, message: text_or_empty(message), date: p.1, commit_hash: p.2 },
        ),
        None => None,
    }
}

/// The tag that a line of the list of references gives.
pub fn tag_from_line(line: &str, message: Option<&str>) -> (r: Option<GitTag>)
    ensures
        r.deep_view() == tag_of_line(line@, message.deep_view()),
{
    match parse_tag_line(line) {
        Some((name, date, commit_hash)) => Some(
            GitTag { name, message: trimmed_or_empty(message), date, commit_hash },
        ),
        None => None,
    }
}

/// The tag of a name from the plain list of tags: its message from the listing
/// of the tag, where that starts with the name; its date and its commit as
/// printed. What a failed command would have given is empty.
pub open spec fn tag_of_name(
    name: Seq<char>,
    listing: Option<Seq<char>>,
    date: Option<Seq<char>>,
    commit: Option<Seq<char>>,
) -> GitTagModel {
    GitTagModel {
        name: name,
        message: match listing {
            Some(l) => match message_listed(l, name) {
                Some(m) => m,
                None => Seq::empty(),
            },
            None => Seq::empty(),
        },
        date: text_or_empty(date),
        commit_hash: text_or_empty(commit),
    }
}

/// The tag of a name from the plain list of tags.
pub fn tag_from_name(
    name: &str,
    listing: Option<&str>,
    date: Option<&str>,
    commit: Option<&str>,
) -> (r: GitTag)
    ensures
        r.deep_view() == tag_of_name(
            name@,
            listing.deep_view(),
            date.deep_view(),
            commit.deep_view(),
        ),
{
    GitTag {
        name: name.to_owned(),
        message: match listing {
            Some(l) => match listing_message(l, name) {
                Some(m) => m,
                None => String::new(),
            },
            None => String::new(),
        },
        date: trimmed_or_empty(date),
        commit_hash: trimmed_or_empty(commit),
    }
}

/// Whether a repository has workflows, and the badge that shows their state.
#[derive(Debug, Clone)]
pub struct GitHubActionsStatus {
    pub has_workflows: bool,
    pub workflows: Vec<String>,
    pub badge_url: Option<String>,
}

pub struct GitHubActionsStatusModel {
    pub has_workflows: bool,
    pub workflows: Seq<Seq<char>>,
    pub badge_url: Option<Seq<char>>,
}

impl DeepView for GitHubActionsStatus {
    type V = GitHubActionsStatusModel;

    open spec fn deep_view(&self) -> GitHubActionsStatusModel {
        GitHubActionsStatusModel {
            has_workflows: self.has_workflows,
            workflows: self.workflows.deep_view(),
            badge_url: self.badge_url.deep_view(),
        }
    }
}

/// A file name that ends in `.yml` or `.yaml`.
pub open spec fn workflow_name() -> spec_fn(Seq<char>) -> Option<Seq<char>> {
    |name: Seq<char>|
        if ends_with(name, ".yml"@) || ends_with(name, ".yaml"@) {
            Some(name)
        } else {
            None
        }
}

/// The address of the badge of a repository on the web.
pub open spec fn badge_address(web: Seq<char>) -> Seq<char> {
    "https://github.com/"@ + replaced(web, "https://github.com/"@, Seq::empty())
        + "/actions/workflows/ci.yml/badge.svg"@
}

/// The state of the workflows of a project: without a directory of workflows,
/// nothing; with one, the workflow files among its names and the badge of the
/// repository.
pub open spec fn actions_status_of(
    names: Option<Seq<Seq<char>>>,
    web: Option<Seq<char>>,
) -> GitHubActionsStatusModel {
    match names {
        Some(list) => GitHubActionsStatusModel {
            has_workflows: collect(list, workflow_name()).len() > 0,
            workflows: collect(list, workflow_name()),
            badge_url: match web {
                Some(w) => Some(badge_address(w)),
                None => None,
            },
        },
        None => GitHubActionsStatusModel {
            has_workflows: false,
            workflows: Seq::empty(),
            badge_url: None,
        },
    }
}

/// The names among a list that end in `.yml` or `.yaml`.
pub fn workflow_names(names: &Vec<String>) -> (r: Vec<String>)
    ensures
        r.deep_view() == collect(names.deep_view(), workflow_name()),
{
    let yml = chars_of(".yml");
    let yaml = chars_of(".yaml");
    let mut out: Vec<String> = Vec::new();
    let mut i: usize = 0;
    assert(names.deep_view().take(0) =~= Seq::<Seq<char>>::empty());
    assert(out.deep_view() =~= Seq::<Seq<char>>::empty());
    while i < names.len()
        invariant
            i <= names.len(),
            yml@ == ".yml"@,
            yaml@ == ".yaml"@,
            out.deep_view() == collect(names.deep_view().take(i as int), workflow_name()),
        decreases names.len() - i,
    {
        proof {
            lemma_collect_step(names.deep_view(), workflow_name(), i as int);
            assert(names.deep_view()[i as int] == names@[i as int]@);
        }
        let name = chars_of(names[i].as_str());
        if finishes_with(&name, &yml) || finishes_with(&name, &yaml) {
            let ghost before = out.deep_view();
            out.push(names[i].clone());
            assert(out.deep_view() =~= before.push(names@[i as int]@));
        }
        i += 1;
    }
    assert(names.deep_view().take(names.len() as int) =~= names.deep_view());
    out
}

/// The address of the badge of a repository on the web.
pub fn badge_url(web: &str) -> (r: String)
    ensures
        r@ == badge_address(web@),
{
    let nothing: Vec<char> = Vec::new();
    let prefix = chars_of("https://github.com/");
    let repo = replace_all(&chars_of(web), &prefix, &nothing);
    let head = joined(&prefix, &repo);
    string_of(&joined(&head, &chars_of("/actions/workflows/ci.yml/badge.svg")))
}

/// The state of the workflows of a project, from the names in its directory of
/// workflows, which is `None` where there is no such directory, and from the
/// address of its repository on the web.
pub fn actions_status(names: Option<&Vec<String>>, web: Option<&str>) -> (r: GitHubActionsStatus)
    ensures
        r.deep_view() == actions_status_of(names.deep_view(), web.deep_view()),
{
    match names {
        Some(list) => {
            let workflows = workflow_names(list);
            assert(workflows.deep_view().len() == workflows.len());
            GitHubActionsStatus {
                has_workflows: workflows.len() > 0,
                workflows,
                badge_url: match web {
                    Some(w) => Some(badge_url(w)),
                    None => None,
                },
            }
        },
        None => {
            let r = GitHubActionsStatus {
                has_workflows: false,
                workflows: Vec::new(),
                badge_url: None,
            };
            assert(r.workflows.deep_view() =~= Seq::<Seq<char>>::empty());
            r
        },
    }
}

/// The workflows of a project and where to see them run.
#[derive(Debug, Clone)]
pub struct GithubActionsInfo {
    pub has_workflows: bool,
    pub workflow_files: Vec<String>,
    pub github_url: Option<String>,
    pub actions_url: Option<String>,
}

pub struct GithubActionsInfoModel {
    pub has_workflows: bool,
    pub workflow_files: Seq<Seq<char>>,
    pub github_url: Option<Seq<char>>,
    pub actions_url: Option<Seq<char>>,
}

impl DeepView for GithubActionsInfo {
    type V = GithubActionsInfoModel;

    open spec fn deep_view(&self) -> GithubActionsInfoModel {
        GithubActionsInfoModel {
            has_workflows: self.has_workflows,
            workflow_files: self.workflow_files.deep_view(),
            github_url: self.github_url.deep_view(),
            actions_url: self.actions_url.deep_view(),
        }
    }
}

/// The address of a repository on the web, from the address of its remote
/// without the white space around it: for a remote that starts with
/// `git@github.com:`, the remote with that replaced by `https://github.com/`;
/// for one that starts with `https://github.com/`, the remote itself; both
/// without `.git` at the end. None for another remote.
pub open spec fn repository_address(remote: Seq<char>) -> Option<Seq<char>> {
    let url = trimmed(remote);
    if starts_with(url, "git@github.com:"@) {
        Some(
            without_trailing(
                replaced(url, "git@github.com:"@, "https://github.com/"@),
                ".git"@,
            ),
        )
    } else if starts_with(url, "https://github.com/"@) {
        Some(without_trailing(url, ".git"@))
    } else {
        None
    }
}

/// The address of a repository on the web, from the address of its remote.
pub fn repository_url(remote: &str) -> (r: Option<String>)
    ensures
        r.deep_view() == repository_address(remote@),
{
    let url = trim(&chars_of(remote));
    let ssh = chars_of("git@github.com:");
    let web = chars_of("https://github.com/");
    let suffix = chars_of(".git");
    if begins_with(&url, &ssh) {
        let replaced = replace_all(&url, &ssh, &web);
        Some(string_of(&trim_end_matches(&replaced, &suffix)))
    } else if begins_with(&url, &web) {
        Some(string_of(&trim_end_matches(&url, &suffix)))
    } else {
        None
    }
}

/// A file whose extension is `yml` or `yaml`, by its name.
pub open spec fn workflow_file() -> spec_fn(Seq<char>) -> Option<Seq<char>> {
    |name: Seq<char>|
        if path_extension(name) == Some("yml"@) || path_extension(name) == Some("yaml"@) {
            Some(name)
        } else {
            None
        }
}

/// The workflows of a project: the workflow files among the names of the files
/// in its directory of workflows, the address of its repository, and the
/// address at which its workflows are shown.
pub open spec fn actions_info_of(
    files: Seq<Seq<char>>,
    remote: Option<Seq<char>>,
) -> GithubActionsInfoModel {
    let web = match remote {
        Some(r) => repository_address(r),
        None => None,
    };
    GithubActionsInfoModel {
        has_workflows: collect(files, workflow_file()).len() > 0,
        workflow_files: collect(files, workflow_file()),
        github_url: web,
        actions_url: match web {
            Some(w) => Some(w + "/actions"@),
            None => None,
        },
    }
}

/// The workflows of a project, from the names of the files in its directory
/// of workflows and from the address of its remote, which is `None` where the
/// query for it failed.
pub fn actions_info(files: &Vec<String>, remote: Option<&str>) -> (r: GithubActionsInfo)
    ensures
        r.deep_view() == actions_info_of(files.deep_view(), remote.deep_view()),
{
    let mut workflow_files: Vec<String> = Vec::new();
    let mut i: usize = 0;
    assert(files.deep_view().take(0) =~= Seq::<Seq<char>>::empty());
    assert(workflow_files.deep_view() =~= Seq::<Seq<char>>::empty());
    while i < files.len()
        invariant
            i <= files.len(),
            workflow_files.deep_view() == collect(files.deep_view().take(i as int), workflow_file()),
        decreases files.len() - i,
    {
        proof {
            lemma_collect_step(files.deep_view(), workflow_file(), i as int);
            assert(files.deep_view()[i as int] == files@[i as int]@);
        }
        if has_extension(files[i].as_str(), "yml") || has_extension(files[i].as_str(), "yaml") {
            let ghost before = workflow_files.deep_view();
            workflow_files.push(files[i].clone());
            assert(workflow_files.deep_view() =~= before.push(files@[i as int]@));
        }
        i += 1;
    }
    assert(files.deep_view().take(files.len() as int) =~= files.deep_view());
    let github_url = match remote {
        Some(r) => repository_url(r),
        None => None,
    };
    let actions_url = match &github_url {
        Some(w) => Some(concat_text(w.as_str(), "/actions")),
        None => None,
    };
    assert(workflow_files.deep_view().len() == workflow_files.len());
    GithubActionsInfo {
        has_workflows: workflow_files.len() > 0,
        workflow_files,
        github_url,
        actions_url,
    }
}

} // verus!
