//! The tools that the application needs, their installation, the documents
//! and the binaries that a project builds.

use vstd::prelude::*;
use crate::document::{parse_document, toml_document, TomlEntry};
use crate::edit::{replace_all, replaced, trim_end_matches, without_trailing};
use crate::execution::{
    exited_with_success, is_success, CargoCommandResult, CargoCommandResultModel, ProcessOutput,
};
use crate::manifest::{get_text_in, text_in};
use crate::paths::{join_path, path_join};
use crate::seqs::{lemma_deep_vec};
use crate::split::{split_words, words};
use crate::text::{
    chars_of, ends_with, finishes_with, lemma_chars_deep_view, same_chars, string_of,
};

verus! {

broadcast use {lemma_deep_vec, lemma_chars_deep_view};

/// A tool and whether it is installed.
#[derive(Debug, Clone)]
pub struct ToolStatus {
    pub name: String,
    pub command: String,
    pub installed: bool,
    pub install_cmd: String,
    pub description: String,
}

pub struct ToolStatusModel {
    pub name: Seq<char>,
    pub command: Seq<char>,
    pub installed: bool,
    pub install_cmd: Seq<char>,
    pub description: Seq<char>,
}

impl DeepView for ToolStatus {
    type V = ToolStatusModel;

    open spec fn deep_view(&self) -> ToolStatusModel {
        ToolStatusModel {
            name: self.name@,
            command: self.command@,
            installed: self.installed,
            install_cmd: self.install_cmd@,
            description: self.description@,
        }
    }
}

/// A tool that is not known to be installed.
pub open spec fn tool(
    name: Seq<char>,
    command: Seq<char>,
    install_cmd: Seq<char>,
    description: Seq<char>,
) -> ToolStatusModel {
    ToolStatusModel {
        name: name,
        command: command,
        installed: false,
        install_cmd: install_cmd,
        description: description,
    }
}

/// The tools that the application works with.
pub open spec fn tool_catalog() -> Seq<ToolStatusModel> {
    seq![
        tool(
            "cargo-outdated"@,
            "outdated"@,
            "cargo install cargo-outdated"@,
            "Check for outdated dependencies"@,
        ),
        tool(
            "cargo-edit"@,
            "upgrade"@,
            "cargo install cargo-edit"@,
            "Upgrade dependencies in Cargo.toml"@,
        ),
        tool(
            "cargo-audit"@,
            "audit"@,
            "cargo install cargo-audit"@,
            "Security vulnerability scanner"@,
        ),
        tool(
            "cargo-license"@,
            "license"@,
            "cargo install cargo-license"@,
            "Check dependency licenses"@,
        ),
        tool(
            "cargo-bloat"@,
            "bloat"@,
            "cargo install cargo-bloat"@,
            "Analyze binary size and bloat"@,
        ),
        tool(
            "cargo-tarpaulin"@,
            "tarpaulin"@,
            "cargo install cargo-tarpaulin"@,
            "Code coverage reporting"@,
        ),
        tool(
            "cargo-nextest"@,
            "nextest"@,
            "cargo install --locked cargo-nextest"@,
            "Next-generation test runner with JUnit output"@,
        ),
    ]
}

/// A tool that is not known to be installed.
pub fn new_tool(name: &str, command: &str, install_cmd: &str, description: &str) -> (r: ToolStatus)
    ensures
        r.deep_view() == tool(name@, command@, install_cmd@, description@),
{
    ToolStatus {
        name: name.to_owned(),
        command: command.to_owned(),
        installed: false,
        install_cmd: install_cmd.to_owned(),
        description: description.to_owned(),
    }
}

/// The catalog with each tool marked as installed where the probe at its
/// position says so; a tool without a probe counts as not installed.
pub open spec fn tools_probed(probes: Seq<bool>) -> Seq<ToolStatusModel> {
    Seq::new(
        tool_catalog().len(),
        |i: int|
            ToolStatusModel {
                installed: if i < probes.len() {
                    probes[i]
                } else {
                    false
                },
                ..tool_catalog()[i]
            },
    )
}

/// The tools that the application works with, none marked as installed.
pub fn known_tools() -> (r: Vec<ToolStatus>)
    ensures
        r.deep_view() == tool_catalog(),
{
    let mut out: Vec<ToolStatus> = Vec::new();
    out.push(
        new_tool(
            "cargo-outdated",
            "outdated",
            "cargo install cargo-outdated",
            "Check for outdated dependencies",
        ),
    );
    out.push(
        new_tool(
            "cargo-edit",
            "upgrade",
            "cargo install cargo-edit",
            "Upgrade dependencies in Cargo.toml",
        ),
    );
    out.push(
        new_tool(
            "cargo-audit",
            "audit",
            "cargo install cargo-audit",
            "Security vulnerability scanner",
        ),
    );
    out.push(
        new_tool(
            "cargo-license",
            "license",
            "cargo install cargo-license",
            "Check dependency licenses",
        ),
    );
    out.push(
        new_tool(
            "cargo-bloat",
            "bloat",
            "cargo install cargo-bloat",
            "Analyze binary size and bloat",
        ),
    );
    out.push(
        new_tool(
            "cargo-tarpaulin",
            "tarpaulin",
            "cargo install cargo-tarpaulin",
            "Code coverage reporting",
        ),
    );
    out.push(
        new_tool(
            "cargo-nextest",
            "nextest",
            "cargo install --locked cargo-nextest",
            "Next-generation test runner with JUnit output",
        ),
    );
    assert(out.deep_view() =~= tool_catalog());
    out
}

/// The tools with the result of probing each.
pub fn required_tools(probes: &Vec<bool>) -> (r: Vec<ToolStatus>)
    ensures
        r.deep_view() == tools_probed(probes@),
{
    let mut tools = known_tools();
    let ghost catalog = tools.deep_view();
    let mut out: Vec<ToolStatus> = Vec::new();
    let mut i: usize = 0;
    while i < tools.len()
        invariant
            i <= tools.len(),
            tools.deep_view() == tool_catalog(),
            out.len() == i,
            forall|k: int| 0 <= k < i ==> (#[trigger] out@[k]).deep_view() == tools_probed(probes@)[k],
        decreases tools.len() - i,
    {
        assert(tools.deep_view()[i as int] == tools@[i as int].deep_view());
        let t = &tools[i];
        let installed = if i < probes.len() {
            probes[i]
        } else {
            false
        };
        out.push(
            ToolStatus {
                name: t.name.clone(),
                command: t.command.clone(),
                installed,
                install_cmd: t.install_cmd.clone(),
                description: t.description.clone(),
            },
        );
        i += 1;
    }
    assert(tools.deep_view().len() == tools.len());
    assert(out.deep_view() =~= tools_probed(probes@));
    out
}

/// The arguments with which an installation is run: the words of the command
/// after the first, where the command has three words at least and starts with
/// `cargo install`.
pub open spec fn install_request(command: Seq<char>) -> Option<Seq<Seq<char>>> {
    let w = words(command);
    if w.len() >= 3 && w[0] == "cargo"@ && w[1] == "install"@ {
        Some(w.subrange(1, w.len() as int))
    } else {
        None
    }
}

/// The arguments with which an installation is run.
pub fn install_arguments(command: &str) -> (r: Option<Vec<String>>)
    ensures
        r.deep_view() == install_request(command@),
{
    let parts = split_words(&chars_of(command));
    assert(parts.deep_view().len() == parts.len());
    if parts.len() < 3 {
        return None;
    }
    assert(parts.deep_view()[0] == parts@[0]@);
    assert(parts.deep_view()[1] == parts@[1]@);
    if !same_chars(&parts[0], &chars_of("cargo")) || !same_chars(&parts[1], &chars_of("install")) {
        return None;
    }
    let mut out: Vec<String> = Vec::new();
    let mut i: usize = 1;
    while i < parts.len()
        invariant
            1 <= i <= parts.len(),
            out.len() == i - 1,
            forall|k: int| 0 <= k < i - 1 ==> out@[k]@ == parts@[k + 1]@,
        decreases parts.len() - i,
    {
        out.push(string_of(&parts[i]));
        i += 1;
    }
    assert(out.deep_view() =~= parts.deep_view().subrange(1, parts.len() as int));
    Some(out)
}

/// How an installation went.
#[derive(Debug, Clone)]
pub enum InstallOutcome {
    /// The command is no installation and was not run.
    Refused,
    /// The command could not be started.
    NotStarted(String),
    /// The command ran.
    Ran(ProcessOutput),
}

/// The report on an installation.
pub open spec fn install_report(command: Seq<char>, outcome: InstallOutcome) -> CargoCommandResultModel {
    match outcome {
        InstallOutcome::Refused => CargoCommandResultModel {
            project_path: Seq::empty(),
            command: command,
            success: false,
            stdout: Seq::empty(),
            stderr: "Invalid install command"@,
            exit_code: Some(1i32),
        },
        InstallOutcome::NotStarted(e) => CargoCommandResultModel {
            project_path: Seq::empty(),
            command: command,
            success: false,
            stdout: Seq::empty(),
            stderr: e@,
            exit_code: Some(1i32),
        },
        InstallOutcome::Ran(o) => CargoCommandResultModel {
            project_path: Seq::empty(),
            command: command,
            success: is_success(o.exit_code),
            stdout: o.stdout@,
            stderr: o.stderr@,
            exit_code: o.exit_code,
        },
    }
}

/// The report on an installation.
pub fn install_result(command: String, outcome: InstallOutcome) -> (r: CargoCommandResult)
    ensures
        r.deep_view() == install_report(command@, outcome),
{
    match outcome {
        InstallOutcome::Refused => CargoCommandResult {
            project_path: String::new(),
            command,
            success: false,
            stdout: String::new(),
            stderr: "Invalid install command".to_owned(),
            exit_code: Some(1),
        },
        InstallOutcome::NotStarted(e) => CargoCommandResult {
            project_path: String::new(),
            command,
            success: false,
            stdout: String::new(),
            stderr: e,
            exit_code: Some(1),
        },
        InstallOutcome::Ran(o) => CargoCommandResult {
            project_path: String::new(),
            command,
            success: exited_with_success(o.exit_code),
            stdout: o.stdout,
            stderr: o.stderr,
            exit_code: o.exit_code,
        },
    }
}

/// What generating the documents of a project gave.
#[derive(Debug, Clone)]
pub struct DocResult {
    pub success: bool,
    pub doc_path: Option<String>,
    pub error: Option<String>,
}

pub struct DocResultModel {
    pub success: bool,
    pub doc_path: Option<Seq<char>>,
    pub error: Option<Seq<char>>,
}

impl DeepView for DocResult {
    type V = DocResultModel;

    open spec fn deep_view(&self) -> DocResultModel {
        DocResultModel {
            success: self.success,
            doc_path: self.doc_path.deep_view(),
            error: self.error.deep_view(),
        }
    }
}

/// The name under which the documents of a package are filed: the package's
/// name with every hyphen replaced by an underscore.
pub open spec fn documented_name(doc: Seq<TomlEntry>) -> Option<Seq<char>> {
    match text_in(doc, "package"@, "name"@) {
        Some(n) => Some(replaced(n, "-"@, "_"@)),
        None => None,
    }
}

/// The name under which the documents of a package are filed.
pub fn doc_crate_name(doc: &Vec<TomlEntry>) -> (r: Option<String>)
    ensures
        r.deep_view() == documented_name(doc@),
{
    match get_text_in(doc, "package", "name") {
        Some(n) => {
            Some(string_of(&replace_all(&chars_of(n.as_str()), &chars_of("-"), &chars_of("_"))))
        },
        None => None,
    }
}

/// The file that opens the documents of a package.
pub open spec fn index_path(project_path: Seq<char>, name: Seq<char>) -> Seq<char> {
    path_join(
        path_join(path_join(path_join(project_path, "target"@), "doc"@), name),
        "index.html"@,
    )
}

/// The file that opens the documents of a project, by the project's manifest;
/// none where the manifest is missing, is no document or names no package.
pub open spec fn index_of(project_path: Seq<char>, manifest: Option<Seq<char>>) -> Option<
    Seq<char>,
> {
    match manifest {
        Some(text) => match toml_document(text) {
            Some(doc) => match documented_name(doc) {
                Some(n) => Some(index_path(project_path, n)),
                None => None,
            },
            None => None,
        },
        None => None,
    }
}

/// The file that opens the documents of a project, by its manifest as a
/// document.
pub fn doc_index_for(project_path: &str, doc: &Vec<TomlEntry>) -> (r: Option<String>)
    ensures
        r.deep_view() == match documented_name(doc@) {
            Some(n) => Some(index_path(project_path@, n)),
            None => None,
        },
{
    match doc_crate_name(doc) {
        Some(n) => {
            let a = join_path(project_path, "target");
            let b = join_path(a.as_str(), "doc");
            let c = join_path(b.as_str(), n.as_str());
            Some(join_path(c.as_str(), "index.html"))
        },
        None => None,
    }
}

/// The file that opens the documents of a project, by the text of its manifest.
pub fn doc_index_path(project_path: &str, manifest: Option<&str>) -> (r: Option<String>)
    ensures
        r.deep_view() == index_of(project_path@, manifest.deep_view()),
{
    match manifest {
        Some(text) => match parse_document(text) {
            Some(doc) => doc_index_for(project_path, &doc),
            None => None,
        },
        None => None,
    }
}

/// How generating the documents went.
#[derive(Debug, Clone)]
pub enum DocOutcome {
    /// The tool could not be run.
    NotRun,
    /// The tool failed and left this on its error stream.
    Failed(String),
    /// The tool succeeded; the file that opens the documents, where it is
    /// there.
    Generated(Option<String>),
}

/// The report on generating the documents.
pub open spec fn doc_report(outcome: DocOutcome) -> DocResultModel {
    match outcome {
        DocOutcome::NotRun => DocResultModel {
            success: false,
            doc_path: None,
            error: Some("Failed to run cargo doc"@),
        },
        DocOutcome::Failed(stderr) => DocResultModel {
            success: false,
            doc_path: None,
            error: Some(stderr@),
        },
        DocOutcome::Generated(Some(path)) => DocResultModel {
            success: true,
            doc_path: Some(path@),
            error: None,
        },
        DocOutcome::Generated(None) => DocResultModel {
            success: true,
            doc_path: None,
            error: Some("Documentation generated but index.html not found"@),
        },
    }
}

/// The report on generating the documents.
pub fn doc_result(outcome: DocOutcome) -> (r: DocResult)
    ensures
        r.deep_view() == doc_report(outcome),
{
    match outcome {
        DocOutcome::NotRun => DocResult {
            success: false,
            doc_path: None,
            error: Some("Failed to run cargo doc".to_owned()),
        },
        DocOutcome::Failed(stderr) => DocResult {
            success: false,
            doc_path: None,
            error: Some(stderr),
        },
        DocOutcome::Generated(Some(path)) => DocResult {
            success: true,
            doc_path: Some(path),
            error: None,
        },
        DocOutcome::Generated(None) => DocResult {
            success: true,
            doc_path: None,
            error: Some("Documentation generated but index.html not found".to_owned()),
        },
    }
}

/// A binary of a project with its sizes.
#[derive(Debug, Clone)]
pub struct BinaryInfo {
    pub name: String,
    pub debug_size: Option<u64>,
    pub release_size: Option<u64>,
}

pub struct BinaryInfoModel {
    pub name: Seq<char>,
    pub debug_size: Option<u64>,
    pub release_size: Option<u64>,
}

impl DeepView for BinaryInfo {
    type V = BinaryInfoModel;

    open spec fn deep_view(&self) -> BinaryInfoModel {
        BinaryInfoModel {
            name: self.name@,
            debug_size: self.debug_size,
            release_size: self.release_size,
        }
    }
}

/// The binaries of a project and their sizes together.
#[derive(Debug, Clone)]
pub struct BinarySizes {
    pub debug: Option<u64>,
    pub release: Option<u64>,
    pub binaries: Vec<BinaryInfo>,
}

pub struct BinarySizesModel {
    pub debug: Option<u64>,
    pub release: Option<u64>,
    pub binaries: Seq<BinaryInfoModel>,
}

impl DeepView for BinarySizes {
    type V = BinarySizesModel;

    open spec fn deep_view(&self) -> BinarySizesModel {
        BinarySizesModel {
            debug: self.debug,
            release: self.release,
            binaries: self.binaries.deep_view(),
        }
    }
}

/// The binary that a source file under `src/bin` builds: for a file whose
/// name ends in `.rs`, the name without every `.rs` at its end.
pub open spec fn binary_of(file_name: Seq<char>) -> Option<Seq<char>> {
    if ends_with(file_name, ".rs"@) {
        Some(without_trailing(file_name, ".rs"@))
    } else {
        None
    }
}

/// The binary that a source file under `src/bin` builds.
pub fn binary_name(file_name: &str) -> (r: Option<String>)
    ensures
        r.deep_view() == binary_of(file_name@),
{
    let name = chars_of(file_name);
    let suffix = chars_of(".rs");
    if finishes_with(&name, &suffix) {
        Some(string_of(&trim_end_matches(&name, &suffix)))
    } else {
        None
    }
}

/// The sizes of the debug builds, or of the release builds, of a list of
/// binaries, added up; a binary without such a build adds nothing.
pub open spec fn size_total(binaries: Seq<BinaryInfoModel>, release: bool) -> nat
    decreases binaries.len(),
{
    if binaries.len() == 0 {
        0
    } else {
        let size = if release {
            binaries.last().release_size
        } else {
            binaries.last().debug_size
        };
        size_total(binaries.drop_last(), release) + match size {
            Some(s) => s as nat,
            None => 0,
        }
    }
}

/// A front part of the binaries has no more bytes than all of them.
pub proof fn lemma_size_total_prefix(binaries: Seq<BinaryInfoModel>, release: bool, n: int)
    requires
        0 <= n <= binaries.len(),
    ensures
        size_total(binaries.take(n), release) <= size_total(binaries, release),
    decreases binaries.len() - n,
{
    if n < binaries.len() {
        lemma_size_total_prefix(binaries, release, n + 1);
        assert(binaries.take(n + 1).drop_last() =~= binaries.take(n));
    } else {
        assert(binaries.take(n) =~= binaries);
    }
}

/// A total as it is shown: none where it is zero.
pub open spec fn shown_total(total: nat) -> Option<u64> {
    if total > 0 {
        Some(total as u64)
    } else {
        None
    }
}

/// The sizes of one kind of build added up; `None` where the sum is too large.
pub fn total_size(binaries: &Vec<BinaryInfo>, release: bool) -> (r: Option<u64>)
    ensures
        r == if size_total(binaries.deep_view(), release) <= u64::MAX {
            Some(size_total(binaries.deep_view(), release) as u64)
        } else {
            None
        },
{
    let ghost all = binaries.deep_view();
    let mut total: u64 = 0;
    let mut i: usize = 0;
    assert(all.take(0) =~= Seq::<BinaryInfoModel>::empty());
    while i < binaries.len()
        invariant
            i <= binaries.len(),
            all == binaries.deep_view(),
            total == size_total(all.take(i as int), release),
        decreases binaries.len() - i,
    {
        proof {
            assert(all.take(i + 1).drop_last() =~= all.take(i as int));
            assert(all.take(i + 1).last() == binaries@[i as int].deep_view());
        }
        let size = if release {
            binaries[i].release_size
        } else {
            binaries[i].debug_size
        };
        match size {
            Some(s) => match total.checked_add(s) {
                Some(t) => {
                    total = t;
                },
                None => {
                    proof {
                        lemma_size_total_prefix(all, release, i + 1);
                    }
                    return None;
                },
            },
            None => {},
        }
        i += 1;
    }
    assert(all.take(binaries.len() as int) =~= all);
    Some(total)
}

/// The binaries of a project with the totals of their sizes, which are left
/// out where they are zero. `None` where a total is too large.
pub fn binary_sizes(binaries: Vec<BinaryInfo>) -> (r: Option<BinarySizes>)
    ensures
        match r {
            Some(s) => {
                &&& size_total(binaries.deep_view(), false) <= u64::MAX
                &&& size_total(binaries.deep_view(), true) <= u64::MAX
                &&& s.binaries == binaries
                &&& s.debug == shown_total(size_total(binaries.deep_view(), false))
                &&& s.release == shown_total(size_total(binaries.deep_view(), true))
            },
            None => size_total(binaries.deep_view(), false) > u64::MAX || size_total(
                binaries.deep_view(),
                true,
            ) > u64::MAX,
        },
{
    match (total_size(&binaries, false), total_size(&binaries, true)) {
        (Some(debug), Some(release)) => Some(
            BinarySizes {
                debug: if debug > 0 {
                    Some(debug)
                } else {
                    None
                },
                release: if release > 0 {
                    Some(release)
                } else {
                    None
                },
                binaries,
            },
        ),
        _ => None,
    }
}

} // verus!
