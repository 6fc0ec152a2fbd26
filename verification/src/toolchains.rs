//! Toolchains: what `rustup` and `rustc` print, what a project pins, and the
//! comparison of pinned toolchains and minimum versions across projects.

use vstd::prelude::*;
use crate::document::{parse_document, toml_document, TomlEntry};
use crate::edit::{replace_all, replaced, trim, trimmed};
use crate::groups::{
    copy_texts, distinct, group_pairs, grouped, keys_of, lemma_distinct_of_different,
    lemma_distinct_of_equal, GroupModel,
};
use crate::manifest::{get_text_in, text_in};
use crate::paths::{display_name, project_display_name};
use crate::seqs::{
    collect, deep, lemma_collect_holds, lemma_collect_origin, lemma_collect_step, lemma_deep_vec,
    lemma_sorted_deep,
};
use crate::sorting::{lemma_sort_len, sort_stable, stable_sort, Ranked};
use crate::split::{lines, split_lines, split_words, words};
use crate::text::{chars_of, contains, has_within, lemma_chars_deep_view, string_of};

verus! {

broadcast use {lemma_deep_vec, lemma_chars_deep_view};

/// The name that a line of `rustup toolchain list` gives: the line without the
/// marks `(default)` and `(active)` and without white space around it.
pub open spec fn listed_toolchain(line: Seq<char>) -> Seq<char> {
    trimmed(replaced(replaced(line, "(default)"@, ""@), "(active)"@, ""@))
}

/// Whether a line names a toolchain and marks it as the default.
pub open spec fn names_default(line: Seq<char>) -> Option<Seq<char>> {
    if listed_toolchain(line).len() > 0 && contains(line, "(default)"@) {
        Some(listed_toolchain(line))
    } else {
        None
    }
}

/// Whether a line names a toolchain and marks it as active; the default counts
/// as active.
pub open spec fn names_active(line: Seq<char>) -> Option<Seq<char>> {
    if listed_toolchain(line).len() > 0 && (contains(line, "(active)"@) || contains(
        line,
        "(default)"@,
    )) {
        Some(listed_toolchain(line))
    } else {
        None
    }
}

/// Whether a line names a toolchain.
pub open spec fn names_any(line: Seq<char>) -> Option<Seq<char>> {
    if listed_toolchain(line).len() > 0 {
        Some(listed_toolchain(line))
    } else {
        None
    }
}

/// The last element of a sequence, if it has one.
pub open spec fn last_of(s: Seq<Seq<char>>) -> Option<Seq<char>> {
    if s.len() > 0 {
        Some(s.last())
    } else {
        None
    }
}

/// Parse rustup toolchain list output and return installed toolchains with
/// default/active info: the names in the order of the lines, the last name
/// marked as default and the last one marked as active.
pub fn parse_rustup_toolchain_list(output: &str) -> (r: (
    Vec<String>,
    Option<String>,
    Option<String>,
))
    ensures
        r.0.deep_view() == collect(lines(output@), |l: Seq<char>| names_any(l)),
        r.1.deep_view() == last_of(collect(lines(output@), |l: Seq<char>| names_default(l))),
        r.2.deep_view() == last_of(collect(lines(output@), |l: Seq<char>| names_active(l))),
{
    let all = split_lines(&chars_of(output));
    let ghost ls = lines(output@);
    let ghost any = |l: Seq<char>| names_any(l);
    let ghost def = |l: Seq<char>| names_default(l);
    let ghost act = |l: Seq<char>| names_active(l);
    let mut installed: Vec<String> = Vec::new();
    let mut default_toolchain: Option<String> = None;
    let mut active_toolchain: Option<String> = None;
    let default_mark = chars_of("(default)");
    let active_mark = chars_of("(active)");
    let nothing = chars_of("");
    proof {
        assert(ls.take(0) =~= Seq::<Seq<char>>::empty());
        assert(installed.deep_view() =~= Seq::<Seq<char>>::empty());
    }
    let mut i: usize = 0;
    while i < all.len()
        invariant
            i <= all.len(),
            all.deep_view() == ls,
            ls == lines(output@),
            any == |l: Seq<char>| names_any(l),
            def == |l: Seq<char>| names_default(l),
            act == |l: Seq<char>| names_active(l),
            default_mark@ == "(default)"@,
            active_mark@ == "(active)"@,
            nothing@ == ""@,
            installed.deep_view() == collect(ls.take(i as int), any),
            default_toolchain.deep_view() == last_of(collect(ls.take(i as int), def)),
            active_toolchain.deep_view() == last_of(collect(ls.take(i as int), act)),
        decreases all.len() - i,
    {
        proof {
            lemma_collect_step(ls, any, i as int);
            lemma_collect_step(ls, def, i as int);
            lemma_collect_step(ls, act, i as int);
            assert(ls[i as int] == all@[i as int]@);
        }
        let line = &all[i];
        let is_default = has_within(line, &default_mark);
        let is_active = has_within(line, &active_mark) || is_default;
        let cleaned = replace_all(&replace_all(line, &default_mark, &nothing), &active_mark, &nothing);
        let name = trim(&cleaned);
        if name.len() > 0 {
            if is_default {
                default_toolchain = Some(string_of(&name));
            }
            if is_active {
                active_toolchain = Some(string_of(&name));
            }
            let ghost before = installed.deep_view();
            installed.push(string_of(&name));
            assert(installed.deep_view() =~= before.push(name@));
        }
        i += 1;
    }
    assert(ls.take(all.len() as int) == ls);
    (installed, default_toolchain, active_toolchain)
}

/// The second word of a text, if it has two.
pub open spec fn second_word(s: Seq<char>) -> Option<Seq<char>> {
    if words(s).len() > 1 {
        Some(words(s)[1])
    } else {
        None
    }
}

/// Parse rustc --version output to extract version and check if homebrew: the
/// second word of the output, and whether the output holds `(Homebrew)`.
pub fn parse_rustc_version(version_output: &str) -> (r: (Option<String>, bool))
    ensures
        r.0.deep_view() == second_word(version_output@),
        r.1 == contains(version_output@, "(Homebrew)"@),
{
    let text = chars_of(version_output);
    let is_homebrew = has_within(&text, &chars_of("(Homebrew)"));
    let parts = split_words(&text);
    let version = if parts.len() > 1 {
        assert(parts.deep_view()[1] == parts@[1]@);
        Some(string_of(&parts[1]))
    } else {
        None
    };
    (version, is_homebrew)
}

/// The versions of the tools that are installed.
#[derive(Debug, Clone)]
pub struct RustVersionInfo {
    pub rustc_version: Option<String>,
    pub cargo_version: Option<String>,
    pub default_toolchain: Option<String>,
    pub installed_toolchains: Vec<String>,
    pub active_toolchain: Option<String>,
}

/// What a project pins.
#[derive(Debug, Clone)]
pub struct ToolchainInfo {
    pub project_path: String,
    pub project_name: String,
    pub toolchain: Option<String>,
    pub msrv: Option<String>,
    pub channel: Option<String>,
}

pub struct ToolchainInfoModel {
    pub project_path: Seq<char>,
    pub project_name: Seq<char>,
    pub toolchain: Option<Seq<char>>,
    pub msrv: Option<Seq<char>>,
    pub channel: Option<Seq<char>>,
}

impl DeepView for ToolchainInfo {
    type V = ToolchainInfoModel;

    open spec fn deep_view(&self) -> ToolchainInfoModel {
        ToolchainInfoModel {
            project_path: self.project_path@,
            project_name: self.project_name@,
            toolchain: self.toolchain.deep_view(),
            msrv: self.msrv.deep_view(),
            channel: self.channel.deep_view(),
        }
    }
}

/// A toolchain or a minimum version with the projects that have it.
#[derive(Debug, Clone)]
pub struct ToolchainGroup {
    pub version: String,
    pub projects: Vec<String>,
}

impl DeepView for ToolchainGroup {
    type V = GroupModel;

    open spec fn deep_view(&self) -> GroupModel {
        GroupModel { key: self.version@, members: self.projects.deep_view() }
    }
}

impl Ranked for ToolchainGroup {
    open spec fn ranks_before(&self, other: &Self) -> bool {
        self.projects.len() > other.projects.len()
    }

    fn goes_before(&self, other: &Self) -> (r: bool) {
        self.projects.len() > other.projects.len()
    }
}

/// The comparison of what a set of projects pins.
#[derive(Debug, Clone)]
pub struct ToolchainAnalysis {
    pub projects: Vec<ToolchainInfo>,
    pub toolchain_groups: Vec<ToolchainGroup>,
    pub msrv_groups: Vec<ToolchainGroup>,
    pub has_mismatches: bool,
}

pub struct ToolchainAnalysisModel {
    pub projects: Seq<ToolchainInfoModel>,
    pub toolchain_groups: Seq<GroupModel>,
    pub msrv_groups: Seq<GroupModel>,
    pub has_mismatches: bool,
}

impl DeepView for ToolchainAnalysis {
    type V = ToolchainAnalysisModel;

    open spec fn deep_view(&self) -> ToolchainAnalysisModel {
        ToolchainAnalysisModel {
            projects: self.projects.deep_view(),
            toolchain_groups: self.toolchain_groups.deep_view(),
            msrv_groups: self.msrv_groups.deep_view(),
            has_mismatches: self.has_mismatches,
        }
    }
}

impl Default for ToolchainAnalysis {
    fn default() -> (r: Self)
        ensures
            r.projects@.len() == 0,
            r.toolchain_groups@.len() == 0,
            r.msrv_groups@.len() == 0,
            !r.has_mismatches,
    {
        ToolchainAnalysis {
            projects: Vec::new(),
            toolchain_groups: Vec::new(),
            msrv_groups: Vec::new(),
            has_mismatches: false,
        }
    }
}

/// The text of a file as a toolchain name: the text without the white space
/// around it, unless nothing is left.
pub open spec fn plain_toolchain(content: Option<Seq<char>>) -> Option<Seq<char>> {
    match content {
        Some(t) => if trimmed(t).len() > 0 {
            Some(trimmed(t))
        } else {
            None
        },
        None => None,
    }
}

/// The text under `key` of the table `table` of a document, where there is a
/// document.
pub open spec fn text_of(doc: Option<Seq<TomlEntry>>, table: Seq<char>, key: Seq<char>) -> Option<
    Seq<char>,
> {
    match doc {
        Some(d) => text_in(d, table, key),
        None => None,
    }
}

/// What a project pins: the channel of its toolchain file, or else the text of
/// its plain toolchain file, and the `rust-version` of its manifest.
pub open spec fn pinned_by(
    project_path: Seq<char>,
    toolchain_doc: Option<Seq<TomlEntry>>,
    toolchain_plain: Option<Seq<char>>,
    manifest_doc: Option<Seq<TomlEntry>>,
) -> ToolchainInfoModel {
    let pinned = match text_of(toolchain_doc, "toolchain"@, "channel"@) {
        Some(c) => Some(c),
        None => plain_toolchain(toolchain_plain),
    };
    ToolchainInfoModel {
        project_path: project_path,
        project_name: display_name(project_path),
        toolchain: pinned,
        msrv: text_of(manifest_doc, "package"@, "rust-version"@),
        channel: pinned,
    }
}

/// The text under a key of a table of a document, where there is a document.
pub fn get_text_of(doc: Option<&Vec<TomlEntry>>, table: &str, key: &str) -> (r: Option<String>)
    ensures
        r.deep_view() == text_of(
            match doc {
                Some(d) => Some(d@),
                None => None,
            },
            table@,
            key@,
        ),
{
    match doc {
        Some(d) => get_text_in(d, table, key),
        None => None,
    }
}

/// The text of a file as a toolchain name.
pub fn plain_toolchain_of(content: Option<&str>) -> (r: Option<String>)
    ensures
        r.deep_view() == plain_toolchain(content.deep_view()),
{
    match content {
        Some(t) => {
            let name = trim(&chars_of(t));
            if name.len() > 0 {
                Some(string_of(&name))
            } else {
                None
            }
        },
        None => None,
    }
}

/// What a project pins, from its files as documents.
pub fn toolchain_info(
    project_path: &str,
    toolchain_doc: Option<&Vec<TomlEntry>>,
    toolchain_plain: Option<&str>,
    manifest_doc: Option<&Vec<TomlEntry>>,
) -> (r: ToolchainInfo)
    ensures
        r.deep_view() == pinned_by(
            project_path@,
            match toolchain_doc {
                Some(d) => Some(d@),
                None => None,
            },
            toolchain_plain.deep_view(),
            match manifest_doc {
                Some(d) => Some(d@),
                None => None,
            },
        ),
{
    let pinned = match get_text_of(toolchain_doc, "toolchain", "channel") {
        Some(c) => Some(c),
        None => plain_toolchain_of(toolchain_plain),
    };
    let channel = match &pinned {
        Some(c) => Some(c.clone()),
        None => None,
    };
    ToolchainInfo {
        project_path: project_path.to_owned(),
        project_name: project_display_name(project_path),
        toolchain: pinned,
        msrv: get_text_of(manifest_doc, "package", "rust-version"),
        channel,
    }
}

/// The files of a project that say what it pins; each is `None` where the file
/// is missing or cannot be read.
#[derive(Debug, Clone)]
pub struct ToolchainSource {
    pub project_path: String,
    /// The text of `rust-toolchain.toml`.
    pub toolchain_toml: Option<String>,
    /// The text of `rust-toolchain`.
    pub toolchain_plain: Option<String>,
    /// The text of the manifest.
    pub manifest: Option<String>,
}

pub struct ToolchainSourceModel {
    pub project_path: Seq<char>,
    pub toolchain_toml: Option<Seq<char>>,
    pub toolchain_plain: Option<Seq<char>>,
    pub manifest: Option<Seq<char>>,
}

impl DeepView for ToolchainSource {
    type V = ToolchainSourceModel;

    open spec fn deep_view(&self) -> ToolchainSourceModel {
        ToolchainSourceModel {
            project_path: self.project_path@,
            toolchain_toml: self.toolchain_toml.deep_view(),
            toolchain_plain: self.toolchain_plain.deep_view(),
            manifest: self.manifest.deep_view(),
        }
    }
}

/// The document of a text, where there is a text and it is a document.
pub open spec fn document_of(text: Option<Seq<char>>) -> Option<Seq<TomlEntry>> {
    match text {
        Some(t) => toml_document(t),
        None => None,
    }
}

/// What a project pins, by the texts of its files.
pub open spec fn pinned_by_source(src: ToolchainSourceModel) -> ToolchainInfoModel {
    pinned_by(
        src.project_path,
        document_of(src.toolchain_toml),
        src.toolchain_plain,
        document_of(src.manifest),
    )
}

/// The document of a text, where there is a text and it is a document.
pub fn document_from(text: &Option<String>) -> (r: Option<Vec<TomlEntry>>)
    ensures
        match r {
            Some(d) => document_of(text.deep_view()) == Some(d@),
            None => document_of(text.deep_view()) is None,
        },
{
    match text {
        Some(t) => parse_document(t.as_str()),
        None => None,
    }
}

/// What a project pins, from the texts of its files.
pub fn toolchain_info_of(src: &ToolchainSource) -> (r: ToolchainInfo)
    ensures
        r.deep_view() == pinned_by_source(src.deep_view()),
{
    let toolchain_doc = document_from(&src.toolchain_toml);
    let manifest_doc = document_from(&src.manifest);
    let plain: Option<&str> = match &src.toolchain_plain {
        Some(t) => Some(t.as_str()),
        None => None,
    };
    toolchain_info(src.project_path.as_str(), toolchain_doc.as_ref(), plain, manifest_doc.as_ref())
}

/// The pinned toolchain of a project with the project's name.
pub open spec fn toolchain_pair() -> spec_fn(ToolchainInfoModel) -> Option<
    (Seq<char>, Seq<char>),
> {
    |i: ToolchainInfoModel|
        match i.toolchain {
            Some(t) => Some((t, i.project_name)),
            None => None,
        }
}

/// The minimum version of a project with the project's name.
pub open spec fn msrv_pair() -> spec_fn(ToolchainInfoModel) -> Option<(Seq<char>, Seq<char>)> {
    |i: ToolchainInfoModel|
        match i.msrv {
            Some(t) => Some((t, i.project_name)),
            None => None,
        }
}

/// The larger group comes first.
pub open spec fn by_group_size() -> spec_fn(GroupModel, GroupModel) -> bool {
    |a: GroupModel, b: GroupModel| a.members.len() > b.members.len()
}

/// The groups of a list of pairs, the largest first; groups of one size in the
/// order in which their keys first occur.
pub open spec fn groups_by_size(pairs: Seq<(Seq<char>, Seq<char>)>) -> Seq<GroupModel> {
    stable_sort(grouped(pairs), by_group_size())
}

/// The comparison of a set of projects: the projects as given, the groups of
/// projects by pinned toolchain and by minimum version, and whether either
/// holds more than one group.
pub open spec fn toolchain_analysis(infos: Seq<ToolchainInfoModel>) -> ToolchainAnalysisModel {
    let toolchain_groups = groups_by_size(collect(infos, toolchain_pair()));
    let msrv_groups = groups_by_size(collect(infos, msrv_pair()));
    ToolchainAnalysisModel {
        projects: infos,
        toolchain_groups: toolchain_groups,
        msrv_groups: msrv_groups,
        has_mismatches: toolchain_groups.len() > 1 || msrv_groups.len() > 1,
    }
}

/// The groups of a list of pairs, the largest first.
pub fn sorted_groups(pairs: &Vec<(String, String)>) -> (r: Vec<ToolchainGroup>)
    ensures
        r.deep_view() == groups_by_size(pairs.deep_view()),
{
    let groups = group_pairs(pairs);
    let mut out: Vec<ToolchainGroup> = Vec::new();
    let mut i: usize = 0;
    while i < groups.len()
        invariant
            i <= groups.len(),
            out.len() == i,
            forall|k: int| 0 <= k < i ==> (#[trigger] out@[k]).deep_view() == groups@[k].deep_view(),
        decreases groups.len() - i,
    {
        out.push(
            ToolchainGroup {
                version: groups[i].key.clone(),
                projects: copy_texts(&groups[i].members),
            },
        );
        i += 1;
    }
    assert(deep(out@) =~= deep(groups@));
    let ghost unsorted = out@;
    sort_stable(&mut out);
    proof {
        lemma_sorted_deep(unsorted, out@, by_group_size());
    }
    out
}

/// The pinned toolchains of a list of projects, each with the project's name.
pub fn toolchain_pairs(infos: &Vec<ToolchainInfo>) -> (r: Vec<(String, String)>)
    ensures
        r.deep_view() == collect(infos.deep_view(), toolchain_pair()),
{
    let mut out: Vec<(String, String)> = Vec::new();
    let mut i: usize = 0;
    assert(infos.deep_view().take(0) =~= Seq::<ToolchainInfoModel>::empty());
    assert(out.deep_view() =~= Seq::<(Seq<char>, Seq<char>)>::empty());
    while i < infos.len()
        invariant
            i <= infos.len(),
            out.deep_view() == collect(infos.deep_view().take(i as int), toolchain_pair()),
        decreases infos.len() - i,
    {
        proof {
            lemma_collect_step(infos.deep_view(), toolchain_pair(), i as int);
            assert(infos.deep_view()[i as int] == infos@[i as int].deep_view());
        }
        match &infos[i].toolchain {
            Some(t) => {
                let ghost before = out.deep_view();
                let pair = (t.clone(), infos[i].project_name.clone());
                out.push(pair);
                assert(out.deep_view() =~= before.push((t@, infos@[i as int].project_name@)));
            },
            None => {},
        }
        i += 1;
    }
    assert(infos.deep_view().take(infos.len() as int) == infos.deep_view());
    out
}

/// The minimum versions of a list of projects, each with the project's name.
pub fn msrv_pairs(infos: &Vec<ToolchainInfo>) -> (r: Vec<(String, String)>)
    ensures
        r.deep_view() == collect(infos.deep_view(), msrv_pair()),
{
    let mut out: Vec<(String, String)> = Vec::new();
    let mut i: usize = 0;
    assert(infos.deep_view().take(0) =~= Seq::<ToolchainInfoModel>::empty());
    assert(out.deep_view() =~= Seq::<(Seq<char>, Seq<char>)>::empty());
    while i < infos.len()
        invariant
            i <= infos.len(),
            out.deep_view() == collect(infos.deep_view().take(i as int), msrv_pair()),
        decreases infos.len() - i,
    {
        proof {
            lemma_collect_step(infos.deep_view(), msrv_pair(), i as int);
            assert(infos.deep_view()[i as int] == infos@[i as int].deep_view());
        }
        match &infos[i].msrv {
            Some(t) => {
                let ghost before = out.deep_view();
                let pair = (t.clone(), infos[i].project_name.clone());
                out.push(pair);
                assert(out.deep_view() =~= before.push((t@, infos@[i as int].project_name@)));
            },
            None => {},
        }
        i += 1;
    }
    assert(infos.deep_view().take(infos.len() as int) == infos.deep_view());
    out
}

/// Compares what a set of projects pins.
pub fn summarize_toolchains(infos: Vec<ToolchainInfo>) -> (r: ToolchainAnalysis)
    ensures
        r.deep_view() == toolchain_analysis(infos.deep_view()),
{
    let toolchain_groups = sorted_groups(&toolchain_pairs(&infos));
    let msrv_groups = sorted_groups(&msrv_pairs(&infos));
    let has_mismatches = toolchain_groups.len() > 1 || msrv_groups.len() > 1;
    ToolchainAnalysis { projects: infos, toolchain_groups, msrv_groups, has_mismatches }
}

/// What each project of a list pins, and the comparison.
pub fn analyze_toolchains_sync(sources: &Vec<ToolchainSource>) -> (r: ToolchainAnalysis)
    ensures
        r.deep_view() == toolchain_analysis(
            sources.deep_view().map_values(|s: ToolchainSourceModel| pinned_by_source(s)),
        ),
{
    let mut infos: Vec<ToolchainInfo> = Vec::new();
    let mut i: usize = 0;
    while i < sources.len()
        invariant
            i <= sources.len(),
            infos.len() == i,
            forall|k: int|
                0 <= k < i ==> (#[trigger] infos@[k]).deep_view() == pinned_by_source(
                    sources@[k].deep_view(),
                ),
        decreases sources.len() - i,
    {
        infos.push(toolchain_info_of(&sources[i]));
        i += 1;
    }
    assert(infos.deep_view() =~= sources.deep_view().map_values(
        |s: ToolchainSourceModel| pinned_by_source(s),
    ));
    summarize_toolchains(infos)
}

/// There are as many groups as distinct keys.
pub proof fn lemma_group_count(pairs: Seq<(Seq<char>, Seq<char>)>)
    ensures
        groups_by_size(pairs).len() == distinct(keys_of(pairs)).len(),
{
    lemma_sort_len(grouped(pairs), by_group_size());
}

/// Where all the values that `pick` finds are the same, they fall in one group
/// at most.
pub proof fn lemma_one_group(
    infos: Seq<ToolchainInfoModel>,
    pick: spec_fn(ToolchainInfoModel) -> Option<(Seq<char>, Seq<char>)>,
)
    requires
        forall|i: int, j: int|
            0 <= i < infos.len() && 0 <= j < infos.len() && pick(infos[i]) is Some && pick(
                infos[j],
            ) is Some ==> pick(infos[i]).unwrap().0 == pick(infos[j]).unwrap().0,
    ensures
        groups_by_size(collect(infos, pick)).len() <= 1,
{
    let pairs = collect(infos, pick);
    let keys = keys_of(pairs);
    assert forall|a: int, b: int| 0 <= a < keys.len() && 0 <= b < keys.len() implies keys[a]
        == keys[b] by {
        lemma_collect_origin(infos, pick, a);
        lemma_collect_origin(infos, pick, b);
        let i = choose|i: int| 0 <= i < infos.len() && pick(#[trigger] infos[i]) == Some(pairs[a]);
        let j = choose|j: int| 0 <= j < infos.len() && pick(#[trigger] infos[j]) == Some(pairs[b]);
        assert(pick(infos[i]).unwrap().0 == pick(infos[j]).unwrap().0);
    }
    lemma_distinct_of_equal(keys);
    lemma_group_count(pairs);
}

/// Where `pick` finds two different values, they fall in two groups at least.
pub proof fn lemma_two_groups(
    infos: Seq<ToolchainInfoModel>,
    pick: spec_fn(ToolchainInfoModel) -> Option<(Seq<char>, Seq<char>)>,
    i: int,
    j: int,
)
    requires
        0 <= i < infos.len(),
        0 <= j < infos.len(),
        pick(infos[i]) is Some,
        pick(infos[j]) is Some,
        pick(infos[i]).unwrap().0 != pick(infos[j]).unwrap().0,
    ensures
        groups_by_size(collect(infos, pick)).len() >= 2,
{
    let pairs = collect(infos, pick);
    let keys = keys_of(pairs);
    lemma_collect_holds(infos, pick, i);
    lemma_collect_holds(infos, pick, j);
    let a = choose|a: int| 0 <= a < pairs.len() && pairs[a] == pick(infos[i]).unwrap();
    let b = choose|b: int| 0 <= b < pairs.len() && pairs[b] == pick(infos[j]).unwrap();
    assert(keys[a] == pairs[a].0);
    assert(keys[b] == pairs[b].0);
    lemma_distinct_of_different(keys, a, b);
    lemma_group_count(pairs);
}

/// Projects that all pin the same toolchain, as far as they pin one, and all
/// declare the same minimum version, as far as they declare one, show no
/// mismatch.
pub proof fn lemma_shared_values_agree(infos: Seq<ToolchainInfoModel>)
    requires
        forall|i: int, j: int|
            0 <= i < infos.len() && 0 <= j < infos.len() && infos[i].toolchain is Some
                && infos[j].toolchain is Some ==> infos[i].toolchain == infos[j].toolchain,
        forall|i: int, j: int|
            0 <= i < infos.len() && 0 <= j < infos.len() && infos[i].msrv is Some
                && infos[j].msrv is Some ==> infos[i].msrv == infos[j].msrv,
    ensures
        !toolchain_analysis(infos).has_mismatches,
{
    lemma_one_group(infos, toolchain_pair());
    lemma_one_group(infos, msrv_pair());
}

/// Two projects that declare different minimum versions make a mismatch.
pub proof fn lemma_second_msrv_is_mismatch(infos: Seq<ToolchainInfoModel>, i: int, j: int)
    requires
        0 <= i < infos.len(),
        0 <= j < infos.len(),
        infos[i].msrv is Some,
        infos[j].msrv is Some,
        infos[i].msrv != infos[j].msrv,
    ensures
        toolchain_analysis(infos).has_mismatches,
{
    lemma_two_groups(infos, msrv_pair(), i, j);
}

/// Two projects that pin different toolchains make a mismatch.
pub proof fn lemma_second_toolchain_is_mismatch(infos: Seq<ToolchainInfoModel>, i: int, j: int)
    requires
        0 <= i < infos.len(),
        0 <= j < infos.len(),
        infos[i].toolchain is Some,
        infos[j].toolchain is Some,
        infos[i].toolchain != infos[j].toolchain,
    ensures
        toolchain_analysis(infos).has_mismatches,
{
    lemma_two_groups(infos, toolchain_pair(), i, j);
}

} // verus!
