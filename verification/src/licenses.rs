//! Licenses across projects: which packages come under which license, and
//! which licenses restrict commercial use.

use vstd::prelude::*;
use crate::casing::{chars_less, text_less, to_uppercase, uppercase};
use crate::groups::{
    copy_text,
    distinct,
    distinct_texts,
    group_pairs,
    grouped,
    lemma_groups_hold_all,
    total_members,
    GroupModel,
};
use crate::seqs::{deep, lemma_deep_vec, lemma_sorted_deep};
use crate::sorting::{insert_stable, lemma_sort_len, sort_stable, stable_sort, Ranked};
use crate::text::{chars_of, contains, has_within, joined, lemma_chars_deep_view, string_of};

verus! {

broadcast use {lemma_deep_vec, lemma_chars_deep_view};

/// The words that mark a license as restrictive.
pub open spec fn restrictive_words() -> Seq<Seq<char>> {
    seq![
        "GPL"@,
        "AGPL"@,
        "LGPL"@,
        "CC-BY-SA"@,
        "CC-BY-NC"@,
        "SSPL"@,
        "BSL"@,
        "BUSL"@,
        "Elastic"@,
        "Commons Clause"@,
    ]
}

/// Whether `text` holds one of `words`.
pub open spec fn holds_any(text: Seq<char>, words: Seq<Seq<char>>) -> bool {
    exists|i: int| 0 <= i < words.len() && contains(text, #[trigger] words[i])
}

/// A license is problematic where its upper-case form holds the upper-case
/// form of a restrictive word.
pub open spec fn is_problematic(license: Seq<char>) -> bool {
    holds_any(uppercase(license), restrictive_words().map_values(|w: Seq<char>| uppercase(w)))
}

/// Whether a text holds one of a list of words.
pub fn holds_any_of(text: &Vec<char>, words: &Vec<Vec<char>>) -> (r: bool)
    ensures
        r == holds_any(text@, words.deep_view()),
{
    let mut i: usize = 0;
    while i < words.len()
        invariant
            i <= words.len(),
            forall|k: int| 0 <= k < i ==> !contains(text@, #[trigger] words.deep_view()[k]),
        decreases words.len() - i,
    {
        assert(words.deep_view()[i as int] == words@[i as int]@);
        if has_within(text, &words[i]) {
            return true;
        }
        i += 1;
    }
    false
}

/// The restrictive words in upper case.
pub fn restrictive_words_upper() -> (r: Vec<Vec<char>>)
    ensures
        r.deep_view() == restrictive_words().map_values(|w: Seq<char>| uppercase(w)),
{
    let mut out: Vec<Vec<char>> = Vec::new();
    out.push(chars_of(to_uppercase("GPL").as_str()));
    out.push(chars_of(to_uppercase("AGPL").as_str()));
    out.push(chars_of(to_uppercase("LGPL").as_str()));
    out.push(chars_of(to_uppercase("CC-BY-SA").as_str()));
    out.push(chars_of(to_uppercase("CC-BY-NC").as_str()));
    out.push(chars_of(to_uppercase("SSPL").as_str()));
    out.push(chars_of(to_uppercase("BSL").as_str()));
    out.push(chars_of(to_uppercase("BUSL").as_str()));
    out.push(chars_of(to_uppercase("Elastic").as_str()));
    out.push(chars_of(to_uppercase("Commons Clause").as_str()));
    assert(out.deep_view() =~= restrictive_words().map_values(|w: Seq<char>| uppercase(w)));
    out
}

/// Whether a license may restrict commercial use.
pub fn is_problematic_license(license: &str) -> (r: bool)
    ensures
        r == is_problematic(license@),
{
    let upper = chars_of(to_uppercase(license).as_str());
    holds_any_of(&upper, &restrictive_words_upper())
}

/// A package with its license.
#[derive(Debug, Clone)]
pub struct LicenseInfo {
    pub name: String,
    pub version: String,
    pub license: String,
    pub authors: Option<String>,
    pub repository: Option<String>,
}

pub struct LicenseInfoModel {
    pub name: Seq<char>,
    pub version: Seq<char>,
    pub license: Seq<char>,
    pub authors: Option<Seq<char>>,
    pub repository: Option<Seq<char>>,
}

impl DeepView for LicenseInfo {
    type V = LicenseInfoModel;

    open spec fn deep_view(&self) -> LicenseInfoModel {
        LicenseInfoModel {
            name: self.name@,
            version: self.version@,
            license: self.license@,
            authors: self.authors.deep_view(),
            repository: self.repository.deep_view(),
        }
    }
}

/// A license with the packages that come under it.
#[derive(Debug, Clone)]
pub struct LicenseGroup {
    pub license: String,
    pub packages: Vec<String>,
    pub is_problematic: bool,
}

pub struct LicenseGroupModel {
    pub license: Seq<char>,
    pub packages: Seq<Seq<char>>,
    pub is_problematic: bool,
}

impl DeepView for LicenseGroup {
    type V = LicenseGroupModel;

    open spec fn deep_view(&self) -> LicenseGroupModel {
        LicenseGroupModel {
            license: self.license@,
            packages: self.packages.deep_view(),
            is_problematic: self.is_problematic,
        }
    }
}

/// Problematic licenses come first; among licenses of one kind, the one with
/// more packages.
pub open spec fn problematic_first() -> spec_fn(LicenseGroupModel, LicenseGroupModel) -> bool {
    |a: LicenseGroupModel, b: LicenseGroupModel|
        if a.is_problematic != b.is_problematic {
            a.is_problematic
        } else {
            a.packages.len() > b.packages.len()
        }
}

impl Ranked for LicenseGroup {
    open spec fn ranks_before(&self, other: &Self) -> bool {
        if self.is_problematic != other.is_problematic {
            self.is_problematic
        } else {
            self.packages.len() > other.packages.len()
        }
    }

    fn goes_before(&self, other: &Self) -> (r: bool) {
        if self.is_problematic != other.is_problematic {
            self.is_problematic
        } else {
            self.packages.len() > other.packages.len()
        }
    }
}

/// The licenses of the packages of one project, or why they are not known.
#[derive(Debug, Clone)]
pub struct LicenseResult {
    pub project_path: String,
    pub project_name: String,
    pub licenses: Vec<LicenseInfo>,
    pub success: bool,
    pub error: Option<String>,
}

pub struct LicenseResultModel {
    pub project_path: Seq<char>,
    pub project_name: Seq<char>,
    pub licenses: Seq<LicenseInfoModel>,
    pub success: bool,
    pub error: Option<Seq<char>>,
}

impl DeepView for LicenseResult {
    type V = LicenseResultModel;

    open spec fn deep_view(&self) -> LicenseResultModel {
        LicenseResultModel {
            project_path: self.project_path@,
            project_name: self.project_name@,
            licenses: self.licenses.deep_view(),
            success: self.success,
            error: self.error.deep_view(),
        }
    }
}

/// The licenses of a set of projects.
#[derive(Debug, Clone)]
pub struct LicenseAnalysis {
    pub projects: Vec<LicenseResult>,
    pub license_groups: Vec<LicenseGroup>,
    pub total_packages: usize,
    pub problematic_count: usize,
}

pub struct LicenseAnalysisModel {
    pub projects: Seq<LicenseResultModel>,
    pub license_groups: Seq<LicenseGroupModel>,
    pub total_packages: nat,
    pub problematic_count: nat,
}

impl DeepView for LicenseAnalysis {
    type V = LicenseAnalysisModel;

    open spec fn deep_view(&self) -> LicenseAnalysisModel {
        LicenseAnalysisModel {
            projects: self.projects.deep_view(),
            license_groups: self.license_groups.deep_view(),
            total_packages: self.total_packages as nat,
            problematic_count: self.problematic_count as nat,
        }
    }
}

impl Default for LicenseAnalysis {
    fn default() -> (r: Self)
        ensures
            r.projects@.len() == 0,
            r.license_groups@.len() == 0,
            r.total_packages == 0,
            r.problematic_count == 0,
    {
        LicenseAnalysis {
            projects: Vec::new(),
            license_groups: Vec::new(),
            total_packages: 0,
            problematic_count: 0,
        }
    }
}

/// How a package is named in a group: its name, `@`, and its version.
pub open spec fn package_id(name: Seq<char>, version: Seq<char>) -> Seq<char> {
    name + "@"@ + version
}

/// How a package is named in a group.
pub fn package_id_of(name: &str, version: &str) -> (r: String)
    ensures
        r@ == package_id(name@, version@),
{
    let head = joined(&chars_of(name), &chars_of("@"));
    string_of(&joined(&head, &chars_of(version)))
}

/// The license of each package of a project with the package's name; none for
/// a project whose licenses are not known.
pub open spec fn pairs_of_project(p: LicenseResultModel) -> Seq<(Seq<char>, Seq<char>)> {
    if p.success {
        p.licenses.map_values(|l: LicenseInfoModel| (l.license, package_id(l.name, l.version)))
    } else {
        Seq::empty()
    }
}

/// The same for a list of projects, project after project.
pub open spec fn pairs_of_projects(ps: Seq<LicenseResultModel>) -> Seq<(Seq<char>, Seq<char>)>
    decreases ps.len(),
{
    if ps.len() == 0 {
        Seq::empty()
    } else {
        pairs_of_projects(ps.drop_last()) + pairs_of_project(ps.last())
    }
}

/// Texts in the order of strings.
pub open spec fn text_order() -> spec_fn(Seq<char>, Seq<char>) -> bool {
    |a: Seq<char>, b: Seq<char>| text_less(a, b)
}

/// A list of texts without repetitions and in order.
pub open spec fn sorted_unique(list: Seq<Seq<char>>) -> Seq<Seq<char>> {
    stable_sort(distinct(list), text_order())
}

/// The group of a license: its packages, each once and in order, and whether
/// the license is problematic.
pub open spec fn license_group() -> spec_fn(GroupModel) -> LicenseGroupModel {
    |g: GroupModel|
        LicenseGroupModel {
            license: g.key,
            packages: sorted_unique(g.members),
            is_problematic: is_problematic(g.key),
        }
}

/// The groups of a list of pairs of license and package: problematic licenses
/// first, then by the number of packages, and groups that are equal in both in
/// the order in which the licenses first occur.
pub open spec fn license_groups(pairs: Seq<(Seq<char>, Seq<char>)>) -> Seq<LicenseGroupModel> {
    stable_sort(grouped(pairs).map_values(license_group()), problematic_first())
}

/// The packages that a group adds to a total: all of its packages, or none
/// where only problematic licenses count and this one is not.
pub open spec fn counted(group: LicenseGroupModel, only_problematic: bool) -> nat {
    if only_problematic && !group.is_problematic {
        0
    } else {
        group.packages.len()
    }
}

/// The number of packages in all groups together, or in the problematic ones.
pub open spec fn package_total(groups: Seq<LicenseGroupModel>, only_problematic: bool) -> nat
    decreases groups.len(),
{
    if groups.len() == 0 {
        0
    } else {
        package_total(groups.drop_last(), only_problematic) + counted(
            groups.last(),
            only_problematic,
        )
    }
}

/// The analysis of the licenses of a list of projects.
pub open spec fn license_analysis(ps: Seq<LicenseResultModel>) -> LicenseAnalysisModel {
    let groups = license_groups(pairs_of_projects(ps));
    LicenseAnalysisModel {
        projects: ps,
        license_groups: groups,
        total_packages: package_total(groups, false),
        problematic_count: package_total(groups, true),
    }
}

impl Ranked for String {
    open spec fn ranks_before(&self, other: &Self) -> bool {
        text_less(self@, other@)
    }

    fn goes_before(&self, other: &Self) -> (r: bool) {
        let a = chars_of(self.as_str());
        let b = chars_of(other.as_str());
        chars_less(&a, &b)
    }
}

/// The texts of a list, each once and in order.
pub fn sort_unique(list: &Vec<String>) -> (r: Vec<String>)
    ensures
        r.deep_view() == sorted_unique(list.deep_view()),
{
    let mut out = distinct_texts(list);
    let ghost unsorted = out@;
    sort_stable(&mut out);
    proof {
        lemma_sorted_deep(unsorted, out@, text_order());
    }
    out
}

/// A group put into a sorted list adds what it counts for.
pub proof fn lemma_insert_total(
    s: Seq<LicenseGroupModel>,
    x: LicenseGroupModel,
    before: spec_fn(LicenseGroupModel, LicenseGroupModel) -> bool,
    only: bool,
)
    ensures
        package_total(insert_stable(s, x, before), only) == package_total(s, only) + counted(
            x,
            only,
        ),
    decreases s.len(),
{
    if s.len() > 0 && before(x, s.last()) {
        lemma_insert_total(s.drop_last(), x, before, only);
        let u = insert_stable(s.drop_last(), x, before);
        assert(u.push(s.last()).drop_last() =~= u);
        assert(u.push(s.last()).last() == s.last());
    } else {
        assert(s.push(x).drop_last() =~= s);
        assert(s.push(x).last() == x);
    }
}

/// Sorting the groups changes no total.
pub proof fn lemma_sort_total(
    s: Seq<LicenseGroupModel>,
    before: spec_fn(LicenseGroupModel, LicenseGroupModel) -> bool,
    only: bool,
)
    ensures
        package_total(stable_sort(s, before), only) == package_total(s, only),
    decreases s.len(),
{
    if s.len() > 0 {
        let t = stable_sort(s.drop_last(), before);
        lemma_sort_total(s.drop_last(), before, only);
        lemma_insert_total(t, s.last(), before, only);
    }
}

/// A list has no more distinct texts than texts.
pub proof fn lemma_distinct_len(s: Seq<Seq<char>>)
    ensures
        distinct(s).len() <= s.len(),
    decreases s.len(),
{
    if s.len() > 0 {
        lemma_distinct_len(s.drop_last());
    }
}

/// The groups of licenses hold no more packages than the groups they are made
/// from hold values.
pub proof fn lemma_total_bounded(groups: Seq<GroupModel>, only: bool)
    ensures
        package_total(groups.map_values(license_group()), only) <= total_members(groups),
    decreases groups.len(),
{
    if groups.len() > 0 {
        lemma_total_bounded(groups.drop_last(), only);
        assert(groups.map_values(license_group()).drop_last() =~= groups.drop_last().map_values(
            license_group(),
        ));
        lemma_distinct_len(groups.last().members);
        lemma_sort_len(distinct(groups.last().members), text_order());
    }
}

/// A front part of the groups holds no more packages than all of them.
pub proof fn lemma_total_prefix(groups: Seq<LicenseGroupModel>, n: int, only: bool)
    requires
        0 <= n <= groups.len(),
    ensures
        package_total(groups.take(n), only) <= package_total(groups, only),
        package_total(groups.take(n), true) <= package_total(groups.take(n), false),
    decreases groups.len() - n,
{
    if n < groups.len() {
        lemma_total_prefix(groups, n + 1, only);
        assert(groups.take(n + 1).drop_last() =~= groups.take(n));
    } else {
        assert(groups.take(n) =~= groups);
    }
    lemma_problematic_part(groups.take(n));
}

/// The problematic groups hold no more packages than all groups.
pub proof fn lemma_problematic_part(groups: Seq<LicenseGroupModel>)
    ensures
        package_total(groups, true) <= package_total(groups, false),
    decreases groups.len(),
{
    if groups.len() > 0 {
        lemma_problematic_part(groups.drop_last());
    }
}

/// The pairs of license and package of a list of projects.
pub fn license_pairs(projects: &Vec<LicenseResult>) -> (r: Vec<(String, String)>)
    ensures
        r.deep_view() == pairs_of_projects(projects.deep_view()),
{
    let mut out: Vec<(String, String)> = Vec::new();
    let mut i: usize = 0;
    assert(projects.deep_view().take(0) =~= Seq::<LicenseResultModel>::empty());
    assert(out.deep_view() =~= Seq::<(Seq<char>, Seq<char>)>::empty());
    while i < projects.len()
        invariant
            i <= projects.len(),
            out.deep_view() == pairs_of_projects(projects.deep_view().take(i as int)),
        decreases projects.len() - i,
    {
        let ghost start = out.deep_view();
        let p = &projects[i];
        proof {
            assert(projects.deep_view().take(i + 1).drop_last() =~= projects.deep_view().take(
                i as int,
            ));
            assert(projects.deep_view().take(i + 1).last() == p.deep_view());
        }
        if p.success {
            let mut k: usize = 0;
            assert(start + Seq::<(Seq<char>, Seq<char>)>::empty() =~= start);
            while k < p.licenses.len()
                invariant
                    k <= p.licenses.len(),
                    p.success,
                    out.deep_view() == start + pairs_of_project(p.deep_view()).take(k as int),
                decreases p.licenses.len() - k,
            {
                let l = &p.licenses[k];
                let ghost before = out.deep_view();
                let pair = (
                    l.license.clone(),
                    package_id_of(l.name.as_str(), l.version.as_str()),
                );
                out.push(pair);
                proof {
                    assert(p.licenses.deep_view()[k as int] == l.deep_view());
                    assert(out.deep_view() =~= before.push(
                        (l.license@, package_id(l.name@, l.version@)),
                    ));
                    assert(pairs_of_project(p.deep_view()).take(k + 1) =~= pairs_of_project(
                        p.deep_view(),
                    ).take(k as int).push((l.license@, package_id(l.name@, l.version@))));
                }
                k += 1;
            }
            assert(pairs_of_project(p.deep_view()).take(p.licenses.len() as int)
                =~= pairs_of_project(p.deep_view()));
        } else {
            assert(start + Seq::<(Seq<char>, Seq<char>)>::empty() =~= start);
        }
        i += 1;
    }
    assert(projects.deep_view().take(projects.len() as int) == projects.deep_view());
    out
}

/// The groups of a list of pairs of license and package.
pub fn group_licenses(pairs: &Vec<(String, String)>) -> (r: Vec<LicenseGroup>)
    ensures
        r.deep_view() == license_groups(pairs.deep_view()),
{
    let groups = group_pairs(pairs);
    let mut out: Vec<LicenseGroup> = Vec::new();
    let mut i: usize = 0;
    while i < groups.len()
        invariant
            i <= groups.len(),
            out.len() == i,
            forall|k: int|
                0 <= k < i ==> (#[trigger] out@[k]).deep_view() == license_group()(
                    groups@[k].deep_view(),
                ),
        decreases groups.len() - i,
    {
        let g = &groups[i];
        out.push(
            LicenseGroup {
                license: g.key.clone(),
                packages: sort_unique(&g.members),
                is_problematic: is_problematic_license(g.key.as_str()),
            },
        );
        i += 1;
    }
    assert(deep(out@) =~= deep(groups@).map_values(license_group()));
    let ghost unsorted = out@;
    sort_stable(&mut out);
    proof {
        lemma_sorted_deep(unsorted, out@, problematic_first());
    }
    out
}

/// The analysis of the licenses of a list of projects.
pub fn check_all_licenses_sync(projects: Vec<LicenseResult>) -> (r: LicenseAnalysis)
    ensures
        r.deep_view() == license_analysis(projects.deep_view()),
{
    let pairs = license_pairs(&projects);
    let license_groups = group_licenses(&pairs);
    let ghost gs = license_groups.deep_view();
    proof {
        let made = grouped(pairs.deep_view());
        lemma_groups_hold_all(pairs.deep_view());
        lemma_total_bounded(made, false);
        lemma_sort_total(made.map_values(license_group()), problematic_first(), false);
        assert(package_total(gs, false) <= pairs.len());
    }
    let mut total_packages: usize = 0;
    let mut problematic_count: usize = 0;
    let mut i: usize = 0;
    assert(gs.take(0) =~= Seq::<LicenseGroupModel>::empty());
    while i < license_groups.len()
        invariant
            i <= license_groups.len(),
            gs == license_groups.deep_view(),
            package_total(gs, false) <= usize::MAX,
            total_packages == package_total(gs.take(i as int), false),
            problematic_count == package_total(gs.take(i as int), true),
        decreases license_groups.len() - i,
    {
        proof {
            lemma_total_prefix(gs, i + 1, false);
            assert(gs.take(i + 1).drop_last() =~= gs.take(i as int));
            assert(gs[i as int] == license_groups@[i as int].deep_view());
        }
        let n = license_groups[i].packages.len();
        total_packages = total_packages + n;
        if license_groups[i].is_problematic {
            problematic_count = problematic_count + n;
        }
        i += 1;
    }
    assert(gs.take(license_groups.len() as int) =~= gs);
    LicenseAnalysis { projects, license_groups, total_packages, problematic_count }
}

/// A package as the license tool reports it.
#[derive(Debug, Clone)]
pub struct LicenseEntry {
    pub name: String,
    pub version: String,
    pub authors: Option<String>,
    pub repository: Option<String>,
    pub license: Option<String>,
}

/// The package with its license that a reported package is; the license is
/// `Unknown` where none is reported.
pub open spec fn license_info_of(e: LicenseEntry) -> LicenseInfoModel {
    LicenseInfoModel {
        name: e.name@,
        version: e.version@,
        license: match e.license {
            Some(l) => l@,
            None => "Unknown"@,
        },
        authors: e.authors.deep_view(),
        repository: e.repository.deep_view(),
    }
}

/// The packages of a report with their licenses.
pub fn license_infos(entries: &Vec<LicenseEntry>) -> (r: Vec<LicenseInfo>)
    ensures
        r.deep_view() == entries@.map_values(|e: LicenseEntry| license_info_of(e)),
{
    let mut out: Vec<LicenseInfo> = Vec::new();
    let mut i: usize = 0;
    while i < entries.len()
        invariant
            i <= entries.len(),
            out.len() == i,
            forall|k: int|
                0 <= k < i ==> (#[trigger] out@[k]).deep_view() == license_info_of(entries@[k]),
        decreases entries.len() - i,
    {
        let e = &entries[i];
        out.push(
            LicenseInfo {
                name: e.name.clone(),
                version: e.version.clone(),
                license: match &e.license {
                    Some(l) => l.clone(),
                    None => "Unknown".to_owned(),
                },
                authors: copy_text(&e.authors),
                repository: copy_text(&e.repository),
            },
        );
        i += 1;
    }
    assert(out.deep_view() =~= entries@.map_values(|e: LicenseEntry| license_info_of(e)));
    out
}

/// How the look for licenses went.
#[derive(Debug, Clone)]
pub enum LicenseOutcome {
    /// The tool could not be started.
    NotStarted(String),
    /// The tool's report could not be read; what the reader said, and what
    /// the tool left on its error stream.
    Unreadable { error: String, stderr: String },
    /// The tool reported these packages.
    Reported(Vec<LicenseEntry>),
}

/// The report on a look for licenses that failed.
pub open spec fn failed_licenses(project_path: Seq<char>, message: Seq<char>) -> LicenseResultModel {
    LicenseResultModel {
        project_path: project_path,
        project_name: crate::paths::display_name(project_path),
        licenses: Seq::empty(),
        success: false,
        error: Some(message),
    }
}

/// The report on the licenses of a project.
pub open spec fn license_report(
    project_path: Seq<char>,
    outcome: LicenseOutcome,
) -> LicenseResultModel {
    match outcome {
        LicenseOutcome::NotStarted(e) => failed_licenses(
            project_path,
            "Failed to run cargo-license: "@ + e@,
        ),
        LicenseOutcome::Unreadable { error, stderr } => failed_licenses(
            project_path,
            error@ + ". Stderr: "@ + stderr@,
        ),
        LicenseOutcome::Reported(entries) => LicenseResultModel {
            project_path: project_path,
            project_name: crate::paths::display_name(project_path),
            licenses: entries@.map_values(|e: LicenseEntry| license_info_of(e)),
            success: true,
            error: None,
        },
    }
}

/// The report on the licenses of a project.
pub fn license_result(project_path: String, outcome: LicenseOutcome) -> (r: LicenseResult)
    ensures
        r.deep_view() == license_report(project_path@, outcome),
{
    let project_name = crate::paths::project_display_name(project_path.as_str());
    match outcome {
        LicenseOutcome::NotStarted(e) => {
            let r = LicenseResult {
                project_path,
                project_name,
                licenses: Vec::new(),
                success: false,
                error: Some(
                    crate::execution::concat_text("Failed to run cargo-license: ", e.as_str()),
                ),
            };
            assert(r.licenses.deep_view() =~= Seq::<LicenseInfoModel>::empty());
            r
        },
        LicenseOutcome::Unreadable { error, stderr } => {
            let head = crate::execution::concat_text(error.as_str(), ". Stderr: ");
            let r = LicenseResult {
                project_path,
                project_name,
                licenses: Vec::new(),
                success: false,
                error: Some(crate::execution::concat_text(head.as_str(), stderr.as_str())),
            };
            assert(r.licenses.deep_view() =~= Seq::<LicenseInfoModel>::empty());
            r
        },
        LicenseOutcome::Reported(entries) => LicenseResult {
            project_path,
            project_name,
            licenses: license_infos(&entries),
            success: true,
            error: None,
        },
    }
}

} // verus!
