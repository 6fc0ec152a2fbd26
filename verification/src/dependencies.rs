//! Dependencies across projects: which versions of a dependency are declared,
//! and by which projects.

use vstd::prelude::*;
use crate::document::{
    get_table_field, get_text_field, parse_document, table_field, toml_document, Field, TomlEntry,
    TomlValue,
};
use crate::groups::{
    copy_texts, distinct, distinct_texts, group_pairs, grouped, GroupModel,
};
use crate::manifest::text_at;
use crate::paths::{display_name, project_display_name};
use crate::seqs::{collect, deep, lemma_collect_step, lemma_deep_vec, lemma_sorted_deep};
use crate::sorting::{sort_stable, stable_sort, Ranked};
use crate::text::same_text;

verus! {

broadcast use lemma_deep_vec;

/// The version that a dependency is declared with: the value itself where it
/// is a text, the text under `version` where it is a table, and none for any
/// other value or a table without such a text.
pub open spec fn version_of(value: TomlValue) -> Option<Seq<char>> {
    match value {
        TomlValue::Text(s) => Some(s@),
        TomlValue::Table(t) => text_at(t@, "version"@),
        _ => None,
    }
}

/// The version that a dependency is declared with, if it is declared with one.
pub fn extract_version(value: &TomlValue) -> (r: Option<String>)
    ensures
        r.deep_view() == version_of(*value),
{
    match value {
        TomlValue::Text(s) => Some(s.clone()),
        TomlValue::Table(t) => match get_text_field(t, "version") {
            Field::Present(s) => Some(s),
            _ => None,
        },
        _ => None,
    }
}

/// One declaration of a dependency with a version, by one project.
#[derive(Debug, Clone)]
pub struct DepUse {
    pub name: String,
    pub version: String,
    pub project: String,
}

pub struct DepUseModel {
    pub name: Seq<char>,
    pub version: Seq<char>,
    pub project: Seq<char>,
}

impl DeepView for DepUse {
    type V = DepUseModel;

    open spec fn deep_view(&self) -> DepUseModel {
        DepUseModel { name: self.name@, version: self.version@, project: self.project@ }
    }
}

/// The entries of the table under a key; none where the key is missing, and
/// `None` where it holds no table.
pub open spec fn entries_under(doc: Seq<TomlEntry>, key: Seq<char>) -> Option<Seq<TomlEntry>> {
    match table_field(doc, key) {
        Field::Absent => Some(Seq::empty()),
        Field::Present(t) => Some(t),
        Field::Malformed => None,
    }
}

/// The dependencies that a manifest declares: those of `dependencies`, then
/// those of `dev-dependencies`, then those of `build-dependencies`. `None`
/// where one of the three is no table.
pub open spec fn declared_dependencies(doc: Seq<TomlEntry>) -> Option<Seq<TomlEntry>> {
    match (
        entries_under(doc, "dependencies"@),
        entries_under(doc, "dev-dependencies"@),
        entries_under(doc, "build-dependencies"@),
    ) {
        (Some(a), Some(b), Some(c)) => Some(a + b + c),
        _ => None,
    }
}

/// The declaration that an entry of a dependency table makes for a project;
/// none where it gives no version.
pub open spec fn use_of(project: Seq<char>) -> spec_fn(TomlEntry) -> Option<DepUseModel> {
    |e: TomlEntry|
        match version_of(e.value) {
            Some(v) => Some(DepUseModel { name: e.key@, version: v, project: project }),
            None => None,
        }
}

/// The declarations that a manifest makes for a project.
pub open spec fn uses_in(project: Seq<char>, doc: Seq<TomlEntry>) -> Seq<DepUseModel> {
    match declared_dependencies(doc) {
        Some(entries) => collect(entries, use_of(project)),
        None => Seq::empty(),
    }
}

/// Appends to `out` the declarations of the entries of one table.
pub fn add_uses(out: &mut Vec<DepUse>, project: &str, entries: &Vec<TomlEntry>)
    ensures
        final(out).deep_view() == old(out).deep_view() + collect(entries@, use_of(project@)),
{
    let ghost pick = use_of(project@);
    let ghost start = out.deep_view();
    let mut i: usize = 0;
    proof {
        assert(entries@.take(0) =~= Seq::<TomlEntry>::empty());
        assert(start + Seq::<DepUseModel>::empty() =~= start);
    }
    while i < entries.len()
        invariant
            i <= entries.len(),
            pick == use_of(project@),
            out.deep_view() == start + collect(entries@.take(i as int), pick),
        decreases entries.len() - i,
    {
        proof {
            lemma_collect_step(entries@, pick, i as int);
        }
        match extract_version(&entries[i].value) {
            Some(version) => {
                let ghost before = out.deep_view();
                let item = DepUse {
                    name: entries[i].key.clone(),
                    version,
                    project: project.to_owned(),
                };
                out.push(item);
                assert(out.deep_view() =~= before.push(item.deep_view()));
                assert(start + collect(entries@.take(i as int), pick).push(item.deep_view())
                    =~= before.push(item.deep_view()));
            },
            None => {},
        }
        i += 1;
    }
    assert(entries@.take(entries.len() as int) == entries@);
}

/// The declarations that a manifest, read as a document, makes for a project.
pub fn dependency_uses(project: &str, doc: &Vec<TomlEntry>) -> (r: Vec<DepUse>)
    ensures
        r.deep_view() == uses_in(project@, doc@),
{
    let mut out: Vec<DepUse> = Vec::new();
    let empty: Vec<TomlEntry> = Vec::new();
    let normal: &Vec<TomlEntry> = match get_table_field(doc, "dependencies") {
        Field::Absent => &empty,
        Field::Present(t) => t,
        Field::Malformed => {
            assert(out.deep_view() =~= Seq::<DepUseModel>::empty());
            return out;
        },
    };
    let dev: &Vec<TomlEntry> = match get_table_field(doc, "dev-dependencies") {
        Field::Absent => &empty,
        Field::Present(t) => t,
        Field::Malformed => {
            assert(out.deep_view() =~= Seq::<DepUseModel>::empty());
            return out;
        },
    };
    let build: &Vec<TomlEntry> = match get_table_field(doc, "build-dependencies") {
        Field::Absent => &empty,
        Field::Present(t) => t,
        Field::Malformed => {
            assert(out.deep_view() =~= Seq::<DepUseModel>::empty());
            return out;
        },
    };
    assert(out.deep_view() =~= Seq::<DepUseModel>::empty());
    add_uses(&mut out, project, normal);
    add_uses(&mut out, project, dev);
    add_uses(&mut out, project, build);
    proof {
        let pick = use_of(project@);
        lemma_collect_concat(normal@, dev@, pick);
        lemma_collect_concat(normal@ + dev@, build@, pick);
        assert(Seq::<DepUseModel>::empty() + collect(normal@, pick) =~= collect(normal@, pick));
    }
    out
}

/// The images of two sequences put together are the images of the first and
/// then those of the second.
pub proof fn lemma_collect_concat<A, B>(a: Seq<A>, b: Seq<A>, f: spec_fn(A) -> Option<B>)
    ensures
        collect(a + b, f) == collect(a, f) + collect(b, f),
    decreases b.len(),
{
    if b.len() == 0 {
        assert(a + b =~= a);
        assert(collect(a, f) + collect(b, f) =~= collect(a, f));
    } else {
        lemma_collect_concat(a, b.drop_last(), f);
        assert((a + b).drop_last() =~= a + b.drop_last());
        assert((a + b).last() == b.last());
        match f(b.last()) {
            Some(x) => {
                assert((collect(a, f) + collect(b.drop_last(), f)).push(x) =~= collect(a, f)
                    + collect(b.drop_last(), f).push(x));
            },
            None => {},
        }
    }
}

/// A version of a dependency with the projects that declare it.
#[derive(Debug, Clone)]
pub struct VersionUsage {
    pub version: String,
    pub projects: Vec<String>,
}

impl DeepView for VersionUsage {
    type V = GroupModel;

    open spec fn deep_view(&self) -> GroupModel {
        GroupModel { key: self.version@, members: self.projects.deep_view() }
    }
}

/// A dependency with the versions that are declared of it.
#[derive(Debug, Clone)]
pub struct DepUsage {
    pub name: String,
    pub versions: Vec<VersionUsage>,
    pub project_count: usize,
}

pub struct DepUsageModel {
    pub name: Seq<char>,
    pub versions: Seq<GroupModel>,
    pub project_count: nat,
}

impl DeepView for DepUsage {
    type V = DepUsageModel;

    open spec fn deep_view(&self) -> DepUsageModel {
        DepUsageModel {
            name: self.name@,
            versions: self.versions.deep_view(),
            project_count: self.project_count as nat,
        }
    }
}

impl Ranked for DepUsage {
    open spec fn ranks_before(&self, other: &Self) -> bool {
        self.project_count > other.project_count
    }

    fn goes_before(&self, other: &Self) -> (r: bool) {
        self.project_count > other.project_count
    }
}

/// The dependencies of a set of projects.
#[derive(Debug, Clone)]
pub struct DepAnalysis {
    pub dependencies: Vec<DepUsage>,
    pub total_unique_deps: usize,
    pub deps_with_mismatches: usize,
}

pub struct DepAnalysisModel {
    pub dependencies: Seq<DepUsageModel>,
    pub total_unique_deps: nat,
    pub deps_with_mismatches: nat,
}

impl DeepView for DepAnalysis {
    type V = DepAnalysisModel;

    open spec fn deep_view(&self) -> DepAnalysisModel {
        DepAnalysisModel {
            dependencies: self.dependencies.deep_view(),
            total_unique_deps: self.total_unique_deps as nat,
            deps_with_mismatches: self.deps_with_mismatches as nat,
        }
    }
}

impl Default for DepAnalysis {
    fn default() -> (r: Self)
        ensures
            r.dependencies@.len() == 0,
            r.total_unique_deps == 0,
            r.deps_with_mismatches == 0,
    {
        DepAnalysis { dependencies: Vec::new(), total_unique_deps: 0, deps_with_mismatches: 0 }
    }
}

/// The names of a list of declarations.
pub open spec fn names_of(uses: Seq<DepUseModel>) -> Seq<Seq<char>> {
    uses.map_values(|u: DepUseModel| u.name)
}

/// The version and the project of a declaration of the dependency `name`.
pub open spec fn version_pair(name: Seq<char>) -> spec_fn(DepUseModel) -> Option<
    (Seq<char>, Seq<char>),
> {
    |u: DepUseModel|
        if u.name == name {
            Some((u.version, u.project))
        } else {
            None
        }
}

/// What is declared of one dependency: its versions in the order in which
/// they first occur, each with the projects that declare it, and the number of
/// declarations.
pub open spec fn usage_of(uses: Seq<DepUseModel>, name: Seq<char>) -> DepUsageModel {
    let pairs = collect(uses, version_pair(name));
    DepUsageModel { name: name, versions: grouped(pairs), project_count: pairs.len() }
}

/// The dependency that is declared more often comes first.
pub open spec fn by_use_count() -> spec_fn(DepUsageModel, DepUsageModel) -> bool {
    |a: DepUsageModel, b: DepUsageModel| a.project_count > b.project_count
}

/// A dependency that is declared with more than one version.
pub open spec fn mismatched() -> spec_fn(DepUsageModel) -> Option<DepUsageModel> {
    |d: DepUsageModel|
        if d.versions.len() > 1 {
            Some(d)
        } else {
            None
        }
}

/// The dependencies that a list of declarations names, the one declared most
/// often first, and those of one count in the order in which they first occur.
pub open spec fn usages(uses: Seq<DepUseModel>) -> Seq<DepUsageModel> {
    stable_sort(
        distinct(names_of(uses)).map_values(|n: Seq<char>| usage_of(uses, n)),
        by_use_count(),
    )
}

/// The analysis of a list of declarations: the dependencies, their number, and
/// the number of those declared with more than one version.
pub open spec fn dep_analysis(uses: Seq<DepUseModel>) -> DepAnalysisModel {
    DepAnalysisModel {
        dependencies: usages(uses),
        total_unique_deps: usages(uses).len(),
        deps_with_mismatches: collect(usages(uses), mismatched()).len(),
    }
}

/// The names of a list of declarations.
pub fn names_in(uses: &Vec<DepUse>) -> (r: Vec<String>)
    ensures
        r.deep_view() == names_of(uses.deep_view()),
{
    let mut out: Vec<String> = Vec::new();
    let mut i: usize = 0;
    while i < uses.len()
        invariant
            i <= uses.len(),
            out.len() == i,
            forall|k: int| 0 <= k < i ==> out@[k]@ == uses@[k].name@,
        decreases uses.len() - i,
    {
        out.push(uses[i].name.clone());
        i += 1;
    }
    assert(out.deep_view() =~= names_of(uses.deep_view()));
    out
}

/// The version and the project of each declaration of one dependency.
pub fn version_pairs(uses: &Vec<DepUse>, name: &str) -> (r: Vec<(String, String)>)
    ensures
        r.deep_view() == collect(uses.deep_view(), version_pair(name@)),
{
    let ghost pick = version_pair(name@);
    let mut out: Vec<(String, String)> = Vec::new();
    let mut i: usize = 0;
    assert(uses.deep_view().take(0) =~= Seq::<DepUseModel>::empty());
    assert(out.deep_view() =~= Seq::<(Seq<char>, Seq<char>)>::empty());
    while i < uses.len()
        invariant
            i <= uses.len(),
            pick == version_pair(name@),
            out.deep_view() == collect(uses.deep_view().take(i as int), pick),
        decreases uses.len() - i,
    {
        proof {
            lemma_collect_step(uses.deep_view(), pick, i as int);
            assert(uses.deep_view()[i as int] == uses@[i as int].deep_view());
        }
        if same_text(uses[i].name.as_str(), name) {
            let ghost before = out.deep_view();
            let pair = (uses[i].version.clone(), uses[i].project.clone());
            out.push(pair);
            assert(out.deep_view() =~= before.push((uses@[i as int].version@, uses@[i as int].project@)));
        }
        i += 1;
    }
    assert(uses.deep_view().take(uses.len() as int) == uses.deep_view());
    out
}

/// What a list of declarations says of one dependency.
pub fn usage_for(uses: &Vec<DepUse>, name: &str) -> (r: DepUsage)
    ensures
        r.deep_view() == usage_of(uses.deep_view(), name@),
{
    let pairs = version_pairs(uses, name);
    let groups = group_pairs(&pairs);
    let mut versions: Vec<VersionUsage> = Vec::new();
    let mut i: usize = 0;
    while i < groups.len()
        invariant
            i <= groups.len(),
            versions.len() == i,
            forall|k: int|
                0 <= k < i ==> (#[trigger] versions@[k]).deep_view() == groups@[k].deep_view(),
        decreases groups.len() - i,
    {
        versions.push(
            VersionUsage {
                version: groups[i].key.clone(),
                projects: copy_texts(&groups[i].members),
            },
        );
        i += 1;
    }
    assert(deep(versions@) =~= deep(groups@));
    assert(pairs.deep_view().len() == pairs.len());
    DepUsage { name: name.to_owned(), versions, project_count: pairs.len() }
}

/// The number of dependencies in a list that are declared with more than one
/// version.
pub fn count_mismatched(deps: &Vec<DepUsage>) -> (r: usize)
    ensures
        r == collect(deps.deep_view(), mismatched()).len(),
{
    let mut n: usize = 0;
    let mut i: usize = 0;
    assert(deps.deep_view().take(0) =~= Seq::<DepUsageModel>::empty());
    while i < deps.len()
        invariant
            i <= deps.len(),
            n <= i,
            n == collect(deps.deep_view().take(i as int), mismatched()).len(),
        decreases deps.len() - i,
    {
        proof {
            lemma_collect_step(deps.deep_view(), mismatched(), i as int);
            assert(deps.deep_view()[i as int] == deps@[i as int].deep_view());
            assert(deps@[i as int].versions.deep_view().len() == deps@[i as int].versions.len());
        }
        if deps[i].versions.len() > 1 {
            n += 1;
        }
        i += 1;
    }
    assert(deps.deep_view().take(deps.len() as int) == deps.deep_view());
    n
}

/// The analysis of a list of declarations.
pub fn summarize_dependencies(uses: &Vec<DepUse>) -> (r: DepAnalysis)
    ensures
        r.deep_view() == dep_analysis(uses.deep_view()),
{
    let names = distinct_texts(&names_in(uses));
    let mut dependencies: Vec<DepUsage> = Vec::new();
    let mut i: usize = 0;
    while i < names.len()
        invariant
            i <= names.len(),
            dependencies.len() == i,
            forall|k: int|
                0 <= k < i ==> (#[trigger] dependencies@[k]).deep_view() == usage_of(
                    uses.deep_view(),
                    names@[k]@,
                ),
        decreases names.len() - i,
    {
        dependencies.push(usage_for(uses, names[i].as_str()));
        i += 1;
    }
    proof {
        let want = distinct(names_of(uses.deep_view())).map_values(
            |n: Seq<char>| usage_of(uses.deep_view(), n),
        );
        assert(deep(dependencies@).len() == want.len());
        assert forall|k: int| 0 <= k < want.len() implies deep(dependencies@)[k] == want[k] by {
            assert(names.deep_view()[k] == names@[k]@);
        }
        assert(deep(dependencies@) =~= want);
    }
    let ghost unsorted = dependencies@;
    sort_stable(&mut dependencies);
    proof {
        lemma_sorted_deep(unsorted, dependencies@, by_use_count());
    }
    let total_unique_deps = dependencies.len();
    let deps_with_mismatches = count_mismatched(&dependencies);
    assert(dependencies.deep_view().len() == dependencies.len());
    DepAnalysis { dependencies, total_unique_deps, deps_with_mismatches }
}

/// A project and the text of its manifest; `None` where the manifest is
/// missing or cannot be read.
#[derive(Debug, Clone)]
pub struct ProjectManifest {
    pub project_path: String,
    pub manifest: Option<String>,
}

pub struct ProjectManifestModel {
    pub project_path: Seq<char>,
    pub manifest: Option<Seq<char>>,
}

impl DeepView for ProjectManifest {
    type V = ProjectManifestModel;

    open spec fn deep_view(&self) -> ProjectManifestModel {
        ProjectManifestModel {
            project_path: self.project_path@,
            manifest: self.manifest.deep_view(),
        }
    }
}

/// The declarations of one project: those of its manifest under the project's
/// display name; none where the manifest is missing or no document.
pub open spec fn uses_of_project(p: ProjectManifestModel) -> Seq<DepUseModel> {
    match p.manifest {
        Some(text) => match toml_document(text) {
            Some(doc) => uses_in(display_name(p.project_path), doc),
            None => Seq::empty(),
        },
        None => Seq::empty(),
    }
}

/// The declarations of a list of projects, project after project.
pub open spec fn uses_of_projects(projects: Seq<ProjectManifestModel>) -> Seq<DepUseModel>
    decreases projects.len(),
{
    if projects.len() == 0 {
        Seq::empty()
    } else {
        uses_of_projects(projects.drop_last()) + uses_of_project(projects.last())
    }
}

/// The declarations of one project.
pub fn project_uses(p: &ProjectManifest) -> (r: Vec<DepUse>)
    ensures
        r.deep_view() == uses_of_project(p.deep_view()),
{
    match &p.manifest {
        Some(text) => match parse_document(text.as_str()) {
            Some(doc) => {
                let name = project_display_name(p.project_path.as_str());
                dependency_uses(name.as_str(), &doc)
            },
            None => {
                let r: Vec<DepUse> = Vec::new();
                assert(r.deep_view() =~= Seq::<DepUseModel>::empty());
                r
            },
        },
        None => {
            let r: Vec<DepUse> = Vec::new();
            assert(r.deep_view() =~= Seq::<DepUseModel>::empty());
            r
        },
    }
}

/// The analysis of the dependencies that a list of projects declares.
pub fn analyze_dependencies_sync(projects: &Vec<ProjectManifest>) -> (r: DepAnalysis)
    ensures
        r.deep_view() == dep_analysis(uses_of_projects(projects.deep_view())),
{
    let mut uses: Vec<DepUse> = Vec::new();
    let mut i: usize = 0;
    assert(projects.deep_view().take(0) =~= Seq::<ProjectManifestModel>::empty());
    assert(uses.deep_view() =~= Seq::<DepUseModel>::empty());
    while i < projects.len()
        invariant
            i <= projects.len(),
            uses.deep_view() == uses_of_projects(projects.deep_view().take(i as int)),
        decreases projects.len() - i,
    {
        let ghost before = uses.deep_view();
        let mut more = project_uses(&projects[i]);
        let ghost added = more.deep_view();
        proof {
            assert(projects.deep_view().take(i + 1).drop_last() == projects.deep_view().take(
                i as int,
            ));
            assert(projects.deep_view().take(i + 1).last() == projects@[i as int].deep_view());
            assert(deep(uses@ + more@) =~= before + added);
        }
        uses.append(&mut more);
        i += 1;
    }
    assert(projects.deep_view().take(projects.len() as int) == projects.deep_view());
    summarize_dependencies(&uses)
}

/// The number of declarations of a dependency is the number of projects
/// under all of its versions together.
pub proof fn lemma_project_count_is_sum(uses: Seq<DepUseModel>, name: Seq<char>)
    ensures
        crate::groups::total_members(usage_of(uses, name).versions) == usage_of(
            uses,
            name,
        ).project_count,
{
    crate::groups::lemma_groups_hold_all(collect(uses, version_pair(name)));
}

} // verus!
