//! Discovery: from what a walk over a directory tree found to the list of
//! projects, with the workspace that each belongs to.
//!
//! The library reads no files. A caller walks the tree and hands over a
//! snapshot of what it found: the manifests with their texts, the files under
//! each build-output directory, the modification times, the paths that each
//! member pattern with a wildcard matches, and the manifests of the directories
//! above each project.

use vstd::prelude::*;
use crate::casing::{chars_less, lowercase, text_less, to_lowercase};
use crate::groups::{copy_texts};
use crate::manifest::{
    listed_name, manifest_of_text, name_of_record, parse_manifest, ManifestModel, ManifestRecord,
};
use crate::paths::{
    ancestors, ancestors_of, has_name, is_named, is_under, join_path, lies_under, parent_of,
    path_join, path_parent, paths_equal, same_path,
};
use crate::seqs::{collect, deep, lemma_collect_step, lemma_deep_vec, lemma_sorted_deep};
use crate::sorting::{sort_stable, stable_sort, Ranked};
use crate::text::{chars_of, contains, has_within, same_text};

verus! {

broadcast use lemma_deep_vec;

/// A project that discovery found.
#[derive(Debug, Clone)]
pub struct Project {
    pub name: String,
    pub path: String,
    pub target_size: u64,
    pub dep_count: usize,
    pub last_modified: u64,
    pub is_workspace_member: bool,
    pub workspace_root: Option<String>,
}

pub struct ProjectModel {
    pub name: Seq<char>,
    pub path: Seq<char>,
    pub target_size: nat,
    pub dep_count: nat,
    pub last_modified: nat,
    pub is_workspace_member: bool,
    pub workspace_root: Option<Seq<char>>,
}

impl DeepView for Project {
    type V = ProjectModel;

    open spec fn deep_view(&self) -> ProjectModel {
        ProjectModel {
            name: self.name@,
            path: self.path@,
            target_size: self.target_size as nat,
            dep_count: self.dep_count as nat,
            last_modified: self.last_modified as nat,
            is_workspace_member: self.is_workspace_member,
            workspace_root: self.workspace_root.deep_view(),
        }
    }
}

/// Projects are listed by name, upper and lower case taken as the same.
pub open spec fn by_lower_name() -> spec_fn(ProjectModel, ProjectModel) -> bool {
    |a: ProjectModel, b: ProjectModel| text_less(lowercase(a.name), lowercase(b.name))
}

impl Ranked for Project {
    open spec fn ranks_before(&self, other: &Self) -> bool {
        text_less(lowercase(self.name@), lowercase(other.name@))
    }

    fn goes_before(&self, other: &Self) -> (r: bool) {
        let a = chars_of(to_lowercase(self.name.as_str()).as_str());
        let b = chars_of(to_lowercase(other.name.as_str()).as_str());
        chars_less(&a, &b)
    }
}

/// What the walk knows of one entry under a build-output directory.
#[derive(Debug, Clone, Copy)]
pub struct WalkedEntry {
    /// Whether the entry is a regular file.
    pub is_file: bool,
    /// Its size in bytes.
    pub size: u64,
}

/// The sizes of the regular files among the entries, added up.
pub open spec fn file_total(entries: Seq<WalkedEntry>) -> nat
    decreases entries.len(),
{
    if entries.len() == 0 {
        0
    } else if entries.last().is_file {
        file_total(entries.drop_last()) + entries.last().size as nat
    } else {
        file_total(entries.drop_last())
    }
}

/// A front part of the entries holds no more bytes than all of them.
pub proof fn lemma_file_total_prefix(entries: Seq<WalkedEntry>, n: int)
    requires
        0 <= n <= entries.len(),
    ensures
        file_total(entries.take(n)) <= file_total(entries),
    decreases entries.len() - n,
{
    if n < entries.len() {
        lemma_file_total_prefix(entries, n + 1);
        assert(entries.take(n + 1).drop_last() =~= entries.take(n));
    } else {
        assert(entries.take(n) =~= entries);
    }
}

/// The size of a directory: the sizes of the regular files under it, added up;
/// `None` where the sum is too large for the result.
pub fn checked_dir_size(entries: &Vec<WalkedEntry>) -> (r: Option<u64>)
    ensures
        r == if file_total(entries@) <= u64::MAX {
            Some(file_total(entries@) as u64)
        } else {
            None
        },
{
    let mut total: u64 = 0;
    let mut i: usize = 0;
    assert(entries@.take(0) =~= Seq::<WalkedEntry>::empty());
    while i < entries.len()
        invariant
            i <= entries.len(),
            total == file_total(entries@.take(i as int)),
        decreases entries.len() - i,
    {
        assert(entries@.take(i + 1).drop_last() =~= entries@.take(i as int));
        if entries[i].is_file {
            match total.checked_add(entries[i].size) {
                Some(t) => {
                    total = t;
                },
                None => {
                    proof {
                        lemma_file_total_prefix(entries@, i + 1);
                    }
                    return None;
                },
            }
        }
        i += 1;
    }
    assert(entries@.take(entries.len() as int) =~= entries@);
    Some(total)
}

/// The size of a directory: the sizes of the regular files under it, added up.
pub fn get_dir_size(entries: &Vec<WalkedEntry>) -> (r: u64)
    requires
        file_total(entries@) <= u64::MAX,
    ensures
        r == file_total(entries@),
{
    match checked_dir_size(entries) {
        Some(t) => t,
        None => 0,
    }
}

/// The largest of the given times, or zero where there is none.
pub open spec fn latest(stamps: Seq<u64>) -> nat
    decreases stamps.len(),
{
    if stamps.len() == 0 {
        0
    } else if stamps.last() as nat > latest(stamps.drop_last()) {
        stamps.last() as nat
    } else {
        latest(stamps.drop_last())
    }
}

/// The time of the last change: the largest of the modification times of the
/// source directory, the manifest and what lies in the source directory.
pub fn get_last_modified(stamps: &Vec<u64>) -> (r: u64)
    ensures
        r == latest(stamps@),
{
    let mut best: u64 = 0;
    let mut i: usize = 0;
    assert(stamps@.take(0) =~= Seq::<u64>::empty());
    while i < stamps.len()
        invariant
            i <= stamps.len(),
            best == latest(stamps@.take(i as int)),
        decreases stamps.len() - i,
    {
        assert(stamps@.take(i + 1).drop_last() =~= stamps@.take(i as int));
        if stamps[i] > best {
            best = stamps[i];
        }
        i += 1;
    }
    assert(stamps@.take(stamps.len() as int) =~= stamps@);
    best
}

/// The latest time is no earlier than any of the times, and is one of them
/// where there is any.
pub proof fn lemma_latest(stamps: Seq<u64>)
    ensures
        forall|i: int| 0 <= i < stamps.len() ==> stamps[i] <= latest(stamps),
        stamps.len() > 0 ==> exists|i: int| 0 <= i < stamps.len() && stamps[i] == latest(stamps),
    decreases stamps.len(),
{
    if stamps.len() > 0 {
        let front = stamps.drop_last();
        lemma_latest(front);
        assert forall|i: int| 0 <= i < stamps.len() implies stamps[i] <= latest(stamps) by {
            if i < front.len() {
                assert(front[i] == stamps[i]);
            }
        }
        if stamps.last() as nat > latest(front) {
            assert(stamps[stamps.len() - 1] == latest(stamps));
        } else if front.len() > 0 {
            let i = choose|i: int| 0 <= i < front.len() && front[i] == latest(front);
            assert(stamps[i] == latest(stamps));
        } else {
            assert(stamps[0] == latest(stamps));
        }
    }
}

/// A manifest that the walk met, with what the walk found around it.
#[derive(Debug, Clone)]
pub struct ManifestFacts {
    /// The path of the manifest file.
    pub path: String,
    /// The text of the file; `None` where it cannot be read.
    pub content: Option<String>,
    /// The entries under the build-output directory beside the manifest; none
    /// where there is no such directory.
    pub target_entries: Vec<WalkedEntry>,
    /// The modification times, in seconds, of the source directory, of the
    /// manifest and of what lies in the source directory.
    pub modified: Vec<u64>,
}

pub struct ManifestFactsModel {
    pub path: Seq<char>,
    pub content: Option<Seq<char>>,
    pub target_entries: Seq<WalkedEntry>,
    pub modified: Seq<u64>,
}

impl DeepView for ManifestFacts {
    type V = ManifestFactsModel;

    open spec fn deep_view(&self) -> ManifestFactsModel {
        ManifestFactsModel {
            path: self.path@,
            content: self.content.deep_view(),
            target_entries: self.target_entries@,
            modified: self.modified@,
        }
    }
}

/// A member pattern with a wildcard and the paths that it matches.
#[derive(Debug, Clone)]
pub struct GlobExpansion {
    pub pattern: String,
    pub matches: Vec<String>,
}

pub struct GlobExpansionModel {
    pub pattern: Seq<char>,
    pub matches: Seq<Seq<char>>,
}

impl DeepView for GlobExpansion {
    type V = GlobExpansionModel;

    open spec fn deep_view(&self) -> GlobExpansionModel {
        GlobExpansionModel { pattern: self.pattern@, matches: self.matches.deep_view() }
    }
}

/// A file that may hold a manifest, with its text; `None` where there is no
/// such file or it cannot be read.
#[derive(Debug, Clone)]
pub struct ManifestFile {
    pub path: String,
    pub content: Option<String>,
}

pub struct ManifestFileModel {
    pub path: Seq<char>,
    pub content: Option<Seq<char>>,
}

impl DeepView for ManifestFile {
    type V = ManifestFileModel;

    open spec fn deep_view(&self) -> ManifestFileModel {
        ManifestFileModel { path: self.path@, content: self.content.deep_view() }
    }
}

/// What a walk over a directory tree found.
#[derive(Debug, Clone)]
pub struct TreeSnapshot {
    /// The manifests, in the order of the walk.
    pub manifests: Vec<ManifestFacts>,
    /// What the member patterns with a wildcard match.
    pub globs: Vec<GlobExpansion>,
    /// The manifests of the directories above the projects.
    pub ancestor_manifests: Vec<ManifestFile>,
}

pub struct TreeSnapshotModel {
    pub manifests: Seq<ManifestFactsModel>,
    pub globs: Seq<GlobExpansionModel>,
    pub ancestor_manifests: Seq<ManifestFileModel>,
}

impl DeepView for TreeSnapshot {
    type V = TreeSnapshotModel;

    open spec fn deep_view(&self) -> TreeSnapshotModel {
        TreeSnapshotModel {
            manifests: self.manifests.deep_view(),
            globs: self.globs.deep_view(),
            ancestor_manifests: self.ancestor_manifests.deep_view(),
        }
    }
}

/// How many levels below its start the walk for manifests goes.
pub const WALK_DEPTH: usize = 4;

/// How many levels below a source directory modification times are read.
pub const SOURCE_DEPTH: usize = 3;

/// The build-output directory of a project.
pub fn build_output_dir(project_dir: &str) -> (r: String)
    ensures
        r@ == path_join(project_dir@, "target"@),
{
    join_path(project_dir, "target")
}

/// The source directory of a project.
pub fn source_dir(project_dir: &str) -> (r: String)
    ensures
        r@ == path_join(project_dir@, "src"@),
{
    join_path(project_dir, "src")
}

/// The path at which the manifest of a directory lies.
pub fn manifest_in(dir: &str) -> (r: String)
    ensures
        r@ == path_join(dir@, "Cargo.toml"@),
{
    join_path(dir, "Cargo.toml")
}

/// Whether a path names a manifest: its last component is `Cargo.toml`.
pub open spec fn names_manifest(path: Seq<char>) -> bool {
    is_named(path, "Cargo.toml"@)
}

/// Whether a path names a manifest.
pub fn is_manifest_path(path: &str) -> (r: bool)
    ensures
        r == names_manifest(path@),
{
    has_name(path, "Cargo.toml")
}

/// Whether a path lies in a build-output directory: the path or a directory
/// above it is named `target`.
pub open spec fn in_build_output(path: Seq<char>) -> bool {
    lies_under(path, "target"@)
}

/// Whether a path lies in a build-output directory.
pub fn is_in_build_output(path: &str) -> (r: bool)
    ensures
        r == in_build_output(path@),
{
    is_under(path, "target")
}

/// The paths that a pattern matches: those of the first expansion recorded for
/// it, and none where none is recorded.
pub open spec fn expansion_of(globs: Seq<GlobExpansionModel>, pattern: Seq<char>) -> Seq<Seq<char>>
    decreases globs.len(),
{
    if globs.len() == 0 {
        Seq::empty()
    } else if globs[0].pattern == pattern {
        globs[0].matches
    } else {
        expansion_of(globs.drop_first(), pattern)
    }
}

/// The member paths that one entry of a member list stands for: with a
/// wildcard, what the pattern matches under the workspace directory; without,
/// the entry put behind the workspace directory.
pub open spec fn member_paths(
    dir: Seq<char>,
    member: Seq<char>,
    globs: Seq<GlobExpansionModel>,
) -> Seq<Seq<char>> {
    if contains(member, "*"@) {
        expansion_of(globs, path_join(dir, member))
    } else {
        seq![path_join(dir, member)]
    }
}

/// The member paths of a member list, entry after entry.
pub open spec fn members_listed(
    dir: Seq<char>,
    members: Seq<Seq<char>>,
    globs: Seq<GlobExpansionModel>,
) -> Seq<Seq<char>>
    decreases members.len(),
{
    if members.len() == 0 {
        Seq::empty()
    } else {
        members_listed(dir, members.drop_last(), globs) + member_paths(dir, members.last(), globs)
    }
}

/// The record of a manifest that the walk met: none where the file is not
/// named `Cargo.toml`, cannot be read or is no manifest.
pub open spec fn record_of(path: Seq<char>, content: Option<Seq<char>>) -> Option<ManifestModel> {
    if names_manifest(path) {
        match content {
            Some(text) => manifest_of_text(text),
            None => None,
        }
    } else {
        None
    }
}

/// The member paths that a manifest declares: those of its member list, taken
/// from the manifest's directory. A manifest in build output declares none,
/// whatever it lists, and neither does one that is no manifest of a workspace
/// with a member list.
pub open spec fn members_declared(m: ManifestFactsModel, globs: Seq<GlobExpansionModel>) -> Seq<
    Seq<char>,
> {
    if in_build_output(m.path) {
        Seq::empty()
    } else {
        match (record_of(m.path, m.content), path_parent(m.path)) {
            (Some(rec), Some(dir)) => match rec.members {
                Some(list) => members_listed(dir, list, globs),
                None => Seq::empty(),
            },
            _ => Seq::empty(),
        }
    }
}

/// The member paths that the manifests declare, manifest after manifest.
pub open spec fn members_of(
    manifests: Seq<ManifestFactsModel>,
    globs: Seq<GlobExpansionModel>,
) -> Seq<Seq<char>>
    decreases manifests.len(),
{
    if manifests.len() == 0 {
        Seq::empty()
    } else {
        members_of(manifests.drop_last(), globs) + members_declared(manifests.last(), globs)
    }
}

/// Whether a directory is one of the member paths.
pub open spec fn is_member(members: Seq<Seq<char>>, dir: Seq<char>) -> bool {
    exists|i: int| 0 <= i < members.len() && same_path(#[trigger] members[i], dir)
}

/// Whether the manifest of a directory declares a workspace, as far as the
/// recorded files tell: the first file recorded under the path of its manifest
/// has a text, and that text is a manifest with a workspace table.
pub open spec fn declares_workspace(files: Seq<ManifestFileModel>, dir: Seq<char>) -> bool
    decreases files.len(),
{
    if files.len() == 0 {
        false
    } else if files[0].path == path_join(dir, "Cargo.toml"@) {
        match files[0].content {
            Some(text) => match manifest_of_text(text) {
                Some(rec) => rec.has_workspace,
                None => false,
            },
            None => false,
        }
    } else {
        declares_workspace(files.drop_first(), dir)
    }
}

/// Whether a directory counts as the root of a workspace for the projects
/// below it: it is a member path itself, or its manifest declares a workspace.
pub open spec fn is_root_for(
    members: Seq<Seq<char>>,
    files: Seq<ManifestFileModel>,
    dir: Seq<char>,
) -> bool {
    is_member(members, dir) || declares_workspace(files, dir)
}

/// The first of the given directories that counts as a root.
pub open spec fn first_root(
    members: Seq<Seq<char>>,
    files: Seq<ManifestFileModel>,
    dirs: Seq<Seq<char>>,
) -> Option<Seq<char>>
    decreases dirs.len(),
{
    if dirs.len() == 0 {
        None
    } else if is_root_for(members, files, dirs[0]) {
        Some(dirs[0])
    } else {
        first_root(members, files, dirs.drop_first())
    }
}

/// The workspace root of a project: for a member, the nearest directory above
/// it that counts as a root, if there is one; none for a project that is no
/// member.
pub open spec fn root_of(
    members: Seq<Seq<char>>,
    files: Seq<ManifestFileModel>,
    dir: Seq<char>,
) -> Option<Seq<char>> {
    if is_member(members, dir) {
        first_root(members, files, ancestors(dir))
    } else {
        None
    }
}

/// The project of a manifest that the walk met. There is none where the
/// manifest lies in a build-output directory, has no directory, cannot be read
/// or is no manifest.
pub open spec fn project_of(
    members: Seq<Seq<char>>,
    files: Seq<ManifestFileModel>,
) -> spec_fn(ManifestFactsModel) -> Option<ProjectModel> {
    |m: ManifestFactsModel|
        if in_build_output(m.path) {
            None
        } else {
            match (record_of(m.path, m.content), path_parent(m.path)) {
                (Some(rec), Some(dir)) => Some(
                    ProjectModel {
                        name: listed_name(rec),
                        path: dir,
                        target_size: file_total(m.target_entries),
                        dep_count: rec.dependency_count,
                        last_modified: latest(m.modified),
                        is_workspace_member: is_member(members, dir),
                        workspace_root: root_of(members, files, dir),
                    },
                ),
                _ => None,
            }
        }
}

/// The projects of a snapshot in the order of the walk.
pub open spec fn projects_found(s: TreeSnapshotModel) -> Seq<ProjectModel> {
    collect(s.manifests, project_of(members_of(s.manifests, s.globs), s.ancestor_manifests))
}

/// The projects of a snapshot, listed by name without regard to case;
/// projects of one name in the order of the walk.
pub open spec fn discovered(s: TreeSnapshotModel) -> Seq<ProjectModel> {
    stable_sort(projects_found(s), by_lower_name())
}

/// Every build-output directory of the snapshot has a size that fits the
/// result.
pub open spec fn sizes_fit(s: TreeSnapshotModel) -> bool {
    forall|i: int|
        0 <= i < s.manifests.len() ==> file_total((#[trigger] s.manifests[i]).target_entries)
            <= u64::MAX
}

/// The paths that a pattern matches, as far as they are recorded.
pub fn expansion_in(globs: &Vec<GlobExpansion>, pattern: &str) -> (r: Vec<String>)
    ensures
        r.deep_view() == expansion_of(globs.deep_view(), pattern@),
{
    let mut i: usize = 0;
    assert(globs.deep_view().subrange(0, globs.len() as int) =~= globs.deep_view());
    while i < globs.len()
        invariant
            i <= globs.len(),
            expansion_of(globs.deep_view(), pattern@) == expansion_of(
                globs.deep_view().subrange(i as int, globs.len() as int),
                pattern@,
            ),
        decreases globs.len() - i,
    {
        let ghost rest = globs.deep_view().subrange(i as int, globs.len() as int);
        assert(rest[0] == globs@[i as int].deep_view());
        if same_text(globs[i].pattern.as_str(), pattern) {
            return copy_texts(&globs[i].matches);
        }
        assert(rest.drop_first() =~= globs.deep_view().subrange(i + 1, globs.len() as int));
        i += 1;
    }
    let r: Vec<String> = Vec::new();
    assert(r.deep_view() =~= Seq::<Seq<char>>::empty());
    r
}

/// The member paths that one entry of a member list stands for.
pub fn member_paths_for(dir: &str, member: &str, globs: &Vec<GlobExpansion>) -> (r: Vec<String>)
    ensures
        r.deep_view() == member_paths(dir@, member@, globs.deep_view()),
{
    let joined = join_path(dir, member);
    if has_within(&chars_of(member), &chars_of("*")) {
        expansion_in(globs, joined.as_str())
    } else {
        let mut r: Vec<String> = Vec::new();
        r.push(joined);
        assert(r.deep_view() =~= seq![path_join(dir@, member@)]);
        r
    }
}

/// The member paths of a member list.
pub fn members_in(dir: &str, members: &Vec<String>, globs: &Vec<GlobExpansion>) -> (r: Vec<String>)
    ensures
        r.deep_view() == members_listed(dir@, members.deep_view(), globs.deep_view()),
{
    let mut out: Vec<String> = Vec::new();
    let mut i: usize = 0;
    assert(members.deep_view().take(0) =~= Seq::<Seq<char>>::empty());
    assert(out.deep_view() =~= Seq::<Seq<char>>::empty());
    while i < members.len()
        invariant
            i <= members.len(),
            out.deep_view() == members_listed(
                dir@,
                members.deep_view().take(i as int),
                globs.deep_view(),
            ),
        decreases members.len() - i,
    {
        let ghost before = out.deep_view();
        let mut more = member_paths_for(dir, members[i].as_str(), globs);
        proof {
            assert(members.deep_view().take(i + 1).drop_last() =~= members.deep_view().take(
                i as int,
            ));
            assert(members.deep_view().take(i + 1).last() == members@[i as int]@);
            assert(deep(out@ + more@) =~= before + more.deep_view());
        }
        out.append(&mut more);
        i += 1;
    }
    assert(members.deep_view().take(members.len() as int) =~= members.deep_view());
    out
}

/// The record of a manifest that the walk met.
pub fn record_for(path: &str, content: &Option<String>) -> (r: Option<ManifestRecord>)
    ensures
        r.deep_view() == record_of(path@, content.deep_view()),
{
    if is_manifest_path(path) {
        match content {
            Some(text) => parse_manifest(text.as_str()),
            None => None,
        }
    } else {
        None
    }
}

/// The member paths that a manifest declares; none for a manifest in build
/// output.
pub fn declared_members(m: &ManifestFacts, globs: &Vec<GlobExpansion>) -> (r: Vec<String>)
    ensures
        r.deep_view() == members_declared(m.deep_view(), globs.deep_view()),
{
    if is_in_build_output(m.path.as_str()) {
        let r: Vec<String> = Vec::new();
        assert(r.deep_view() =~= Seq::<Seq<char>>::empty());
        return r;
    }
    match (record_for(m.path.as_str(), &m.content), parent_of(m.path.as_str())) {
        (Some(rec), Some(dir)) => match &rec.members {
            Some(list) => members_in(dir.as_str(), list, globs),
            None => {
                let r: Vec<String> = Vec::new();
                assert(r.deep_view() =~= Seq::<Seq<char>>::empty());
                r
            },
        },
        _ => {
            let r: Vec<String> = Vec::new();
            assert(r.deep_view() =~= Seq::<Seq<char>>::empty());
            r
        },
    }
}

/// The member paths of all the workspaces that the manifests declare.
pub fn find_workspace_roots(manifests: &Vec<ManifestFacts>, globs: &Vec<GlobExpansion>) -> (r:
    Vec<String>)
    ensures
        r.deep_view() == members_of(manifests.deep_view(), globs.deep_view()),
{
    let mut out: Vec<String> = Vec::new();
    let mut i: usize = 0;
    assert(manifests.deep_view().take(0) =~= Seq::<ManifestFactsModel>::empty());
    assert(out.deep_view() =~= Seq::<Seq<char>>::empty());
    while i < manifests.len()
        invariant
            i <= manifests.len(),
            out.deep_view() == members_of(manifests.deep_view().take(i as int), globs.deep_view()),
        decreases manifests.len() - i,
    {
        let ghost before = out.deep_view();
        let mut more = declared_members(&manifests[i], globs);
        proof {
            assert(manifests.deep_view().take(i + 1).drop_last() =~= manifests.deep_view().take(
                i as int,
            ));
            assert(manifests.deep_view().take(i + 1).last() == manifests@[i as int].deep_view());
            assert(deep(out@ + more@) =~= before + more.deep_view());
        }
        out.append(&mut more);
        i += 1;
    }
    assert(manifests.deep_view().take(manifests.len() as int) =~= manifests.deep_view());
    out
}

/// Whether a directory is one of the member paths.
pub fn is_workspace_member(members: &Vec<String>, dir: &str) -> (r: bool)
    ensures
        r == is_member(members.deep_view(), dir@),
{
    let mut i: usize = 0;
    while i < members.len()
        invariant
            i <= members.len(),
            forall|k: int| 0 <= k < i ==> !same_path(#[trigger] members.deep_view()[k], dir@),
        decreases members.len() - i,
    {
        assert(members.deep_view()[i as int] == members@[i as int]@);
        if paths_equal(members[i].as_str(), dir) {
            return true;
        }
        i += 1;
    }
    false
}

/// Whether the manifest of a directory declares a workspace, as far as the
/// recorded files tell.
pub fn manifest_declares_workspace(files: &Vec<ManifestFile>, dir: &str) -> (r: bool)
    ensures
        r == declares_workspace(files.deep_view(), dir@),
{
    let wanted = join_path(dir, "Cargo.toml");
    let mut i: usize = 0;
    assert(files.deep_view().subrange(0, files.len() as int) =~= files.deep_view());
    while i < files.len()
        invariant
            i <= files.len(),
            wanted@ == path_join(dir@, "Cargo.toml"@),
            declares_workspace(files.deep_view(), dir@) == declares_workspace(
                files.deep_view().subrange(i as int, files.len() as int),
                dir@,
            ),
        decreases files.len() - i,
    {
        let ghost rest = files.deep_view().subrange(i as int, files.len() as int);
        assert(rest[0] == files@[i as int].deep_view());
        if same_text(files[i].path.as_str(), wanted.as_str()) {
            return match &files[i].content {
                Some(text) => match parse_manifest(text.as_str()) {
                    Some(rec) => rec.has_workspace,
                    None => false,
                },
                None => false,
            };
        }
        assert(rest.drop_first() =~= files.deep_view().subrange(i + 1, files.len() as int));
        i += 1;
    }
    false
}

/// The workspace root of a project.
pub fn workspace_root_of(members: &Vec<String>, files: &Vec<ManifestFile>, dir: &str) -> (r:
    Option<String>)
    ensures
        r.deep_view() == root_of(members.deep_view(), files.deep_view(), dir@),
{
    if !is_workspace_member(members, dir) {
        return None;
    }
    let above = ancestors_of(dir);
    let mut i: usize = 0;
    assert(above.deep_view().subrange(0, above.len() as int) =~= above.deep_view());
    while i < above.len()
        invariant
            i <= above.len(),
            above.deep_view() == ancestors(dir@),
            is_member(members.deep_view(), dir@),
            first_root(members.deep_view(), files.deep_view(), ancestors(dir@)) == first_root(
                members.deep_view(),
                files.deep_view(),
                above.deep_view().subrange(i as int, above.len() as int),
            ),
        decreases above.len() - i,
    {
        let ghost rest = above.deep_view().subrange(i as int, above.len() as int);
        assert(rest[0] == above@[i as int]@);
        let a = above[i].as_str();
        if is_workspace_member(members, a) || manifest_declares_workspace(files, a) {
            return Some(above[i].clone());
        }
        assert(rest.drop_first() =~= above.deep_view().subrange(i + 1, above.len() as int));
        i += 1;
    }
    None
}

/// The project of a manifest that the walk met.
pub fn project_for(members: &Vec<String>, files: &Vec<ManifestFile>, m: &ManifestFacts) -> (r:
    Option<Project>)
    requires
        file_total(m.target_entries@) <= u64::MAX,
    ensures
        r.deep_view() == project_of(members.deep_view(), files.deep_view())(m.deep_view()),
{
    if is_in_build_output(m.path.as_str()) {
        return None;
    }
    match (record_for(m.path.as_str(), &m.content), parent_of(m.path.as_str())) {
        (Some(rec), Some(dir)) => {
            let is_workspace_member = is_workspace_member(members, dir.as_str());
            let workspace_root = workspace_root_of(members, files, dir.as_str());
            Some(
                Project {
                    name: name_of_record(&rec),
                    path: dir,
                    target_size: get_dir_size(&m.target_entries),
                    dep_count: rec.dependency_count,
                    last_modified: get_last_modified(&m.modified),
                    is_workspace_member,
                    workspace_root,
                },
            )
        },
        _ => None,
    }
}

/// The projects of a snapshot, listed by name.
pub fn scan_projects_sync(snapshot: &TreeSnapshot) -> (r: Vec<Project>)
    requires
        sizes_fit(snapshot.deep_view()),
    ensures
        r.deep_view() == discovered(snapshot.deep_view()),
{
    let members = find_workspace_roots(&snapshot.manifests, &snapshot.globs);
    let ghost pick = project_of(members.deep_view(), snapshot.ancestor_manifests.deep_view());
    let ghost all = snapshot.manifests.deep_view();
    let mut projects: Vec<Project> = Vec::new();
    let mut i: usize = 0;
    assert(all.take(0) =~= Seq::<ManifestFactsModel>::empty());
    assert(deep(projects@) =~= Seq::<ProjectModel>::empty());
    while i < snapshot.manifests.len()
        invariant
            i <= snapshot.manifests.len(),
            all == snapshot.manifests.deep_view(),
            sizes_fit(snapshot.deep_view()),
            pick == project_of(members.deep_view(), snapshot.ancestor_manifests.deep_view()),
            deep(projects@) == collect(all.take(i as int), pick),
        decreases snapshot.manifests.len() - i,
    {
        proof {
            lemma_collect_step(all, pick, i as int);
            assert(all[i as int] == snapshot.manifests@[i as int].deep_view());
            assert(snapshot.deep_view().manifests[i as int] == all[i as int]);
        }
        match project_for(&members, &snapshot.ancestor_manifests, &snapshot.manifests[i]) {
            Some(p) => {
                let ghost before = projects@;
                projects.push(p);
                assert(deep(projects@) =~= deep(before).push(p.deep_view()));
            },
            None => {},
        }
        i += 1;
    }
    assert(all.take(snapshot.manifests.len() as int) =~= all);
    let ghost unsorted = projects@;
    sort_stable(&mut projects);
    proof {
        lemma_sorted_deep(unsorted, projects@, by_lower_name());
    }
    projects
}

/// Whether every build-output directory of a snapshot has a size that fits.
pub fn snapshot_sizes_fit(snapshot: &TreeSnapshot) -> (r: bool)
    ensures
        r == sizes_fit(snapshot.deep_view()),
{
    let mut i: usize = 0;
    while i < snapshot.manifests.len()
        invariant
            i <= snapshot.manifests.len(),
            forall|k: int|
                0 <= k < i ==> file_total(
                    (#[trigger] snapshot.deep_view().manifests[k]).target_entries,
                ) <= u64::MAX,
        decreases snapshot.manifests.len() - i,
    {
        assert(snapshot.deep_view().manifests[i as int] == snapshot.manifests@[i as int].deep_view());
        if checked_dir_size(&snapshot.manifests[i].target_entries).is_none() {
            return false;
        }
        i += 1;
    }
    true
}

/// The projects of a snapshot, listed by name; `None` where a build-output
/// directory is too large for its size to be given.
pub fn scan_projects(snapshot: &TreeSnapshot) -> (r: Option<Vec<Project>>)
    ensures
        match r {
            Some(list) => sizes_fit(snapshot.deep_view()) && list.deep_view() == discovered(
                snapshot.deep_view(),
            ),
            None => !sizes_fit(snapshot.deep_view()),
        },
{
    if snapshot_sizes_fit(snapshot) {
        Some(scan_projects_sync(snapshot))
    } else {
        None
    }
}

/// The patterns with a wildcard among the members that a manifest declares,
/// each put behind the manifest's directory.
pub open spec fn wildcard_patterns(dir: Seq<char>, members: Seq<Seq<char>>) -> Seq<Seq<char>> {
    collect(
        members,
        |m: Seq<char>|
            if contains(m, "*"@) {
                Some(path_join(dir, m))
            } else {
                None
            },
    )
}

/// The patterns of one manifest that have to be matched against the tree. A
/// manifest in build output has none: it declares no member, so nothing is
/// matched on its account.
pub open spec fn patterns_declared(path: Seq<char>, content: Option<Seq<char>>) -> Seq<Seq<char>> {
    if in_build_output(path) {
        Seq::empty()
    } else {
        match (record_of(path, content), path_parent(path)) {
            (Some(rec), Some(dir)) => match rec.members {
                Some(list) => wildcard_patterns(dir, list),
                None => Seq::empty(),
            },
            _ => Seq::empty(),
        }
    }
}

/// The patterns with a wildcard among the entries of a member list, each put
/// behind the given directory.
pub fn patterns_in(dir: &str, list: &Vec<String>) -> (r: Vec<String>)
    ensures
        r.deep_view() == wildcard_patterns(dir@, list.deep_view()),
{
    let ghost pick = |m: Seq<char>|
        if contains(m, "*"@) {
            Some(path_join(dir@, m))
        } else {
            None
        };
    let mut out: Vec<String> = Vec::new();
    let mut i: usize = 0;
    assert(list.deep_view().take(0) =~= Seq::<Seq<char>>::empty());
    assert(out.deep_view() =~= Seq::<Seq<char>>::empty());
    while i < list.len()
        invariant
            i <= list.len(),
            pick == |m: Seq<char>|
                if contains(m, "*"@) {
                    Some(path_join(dir@, m))
                } else {
                    None
                },
            out.deep_view() == collect(list.deep_view().take(i as int), pick),
        decreases list.len() - i,
    {
        proof {
            lemma_collect_step(list.deep_view(), pick, i as int);
            assert(list.deep_view()[i as int] == list@[i as int]@);
        }
        if has_within(&chars_of(list[i].as_str()), &chars_of("*")) {
            let ghost before = out.deep_view();
            let joined = join_path(dir, list[i].as_str());
            out.push(joined);
            assert(out.deep_view() =~= before.push(path_join(dir@, list@[i as int]@)));
        }
        i += 1;
    }
    assert(list.deep_view().take(list.len() as int) =~= list.deep_view());
    out
}

/// The patterns that a manifest asks to be matched against the tree: what a
/// caller expands before it hands over a snapshot. A manifest in build output
/// asks for none.
pub fn member_patterns(path: &str, content: &Option<String>) -> (r: Vec<String>)
    ensures
        r.deep_view() == patterns_declared(path@, content.deep_view()),
{
    if is_in_build_output(path) {
        let r: Vec<String> = Vec::new();
        assert(r.deep_view() =~= Seq::<Seq<char>>::empty());
        return r;
    }
    match (record_for(path, content), parent_of(path)) {
        (Some(rec), Some(dir)) => match &rec.members {
            Some(list) => patterns_in(dir.as_str(), list),
            None => {
                let r: Vec<String> = Vec::new();
                assert(r.deep_view() =~= Seq::<Seq<char>>::empty());
                r
            },
        },
        _ => {
            let r: Vec<String> = Vec::new();
            assert(r.deep_view() =~= Seq::<Seq<char>>::empty());
            r
        },
    }
}

/// The directory of a manifest.
pub fn project_dir(manifest_path: &str) -> (r: Option<String>)
    ensures
        r.deep_view() == path_parent(manifest_path@),
{
    parent_of(manifest_path)
}

/// The paths at which the manifests of the directories above a project would
/// lie, the nearest first.
pub open spec fn manifests_above(dir: Seq<char>) -> Seq<Seq<char>> {
    ancestors(dir).map_values(|a: Seq<char>| path_join(a, "Cargo.toml"@))
}

/// The manifests above a project that a caller reads before it hands over a
/// snapshot.
pub fn ancestor_manifest_paths(dir: &str) -> (r: Vec<String>)
    ensures
        r.deep_view() == manifests_above(dir@),
{
    let above = ancestors_of(dir);
    let mut out: Vec<String> = Vec::new();
    let mut i: usize = 0;
    while i < above.len()
        invariant
            i <= above.len(),
            out.len() == i,
            forall|k: int| 0 <= k < i ==> out@[k]@ == path_join(above@[k]@, "Cargo.toml"@),
        decreases above.len() - i,
    {
        out.push(join_path(above[i].as_str(), "Cargo.toml"));
        i += 1;
    }
    assert(out.deep_view() =~= manifests_above(dir@)) by {
        assert(above.deep_view() == ancestors(dir@));
        assert forall|k: int| 0 <= k < out.len() implies out.deep_view()[k] == manifests_above(
            dir@,
        )[k] by {
            assert(above.deep_view()[k] == above@[k]@);
        }
    }
    out
}

} // verus!
