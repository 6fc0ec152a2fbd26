//! The workspace of one project: its members where it is the root of one, and
//! the workspace above it where it is a member.

use vstd::prelude::*;
use crate::discovery::{
    expansion_of, members_in, members_listed, GlobExpansion, GlobExpansionModel, ManifestFile,
    ManifestFileModel,
};
use crate::document::{
    entry_value, lookup, parse_document, texts_among, texts_found, toml_document, TomlEntry,
    TomlValue,
};
use crate::manifest::{get_text_in, table_at, text_in};
use crate::paths::{
    ancestors, ancestors_of, file_name_or, join_path, name_or, path_join, paths_equal, same_path,
};
use crate::seqs::{deep, lemma_deep_vec};
use crate::document::{get_table_field, Field};
use crate::text::{chars_of, contains, has_within, same_text};

verus! {

broadcast use lemma_deep_vec;

/// A member of a workspace.
#[derive(Debug, Clone)]
pub struct WorkspaceMember {
    pub name: String,
    pub path: String,
    pub is_current: bool,
}

pub struct WorkspaceMemberModel {
    pub name: Seq<char>,
    pub path: Seq<char>,
    pub is_current: bool,
}

impl DeepView for WorkspaceMember {
    type V = WorkspaceMemberModel;

    open spec fn deep_view(&self) -> WorkspaceMemberModel {
        WorkspaceMemberModel { name: self.name@, path: self.path@, is_current: self.is_current }
    }
}

/// What a project has to do with workspaces.
#[derive(Debug, Clone)]
pub struct WorkspaceInfo {
    pub is_workspace: bool,
    pub members: Vec<WorkspaceMember>,
    pub root_path: Option<String>,
    pub is_member_of_workspace: bool,
    pub parent_workspace_path: Option<String>,
    pub parent_workspace_name: Option<String>,
}

pub struct WorkspaceInfoModel {
    pub is_workspace: bool,
    pub members: Seq<WorkspaceMemberModel>,
    pub root_path: Option<Seq<char>>,
    pub is_member_of_workspace: bool,
    pub parent_workspace_path: Option<Seq<char>>,
    pub parent_workspace_name: Option<Seq<char>>,
}

impl DeepView for WorkspaceInfo {
    type V = WorkspaceInfoModel;

    open spec fn deep_view(&self) -> WorkspaceInfoModel {
        WorkspaceInfoModel {
            is_workspace: self.is_workspace,
            members: self.members.deep_view(),
            root_path: self.root_path.deep_view(),
            is_member_of_workspace: self.is_member_of_workspace,
            parent_workspace_path: self.parent_workspace_path.deep_view(),
            parent_workspace_name: self.parent_workspace_name.deep_view(),
        }
    }
}

/// A file that may be there, with its text; the text is `None` where the
/// file is missing or cannot be read.
#[derive(Debug, Clone)]
pub struct FileProbe {
    pub path: String,
    pub exists: bool,
    pub content: Option<String>,
}

pub struct FileProbeModel {
    pub path: Seq<char>,
    pub exists: bool,
    pub content: Option<Seq<char>>,
}

impl DeepView for FileProbe {
    type V = FileProbeModel;

    open spec fn deep_view(&self) -> FileProbeModel {
        FileProbeModel { path: self.path@, exists: self.exists, content: self.content.deep_view() }
    }
}

/// The texts among the members that a document lists for its workspace; none
/// where it has no workspace table or the table no array of members.
pub open spec fn listed_members(doc: Seq<TomlEntry>) -> Option<Seq<Seq<char>>> {
    match table_at(doc, "workspace"@) {
        Some(ws) => match entry_value(ws, "members"@) {
            Some(TomlValue::Array(a)) => Some(texts_among(a@)),
            _ => None,
        },
        None => None,
    }
}

/// The members that a document lists for its workspace.
pub fn members_of_document(doc: &Vec<TomlEntry>) -> (r: Option<Vec<String>>)
    ensures
        r.deep_view() == listed_members(doc@),
{
    match get_table_field(doc, "workspace") {
        Field::Present(ws) => match lookup(ws, "members") {
            Some(TomlValue::Array(a)) => Some(texts_found(a)),
            _ => None,
        },
        _ => None,
    }
}

/// The members that a text lists for its workspace, where the text is a
/// document.
pub open spec fn members_of_text(text: Option<Seq<char>>) -> Option<Seq<Seq<char>>> {
    match text {
        Some(t) => match toml_document(t) {
            Some(doc) => listed_members(doc),
            None => None,
        },
        None => None,
    }
}

/// The members that a text lists for its workspace.
pub fn members_of_manifest(text: &Option<String>) -> (r: Option<Vec<String>>)
    ensures
        r.deep_view() == members_of_text(text.deep_view()),
{
    match text {
        Some(t) => match parse_document(t.as_str()) {
            Some(doc) => members_of_document(&doc),
            None => None,
        },
        None => None,
    }
}

/// The patterns with a wildcard that the member list of a manifest holds,
/// each put behind the manifest's directory: what a caller expands before it
/// hands over a snapshot.
pub fn glob_patterns(dir: &str, manifest: &Option<String>) -> (r: Vec<String>)
    ensures
        r.deep_view() == match members_of_text(manifest.deep_view()) {
            Some(list) => crate::discovery::wildcard_patterns(dir@, list),
            None => Seq::empty(),
        },
{
    match members_of_manifest(manifest) {
        Some(list) => crate::discovery::patterns_in(dir, &list),
        None => {
            let r: Vec<String> = Vec::new();
            assert(r.deep_view() =~= Seq::<Seq<char>>::empty());
            r
        },
    }
}

/// The paths that the member list of a manifest stands for: where a caller
/// looks for the manifests of the members before it hands over a snapshot.
pub fn member_candidates(dir: &str, manifest: &Option<String>, globs: &Vec<GlobExpansion>) -> (r:
    Vec<String>)
    ensures
        r.deep_view() == match members_of_text(manifest.deep_view()) {
            Some(list) => members_listed(dir@, list, globs.deep_view()),
            None => Seq::empty(),
        },
{
    match members_of_manifest(manifest) {
        Some(list) => members_in(dir, &list, globs),
        None => {
            let r: Vec<String> = Vec::new();
            assert(r.deep_view() =~= Seq::<Seq<char>>::empty());
            r
        },
    }
}

/// The text of the first file recorded under a path.
pub open spec fn text_under(files: Seq<ManifestFileModel>, path: Seq<char>) -> Option<Seq<char>>
    decreases files.len(),
{
    if files.len() == 0 {
        None
    } else if files[0].path == path {
        files[0].content
    } else {
        text_under(files.drop_first(), path)
    }
}

/// The text of the first file recorded under a path.
pub fn find_text<'a>(files: &'a Vec<ManifestFile>, path: &str) -> (r: &'a Option<String>)
    ensures
        r.deep_view() == text_under(files.deep_view(), path@),
{
    let mut i: usize = 0;
    assert(files.deep_view().subrange(0, files.len() as int) =~= files.deep_view());
    while i < files.len()
        invariant
            i <= files.len(),
            text_under(files.deep_view(), path@) == text_under(
                files.deep_view().subrange(i as int, files.len() as int),
                path@,
            ),
        decreases files.len() - i,
    {
        let ghost rest = files.deep_view().subrange(i as int, files.len() as int);
        assert(rest[0] == files@[i as int].deep_view());
        if same_text(files[i].path.as_str(), path) {
            return &files[i].content;
        }
        assert(rest.drop_first() =~= files.deep_view().subrange(i + 1, files.len() as int));
        i += 1;
    }
    &None
}

/// Whether one of the paths is the given one.
pub open spec fn holds_path(paths: Seq<Seq<char>>, path: Seq<char>) -> bool {
    exists|i: int| 0 <= i < paths.len() && same_path(#[trigger] paths[i], path)
}

/// Whether one of the paths is the given one.
pub fn has_path(paths: &Vec<String>, path: &str) -> (r: bool)
    ensures
        r == holds_path(paths.deep_view(), path@),
{
    let mut i: usize = 0;
    while i < paths.len()
        invariant
            i <= paths.len(),
            forall|k: int| 0 <= k < i ==> !same_path(#[trigger] paths.deep_view()[k], path@),
        decreases paths.len() - i,
    {
        assert(paths.deep_view()[i as int] == paths@[i as int]@);
        if paths_equal(paths[i].as_str(), path) {
            return true;
        }
        i += 1;
    }
    false
}

/// Whether the workspace of a directory lists the project: the manifest of the
/// directory lists members, and one of the paths that they stand for is the
/// project.
pub open spec fn lists_project(
    dir: Seq<char>,
    project: Seq<char>,
    files: Seq<ManifestFileModel>,
    globs: Seq<GlobExpansionModel>,
) -> bool {
    match members_of_text(text_under(files, path_join(dir, "Cargo.toml"@))) {
        Some(list) => holds_path(members_listed(dir, list, globs), project),
        None => false,
    }
}

/// The first of the directories whose workspace lists the project.
pub open spec fn first_listing(
    dirs: Seq<Seq<char>>,
    project: Seq<char>,
    files: Seq<ManifestFileModel>,
    globs: Seq<GlobExpansionModel>,
) -> Option<Seq<char>>
    decreases dirs.len(),
{
    if dirs.len() == 0 {
        None
    } else if lists_project(dirs[0], project, files, globs) {
        Some(dirs[0])
    } else {
        first_listing(dirs.drop_first(), project, files, globs)
    }
}

/// The directories above a project in which a workspace is looked for: all
/// but the topmost.
pub open spec fn searched_above(project: Seq<char>) -> Seq<Seq<char>> {
    if ancestors(project).len() > 0 {
        ancestors(project).drop_last()
    } else {
        Seq::empty()
    }
}

/// The workspace above a project: the nearest directory above it whose
/// workspace lists it, with the directory's name, or `workspace` where it has
/// none.
pub open spec fn parent_workspace(
    project: Seq<char>,
    files: Seq<ManifestFileModel>,
    globs: Seq<GlobExpansionModel>,
) -> Option<(Seq<char>, Seq<char>)> {
    match first_listing(searched_above(project), project, files, globs) {
        Some(dir) => Some((dir, name_or(dir, "workspace"@))),
        None => None,
    }
}

/// Whether the workspace of a directory lists the project.
pub fn workspace_lists(
    dir: &str,
    project: &str,
    files: &Vec<ManifestFile>,
    globs: &Vec<GlobExpansion>,
) -> (r: bool)
    ensures
        r == lists_project(dir@, project@, files.deep_view(), globs.deep_view()),
{
    let manifest = join_path(dir, "Cargo.toml");
    match members_of_manifest(find_text(files, manifest.as_str())) {
        Some(list) => {
            let paths = members_in(dir, &list, globs);
            has_path(&paths, project)
        },
        None => false,
    }
}

/// The workspace above a project, as far as the recorded files and expansions
/// tell.
pub fn find_parent_workspace(
    project: &str,
    files: &Vec<ManifestFile>,
    globs: &Vec<GlobExpansion>,
) -> (r: Option<(String, String)>)
    ensures
        match (r, parent_workspace(project@, files.deep_view(), globs.deep_view())) {
            (Some(a), Some(b)) => a.0@ == b.0 && a.1@ == b.1,
            (None, None) => true,
            _ => false,
        },
{
    let above = ancestors_of(project);
    if above.len() == 0 {
        assert(above.deep_view().len() == 0);
        return None;
    }
    let last: usize = above.len() - 1;
    let ghost dirs = searched_above(project@);
    assert(above.deep_view().len() == above.len());
    assert(dirs.subrange(0, last as int) =~= dirs);
    let mut i: usize = 0;
    while i < last
        invariant
            i <= last,
            last + 1 == above.len(),
            above.deep_view() == ancestors(project@),
            dirs == searched_above(project@),
            dirs.len() == last,
            first_listing(dirs, project@, files.deep_view(), globs.deep_view()) == first_listing(
                dirs.subrange(i as int, last as int),
                project@,
                files.deep_view(),
                globs.deep_view(),
            ),
        decreases last - i,
    {
        let ghost rest = dirs.subrange(i as int, last as int);
        assert(rest[0] == above@[i as int]@) by {
            assert(above.deep_view()[i as int] == above@[i as int]@);
        }
        if workspace_lists(above[i].as_str(), project, files, globs) {
            let name = file_name_or(above[i].as_str(), "workspace");
            return Some((above[i].clone(), name));
        }
        assert(rest.drop_first() =~= dirs.subrange(i + 1, last as int));
        i += 1;
    }
    None
}

/// The state of the first file probed under a path: whether it is there, and
/// its text. A path that was not probed counts as missing.
pub open spec fn probe_under(probes: Seq<FileProbeModel>, path: Seq<char>) -> (
    bool,
    Option<Seq<char>>,
)
    decreases probes.len(),
{
    if probes.len() == 0 {
        (false, None)
    } else if probes[0].path == path {
        (probes[0].exists, probes[0].content)
    } else {
        probe_under(probes.drop_first(), path)
    }
}

/// The name of the package that a manifest declares, where the text is a
/// document that names one.
pub open spec fn package_name_in(text: Option<Seq<char>>) -> Option<Seq<char>> {
    match text {
        Some(t) => match toml_document(t) {
            Some(doc) => text_in(doc, "package"@, "name"@),
            None => None,
        },
        None => None,
    }
}

/// The name of the package that a manifest declares.
pub fn package_name_of(text: &Option<String>) -> (r: Option<String>)
    ensures
        r.deep_view() == package_name_in(text.deep_view()),
{
    match text {
        Some(t) => match parse_document(t.as_str()) {
            Some(doc) => get_text_in(&doc, "package", "name"),
            None => None,
        },
        None => None,
    }
}

/// The member at a path: none where the path has no manifest; else the member
/// under the name of its package, or under the given name where its manifest
/// names none.
pub open spec fn member_at(
    path: Seq<char>,
    fallback: Seq<char>,
    project: Seq<char>,
    probes: Seq<FileProbeModel>,
) -> Option<WorkspaceMemberModel> {
    let probe = probe_under(probes, path_join(path, "Cargo.toml"@));
    if probe.0 {
        Some(
            WorkspaceMemberModel {
                name: match package_name_in(probe.1) {
                    Some(n) => n,
                    None => fallback,
                },
                path: path,
                is_current: same_path(path, project),
            },
        )
    } else {
        None
    }
}

/// The members that the paths matched by a pattern give; a member without a
/// package name goes under the last component of its path.
pub open spec fn matched_members(
    paths: Seq<Seq<char>>,
    project: Seq<char>,
    probes: Seq<FileProbeModel>,
) -> Seq<WorkspaceMemberModel>
    decreases paths.len(),
{
    if paths.len() == 0 {
        Seq::empty()
    } else {
        let front = matched_members(paths.drop_last(), project, probes);
        match member_at(paths.last(), name_or(paths.last(), Seq::empty()), project, probes) {
            Some(m) => front.push(m),
            None => front,
        }
    }
}

/// The members that one entry of a member list gives: with a wildcard, those
/// of the paths that the pattern matches; without, the one at the entry's
/// path, which goes under the entry itself where its manifest names no package.
pub open spec fn members_for(
    project: Seq<char>,
    entry: Seq<char>,
    globs: Seq<GlobExpansionModel>,
    probes: Seq<FileProbeModel>,
) -> Seq<WorkspaceMemberModel> {
    if contains(entry, "*"@) {
        matched_members(expansion_of(globs, path_join(project, entry)), project, probes)
    } else {
        match member_at(path_join(project, entry), entry, project, probes) {
            Some(m) => seq![m],
            None => Seq::empty(),
        }
    }
}

/// The members of a member list, entry after entry.
pub open spec fn members_for_all(
    project: Seq<char>,
    entries: Seq<Seq<char>>,
    globs: Seq<GlobExpansionModel>,
    probes: Seq<FileProbeModel>,
) -> Seq<WorkspaceMemberModel>
    decreases entries.len(),
{
    if entries.len() == 0 {
        Seq::empty()
    } else {
        members_for_all(project, entries.drop_last(), globs, probes) + members_for(
            project,
            entries.last(),
            globs,
            probes,
        )
    }
}

/// What is recorded of the files around a project.
#[derive(Debug, Clone)]
pub struct WorkspaceSnapshot {
    pub project_path: String,
    /// The text of the project's manifest.
    pub manifest: Option<String>,
    /// The manifests of the directories above the project.
    pub ancestor_manifests: Vec<ManifestFile>,
    /// What the member patterns with a wildcard match.
    pub globs: Vec<GlobExpansion>,
    /// The manifests at the member paths.
    pub member_manifests: Vec<FileProbe>,
}

pub struct WorkspaceSnapshotModel {
    pub project_path: Seq<char>,
    pub manifest: Option<Seq<char>>,
    pub ancestor_manifests: Seq<ManifestFileModel>,
    pub globs: Seq<GlobExpansionModel>,
    pub member_manifests: Seq<FileProbeModel>,
}

impl DeepView for WorkspaceSnapshot {
    type V = WorkspaceSnapshotModel;

    open spec fn deep_view(&self) -> WorkspaceSnapshotModel {
        WorkspaceSnapshotModel {
            project_path: self.project_path@,
            manifest: self.manifest.deep_view(),
            ancestor_manifests: self.ancestor_manifests.deep_view(),
            globs: self.globs.deep_view(),
            member_manifests: self.member_manifests.deep_view(),
        }
    }
}

/// What a project has to do with workspaces: where its manifest lists members,
/// it is a workspace with the members that are there; else it is a member of
/// the workspace above it, if there is one.
pub open spec fn workspace_info_of(s: WorkspaceSnapshotModel) -> WorkspaceInfoModel {
    match members_of_text(s.manifest) {
        Some(list) => WorkspaceInfoModel {
            is_workspace: true,
            members: members_for_all(s.project_path, list, s.globs, s.member_manifests),
            root_path: Some(s.project_path),
            is_member_of_workspace: false,
            parent_workspace_path: None,
            parent_workspace_name: None,
        },
        None => {
            let parent = parent_workspace(s.project_path, s.ancestor_manifests, s.globs);
            WorkspaceInfoModel {
                is_workspace: false,
                members: Seq::empty(),
                root_path: None,
                is_member_of_workspace: parent is Some,
                parent_workspace_path: match parent {
                    Some(p) => Some(p.0),
                    None => None,
                },
                parent_workspace_name: match parent {
                    Some(p) => Some(p.1),
                    None => None,
                },
            }
        },
    }
}

/// The state of the first file probed under a path.
pub fn find_probe<'a>(probes: &'a Vec<FileProbe>, path: &str) -> (r: (bool, &'a Option<String>))
    ensures
        (r.0, r.1.deep_view()) == probe_under(probes.deep_view(), path@),
{
    let mut i: usize = 0;
    assert(probes.deep_view().subrange(0, probes.len() as int) =~= probes.deep_view());
    while i < probes.len()
        invariant
            i <= probes.len(),
            probe_under(probes.deep_view(), path@) == probe_under(
                probes.deep_view().subrange(i as int, probes.len() as int),
                path@,
            ),
        decreases probes.len() - i,
    {
        let ghost rest = probes.deep_view().subrange(i as int, probes.len() as int);
        assert(rest[0] == probes@[i as int].deep_view());
        if same_text(probes[i].path.as_str(), path) {
            return (probes[i].exists, &probes[i].content);
        }
        assert(rest.drop_first() =~= probes.deep_view().subrange(i + 1, probes.len() as int));
        i += 1;
    }
    (false, &None)
}

/// The member at a path, if the path has a manifest.
pub fn member_for(path: &str, fallback: &str, project: &str, probes: &Vec<FileProbe>) -> (r:
    Option<WorkspaceMember>)
    ensures
        r.deep_view() == member_at(path@, fallback@, project@, probes.deep_view()),
{
    let manifest = join_path(path, "Cargo.toml");
    let (exists, content) = find_probe(probes, manifest.as_str());
    if exists {
        Some(
            WorkspaceMember {
                name: match package_name_of(content) {
                    Some(n) => n,
                    None => fallback.to_owned(),
                },
                path: path.to_owned(),
                is_current: paths_equal(path, project),
            },
        )
    } else {
        None
    }
}

/// The members that the paths matched by a pattern give.
pub fn members_matched(paths: &Vec<String>, project: &str, probes: &Vec<FileProbe>) -> (r: Vec<
    WorkspaceMember,
>)
    ensures
        r.deep_view() == matched_members(paths.deep_view(), project@, probes.deep_view()),
{
    let mut out: Vec<WorkspaceMember> = Vec::new();
    let mut i: usize = 0;
    assert(paths.deep_view().take(0) =~= Seq::<Seq<char>>::empty());
    assert(out.deep_view() =~= Seq::<WorkspaceMemberModel>::empty());
    while i < paths.len()
        invariant
            i <= paths.len(),
            out.deep_view() == matched_members(
                paths.deep_view().take(i as int),
                project@,
                probes.deep_view(),
            ),
        decreases paths.len() - i,
    {
        proof {
            assert(paths.deep_view().take(i + 1).drop_last() =~= paths.deep_view().take(i as int));
            assert(paths.deep_view().take(i + 1).last() == paths@[i as int]@);
            reveal_strlit("");
            assert(""@ =~= Seq::<char>::empty());
        }
        let fallback = file_name_or(paths[i].as_str(), "");
        match member_for(paths[i].as_str(), fallback.as_str(), project, probes) {
            Some(m) => {
                let ghost before = out.deep_view();
                out.push(m);
                assert(out.deep_view() =~= before.push(m.deep_view()));
            },
            None => {},
        }
        i += 1;
    }
    assert(paths.deep_view().take(paths.len() as int) =~= paths.deep_view());
    out
}

/// The members that one entry of a member list gives.
pub fn members_of_entry(
    project: &str,
    entry: &str,
    globs: &Vec<GlobExpansion>,
    probes: &Vec<FileProbe>,
) -> (r: Vec<WorkspaceMember>)
    ensures
        r.deep_view() == members_for(project@, entry@, globs.deep_view(), probes.deep_view()),
{
    let joined = join_path(project, entry);
    if has_within(&chars_of(entry), &chars_of("*")) {
        let paths = crate::discovery::expansion_in(globs, joined.as_str());
        members_matched(&paths, project, probes)
    } else {
        let mut out: Vec<WorkspaceMember> = Vec::new();
        match member_for(joined.as_str(), entry, project, probes) {
            Some(m) => {
                out.push(m);
                assert(out.deep_view() =~= seq![m.deep_view()]);
            },
            None => {
                assert(out.deep_view() =~= Seq::<WorkspaceMemberModel>::empty());
            },
        }
        out
    }
}

/// The members of a member list.
pub fn workspace_members(
    project: &str,
    entries: &Vec<String>,
    globs: &Vec<GlobExpansion>,
    probes: &Vec<FileProbe>,
) -> (r: Vec<WorkspaceMember>)
    ensures
        r.deep_view() == members_for_all(
            project@,
            entries.deep_view(),
            globs.deep_view(),
            probes.deep_view(),
        ),
{
    let mut out: Vec<WorkspaceMember> = Vec::new();
    let mut i: usize = 0;
    assert(entries.deep_view().take(0) =~= Seq::<Seq<char>>::empty());
    assert(out.deep_view() =~= Seq::<WorkspaceMemberModel>::empty());
    while i < entries.len()
        invariant
            i <= entries.len(),
            out.deep_view() == members_for_all(
                project@,
                entries.deep_view().take(i as int),
                globs.deep_view(),
                probes.deep_view(),
            ),
        decreases entries.len() - i,
    {
        let ghost before = out.deep_view();
        let mut more = members_of_entry(project, entries[i].as_str(), globs, probes);
        proof {
            assert(entries.deep_view().take(i + 1).drop_last() =~= entries.deep_view().take(
                i as int,
            ));
            assert(entries.deep_view().take(i + 1).last() == entries@[i as int]@);
            assert(deep(out@ + more@) =~= before + more.deep_view());
        }
        out.append(&mut more);
        i += 1;
    }
    assert(entries.deep_view().take(entries.len() as int) =~= entries.deep_view());
    out
}

/// What a project has to do with workspaces, as far as the recorded files and
/// expansions tell.
pub fn get_workspace_info(snapshot: &WorkspaceSnapshot) -> (r: WorkspaceInfo)
    ensures
        r.deep_view() == workspace_info_of(snapshot.deep_view()),
{
    let project = snapshot.project_path.as_str();
    match members_of_manifest(&snapshot.manifest) {
        Some(list) => WorkspaceInfo {
            is_workspace: true,
            members: workspace_members(project, &list, &snapshot.globs, &snapshot.member_manifests),
            root_path: Some(snapshot.project_path.clone()),
            is_member_of_workspace: false,
            parent_workspace_path: None,
            parent_workspace_name: None,
        },
        None => {
            let r = match find_parent_workspace(
                project,
                &snapshot.ancestor_manifests,
                &snapshot.globs,
            ) {
                Some((path, name)) => WorkspaceInfo {
                    is_workspace: false,
                    members: Vec::new(),
                    root_path: None,
                    is_member_of_workspace: true,
                    parent_workspace_path: Some(path),
                    parent_workspace_name: Some(name),
                },
                None => WorkspaceInfo {
                    is_workspace: false,
                    members: Vec::new(),
                    root_path: None,
                    is_member_of_workspace: false,
                    parent_workspace_path: None,
                    parent_workspace_name: None,
                },
            };
            assert(r.members.deep_view() =~= Seq::<WorkspaceMemberModel>::empty());
            r
        },
    }
}

} // verus!
