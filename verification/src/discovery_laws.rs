//! What holds of every discovery.

use vstd::prelude::*;
use crate::discovery::{
    by_lower_name, discovered, file_total, in_build_output, is_member, members_declared,
    members_of, names_manifest, project_of, projects_found, ManifestFactsModel, ProjectModel,
    TreeSnapshotModel,
};
use crate::paths::path_parent;
use crate::seqs::{collect, lemma_collect_none, lemma_collect_origin};
use crate::sorting::{lemma_sort_len, lemma_sort_member};

verus! {

/// A tree in which the walk met no file named as a manifest has no projects.
pub proof fn lemma_no_manifest_no_project(s: TreeSnapshotModel)
    requires
        forall|i: int| 0 <= i < s.manifests.len() ==> !names_manifest(s.manifests[i].path),
    ensures
        discovered(s) == Seq::<crate::discovery::ProjectModel>::empty(),
{
    let pick = project_of(members_of(s.manifests, s.globs), s.ancestor_manifests);
    assert forall|i: int| 0 <= i < s.manifests.len() implies pick(#[trigger] s.manifests[i])
        is None by {
        assert(!names_manifest(s.manifests[i].path));
    }
    lemma_collect_none(s.manifests, pick);
    lemma_sort_len(projects_found(s), by_lower_name());
    assert(discovered(s) =~= Seq::<crate::discovery::ProjectModel>::empty());
}

/// Every discovered project is the project of one of the manifests that the
/// walk met.
pub proof fn lemma_project_origin(s: TreeSnapshotModel, k: int)
    requires
        0 <= k < discovered(s).len(),
    ensures
        exists|i: int|
            0 <= i < s.manifests.len() && project_of(
                members_of(s.manifests, s.globs),
                s.ancestor_manifests,
            )(#[trigger] s.manifests[i]) == Some(discovered(s)[k]),
{
    let pick = project_of(members_of(s.manifests, s.globs), s.ancestor_manifests);
    lemma_sort_member(projects_found(s), by_lower_name(), k);
    let j = choose|j: int|
        0 <= j < projects_found(s).len() && projects_found(s)[j] == discovered(s)[k];
    lemma_collect_origin(s.manifests, pick, j);
}

/// The artifact size of a discovered project is the sum of the sizes of the
/// regular files under the build-output directory beside its manifest; it is
/// zero where there are none.
pub proof fn lemma_artifact_size_is_exact(s: TreeSnapshotModel, k: int)
    requires
        0 <= k < discovered(s).len(),
    ensures
        exists|i: int|
            0 <= i < s.manifests.len() && path_parent((#[trigger] s.manifests[i]).path) == Some(
                discovered(s)[k].path,
            ) && discovered(s)[k].target_size == file_total(s.manifests[i].target_entries),
{
    lemma_project_origin(s, k);
    let i = choose|i: int|
        0 <= i < s.manifests.len() && project_of(
            members_of(s.manifests, s.globs),
            s.ancestor_manifests,
        )(#[trigger] s.manifests[i]) == Some(discovered(s)[k]);
    assert(path_parent(s.manifests[i].path) == Some(discovered(s)[k].path));
}

/// A discovered project is marked as a member exactly where its directory is
/// one of the member paths, and a project that is no member has no workspace
/// root.
pub proof fn lemma_non_member_has_no_root(s: TreeSnapshotModel, k: int)
    requires
        0 <= k < discovered(s).len(),
    ensures
        discovered(s)[k].is_workspace_member == is_member(
            members_of(s.manifests, s.globs),
            discovered(s)[k].path,
        ),
        !discovered(s)[k].is_workspace_member ==> discovered(s)[k].workspace_root is None,
{
    lemma_project_origin(s, k);
}

/// Two discoveries over the same snapshot give the same projects in the same
/// order.
pub proof fn lemma_discovery_repeats(a: TreeSnapshotModel, b: TreeSnapshotModel)
    requires
        a.manifests == b.manifests,
        a.globs == b.globs,
        a.ancestor_manifests == b.ancestor_manifests,
    ensures
        discovered(a) == discovered(b),
{
}

/// Sorting loses no project and makes none: the list holds the projects of
/// the manifests, each as often as it was found.
pub proof fn lemma_discovery_keeps_all(s: TreeSnapshotModel)
    ensures
        discovered(s).to_multiset() == projects_found(s).to_multiset(),
        discovered(s).len() == projects_found(s).len(),
{
    crate::sorting::lemma_sort_multiset(projects_found(s), by_lower_name());
    lemma_sort_len(projects_found(s), by_lower_name());
}

/// Where no two manifests of a snapshot lie in the same directory, no two
/// discovered projects have the same path.
pub proof fn lemma_paths_are_unique(s: TreeSnapshotModel)
    requires
        forall|i: int, j: int|
            0 <= i < j < s.manifests.len() ==> path_parent(s.manifests[i].path) != path_parent(
                s.manifests[j].path,
            ),
    ensures
        forall|a: int, b: int|
            0 <= a < b < discovered(s).len() ==> discovered(s)[a].path != discovered(s)[b].path,
{
    let pick = project_of(members_of(s.manifests, s.globs), s.ancestor_manifests);
    let key = |p: crate::discovery::ProjectModel| p.path;
    assert forall|i: int, j: int|
        0 <= i < j < s.manifests.len() && pick(s.manifests[i]) is Some && pick(
            s.manifests[j],
        ) is Some implies key(pick(s.manifests[i]).unwrap()) != key(
        pick(s.manifests[j]).unwrap(),
    ) by {
        assert(path_parent(s.manifests[i].path) == Some(pick(s.manifests[i]).unwrap().path));
        assert(path_parent(s.manifests[j].path) == Some(pick(s.manifests[j]).unwrap().path));
    }
    crate::seqs::lemma_collect_distinct(s.manifests, pick, key);
    crate::seqs::lemma_sort_distinct(projects_found(s), by_lower_name(), key);
    assert forall|a: int, b: int| 0 <= a < b < discovered(s).len() implies discovered(s)[a].path
        != discovered(s)[b].path by {
        assert(key(discovered(s)[a]) != key(discovered(s)[b]));
    }
}

/// The manifests that lie outside build output, in the order of the walk.
pub open spec fn outside_build_output(manifests: Seq<ManifestFactsModel>) -> Seq<
    ManifestFactsModel,
>
    decreases manifests.len(),
{
    if manifests.len() == 0 {
        Seq::empty()
    } else if in_build_output(manifests.last().path) {
        outside_build_output(manifests.drop_last())
    } else {
        outside_build_output(manifests.drop_last()).push(manifests.last())
    }
}

/// A manifest in build output declares no member, whatever it lists: the
/// member paths are those that the manifests outside build output declare.
pub proof fn lemma_build_output_declares_nothing(
    manifests: Seq<ManifestFactsModel>,
    globs: Seq<crate::discovery::GlobExpansionModel>,
)
    ensures
        forall|i: int|
            0 <= i < manifests.len() && in_build_output((#[trigger] manifests[i]).path)
                ==> members_declared(manifests[i], globs) == Seq::<Seq<char>>::empty(),
        members_of(manifests, globs) == members_of(outside_build_output(manifests), globs),
    decreases manifests.len(),
{
    if manifests.len() > 0 {
        let front = manifests.drop_last();
        lemma_build_output_declares_nothing(front, globs);
        if in_build_output(manifests.last().path) {
            assert(members_of(front, globs) + Seq::<Seq<char>>::empty() == members_of(
                front,
                globs,
            ));
        } else {
            assert(outside_build_output(manifests).drop_last() == outside_build_output(front));
        }
    }
}

/// The projects that a choice of members and recorded files gives are those
/// of the manifests outside build output.
proof fn lemma_projects_outside(
    manifests: Seq<ManifestFactsModel>,
    pick: spec_fn(ManifestFactsModel) -> Option<ProjectModel>,
)
    requires
        forall|m: ManifestFactsModel| in_build_output(m.path) ==> #[trigger] pick(m) is None,
    ensures
        collect(manifests, pick) == collect(outside_build_output(manifests), pick),
    decreases manifests.len(),
{
    if manifests.len() > 0 {
        let front = manifests.drop_last();
        lemma_projects_outside(front, pick);
        if !in_build_output(manifests.last().path) {
            assert(outside_build_output(manifests).drop_last() == outside_build_output(front));
        }
    }
}

/// Discovery takes no notice of build output: a tree gives the same projects,
/// members and workspace roots as the same tree without the manifests that lie
/// in build output.
pub proof fn lemma_build_output_is_ignored(s: TreeSnapshotModel)
    ensures
        discovered(s) == discovered(
            (TreeSnapshotModel {
                manifests: outside_build_output(s.manifests),
                globs: s.globs,
                ancestor_manifests: s.ancestor_manifests,
            }),
        ),
{
    lemma_build_output_declares_nothing(s.manifests, s.globs);
    let pick = project_of(members_of(s.manifests, s.globs), s.ancestor_manifests);
    lemma_projects_outside(s.manifests, pick);
}

} // verus!
