//! The orders in which the library lists things are orders: what is sorted
//! by them is in order.

use vstd::prelude::*;
use crate::casing::{lemma_text_less_asymmetric, lemma_text_less_chain, lowercase};
use crate::dependencies::{by_use_count, usages, DepUseModel};
use crate::discovery::{by_lower_name, discovered, ProjectModel, TreeSnapshotModel};
use crate::licenses::{license_groups, problematic_first, sorted_unique, text_order};
use crate::manifest::{by_feature_name, features_of, CargoFeatureModel};
use crate::document::TomlEntry;
use crate::sorting::{is_ordered, is_strict_weak_order, lemma_sort_ordered};
use crate::toolchains::{by_group_size, groups_by_size};

verus! {

/// The order of strings is a strict weak order.
pub proof fn lemma_text_order()
    ensures
        is_strict_weak_order(text_order()),
{
    assert forall|a: Seq<char>, b: Seq<char>| #[trigger] text_order()(a, b) implies !text_order()(
        b,
        a,
    ) by {
        lemma_text_less_asymmetric(a, b);
    }
    assert forall|a: Seq<char>, b: Seq<char>, c: Seq<char>|
        !#[trigger] text_order()(a, b) && !#[trigger] text_order()(b, c) implies !text_order()(
        a,
        c,
    ) by {
        lemma_text_less_chain(a, b, c);
    }
}

/// The order of projects by name is a strict weak order.
pub proof fn lemma_name_order()
    ensures
        is_strict_weak_order(by_lower_name()),
{
    assert forall|a: ProjectModel, b: ProjectModel| #[trigger]
        by_lower_name()(a, b) implies !by_lower_name()(b, a) by {
        lemma_text_less_asymmetric(lowercase(a.name), lowercase(b.name));
    }
    assert forall|a: ProjectModel, b: ProjectModel, c: ProjectModel|
        !#[trigger] by_lower_name()(a, b) && !#[trigger] by_lower_name()(
            b,
            c,
        ) implies !by_lower_name()(a, c) by {
        lemma_text_less_chain(lowercase(a.name), lowercase(b.name), lowercase(c.name));
    }
}

/// The order of features by name is a strict weak order.
pub proof fn lemma_feature_order()
    ensures
        is_strict_weak_order(by_feature_name()),
{
    assert forall|a: CargoFeatureModel, b: CargoFeatureModel| #[trigger]
        by_feature_name()(a, b) implies !by_feature_name()(b, a) by {
        lemma_text_less_asymmetric(a.name, b.name);
    }
    assert forall|a: CargoFeatureModel, b: CargoFeatureModel, c: CargoFeatureModel|
        !#[trigger] by_feature_name()(a, b) && !#[trigger] by_feature_name()(
            b,
            c,
        ) implies !by_feature_name()(a, c) by {
        lemma_text_less_chain(a.name, b.name, c.name);
    }
}

/// The projects that discovery lists are in the order of their names, upper
/// and lower case taken as the same: none stands behind one whose name comes
/// after its own.
pub proof fn lemma_discovered_in_order(s: TreeSnapshotModel)
    ensures
        is_ordered(discovered(s), by_lower_name()),
{
    lemma_name_order();
    lemma_sort_ordered(crate::discovery::projects_found(s), by_lower_name());
}

/// The features of a manifest are listed in the order of their names.
pub proof fn lemma_features_in_order(doc: Seq<TomlEntry>)
    ensures
        is_ordered(features_of(doc).features, by_feature_name()),
{
    lemma_feature_order();
    match crate::manifest::table_at(doc, "features"@) {
        Some(t) => {
            lemma_sort_ordered(
                crate::seqs::collect(
                    t,
                    crate::manifest::feature_of(crate::manifest::texts_at(t, "default"@)),
                ),
                by_feature_name(),
            );
        },
        None => {},
    }
}

/// Groups are listed with the largest first.
pub proof fn lemma_groups_in_order(pairs: Seq<(Seq<char>, Seq<char>)>)
    ensures
        is_ordered(groups_by_size(pairs), by_group_size()),
{
    assert(is_strict_weak_order(by_group_size()));
    lemma_sort_ordered(crate::groups::grouped(pairs), by_group_size());
}

/// Dependencies are listed with the one declared most often first.
pub proof fn lemma_usages_in_order(uses: Seq<DepUseModel>)
    ensures
        is_ordered(usages(uses), by_use_count()),
{
    assert(is_strict_weak_order(by_use_count()));
    lemma_sort_ordered(
        crate::groups::distinct(crate::dependencies::names_of(uses)).map_values(
            |n: Seq<char>| crate::dependencies::usage_of(uses, n),
        ),
        by_use_count(),
    );
}

/// Licenses are listed with the problematic ones first and, among licenses of
/// one kind, the one with the most packages first.
pub proof fn lemma_licenses_in_order(pairs: Seq<(Seq<char>, Seq<char>)>)
    ensures
        is_ordered(license_groups(pairs), problematic_first()),
{
    assert(is_strict_weak_order(problematic_first()));
    lemma_sort_ordered(
        crate::groups::grouped(pairs).map_values(crate::licenses::license_group()),
        problematic_first(),
    );
}

/// The packages of a license are listed in the order of strings, each once.
pub proof fn lemma_packages_in_order(members: Seq<Seq<char>>)
    ensures
        is_ordered(sorted_unique(members), text_order()),
{
    lemma_text_order();
    lemma_sort_ordered(crate::groups::distinct(members), text_order());
}

} // verus!
