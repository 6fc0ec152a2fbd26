//! What the library reads out of a project's manifest: the package name, the
//! number of dependencies, the workspace declaration, the features and the
//! minimum toolchain version.

use vstd::prelude::*;
use crate::casing::{chars_less, text_less};
use crate::document::{
    entry_value, get_table_field, get_text_field, get_text_list_field, lookup, parse_document,
    table_field, text_field, text_list_field, texts_among, texts_found, toml_document, Field,
    TomlEntry, TomlValue,
};
use crate::seqs::{collect, deep, lemma_collect_step, lemma_deep_vec, lemma_sorted_deep};
use crate::sorting::{sort_stable, stable_sort, Ranked};
use crate::groups::holds_text;
use crate::text::{chars_of, same_text};

verus! {

broadcast use lemma_deep_vec;

/// What a manifest declares, as far as discovery reads it.
#[derive(Debug, Clone)]
pub struct ManifestRecord {
    /// The package's name, where the manifest gives one.
    pub name: Option<String>,
    /// The number of entries of the dependency table; zero without one.
    pub dependency_count: usize,
    /// Whether the manifest has a workspace table.
    pub has_workspace: bool,
    /// The member patterns of the workspace table, where it lists any.
    pub members: Option<Vec<String>>,
}

pub struct ManifestModel {
    pub name: Option<Seq<char>>,
    pub dependency_count: nat,
    pub has_workspace: bool,
    pub members: Option<Seq<Seq<char>>>,
}

impl DeepView for ManifestRecord {
    type V = ManifestModel;

    open spec fn deep_view(&self) -> ManifestModel {
        ManifestModel {
            name: self.name.deep_view(),
            dependency_count: self.dependency_count as nat,
            has_workspace: self.has_workspace,
            members: self.members.deep_view(),
        }
    }
}

/// The name in the package table: `Some(None)` where the table or the name is
/// missing, `None` where either is of the wrong kind.
pub open spec fn declared_name(doc: Seq<TomlEntry>) -> Option<Option<Seq<char>>> {
    match table_field(doc, "package"@) {
        Field::Absent => Some(None),
        Field::Malformed => None,
        Field::Present(p) => match text_field(p, "name"@) {
            Field::Absent => Some(None),
            Field::Present(s) => Some(Some(s)),
            Field::Malformed => None,
        },
    }
}

/// The size of the table under a key: `Some(None)` where the key is missing,
/// `None` where it holds no table.
pub open spec fn table_size(doc: Seq<TomlEntry>, key: Seq<char>) -> Option<Option<nat>> {
    match table_field(doc, key) {
        Field::Absent => Some(None),
        Field::Malformed => None,
        Field::Present(d) => Some(Some(d.len())),
    }
}

/// The workspace table: whether there is one, and its members. `None` where the
/// table or its member list is of the wrong kind.
pub open spec fn declared_workspace(doc: Seq<TomlEntry>) -> Option<(bool, Option<Seq<Seq<char>>>)> {
    match table_field(doc, "workspace"@) {
        Field::Absent => Some((false, None)),
        Field::Malformed => None,
        Field::Present(w) => match text_list_field(w, "members"@) {
            Field::Absent => Some((true, None)),
            Field::Present(list) => Some((true, Some(list))),
            Field::Malformed => None,
        },
    }
}

/// The record of a manifest. There is none where the package table, its name,
/// the dependency table, the workspace table or its member list is of the wrong
/// kind.
pub open spec fn manifest_of(doc: Seq<TomlEntry>) -> Option<ManifestModel> {
    match (declared_name(doc), table_size(doc, "dependencies"@), declared_workspace(doc)) {
        (Some(name), Some(size), Some(ws)) => Some(
            ManifestModel {
                name: name,
                dependency_count: match size {
                    Some(n) => n,
                    None => 0,
                },
                has_workspace: ws.0,
                members: ws.1,
            },
        ),
        _ => None,
    }
}

/// The record of a manifest that has been read as a document.
pub fn manifest_from(doc: &Vec<TomlEntry>) -> (r: Option<ManifestRecord>)
    ensures
        r.deep_view() == manifest_of(doc@),
{
    let name: Option<String> = match get_table_field(doc, "package") {
        Field::Absent => None,
        Field::Malformed => {
            return None;
        },
        Field::Present(p) => match get_text_field(p, "name") {
            Field::Absent => None,
            Field::Present(s) => Some(s),
            Field::Malformed => {
                return None;
            },
        },
    };
    let dependency_count: usize = match get_table_field(doc, "dependencies") {
        Field::Absent => 0,
        Field::Malformed => {
            return None;
        },
        Field::Present(d) => d.len(),
    };
    let (has_workspace, members): (bool, Option<Vec<String>>) = match get_table_field(
        doc,
        "workspace",
    ) {
        Field::Absent => (false, None),
        Field::Malformed => {
            return None;
        },
        Field::Present(w) => match get_text_list_field(w, "members") {
            Field::Absent => (true, None),
            Field::Present(list) => (true, Some(list)),
            Field::Malformed => {
                return None;
            },
        },
    };
    Some(ManifestRecord { name, dependency_count, has_workspace, members })
}

/// The record of a manifest given as text. There is none where the text is no
/// TOML document.
pub open spec fn manifest_of_text(text: Seq<char>) -> Option<ManifestModel> {
    match toml_document(text) {
        Some(doc) => manifest_of(doc),
        None => None,
    }
}

/// The record of a manifest given as text.
pub fn parse_manifest(text: &str) -> (r: Option<ManifestRecord>)
    ensures
        r.deep_view() == manifest_of_text(text@),
{
    match parse_document(text) {
        Some(doc) => manifest_from(&doc),
        None => None,
    }
}

/// The name under which a project is listed: the package's name, or the word
/// "unknown" where the manifest gives none.
pub open spec fn listed_name(m: ManifestModel) -> Seq<char> {
    match m.name {
        Some(n) => n,
        None => "unknown"@,
    }
}

/// The name under which a project is listed.
pub fn name_of_record(m: &ManifestRecord) -> (r: String)
    ensures
        r@ == listed_name(m.deep_view()),
{
    match &m.name {
        Some(n) => n.clone(),
        None => "unknown".to_owned(),
    }
}

/// Name, number of dependencies, and whether there is a workspace table.
pub fn summary_of_record(m: &ManifestRecord) -> (r: (String, usize, bool))
    ensures
        r.0@ == listed_name(m.deep_view()),
        r.1 == m.dependency_count,
        r.2 == m.has_workspace,
{
    (name_of_record(m), m.dependency_count, m.has_workspace)
}

/// Name, number of dependencies, and whether the manifest declares a workspace,
/// for a manifest given as text.
pub fn parse_cargo_toml(content: &str) -> (r: Option<(String, usize, bool)>)
    ensures
        match (r, manifest_of_text(content@)) {
            (Some(t), Some(m)) => t.0@ == listed_name(m) && t.1 == m.dependency_count && t.2
                == m.has_workspace,
            (None, None) => true,
            _ => false,
        },
{
    match parse_manifest(content) {
        Some(m) => Some(summary_of_record(&m)),
        None => None,
    }
}

/// The text under a key, where the key holds a text.
pub open spec fn text_at(entries: Seq<TomlEntry>, key: Seq<char>) -> Option<Seq<char>> {
    match text_field(entries, key) {
        Field::Present(s) => Some(s),
        _ => None,
    }
}

/// The table under a key, where the key holds a table.
pub open spec fn table_at(entries: Seq<TomlEntry>, key: Seq<char>) -> Option<Seq<TomlEntry>> {
    match table_field(entries, key) {
        Field::Present(t) => Some(t),
        _ => None,
    }
}

/// The text under a key of the table under another key.
pub open spec fn text_in(doc: Seq<TomlEntry>, table: Seq<char>, key: Seq<char>) -> Option<
    Seq<char>,
> {
    match table_at(doc, table) {
        Some(t) => text_at(t, key),
        None => None,
    }
}

/// The text under a key of the table under another key.
pub fn get_text_in(doc: &Vec<TomlEntry>, table: &str, key: &str) -> (r: Option<String>)
    ensures
        r.deep_view() == text_in(doc@, table@, key@),
{
    match get_table_field(doc, table) {
        Field::Present(t) => match get_text_field(t, key) {
            Field::Present(s) => Some(s),
            _ => None,
        },
        _ => None,
    }
}

/// The minimum toolchain version and the edition that a manifest declares.
#[derive(Debug, Clone)]
pub struct MsrvInfo {
    pub msrv: Option<String>,
    pub rust_version: Option<String>,
    pub edition: Option<String>,
}

pub struct MsrvModel {
    pub msrv: Option<Seq<char>>,
    pub rust_version: Option<Seq<char>>,
    pub edition: Option<Seq<char>>,
}

impl DeepView for MsrvInfo {
    type V = MsrvModel;

    open spec fn deep_view(&self) -> MsrvModel {
        MsrvModel {
            msrv: self.msrv.deep_view(),
            rust_version: self.rust_version.deep_view(),
            edition: self.edition.deep_view(),
        }
    }
}

impl Default for MsrvInfo {
    fn default() -> (r: Self)
        ensures
            r.msrv is None,
            r.rust_version is None,
            r.edition is None,
    {
        MsrvInfo { msrv: None, rust_version: None, edition: None }
    }
}

/// What the package table says of the toolchain: `rust-version`, given twice,
/// and `edition`; each only where it is a text.
pub open spec fn msrv_of(doc: Seq<TomlEntry>) -> MsrvModel {
    MsrvModel {
        msrv: text_in(doc, "package"@, "rust-version"@),
        rust_version: text_in(doc, "package"@, "rust-version"@),
        edition: text_in(doc, "package"@, "edition"@),
    }
}

/// What the package table of a manifest says of the toolchain.
pub fn parse_msrv_toml(table: &Vec<TomlEntry>) -> (r: MsrvInfo)
    ensures
        r.deep_view() == msrv_of(table@),
{
    MsrvInfo {
        msrv: get_text_in(table, "package", "rust-version"),
        rust_version: get_text_in(table, "package", "rust-version"),
        edition: get_text_in(table, "package", "edition"),
    }
}

/// The same for a manifest given as text; nothing is declared where the text
/// is no TOML document.
pub open spec fn msrv_of_text(text: Option<Seq<char>>) -> MsrvModel {
    match text {
        Some(t) => match toml_document(t) {
            Some(doc) => msrv_of(doc),
            None => MsrvModel { msrv: None, rust_version: None, edition: None },
        },
        None => MsrvModel { msrv: None, rust_version: None, edition: None },
    }
}

/// The toolchain data of a manifest, from its text or from the fact that it
/// could not be read.
pub fn msrv_from_text(content: Option<&str>) -> (r: MsrvInfo)
    ensures
        r.deep_view() == msrv_of_text(content.deep_view()),
{
    match content {
        Some(t) => match parse_document(t) {
            Some(doc) => parse_msrv_toml(&doc),
            None => MsrvInfo { msrv: None, rust_version: None, edition: None },
        },
        None => MsrvInfo { msrv: None, rust_version: None, edition: None },
    }
}

/// One feature of a package.
#[derive(Debug, Clone)]
pub struct CargoFeature {
    pub name: String,
    pub dependencies: Vec<String>,
    pub is_default: bool,
}

pub struct CargoFeatureModel {
    pub name: Seq<char>,
    pub dependencies: Seq<Seq<char>>,
    pub is_default: bool,
}

impl DeepView for CargoFeature {
    type V = CargoFeatureModel;

    open spec fn deep_view(&self) -> CargoFeatureModel {
        CargoFeatureModel {
            name: self.name@,
            dependencies: self.dependencies.deep_view(),
            is_default: self.is_default,
        }
    }
}

impl Ranked for CargoFeature {
    open spec fn ranks_before(&self, other: &Self) -> bool {
        text_less(self.name@, other.name@)
    }

    fn goes_before(&self, other: &Self) -> (r: bool) {
        let a = chars_of(self.name.as_str());
        let b = chars_of(other.name.as_str());
        chars_less(&a, &b)
    }
}

/// The features of a package and the ones that are on by default.
#[derive(Debug, Clone)]
pub struct CargoFeatures {
    pub features: Vec<CargoFeature>,
    pub default_features: Vec<String>,
}

pub struct CargoFeaturesModel {
    pub features: Seq<CargoFeatureModel>,
    pub default_features: Seq<Seq<char>>,
}

impl DeepView for CargoFeatures {
    type V = CargoFeaturesModel;

    open spec fn deep_view(&self) -> CargoFeaturesModel {
        CargoFeaturesModel {
            features: self.features.deep_view(),
            default_features: self.default_features.deep_view(),
        }
    }
}

/// The texts of the array under a key; none where the key holds no array.
pub open spec fn texts_at(entries: Seq<TomlEntry>, key: Seq<char>) -> Seq<Seq<char>> {
    match entry_value(entries, key) {
        Some(TomlValue::Array(a)) => texts_among(a@),
        _ => Seq::empty(),
    }
}

/// The texts of a value that is an array; none for another value.
pub open spec fn texts_in(value: TomlValue) -> Seq<Seq<char>> {
    match value {
        TomlValue::Array(a) => texts_among(a@),
        _ => Seq::empty(),
    }
}

/// The feature that an entry of the feature table declares; the entry
/// `default` declares none.
pub open spec fn feature_of(defaults: Seq<Seq<char>>) -> spec_fn(TomlEntry) -> Option<
    CargoFeatureModel,
> {
    |e: TomlEntry|
        if e.key@ == "default"@ {
            None
        } else {
            Some(
                CargoFeatureModel {
                    name: e.key@,
                    dependencies: texts_in(e.value),
                    is_default: defaults.contains(e.key@),
                },
            )
        }
}

/// Features are listed by name.
pub open spec fn by_feature_name() -> spec_fn(CargoFeatureModel, CargoFeatureModel) -> bool {
    |a: CargoFeatureModel, b: CargoFeatureModel| text_less(a.name, b.name)
}

/// The features that a manifest declares: one for each entry of its feature
/// table but `default`, sorted by name, and the texts of the array `default`.
pub open spec fn features_of(doc: Seq<TomlEntry>) -> CargoFeaturesModel {
    match table_at(doc, "features"@) {
        Some(t) => CargoFeaturesModel {
            features: stable_sort(collect(t, feature_of(texts_at(t, "default"@))), by_feature_name()),
            default_features: texts_at(t, "default"@),
        },
        None => CargoFeaturesModel { features: Seq::empty(), default_features: Seq::empty() },
    }
}

/// The texts of the array under a key.
pub fn get_texts_at(entries: &Vec<TomlEntry>, key: &str) -> (r: Vec<String>)
    ensures
        r.deep_view() == texts_at(entries@, key@),
{
    match lookup(entries, key) {
        Some(TomlValue::Array(a)) => texts_found(a),
        _ => {
            let r: Vec<String> = Vec::new();
            assert(r.deep_view() =~= Seq::<Seq<char>>::empty());
            r
        },
    }
}

/// The texts of a value that is an array.
pub fn get_texts_in(value: &TomlValue) -> (r: Vec<String>)
    ensures
        r.deep_view() == texts_in(*value),
{
    match value {
        TomlValue::Array(a) => texts_found(a),
        _ => {
            let r: Vec<String> = Vec::new();
            assert(r.deep_view() =~= Seq::<Seq<char>>::empty());
            r
        },
    }
}

/// The features that a manifest declares.
pub fn parse_cargo_features_toml(table: &Vec<TomlEntry>) -> (r: CargoFeatures)
    ensures
        r.deep_view() == features_of(table@),
{
    match get_table_field(table, "features") {
        Field::Present(t) => {
            let default_features = get_texts_at(t, "default");
            let ghost pick = feature_of(default_features.deep_view());
            let mut features: Vec<CargoFeature> = Vec::new();
            let mut i: usize = 0;
            assert(t@.take(0) == Seq::<TomlEntry>::empty());
            assert(deep(features@) =~= Seq::<CargoFeatureModel>::empty());
            while i < t.len()
                invariant
                    i <= t.len(),
                    pick == feature_of(default_features.deep_view()),
                    deep(features@) == collect(t@.take(i as int), pick),
                decreases t.len() - i,
            {
                proof {
                    lemma_collect_step(t@, pick, i as int);
                }
                let entry = &t[i];
                if !same_text(entry.key.as_str(), "default") {
                    let feature = CargoFeature {
                        name: entry.key.clone(),
                        dependencies: get_texts_in(&entry.value),
                        is_default: holds_text(&default_features, entry.key.as_str()),
                    };
                    let ghost before = features@;
                    features.push(feature);
                    assert(deep(features@) =~= deep(before).push(feature.deep_view()));
                }
                i += 1;
            }
            assert(t@.take(t.len() as int) == t@);
            let ghost unsorted = features@;
            sort_stable(&mut features);
            proof {
                lemma_sorted_deep(unsorted, features@, by_feature_name());
            }
            CargoFeatures { features, default_features }
        },
        _ => {
            let r = CargoFeatures { features: Vec::new(), default_features: Vec::new() };
            assert(r.features.deep_view() =~= Seq::<CargoFeatureModel>::empty());
            assert(r.default_features.deep_view() =~= Seq::<Seq<char>>::empty());
            r
        },
    }
}

} // verus!
