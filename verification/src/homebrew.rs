//! Installations by Homebrew: what its report says of a formula, and whether
//! an update is to be had.

use vstd::prelude::*;
use crate::groups::copy_text;
use crate::json::{
    first_item, get_first, get_member, get_text, json_document, member_in, parse_json,
    text_value, JsonValue,
};
use crate::text::same_text;

verus! {

/// The versions of a formula: the one installed and the latest.
#[derive(Debug, Clone)]
pub struct BrewVersionInfo {
    pub installed_version: Option<String>,
    pub latest_version: Option<String>,
}

impl Default for BrewVersionInfo {
    fn default() -> (r: Self)
        ensures
            r.installed_version is None,
            r.latest_version is None,
    {
        BrewVersionInfo { installed_version: None, latest_version: None }
    }
}

/// The first formula of a report.
pub open spec fn first_formula(doc: JsonValue) -> Option<JsonValue> {
    first_item(member_in(Some(doc), "formulae"@))
}

/// The installed version of a formula: the text under `version` of the first
/// item of `installed`.
pub open spec fn installed_version(formula: JsonValue) -> Option<Seq<char>> {
    text_value(member_in(first_item(member_in(Some(formula), "installed"@)), "version"@))
}

/// The latest version of a formula: the text under `stable` of `versions`.
pub open spec fn latest_version(formula: JsonValue) -> Option<Seq<char>> {
    text_value(member_in(member_in(Some(formula), "versions"@), "stable"@))
}

/// The versions that a report gives for its first formula; none where the
/// report has no formula.
pub fn brew_versions(doc: &JsonValue) -> (r: Option<BrewVersionInfo>)
    ensures
        match (r, first_formula(*doc)) {
            (Some(info), Some(formula)) => info.installed_version.deep_view() == installed_version(
                formula,
            ) && info.latest_version.deep_view() == latest_version(formula),
            (None, None) => true,
            _ => false,
        },
{
    match get_first(get_member(Some(doc), "formulae")) {
        Some(formula) => {
            let installed = get_text(
                get_member(get_first(get_member(Some(formula), "installed")), "version"),
            );
            let latest = get_text(get_member(get_member(Some(formula), "versions"), "stable"));
            Some(BrewVersionInfo { installed_version: installed, latest_version: latest })
        },
        None => None,
    }
}

/// Parse brew info --json=v2 output to extract version information; none
/// where the output is no JSON or has no formula.
pub fn parse_brew_info_json(json_str: &str) -> (r: Option<BrewVersionInfo>)
    ensures
        match json_document(json_str@) {
            Some(doc) => match (r, first_formula(doc)) {
                (Some(info), Some(formula)) => info.installed_version.deep_view()
                    == installed_version(formula) && info.latest_version.deep_view()
                    == latest_version(formula),
                (None, None) => true,
                _ => false,
            },
            None => r is None,
        },
{
    match parse_json(json_str) {
        Some(doc) => brew_versions(&doc),
        None => None,
    }
}

/// Whether an update is to be had: both versions are known and differ.
pub open spec fn update_to_be_had(current: Option<Seq<char>>, latest: Option<Seq<char>>) -> bool {
    match (current, latest) {
        (Some(c), Some(l)) => c != l,
        _ => false,
    }
}

/// Whether an update is to be had.
pub fn update_available(current: &Option<String>, latest: &Option<String>) -> (r: bool)
    ensures
        r == update_to_be_had(current.deep_view(), latest.deep_view()),
{
    match (current, latest) {
        (Some(c), Some(l)) => !same_text(c.as_str(), l.as_str()),
        _ => false,
    }
}

/// Whether the application came by Homebrew, and in which version.
#[derive(Debug, Clone)]
pub struct HomebrewStatus {
    pub installed_via_homebrew: bool,
    pub current_version: Option<String>,
    pub latest_version: Option<String>,
    pub update_available: bool,
    pub formula_name: Option<String>,
}

pub struct HomebrewStatusModel {
    pub installed_via_homebrew: bool,
    pub current_version: Option<Seq<char>>,
    pub latest_version: Option<Seq<char>>,
    pub update_available: bool,
    pub formula_name: Option<Seq<char>>,
}

impl DeepView for HomebrewStatus {
    type V = HomebrewStatusModel;

    open spec fn deep_view(&self) -> HomebrewStatusModel {
        HomebrewStatusModel {
            installed_via_homebrew: self.installed_via_homebrew,
            current_version: self.current_version.deep_view(),
            latest_version: self.latest_version.deep_view(),
            update_available: self.update_available,
            formula_name: self.formula_name.deep_view(),
        }
    }
}

/// The status where the application did not come by Homebrew.
pub open spec fn not_by_homebrew() -> HomebrewStatusModel {
    HomebrewStatusModel {
        installed_via_homebrew: false,
        current_version: None,
        latest_version: None,
        update_available: false,
        formula_name: None,
    }
}

/// The status where the application did not come by Homebrew.
pub fn no_homebrew_status() -> (r: HomebrewStatus)
    ensures
        r.deep_view() == not_by_homebrew(),
{
    HomebrewStatus {
        installed_via_homebrew: false,
        current_version: None,
        latest_version: None,
        update_available: false,
        formula_name: None,
    }
}

/// The status that the versions of a formula give: installed where a version
/// is installed, and none otherwise.
pub open spec fn status_of_formula(
    name: Seq<char>,
    current: Option<Seq<char>>,
    latest: Option<Seq<char>>,
) -> Option<HomebrewStatusModel> {
    if current is Some {
        Some(
            HomebrewStatusModel {
                installed_via_homebrew: true,
                current_version: current,
                latest_version: latest,
                update_available: update_to_be_had(current, latest),
                formula_name: Some(name),
            },
        )
    } else {
        None
    }
}

/// The status that the versions of a formula give.
pub fn formula_status(name: &str, info: &BrewVersionInfo) -> (r: Option<HomebrewStatus>)
    ensures
        r.deep_view() == status_of_formula(
            name@,
            info.installed_version.deep_view(),
            info.latest_version.deep_view(),
        ),
{
    if info.installed_version.is_some() {
        Some(
            HomebrewStatus {
                installed_via_homebrew: true,
                current_version: copy_text(&info.installed_version),
                latest_version: copy_text(&info.latest_version),
                update_available: update_available(&info.installed_version, &info.latest_version),
                formula_name: Some(name.to_owned()),
            },
        )
    } else {
        None
    }
}

/// The names under which the application's formula is looked for, in order.
pub fn formula_names() -> (r: Vec<String>)
    ensures
        r.deep_view() == seq!["rust-helper"@, "thrashr888/tap/rust-helper"@],
{
    let mut out: Vec<String> = Vec::new();
    out.push("rust-helper".to_owned());
    out.push("thrashr888/tap/rust-helper".to_owned());
    assert(out.deep_view() =~= seq!["rust-helper"@, "thrashr888/tap/rust-helper"@]);
    out
}

/// Whether the toolchain came by Homebrew, and in which version.
#[derive(Debug, Clone)]
pub struct RustHomebrewStatus {
    pub installed_via_homebrew: bool,
    pub current_version: Option<String>,
    pub latest_version: Option<String>,
    pub update_available: bool,
}

pub struct RustHomebrewStatusModel {
    pub installed_via_homebrew: bool,
    pub current_version: Option<Seq<char>>,
    pub latest_version: Option<Seq<char>>,
    pub update_available: bool,
}

impl DeepView for RustHomebrewStatus {
    type V = RustHomebrewStatusModel;

    open spec fn deep_view(&self) -> RustHomebrewStatusModel {
        RustHomebrewStatusModel {
            installed_via_homebrew: self.installed_via_homebrew,
            current_version: self.current_version.deep_view(),
            latest_version: self.latest_version.deep_view(),
            update_available: self.update_available,
        }
    }
}

/// The status of the toolchain: by Homebrew where the compiler says so; then
/// with the compiler's version, the latest version known, and whether the two
/// differ.
pub open spec fn rust_status_of(
    is_homebrew: bool,
    current: Option<Seq<char>>,
    latest: Option<Seq<char>>,
) -> RustHomebrewStatusModel {
    if is_homebrew {
        RustHomebrewStatusModel {
            installed_via_homebrew: true,
            current_version: current,
            latest_version: latest,
            update_available: update_to_be_had(current, latest),
        }
    } else {
        RustHomebrewStatusModel {
            installed_via_homebrew: false,
            current_version: None,
            latest_version: None,
            update_available: false,
        }
    }
}

/// The status of the toolchain.
pub fn rust_homebrew_status(
    is_homebrew: bool,
    current: Option<String>,
    latest: Option<String>,
) -> (r: RustHomebrewStatus)
    ensures
        r.deep_view() == rust_status_of(is_homebrew, current.deep_view(), latest.deep_view()),
{
    if is_homebrew {
        let update = update_available(&current, &latest);
        RustHomebrewStatus {
            installed_via_homebrew: true,
            current_version: current,
            latest_version: latest,
            update_available: update,
        }
    } else {
        RustHomebrewStatus {
            installed_via_homebrew: false,
            current_version: None,
            latest_version: None,
            update_available: false,
        }
    }
}

} // verus!
