//! The settings that the application keeps, the results that it caches, and
//! the clock that stamps them.

use vstd::prelude::*;
use crate::dependencies::DepAnalysis;
use crate::groups::holds_text;
use crate::licenses::LicenseAnalysis;
use crate::reports::{AuditResult, OutdatedResult};
use crate::seqs::{collect, lemma_collect_step, lemma_deep_vec};
use crate::text::same_text;
use crate::toolchains::ToolchainAnalysis;

verus! {

broadcast use lemma_deep_vec;

#[verifier::external_type_specification]
#[verifier::external_body]
pub struct ExSystemTime(std::time::SystemTime);

#[verifier::external_type_specification]
#[verifier::external_body]
pub struct ExSystemTimeError(std::time::SystemTimeError);

/// `SystemTime::now`: the time of the system clock. Nothing is claimed of it.
#[verifier::external_body]
pub(crate) fn system_now() -> std::time::SystemTime {
    std::time::SystemTime::now()
}

/// `SystemTime::duration_since` with the epoch of Unix: the time that has
/// passed since then, or an error for a time before it. Nothing is claimed of
/// the result.
#[verifier::external_body]
pub(crate) fn since_epoch(t: &std::time::SystemTime) -> Result<
    std::time::Duration,
    std::time::SystemTimeError,
> {
    t.duration_since(std::time::UNIX_EPOCH)
}

/// `Duration::as_secs`: the whole seconds of a duration. Nothing is claimed of
/// the result.
pub assume_specification[ std::time::Duration::as_secs ](d: &std::time::Duration) -> u64
;

/// Seconds to report for a reading of the clock: the reading itself, or zero
/// where the clock stood before the epoch.
pub fn timestamp_or_zero(elapsed: Option<u64>) -> (secs: u64)
    ensures
        secs == match elapsed {
            Some(s) => s,
            None => 0,
        },
{
    match elapsed {
        Some(s) => s,
        None => 0,
    }
}

/// The seconds since the epoch of Unix by the system clock; zero where the
/// clock stands before the epoch.
pub fn get_current_timestamp() -> u64 {
    let now = system_now();
    let elapsed = match since_epoch(&now) {
        Ok(d) => Some(d.as_secs()),
        Err(_) => None,
    };
    timestamp_or_zero(elapsed)
}

/// The settings of the application.
#[derive(Debug, Clone)]
pub struct AppConfig {
    pub favorites: Vec<String>,
    pub hidden: Vec<String>,
    pub scan_root: Option<String>,
    pub recent_projects: Vec<String>,
    pub preferred_ide: Option<String>,
}

pub struct AppConfigModel {
    pub favorites: Seq<Seq<char>>,
    pub hidden: Seq<Seq<char>>,
    pub scan_root: Option<Seq<char>>,
    pub recent_projects: Seq<Seq<char>>,
    pub preferred_ide: Option<Seq<char>>,
}

impl DeepView for AppConfig {
    type V = AppConfigModel;

    open spec fn deep_view(&self) -> AppConfigModel {
        AppConfigModel {
            favorites: self.favorites.deep_view(),
            hidden: self.hidden.deep_view(),
            scan_root: self.scan_root.deep_view(),
            recent_projects: self.recent_projects.deep_view(),
            preferred_ide: self.preferred_ide.deep_view(),
        }
    }
}

impl Default for AppConfig {
    fn default() -> (r: Self)
        ensures
            r.favorites@.len() == 0,
            r.hidden@.len() == 0,
            r.scan_root is None,
            r.recent_projects@.len() == 0,
            r.preferred_ide is None,
    {
        AppConfig {
            favorites: Vec::new(),
            hidden: Vec::new(),
            scan_root: None,
            recent_projects: Vec::new(),
            preferred_ide: None,
        }
    }
}

/// The number of recent projects that are kept.
pub const RECENT_LIMIT: usize = 5;

/// A list without a given text.
pub open spec fn without(list: Seq<Seq<char>>, item: Seq<char>) -> Seq<Seq<char>> {
    collect(
        list,
        |x: Seq<char>|
            if x == item {
                None
            } else {
                Some(x)
            },
    )
}

/// A list with a text switched on or off: on, the text is put at the end unless
/// the list holds it; off, every occurrence is taken out.
pub open spec fn switched(list: Seq<Seq<char>>, item: Seq<char>, on: bool) -> Seq<Seq<char>> {
    if on {
        if list.contains(item) {
            list
        } else {
            list.push(item)
        }
    } else {
        without(list, item)
    }
}

/// The recent projects once a project was opened: the project first, then the
/// others in their order, and no more than the limit in all.
pub open spec fn recent_after(list: Seq<Seq<char>>, item: Seq<char>) -> Seq<Seq<char>> {
    let all = seq![item] + without(list, item);
    if all.len() > RECENT_LIMIT {
        all.take(RECENT_LIMIT as int)
    } else {
        all
    }
}

/// Takes every occurrence of a text out of a list.
pub fn remove_text(list: &mut Vec<String>, item: &str)
    ensures
        final(list).deep_view() == without(old(list).deep_view(), item@),
{
    let ghost pick = |x: Seq<char>|
        if x == item@ {
            None
        } else {
            Some(x)
        };
    let ghost all = list.deep_view();
    let mut kept: Vec<String> = Vec::new();
    let mut i: usize = 0;
    assert(all.take(0) =~= Seq::<Seq<char>>::empty());
    assert(kept.deep_view() =~= Seq::<Seq<char>>::empty());
    while i < list.len()
        invariant
            i <= list.len(),
            all == list.deep_view(),
            pick == |x: Seq<char>|
                if x == item@ {
                    None
                } else {
                    Some(x)
                },
            kept.deep_view() == collect(all.take(i as int), pick),
        decreases list.len() - i,
    {
        proof {
            lemma_collect_step(all, pick, i as int);
            assert(all[i as int] == list@[i as int]@);
        }
        if !same_text(list[i].as_str(), item) {
            let ghost before = kept.deep_view();
            kept.push(list[i].clone());
            assert(kept.deep_view() =~= before.push(list@[i as int]@));
        }
        i += 1;
    }
    assert(all.take(list.len() as int) =~= all);
    *list = kept;
}

/// Switches a text of a list on or off.
pub fn switch_text(list: &mut Vec<String>, item: String, on: bool)
    ensures
        final(list).deep_view() == switched(old(list).deep_view(), item@, on),
{
    if on {
        if !holds_text(list, item.as_str()) {
            let ghost before = list.deep_view();
            list.push(item);
            assert(list.deep_view() =~= before.push(item@));
        }
    } else {
        remove_text(list, item.as_str());
    }
}

impl AppConfig {
    /// Marks a project as a favorite, or takes the mark away.
    pub fn set_favorite(&mut self, path: String, is_favorite: bool)
        ensures
            final(self).deep_view() == (AppConfigModel {
                favorites: switched(old(self).deep_view().favorites, path@, is_favorite),
                ..old(self).deep_view()
            }),
    {
        switch_text(&mut self.favorites, path, is_favorite);
    }

    /// Hides a project, or shows it again.
    pub fn set_hidden(&mut self, path: String, is_hidden: bool)
        ensures
            final(self).deep_view() == (AppConfigModel {
                hidden: switched(old(self).deep_view().hidden, path@, is_hidden),
                ..old(self).deep_view()
            }),
    {
        switch_text(&mut self.hidden, path, is_hidden);
    }

    /// Puts a project at the head of the recent projects.
    pub fn add_recent_project(&mut self, path: String)
        ensures
            final(self).deep_view() == (AppConfigModel {
                recent_projects: recent_after(old(self).deep_view().recent_projects, path@),
                ..old(self).deep_view()
            }),
    {
        remove_text(&mut self.recent_projects, path.as_str());
        let ghost rest = self.recent_projects.deep_view();
        self.recent_projects.insert(0, path);
        assert(self.recent_projects.deep_view() =~= seq![path@] + rest);
        let ghost all = self.recent_projects.deep_view();
        if self.recent_projects.len() > RECENT_LIMIT {
            self.recent_projects.truncate(RECENT_LIMIT);
            assert(self.recent_projects.deep_view() =~= all.take(RECENT_LIMIT as int));
        }
    }

    /// Sets the directory in which projects are looked for.
    pub fn set_scan_root(&mut self, path: String)
        ensures
            final(self).deep_view() == (AppConfigModel {
                scan_root: Some(path@),
                ..old(self).deep_view()
            }),
    {
        self.scan_root = Some(path);
    }

    /// Sets the editor in which projects are opened.
    pub fn set_preferred_ide(&mut self, ide_command: String)
        ensures
            final(self).deep_view() == (AppConfigModel {
                preferred_ide: Some(ide_command@),
                ..old(self).deep_view()
            }),
    {
        self.preferred_ide = Some(ide_command);
    }
}

/// The results of the last analyses, each with the time at which it was made.
#[derive(Debug, Clone)]
pub struct ScanCache {
    pub outdated_results: Option<Vec<OutdatedResult>>,
    pub outdated_timestamp: Option<u64>,
    pub audit_results: Option<Vec<AuditResult>>,
    pub audit_timestamp: Option<u64>,
    pub dep_analysis: Option<DepAnalysis>,
    pub dep_analysis_timestamp: Option<u64>,
    pub toolchain_analysis: Option<ToolchainAnalysis>,
    pub toolchain_timestamp: Option<u64>,
    pub license_analysis: Option<LicenseAnalysis>,
    pub license_timestamp: Option<u64>,
}

impl Default for ScanCache {
    fn default() -> (r: Self)
        ensures
            r.outdated_results is None,
            r.outdated_timestamp is None,
            r.audit_results is None,
            r.audit_timestamp is None,
            r.dep_analysis is None,
            r.dep_analysis_timestamp is None,
            r.toolchain_analysis is None,
            r.toolchain_timestamp is None,
            r.license_analysis is None,
            r.license_timestamp is None,
    {
        ScanCache {
            outdated_results: None,
            outdated_timestamp: None,
            audit_results: None,
            audit_timestamp: None,
            dep_analysis: None,
            dep_analysis_timestamp: None,
            toolchain_analysis: None,
            toolchain_timestamp: None,
            license_analysis: None,
            license_timestamp: None,
        }
    }
}

impl ScanCache {
    /// Keeps the outdated dependencies found at the given time.
    pub fn record_outdated(&mut self, results: Vec<OutdatedResult>, now: u64)
        ensures
            *final(self) == (ScanCache {
                outdated_results: Some(results),
                outdated_timestamp: Some(now),
                ..*old(self)
            }),
    {
        self.outdated_results = Some(results);
        self.outdated_timestamp = Some(now);
    }

    /// Keeps the findings of the audit made at the given time.
    pub fn record_audit(&mut self, results: Vec<AuditResult>, now: u64)
        ensures
            *final(self) == (ScanCache {
                audit_results: Some(results),
                audit_timestamp: Some(now),
                ..*old(self)
            }),
    {
        self.audit_results = Some(results);
        self.audit_timestamp = Some(now);
    }

    /// Keeps the analysis of dependencies made at the given time.
    pub fn record_dep_analysis(&mut self, analysis: DepAnalysis, now: u64)
        ensures
            *final(self) == (ScanCache {
                dep_analysis: Some(analysis),
                dep_analysis_timestamp: Some(now),
                ..*old(self)
            }),
    {
        self.dep_analysis = Some(analysis);
        self.dep_analysis_timestamp = Some(now);
    }

    /// Keeps the analysis of toolchains made at the given time.
    pub fn record_toolchains(&mut self, analysis: ToolchainAnalysis, now: u64)
        ensures
            *final(self) == (ScanCache {
                toolchain_analysis: Some(analysis),
                toolchain_timestamp: Some(now),
                ..*old(self)
            }),
    {
        self.toolchain_analysis = Some(analysis);
        self.toolchain_timestamp = Some(now);
    }

    /// Keeps the analysis of licenses made at the given time.
    pub fn record_licenses(&mut self, analysis: LicenseAnalysis, now: u64)
        ensures
            *final(self) == (ScanCache {
                license_analysis: Some(analysis),
                license_timestamp: Some(now),
                ..*old(self)
            }),
    {
        self.license_analysis = Some(analysis);
        self.license_timestamp = Some(now);
    }
}

} // verus!
