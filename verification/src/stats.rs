//! Figures on the state of the policy surface and on the risk it stands for.
//!
//! The risk score is kept in half points, as an integer: a score of 50 is
//! the number 100 here.

use crate::avc::{AVCAlert, AVCAlertView, AVCManager, AVCSeverity};
use crate::booleans::{BooleanManager, BooleanState, BooleanStateView};
use crate::model::{lemma_filter_push, lemma_views_push, views};
use crate::modules::{ModuleManager, SELinuxModule, SELinuxModuleView};
use crate::rollback::{ChangeRecord, ChangeRecordView, RollbackManager};
use crate::text::{before_first, has_part, occurs_in, part_before};
use std::collections::VecDeque;
use vstd::prelude::*;
use vstd::string::*;

verus! {

/// What the statistics show of one change.
#[derive(Debug, Clone)]
pub struct ChangeSummary {
    pub timestamp: String,
    pub action: String,
    pub description: String,
}

/// The mathematical value of a `ChangeSummary`.
pub struct ChangeSummaryView {
    pub timestamp: Seq<char>,
    pub action: Seq<char>,
    pub description: Seq<char>,
}

impl View for ChangeSummary {
    type V = ChangeSummaryView;

    open spec fn view(&self) -> ChangeSummaryView {
        ChangeSummaryView {
            timestamp: self.timestamp@,
            action: self.action@,
            description: self.description@,
        }
    }
}

/// The figures.
#[derive(Debug, Clone)]
pub struct SystemStats {
    pub total_avc_alerts: usize,
    /// For each severity that occurs, how many denials have it.
    pub avc_by_severity: Vec<(String, usize)>,
    /// For each permission that occurs, how many denials are about it.
    pub avc_by_permission: Vec<(String, usize)>,
    /// For each source that occurs, how many denials come from it.
    pub avc_by_source: Vec<(String, usize)>,
    pub total_booleans: usize,
    /// How many booleans differ from their default.
    pub booleans_changed: usize,
    pub total_modules: usize,
    pub modules_enabled: usize,
    pub total_changes: usize,
    /// The ten newest changes.
    pub recent_changes: Vec<ChangeSummary>,
    /// The risk score in half points.
    pub risk_half_points: u128,
}

/// The mathematical value of a `SystemStats`.
pub struct SystemStatsView {
    pub total_avc_alerts: nat,
    pub avc_by_severity: Seq<(Seq<char>, usize)>,
    pub avc_by_permission: Seq<(Seq<char>, usize)>,
    pub avc_by_source: Seq<(Seq<char>, usize)>,
    pub total_booleans: nat,
    pub booleans_changed: nat,
    pub total_modules: nat,
    pub modules_enabled: nat,
    pub total_changes: nat,
    pub recent_changes: Seq<ChangeSummaryView>,
    pub risk_half_points: nat,
}

impl View for SystemStats {
    type V = SystemStatsView;

    open spec fn view(&self) -> SystemStatsView {
        SystemStatsView {
            total_avc_alerts: self.total_avc_alerts as nat,
            avc_by_severity: views(self.avc_by_severity@),
            avc_by_permission: views(self.avc_by_permission@),
            avc_by_source: views(self.avc_by_source@),
            total_booleans: self.total_booleans as nat,
            booleans_changed: self.booleans_changed as nat,
            total_modules: self.total_modules as nat,
            modules_enabled: self.modules_enabled as nat,
            total_changes: self.total_changes as nat,
            recent_changes: views(self.recent_changes@),
            risk_half_points: self.risk_half_points as nat,
        }
    }
}

/// The test that tells `key` from every other text.
pub open spec fn is_key(key: Seq<char>) -> spec_fn(Seq<char>) -> bool {
    |k: Seq<char>| k == key
}

/// How often `key` occurs in `keys`.
pub open spec fn occurrences(keys: Seq<Seq<char>>, key: Seq<char>) -> nat {
    keys.filter(is_key(key)).len()
}

/// For each key among the first `n` of `keys`, in the order of their first
/// occurrence, how often it occurs in `keys`.
pub open spec fn tally(keys: Seq<Seq<char>>, n: nat) -> Seq<(Seq<char>, usize)>
    decreases n,
{
    if n == 0 {
        Seq::empty()
    } else {
        let earlier = tally(keys, (n - 1) as nat);
        if keys.take(n - 1).contains(keys[n - 1]) {
            earlier
        } else {
            earlier.push((keys[n - 1], occurrences(keys, keys[n - 1]) as usize))
        }
    }
}

/// The names of the severities of the denials.
pub open spec fn severity_keys(alerts: Seq<AVCAlertView>) -> Seq<Seq<char>> {
    alerts.map_values(
        |a: AVCAlertView|
            match a.severity {
                AVCSeverity::High => "High"@,
                AVCSeverity::Medium => "Medium"@,
                AVCSeverity::Low => "Low"@,
            },
    )
}

/// The permissions of the denials.
pub open spec fn permission_keys(alerts: Seq<AVCAlertView>) -> Seq<Seq<char>> {
    alerts.map_values(|a: AVCAlertView| a.permission)
}

/// The sources of the denials: what stands before the first colon of the
/// source context.
pub open spec fn source_keys(alerts: Seq<AVCAlertView>) -> Seq<Seq<char>> {
    alerts.map_values(|a: AVCAlertView| before_first(a.source_context, ':'))
}

/// The test for denials of the severity `severity`.
pub open spec fn has_severity(severity: AVCSeverity) -> spec_fn(AVCAlertView) -> bool {
    |a: AVCAlertView| a.severity == severity
}

/// The test for booleans that differ from their default.
pub open spec fn is_changed() -> spec_fn(BooleanStateView) -> bool {
    |b: BooleanStateView| b.current_value != b.default_value
}

/// The test for modules that are enabled.
pub open spec fn is_enabled() -> spec_fn(SELinuxModuleView) -> bool {
    |m: SELinuxModuleView| m.enabled
}

/// The test for changes that count towards the risk: those whose action and
/// description do not speak of the enforcement mode.
pub open spec fn is_security_change() -> spec_fn(ChangeRecordView) -> bool {
    |c: ChangeRecordView|
        !occurs_in("SELinux mode"@, c.action) && !occurs_in("SELinux mode"@, c.description)
}

/// What the statistics show of each change.
pub open spec fn summaries(history: Seq<ChangeRecordView>) -> Seq<ChangeSummaryView> {
    history.map_values(
        |c: ChangeRecordView|
            ChangeSummaryView {
                timestamp: c.timestamp,
                action: c.action,
                description: c.description,
            },
    )
}

/// The risk score in half points: ten points for a denial of high severity,
/// five for one of medium severity, two for a boolean off its default, and
/// half a point for a change that counts.
pub open spec fn risk_half_points(
    alerts: Seq<AVCAlertView>,
    booleans: Seq<BooleanStateView>,
    history: Seq<ChangeRecordView>,
) -> nat {
    20 * alerts.filter(has_severity(AVCSeverity::High)).len() + 10 * alerts.filter(
        has_severity(AVCSeverity::Medium),
    ).len() + 4 * booleans.filter(is_changed()).len() + history.filter(is_security_change()).len()
}

/// The figures on the given state.
pub open spec fn stats_of(
    alerts: Seq<AVCAlertView>,
    booleans: Seq<BooleanStateView>,
    modules: Seq<SELinuxModuleView>,
    history: Seq<ChangeRecordView>,
) -> SystemStatsView {
    SystemStatsView {
        total_avc_alerts: alerts.len(),
        avc_by_severity: tally(severity_keys(alerts), alerts.len()),
        avc_by_permission: tally(permission_keys(alerts), alerts.len()),
        avc_by_source: tally(source_keys(alerts), alerts.len()),
        total_booleans: booleans.len(),
        booleans_changed: booleans.filter(is_changed()).len(),
        total_modules: modules.len(),
        modules_enabled: modules.filter(is_enabled()).len(),
        total_changes: history.len(),
        recent_changes: summaries(
            if history.len() > 10 {
                history.take(10)
            } else {
                history
            },
        ),
        risk_half_points: risk_half_points(alerts, booleans, history),
    }
}

/// How grave a risk score is.
#[derive(Debug, Clone, Copy, PartialEq, Eq, Structural)]
pub enum RiskLevel {
    High,
    Medium,
    Low,
}

impl RiskLevel {
    /// The name of the level.
    pub fn label(&self) -> (r: &'static str)
        ensures
            r@ == match self {
                RiskLevel::High => "High"@,
                RiskLevel::Medium => "Medium"@,
                RiskLevel::Low => "Low"@,
            },
    {
        match self {
            RiskLevel::High => "High",
            RiskLevel::Medium => "Medium",
            RiskLevel::Low => "Low",
        }
    }
}

proof fn lemma_filter_len<T>(s: Seq<T>, keep: spec_fn(T) -> bool)
    ensures
        s.filter(keep).len() <= s.len(),
    decreases s.len(),
{
    if s.len() > 0 {
        lemma_filter_len(s.drop_last(), keep);
        lemma_filter_push(s.drop_last(), s.last(), keep);
        assert(s.drop_last().push(s.last()) =~= s);
    }
}

fn count_key(keys: &Vec<String>, key: &String) -> (r: usize)
    ensures
        r == occurrences(views(keys@), key@),
{
    let mut r: usize = 0;
    let mut i: usize = 0;
    let ghost all = views(keys@);
    let ghost keep = is_key(key@);
    assert(all.take(0) =~= Seq::<Seq<char>>::empty());
    assert(all.take(0).filter(keep) =~= Seq::<Seq<char>>::empty());
    while i < keys.len()
        invariant
            i <= keys.len(),
            all == views(keys@),
            keep == is_key(key@),
            r == all.take(i as int).filter(keep).len(),
            r <= i,
        decreases keys.len() - i,
    {
        proof {
            assert(all.take(i + 1) =~= all.take(i as int).push(all[i as int]));
            lemma_filter_push(all.take(i as int), all[i as int], keep);
        }
        if keys[i] == *key {
            r += 1;
        }
        i += 1;
    }
    assert(all.take(keys.len() as int) =~= all);
    r
}

fn seen(keys: &Vec<String>, upto: usize) -> (r: bool)
    requires
        upto < keys.len(),
    ensures
        r == views(keys@).take(upto as int).contains(views(keys@)[upto as int]),
{
    let mut j: usize = 0;
    while j < upto
        invariant
            j <= upto < keys.len(),
            forall|k: int| 0 <= k < j ==> views(keys@)[k] != views(keys@)[upto as int],
        decreases upto - j,
    {
        if keys[j] == keys[upto] {
            assert(views(keys@).take(upto as int)[j as int] == views(keys@)[upto as int]);
            return true;
        }
        j += 1;
    }
    false
}

/// For each of `keys`, in the order of their first occurrence, how often it
/// occurs.
pub fn count_keys(keys: &Vec<String>) -> (r: Vec<(String, usize)>)
    ensures
        views(r@) == tally(views(keys@), keys.len() as nat),
{
    let mut r: Vec<(String, usize)> = Vec::new();
    let mut i: usize = 0;
    assert(views(r@) =~= Seq::<(Seq<char>, usize)>::empty());
    while i < keys.len()
        invariant
            i <= keys.len(),
            views(r@) == tally(views(keys@), i as nat),
        decreases keys.len() - i,
    {
        if !seen(keys, i) {
            let entry = (keys[i].clone(), count_key(keys, &keys[i]));
            proof {
                lemma_views_push(r@, entry);
            }
            r.push(entry);
        }
        i += 1;
    }
    r
}

fn count_severity(alerts: &Vec<AVCAlert>, severity: AVCSeverity) -> (r: usize)
    ensures
        r == views(alerts@).filter(has_severity(severity)).len(),
{
    let mut r: usize = 0;
    let mut i: usize = 0;
    let ghost all = views(alerts@);
    let ghost keep = has_severity(severity);
    assert(all.take(0) =~= Seq::<AVCAlertView>::empty());
    assert(all.take(0).filter(keep) =~= Seq::<AVCAlertView>::empty());
    while i < alerts.len()
        invariant
            i <= alerts.len(),
            all == views(alerts@),
            keep == has_severity(severity),
            r == all.take(i as int).filter(keep).len(),
            r <= i,
        decreases alerts.len() - i,
    {
        proof {
            assert(all.take(i + 1) =~= all.take(i as int).push(all[i as int]));
            lemma_filter_push(all.take(i as int), all[i as int], keep);
        }
        if alerts[i].severity == severity {
            r += 1;
        }
        i += 1;
    }
    assert(all.take(alerts.len() as int) =~= all);
    r
}

fn count_changed(booleans: &Vec<BooleanState>) -> (r: usize)
    ensures
        r == views(booleans@).filter(is_changed()).len(),
{
    let mut r: usize = 0;
    let mut i: usize = 0;
    let ghost all = views(booleans@);
    let ghost keep = is_changed();
    assert(all.take(0) =~= Seq::<BooleanStateView>::empty());
    assert(all.take(0).filter(keep) =~= Seq::<BooleanStateView>::empty());
    while i < booleans.len()
        invariant
            i <= booleans.len(),
            all == views(booleans@),
            keep == is_changed(),
            r == all.take(i as int).filter(keep).len(),
            r <= i,
        decreases booleans.len() - i,
    {
        proof {
            assert(all.take(i + 1) =~= all.take(i as int).push(all[i as int]));
            lemma_filter_push(all.take(i as int), all[i as int], keep);
        }
        if booleans[i].current_value != booleans[i].default_value {
            r += 1;
        }
        i += 1;
    }
    assert(all.take(booleans.len() as int) =~= all);
    r
}

fn count_enabled(modules: &Vec<SELinuxModule>) -> (r: usize)
    ensures
        r == views(modules@).filter(is_enabled()).len(),
{
    let mut r: usize = 0;
    let mut i: usize = 0;
    let ghost all = views(modules@);
    let ghost keep = is_enabled();
    assert(all.take(0) =~= Seq::<SELinuxModuleView>::empty());
    assert(all.take(0).filter(keep) =~= Seq::<SELinuxModuleView>::empty());
    while i < modules.len()
        invariant
            i <= modules.len(),
            all == views(modules@),
            keep == is_enabled(),
            r == all.take(i as int).filter(keep).len(),
            r <= i,
        decreases modules.len() - i,
    {
        proof {
            assert(all.take(i + 1) =~= all.take(i as int).push(all[i as int]));
            lemma_filter_push(all.take(i as int), all[i as int], keep);
        }
        if modules[i].enabled {
            r += 1;
        }
        i += 1;
    }
    assert(all.take(modules.len() as int) =~= all);
    r
}

fn count_security_changes(history: &VecDeque<ChangeRecord>) -> (r: usize)
    ensures
        r == views(history@).filter(is_security_change()).len(),
{
    let mut r: usize = 0;
    let mut i: usize = 0;
    let ghost all = views(history@);
    let ghost keep = is_security_change();
    assert(all.take(0) =~= Seq::<ChangeRecordView>::empty());
    assert(all.take(0).filter(keep) =~= Seq::<ChangeRecordView>::empty());
    while i < history.len()
        invariant
            i <= history.len(),
            all == views(history@),
            keep == is_security_change(),
            r == all.take(i as int).filter(keep).len(),
            r <= i,
        decreases history.len() - i,
    {
        proof {
            assert(all.take(i + 1) =~= all.take(i as int).push(all[i as int]));
            lemma_filter_push(all.take(i as int), all[i as int], keep);
        }
        let change = &history[i];
        if !has_part(change.action.as_str(), "SELinux mode") && !has_part(
            change.description.as_str(),
            "SELinux mode",
        ) {
            r += 1;
        }
        i += 1;
    }
    assert(all.take(history.len() as int) =~= all);
    r
}

/// Computes the figures.
pub struct StatsManager;

impl StatsManager {
    /// The figures on what the managers hold.
    pub fn calculate_stats(
        avc_manager: &AVCManager,
        boolean_manager: &BooleanManager,
        module_manager: &ModuleManager,
        rollback_manager: &RollbackManager,
    ) -> (r: SystemStats)
        ensures
            r@ == stats_of(
                views(avc_manager.alerts@),
                views(boolean_manager.booleans@),
                views(module_manager.modules@),
                rollback_manager@.history,
            ),
    {
        let alerts = &avc_manager.alerts;
        let mut severities: Vec<String> = Vec::new();
        let mut permissions: Vec<String> = Vec::new();
        let mut sources: Vec<String> = Vec::new();
        let mut i: usize = 0;
        while i < alerts.len()
            invariant
                i <= alerts.len(),
                views(severities@) =~= severity_keys(views(alerts@)).take(i as int),
                views(permissions@) =~= permission_keys(views(alerts@)).take(i as int),
                views(sources@) =~= source_keys(views(alerts@)).take(i as int),
            decreases alerts.len() - i,
        {
            let alert = &alerts[i];
            let severity = String::from_str(alert.severity.label());
            let permission = alert.permission.clone();
            let source = String::from_str(part_before(alert.source_context.as_str(), ':'));
            proof {
                lemma_views_push(severities@, severity);
                lemma_views_push(permissions@, permission);
                lemma_views_push(sources@, source);
            }
            severities.push(severity);
            permissions.push(permission);
            sources.push(source);
            i += 1;
        }
        let history = &rollback_manager.change_history;
        let shown: usize = if history.len() > 10 {
            10
        } else {
            history.len()
        };
        let mut recent_changes: Vec<ChangeSummary> = Vec::new();
        let mut k: usize = 0;
        while k < shown
            invariant
                k <= shown <= history.len(),
                views(recent_changes@) =~= summaries(views(history@)).take(k as int),
            decreases shown - k,
        {
            let change = &history[k];
            let summary = ChangeSummary {
                timestamp: change.timestamp.clone(),
                action: change.action.clone(),
                description: change.description.clone(),
            };
            proof {
                lemma_views_push(recent_changes@, summary);
            }
            recent_changes.push(summary);
            k += 1;
        }
        let high = count_severity(alerts, AVCSeverity::High);
        let medium = count_severity(alerts, AVCSeverity::Medium);
        let booleans_changed = count_changed(&boolean_manager.booleans);
        let security_changes = count_security_changes(history);
        let r = SystemStats {
            total_avc_alerts: alerts.len(),
            avc_by_severity: count_keys(&severities),
            avc_by_permission: count_keys(&permissions),
            avc_by_source: count_keys(&sources),
            total_booleans: boolean_manager.booleans.len(),
            booleans_changed,
            total_modules: module_manager.modules.len(),
            modules_enabled: count_enabled(&module_manager.modules),
            total_changes: history.len(),
            recent_changes,
            risk_half_points: 20 * (high as u128) + 10 * (medium as u128) + 4 * (
            booleans_changed as u128) + (security_changes as u128),
        };
        proof {
            let h = rollback_manager@.history;
            assert(views(severities@) =~= severity_keys(views(alerts@)));
            assert(views(permissions@) =~= permission_keys(views(alerts@)));
            assert(views(sources@) =~= source_keys(views(alerts@)));
            if h.len() > 10 {
                assert(summaries(h).take(10) =~= summaries(h.take(10)));
            } else {
                assert(summaries(h).take(h.len() as int) =~= summaries(h));
            }
        }
        r
    }

    /// How grave a risk score of `risk_half_points` half points is: high
    /// from 50 points on, medium from 20 points on, low below.
    pub fn get_risk_level(risk_half_points: u128) -> (r: RiskLevel)
        ensures
            r == if risk_half_points >= 100 {
                RiskLevel::High
            } else if risk_half_points >= 40 {
                RiskLevel::Medium
            } else {
                RiskLevel::Low
            },
    {
        if risk_half_points >= 100 {
            RiskLevel::High
        } else if risk_half_points >= 40 {
            RiskLevel::Medium
        } else {
            RiskLevel::Low
        }
    }
}

} // verus!
