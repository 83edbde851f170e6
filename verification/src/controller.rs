//! What a key means: from the key that was pressed and the state of the
//! interface to the command that the application carries out.

use crate::avc::{AVCAlertView, AVCManager, AVCSeverity};
use crate::booleans::{BooleanManager, BooleanState, BooleanStateView};
use crate::model::{lemma_filter_push, lemma_views_push, views};
use crate::selinux_mode::SELinuxMode;
use crate::state::{CurrentView, InputMode};
use crate::text::{has_part, occurs_in};
use vstd::prelude::*;
use vstd::string::*;

verus! {

/// A key of the keyboard, as far as the interface tells keys apart.
#[derive(Debug, Clone, Copy, PartialEq, Eq, Structural)]
pub enum Key {
    Char(char),
    Enter,
    Esc,
    Backspace,
    Left,
    Right,
    Up,
    Down,
    Other,
}

/// What the application is to do.
#[derive(Debug, Clone, Copy, PartialEq, Eq, Structural)]
pub enum Command {
    Nothing,
    Quit,
    /// Hand what was typed to the popup.
    Submit,
    /// Close the popup.
    Cancel,
    /// Add the character to what was typed.
    Type(char),
    /// Drop the last character of what was typed.
    Erase,
    ShowHelp,
    Search,
    ApplyRecommendation,
    Add,
    Execute,
    PreviousView,
    NextView,
    PreviousItem,
    NextItem,
    RollbackLast,
    ApplySafeSettings,
    Refresh,
    Export,
    Import,
    Details,
    ToggleFilter,
    ShowRecommendations,
    CreateModule,
    ToggleMode,
    RemoveModule,
    ClearHistory,
    /// Show the view of the tab with this number, 0 to 9.
    ShowTab(u8),
}

/// The number that a digit key writes.
pub open spec fn tab_of(c: char) -> Option<u8> {
    if c == '0' {
        Some(0u8)
    } else if c == '1' {
        Some(1u8)
    } else if c == '2' {
        Some(2u8)
    } else if c == '3' {
        Some(3u8)
    } else if c == '4' {
        Some(4u8)
    } else if c == '5' {
        Some(5u8)
    } else if c == '6' {
        Some(6u8)
    } else if c == '7' {
        Some(7u8)
    } else if c == '8' {
        Some(8u8)
    } else if c == '9' {
        Some(9u8)
    } else {
        None
    }
}

/// What the key `key` means while nothing is typed and nothing is running.
pub open spec fn navigation_command(key: Key, view: CurrentView, has_recommendations: bool) -> Command {
    match key {
        Key::Char(c) => if c == 'q' {
            Command::Quit
        } else if c == '?' {
            Command::ShowHelp
        } else if c == '/' {
            Command::Search
        } else if c == 'a' {
            if view == CurrentView::AVCAlerts && has_recommendations {
                Command::ApplyRecommendation
            } else {
                Command::Add
            }
        } else if c == 'h' {
            Command::PreviousView
        } else if c == 'l' {
            Command::NextView
        } else if c == 'k' {
            Command::PreviousItem
        } else if c == 'j' {
            Command::NextItem
        } else if c == 'r' {
            Command::RollbackLast
        } else if c == 's' {
            Command::ApplySafeSettings
        } else if c == 'R' {
            Command::Refresh
        } else if c == 'e' {
            Command::Export
        } else if c == 'i' {
            Command::Import
        } else if c == 'v' {
            Command::Details
        } else if c == 'f' {
            Command::ToggleFilter
        } else if c == 'A' {
            Command::ShowRecommendations
        } else if c == 'm' {
            Command::CreateModule
        } else if c == 'M' {
            Command::ToggleMode
        } else if c == 'D' {
            Command::RemoveModule
        } else if c == 'c' {
            Command::ClearHistory
        } else {
            match tab_of(c) {
                Some(tab) => Command::ShowTab(tab),
                None => Command::Nothing,
            }
        },
        Key::Enter => Command::Execute,
        Key::Left => Command::PreviousView,
        Key::Right => Command::NextView,
        Key::Up => Command::PreviousItem,
        Key::Down => Command::NextItem,
        _ => Command::Nothing,
    }
}

/// What the key `key` means while the operator types into a popup.
pub open spec fn editing_command(key: Key) -> Command {
    match key {
        Key::Enter => Command::Submit,
        Key::Esc => Command::Cancel,
        Key::Char(c) => Command::Type(c),
        Key::Backspace => Command::Erase,
        _ => Command::Nothing,
    }
}

/// What the key `key` means. While a change is running only the key to
/// quit means anything; while the operator types, the keys go to the
/// popup; else they steer the interface.
pub open spec fn command_of(
    key: Key,
    busy: bool,
    mode: InputMode,
    view: CurrentView,
    has_recommendations: bool,
) -> Command {
    if busy {
        if key == Key::Char('q') {
            Command::Quit
        } else {
            Command::Nothing
        }
    } else if mode != InputMode::Normal {
        editing_command(key)
    } else {
        navigation_command(key, view, has_recommendations)
    }
}

/// The view of the tab with the number `tab`, where it is one of the eight
/// views of the policy surface.
pub open spec fn view_of_tab(tab: u8) -> Option<CurrentView> {
    if tab == 1 {
        Some(CurrentView::Dashboard)
    } else if tab == 2 {
        Some(CurrentView::AVCAlerts)
    } else if tab == 3 {
        Some(CurrentView::ModuleManager)
    } else if tab == 4 {
        Some(CurrentView::BooleanManager)
    } else if tab == 5 {
        Some(CurrentView::RollbackHistory)
    } else if tab == 6 {
        Some(CurrentView::SafeSettings)
    } else if tab == 7 {
        Some(CurrentView::FileContexts)
    } else if tab == 8 {
        Some(CurrentView::Ports)
    } else {
        None
    }
}

/// The view that the item `item` of the dashboard leads to, where it is
/// one of the views of the policy surface.
pub open spec fn view_of_dashboard_item(item: usize) -> Option<CurrentView> {
    if item == 0 {
        Some(CurrentView::AVCAlerts)
    } else if item == 1 {
        Some(CurrentView::ModuleManager)
    } else if item == 2 {
        Some(CurrentView::BooleanManager)
    } else if item == 3 {
        Some(CurrentView::SafeSettings)
    } else if item == 4 {
        Some(CurrentView::RollbackHistory)
    } else if item == 5 {
        Some(CurrentView::FileContexts)
    } else if item == 6 {
        Some(CurrentView::Ports)
    } else {
        None
    }
}

/// The filter on denials that follows `filter`: none, high, medium, low,
/// and none again.
pub open spec fn filter_after(filter: Option<AVCSeverity>) -> Option<AVCSeverity> {
    match filter {
        None => Some(AVCSeverity::High),
        Some(AVCSeverity::High) => Some(AVCSeverity::Medium),
        Some(AVCSeverity::Medium) => Some(AVCSeverity::Low),
        Some(AVCSeverity::Low) => None,
    }
}

/// The mode that the key to toggle the mode leads to: permissive from
/// enforcing, enforcing from anything else.
pub open spec fn mode_after(mode: SELinuxMode) -> SELinuxMode {
    match mode {
        SELinuxMode::Enforcing => SELinuxMode::Permissive,
        _ => SELinuxMode::Enforcing,
    }
}

/// The test for booleans that the search for `query` shows: those whose
/// name or description holds the query. The empty query shows all.
pub open spec fn shown_for(query: Seq<char>) -> spec_fn(BooleanStateView) -> bool {
    |b: BooleanStateView|
        query.len() == 0 || occurs_in(query, b.name) || occurs_in(query, b.description)
}

/// The test for denials that the filter `filter` shows.
pub open spec fn passes(filter: Option<AVCSeverity>) -> spec_fn(AVCAlertView) -> bool {
    |a: AVCAlertView|
        match filter {
            Some(severity) => a.severity == severity,
            None => true,
        }
}

fn digit_tab(c: char) -> (r: Option<u8>)
    ensures
        r == tab_of(c),
{
    if c == '0' {
        Some(0)
    } else if c == '1' {
        Some(1)
    } else if c == '2' {
        Some(2)
    } else if c == '3' {
        Some(3)
    } else if c == '4' {
        Some(4)
    } else if c == '5' {
        Some(5)
    } else if c == '6' {
        Some(6)
    } else if c == '7' {
        Some(7)
    } else if c == '8' {
        Some(8)
    } else if c == '9' {
        Some(9)
    } else {
        None
    }
}

fn navigate(key: Key, view: CurrentView, has_recommendations: bool) -> (r: Command)
    ensures
        r == navigation_command(key, view, has_recommendations),
{
    match key {
        Key::Char(c) => if c == 'q' {
            Command::Quit
        } else if c == '?' {
            Command::ShowHelp
        } else if c == '/' {
            Command::Search
        } else if c == 'a' {
            if view == CurrentView::AVCAlerts && has_recommendations {
                Command::ApplyRecommendation
            } else {
                Command::Add
            }
        } else if c == 'h' {
            Command::PreviousView
        } else if c == 'l' {
            Command::NextView
        } else if c == 'k' {
            Command::PreviousItem
        } else if c == 'j' {
            Command::NextItem
        } else if c == 'r' {
            Command::RollbackLast
        } else if c == 's' {
            Command::ApplySafeSettings
        } else if c == 'R' {
            Command::Refresh
        } else if c == 'e' {
            Command::Export
        } else if c == 'i' {
            Command::Import
        } else if c == 'v' {
            Command::Details
        } else if c == 'f' {
            Command::ToggleFilter
        } else if c == 'A' {
            Command::ShowRecommendations
        } else if c == 'm' {
            Command::CreateModule
        } else if c == 'M' {
            Command::ToggleMode
        } else if c == 'D' {
            Command::RemoveModule
        } else if c == 'c' {
            Command::ClearHistory
        } else {
            match digit_tab(c) {
                Some(tab) => Command::ShowTab(tab),
                None => Command::Nothing,
            }
        },
        Key::Enter => Command::Execute,
        Key::Left => Command::PreviousView,
        Key::Right => Command::NextView,
        Key::Up => Command::PreviousItem,
        Key::Down => Command::NextItem,
        _ => Command::Nothing,
    }
}

/// What the key `key` means in the given state of the interface.
pub fn command_for(
    key: Key,
    busy: bool,
    mode: InputMode,
    view: CurrentView,
    has_recommendations: bool,
) -> (r: Command)
    ensures
        r == command_of(key, busy, mode, view, has_recommendations),
{
    if busy {
        match key {
            Key::Char(c) => if c == 'q' {
                Command::Quit
            } else {
                Command::Nothing
            },
            _ => Command::Nothing,
        }
    } else if mode != InputMode::Normal {
        match key {
            Key::Enter => Command::Submit,
            Key::Esc => Command::Cancel,
            Key::Char(c) => Command::Type(c),
            Key::Backspace => Command::Erase,
            _ => Command::Nothing,
        }
    } else {
        navigate(key, view, has_recommendations)
    }
}

/// The view of the tab with the number `tab`.
pub fn tab_view(tab: u8) -> (r: Option<CurrentView>)
    ensures
        r == view_of_tab(tab),
{
    if tab == 1 {
        Some(CurrentView::Dashboard)
    } else if tab == 2 {
        Some(CurrentView::AVCAlerts)
    } else if tab == 3 {
        Some(CurrentView::ModuleManager)
    } else if tab == 4 {
        Some(CurrentView::BooleanManager)
    } else if tab == 5 {
        Some(CurrentView::RollbackHistory)
    } else if tab == 6 {
        Some(CurrentView::SafeSettings)
    } else if tab == 7 {
        Some(CurrentView::FileContexts)
    } else if tab == 8 {
        Some(CurrentView::Ports)
    } else {
        None
    }
}

/// The view that the item `item` of the dashboard leads to.
pub fn dashboard_view(item: usize) -> (r: Option<CurrentView>)
    ensures
        r == view_of_dashboard_item(item),
{
    if item == 0 {
        Some(CurrentView::AVCAlerts)
    } else if item == 1 {
        Some(CurrentView::ModuleManager)
    } else if item == 2 {
        Some(CurrentView::BooleanManager)
    } else if item == 3 {
        Some(CurrentView::SafeSettings)
    } else if item == 4 {
        Some(CurrentView::RollbackHistory)
    } else if item == 5 {
        Some(CurrentView::FileContexts)
    } else if item == 6 {
        Some(CurrentView::Ports)
    } else {
        None
    }
}

/// The filter on denials that follows `filter`.
pub fn next_filter(filter: Option<AVCSeverity>) -> (r: Option<AVCSeverity>)
    ensures
        r == filter_after(filter),
{
    match filter {
        None => Some(AVCSeverity::High),
        Some(AVCSeverity::High) => Some(AVCSeverity::Medium),
        Some(AVCSeverity::Medium) => Some(AVCSeverity::Low),
        Some(AVCSeverity::Low) => None,
    }
}

/// The name of the filter `filter`.
pub fn filter_label(filter: Option<AVCSeverity>) -> (r: &'static str)
    ensures
        r@ == match filter {
            Some(AVCSeverity::High) => "High"@,
            Some(AVCSeverity::Medium) => "Medium"@,
            Some(AVCSeverity::Low) => "Low"@,
            None => "All"@,
        },
{
    match filter {
        Some(AVCSeverity::High) => "High",
        Some(AVCSeverity::Medium) => "Medium",
        Some(AVCSeverity::Low) => "Low",
        None => "All",
    }
}

/// The mode that the key to toggle the mode leads to.
pub fn toggled_mode(mode: SELinuxMode) -> (r: SELinuxMode)
    ensures
        r == mode_after(mode),
{
    match mode {
        SELinuxMode::Enforcing => SELinuxMode::Permissive,
        SELinuxMode::Permissive => SELinuxMode::Enforcing,
        SELinuxMode::Disabled => SELinuxMode::Enforcing,
    }
}

/// The position of the spinner after the position `index`: it has four.
pub fn next_spinner(index: usize) -> (r: usize)
    ensures
        r == (index + 1) % 4,
{
    (index % 4 + 1) % 4
}

/// The booleans that the search for `query` shows.
pub fn filtered_booleans(manager: &BooleanManager, query: &str) -> (r: Vec<BooleanState>)
    ensures
        views(r@) == views(manager.booleans@).filter(shown_for(query@)),
{
    let all_shown = query.unicode_len() == 0;
    let ghost all = views(manager.booleans@);
    let ghost keep = shown_for(query@);
    let mut r: Vec<BooleanState> = Vec::new();
    let mut i: usize = 0;
    assert(all.take(0) =~= Seq::<BooleanStateView>::empty());
    assert(all.take(0).filter(keep) =~= Seq::<BooleanStateView>::empty());
    assert(views(r@) =~= Seq::<BooleanStateView>::empty());
    while i < manager.booleans.len()
        invariant
            i <= manager.booleans.len(),
            all == views(manager.booleans@),
            keep == shown_for(query@),
            all_shown == (query@.len() == 0),
            views(r@) == all.take(i as int).filter(keep),
        decreases manager.booleans.len() - i,
    {
        let boolean = &manager.booleans[i];
        proof {
            assert(all.take(i + 1) =~= all.take(i as int).push(boolean@));
            lemma_filter_push(all.take(i as int), boolean@, keep);
        }
        if all_shown || has_part(boolean.name.as_str(), query) || has_part(
            boolean.description.as_str(),
            query,
        ) {
            let copy = boolean.clone();
            proof {
                lemma_views_push(r@, copy);
            }
            r.push(copy);
        }
        i += 1;
    }
    assert(all.take(manager.booleans.len() as int) =~= all);
    r
}

/// The positions of the denials that the filter `filter` shows.
pub fn filtered_alerts(manager: &AVCManager, filter: Option<AVCSeverity>) -> (r: Vec<usize>)
    ensures
        r@.map_values(|i: usize| views(manager.alerts@)[i as int]) == views(
            manager.alerts@,
        ).filter(passes(filter)),
        forall|k: int| 0 <= k < r.len() ==> r[k] < manager.alerts.len(),
{
    let ghost all = views(manager.alerts@);
    let ghost keep = passes(filter);
    let ghost pick = |i: usize| views(manager.alerts@)[i as int];
    let mut r: Vec<usize> = Vec::new();
    let mut i: usize = 0;
    assert(all.take(0) =~= Seq::<AVCAlertView>::empty());
    assert(all.take(0).filter(keep) =~= Seq::<AVCAlertView>::empty());
    assert(r@.map_values(pick) =~= Seq::<AVCAlertView>::empty());
    while i < manager.alerts.len()
        invariant
            i <= manager.alerts.len(),
            all == views(manager.alerts@),
            keep == passes(filter),
            pick == |i: usize| views(manager.alerts@)[i as int],
            r@.map_values(pick) == all.take(i as int).filter(keep),
            forall|k: int| 0 <= k < r.len() ==> r[k] < manager.alerts.len(),
        decreases manager.alerts.len() - i,
    {
        proof {
            assert(all.take(i + 1) =~= all.take(i as int).push(all[i as int]));
            lemma_filter_push(all.take(i as int), all[i as int], keep);
            assert(r@.push(i).map_values(pick) =~= r@.map_values(pick).push(all[i as int]));
        }
        let shown = match filter {
            Some(severity) => manager.alerts[i].severity == severity,
            None => true,
        };
        if shown {
            r.push(i);
        }
        i += 1;
    }
    assert(all.take(manager.alerts.len() as int) =~= all);
    r
}

} // verus!
