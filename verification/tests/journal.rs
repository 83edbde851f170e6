use selab::booleans::BooleanState;
use selab::modules::SELinuxModule;
use selab::rollback::{ChangeRecord, RollbackError, RollbackManager, SystemState};

fn boolean(name: &str, value: bool) -> BooleanState {
    BooleanState {
        name: name.to_string(),
        description: String::new(),
        current_value: value,
        persistent: true,
        default_value: false,
    }
}

fn module(name: &str, enabled: bool) -> SELinuxModule {
    SELinuxModule { name: name.to_string(), enabled, priority: 400 }
}

fn snapshot(
    booleans: Vec<BooleanState>,
    modules: Vec<SELinuxModule>,
    file_contexts: Vec<&str>,
    ports: Vec<&str>,
) -> SystemState {
    SystemState {
        timestamp: "2024-01-15T10:30:00+00:00".to_string(),
        selinux_mode: "Enforcing".to_string(),
        booleans,
        modules,
        file_contexts: file_contexts.into_iter().map(|s| s.to_string()).collect(),
        ports: ports.into_iter().map(|s| s.to_string()).collect(),
    }
}

fn empty_snapshot() -> SystemState {
    snapshot(vec![], vec![], vec![], vec![])
}

fn record(manager: &mut RollbackManager, millis: i64, commands: Vec<&str>) {
    manager.record_change_at(
        millis,
        "2024-01-15T10:30:00+00:00".to_string(),
        "act".to_string(),
        format!("change {}", millis),
        empty_snapshot(),
        empty_snapshot(),
        commands.into_iter().map(|s| s.to_string()).collect(),
    );
}

fn ids(manager: &RollbackManager) -> Vec<String> {
    manager.change_history.iter().map(|r| r.id.clone()).collect()
}

#[test]
fn inverse_of_a_snapshot_with_itself_is_empty() {
    let p = snapshot(
        vec![boolean("a", true), boolean("b", false)],
        vec![module("apache", true)],
        vec!["/var/www:httpd_sys_content_t"],
        vec!["80/tcp:http_port_t"],
    );
    assert!(RollbackManager::generate_rollback_commands(&p, &p).is_empty());
}

#[test]
fn one_flipped_boolean_gives_one_restore_command() {
    let p = snapshot(vec![boolean("a", true), boolean("sample_boolean", false)], vec![], vec![], vec![]);
    let n = snapshot(vec![boolean("a", true), boolean("sample_boolean", true)], vec![], vec![], vec![]);
    assert_eq!(
        RollbackManager::generate_rollback_commands(&p, &n),
        vec!["setsebool -P sample_boolean off".to_string()]
    );
    assert_eq!(
        RollbackManager::generate_rollback_commands(&n, &p),
        vec!["setsebool -P sample_boolean on".to_string()]
    );
}

#[test]
fn names_in_one_snapshot_only_are_ignored() {
    let p = snapshot(vec![boolean("a", true)], vec![module("m", true)], vec![], vec![]);
    let n = snapshot(vec![boolean("b", false)], vec![module("k", false)], vec![], vec![]);
    assert!(RollbackManager::generate_rollback_commands(&p, &n).is_empty());
}

#[test]
fn later_entry_of_a_name_decides_its_value() {
    let p = snapshot(vec![boolean("a", true), boolean("a", false)], vec![], vec![], vec![]);
    let n = snapshot(vec![boolean("a", true)], vec![], vec![], vec![]);
    assert_eq!(
        RollbackManager::generate_rollback_commands(&p, &n),
        vec!["setsebool -P a off".to_string()]
    );
}

#[test]
fn module_toggles_are_undone() {
    let p = snapshot(vec![], vec![module("apache", true), module("mysql", false)], vec![], vec![]);
    let n = snapshot(vec![], vec![module("apache", false), module("mysql", true)], vec![], vec![]);
    assert_eq!(
        RollbackManager::generate_rollback_commands(&p, &n),
        vec!["semodule -e apache".to_string(), "semodule -d mysql".to_string()]
    );
}

#[test]
fn added_file_context_rule_gives_one_delete_command() {
    let p = snapshot(vec![], vec![], vec![], vec![]);
    let n = snapshot(vec![], vec![], vec!["/var/www/app:content_label"], vec![]);
    assert_eq!(
        RollbackManager::generate_rollback_commands(&p, &n),
        vec!["semanage fcontext -d /var/www/app".to_string()]
    );
}

#[test]
fn removed_file_context_rule_is_added_again_and_relabelled() {
    let p = snapshot(vec![], vec![], vec!["/var/www/app:content_label"], vec![]);
    let n = snapshot(vec![], vec![], vec![], vec![]);
    assert_eq!(
        RollbackManager::generate_rollback_commands(&p, &n),
        vec![
            "semanage fcontext -a -t content_label /var/www/app".to_string(),
            "restorecon -v /var/www/app".to_string()
        ]
    );
}

#[test]
fn port_rules_are_undone_both_ways() {
    let p = snapshot(vec![], vec![], vec![], vec!["80/tcp:http_port_t", "22/tcp:ssh_port_t"]);
    let n = snapshot(vec![], vec![], vec![], vec!["22/tcp:ssh_port_t", "8080/tcp:http_port_t"]);
    assert_eq!(
        RollbackManager::generate_rollback_commands(&p, &n),
        vec![
            "semanage port -a -t http_port_t -p tcp 80".to_string(),
            "semanage port -d -p tcp 8080".to_string()
        ]
    );
}

#[test]
fn rules_not_in_canonical_form_give_no_command() {
    let p = snapshot(vec![], vec![], vec!["no-colon"], vec!["80:http_port_t"]);
    let n = snapshot(vec![], vec![], vec![], vec![]);
    assert!(RollbackManager::generate_rollback_commands(&p, &n).is_empty());
}

#[test]
fn a_rule_listed_twice_is_undone_once() {
    let p = snapshot(vec![], vec![], vec!["/a:t", "/a:t"], vec![]);
    let n = snapshot(vec![], vec![], vec![], vec![]);
    assert_eq!(RollbackManager::generate_rollback_commands(&p, &n).len(), 2);
}

#[test]
fn domains_come_in_fixed_order() {
    let p = snapshot(vec![boolean("b", true)], vec![module("m", true)], vec!["/a:t"], vec!["1/tcp:p"]);
    let n = snapshot(vec![boolean("b", false)], vec![module("m", false)], vec!["/b:t"], vec!["2/udp:q"]);
    assert_eq!(
        RollbackManager::generate_rollback_commands(&p, &n),
        vec![
            "setsebool -P b on".to_string(),
            "semodule -e m".to_string(),
            "semanage fcontext -a -t t /a".to_string(),
            "restorecon -v /a".to_string(),
            "semanage fcontext -d /b".to_string(),
            "semanage port -a -t p -p tcp 1".to_string(),
            "semanage port -d -p udp 2".to_string(),
        ]
    );
}

#[test]
fn new_journal_is_empty_and_keeps_200() {
    let m = RollbackManager::new();
    assert!(m.change_history.is_empty());
    assert_eq!(m.max_history, 200);
}

#[test]
fn record_change_builds_the_record() {
    let mut m = RollbackManager::new();
    let p = snapshot(vec![boolean("sample_boolean", false)], vec![], vec![], vec![]);
    let n = snapshot(vec![boolean("sample_boolean", true)], vec![], vec![], vec![]);
    m.record_change_at(
        1700000000123,
        "2023-11-14T22:13:20+00:00".to_string(),
        "Setting boolean".to_string(),
        "Set sample_boolean to true".to_string(),
        p,
        n,
        vec![],
    );
    let r: &ChangeRecord = m.change_history.front().unwrap();
    assert_eq!(r.id, "chg_1700000000123");
    assert_eq!(r.timestamp, "2023-11-14T22:13:20+00:00");
    assert_eq!(r.action, "Setting boolean");
    assert_eq!(r.description, "Set sample_boolean to true");
    assert_eq!(r.rollback_commands, vec!["setsebool -P sample_boolean off".to_string()]);
    assert!(r.applied_commands.is_empty());
    assert!(!r.previous_state.booleans[0].current_value);
    assert!(r.new_state.booleans[0].current_value);
}

#[test]
fn explicit_commands_come_first_and_duplicates_are_dropped() {
    let mut m = RollbackManager::new();
    let p = snapshot(vec![boolean("a", false), boolean("b", true)], vec![], vec![], vec![]);
    let n = snapshot(vec![boolean("a", true), boolean("b", false)], vec![], vec![], vec![]);
    m.record_change_at(
        5,
        "t".to_string(),
        "x".to_string(),
        "y".to_string(),
        p,
        n,
        vec!["echo first".to_string(), "setsebool -P b on".to_string()],
    );
    assert_eq!(
        m.change_history[0].rollback_commands,
        vec![
            "echo first".to_string(),
            "setsebool -P b on".to_string(),
            "setsebool -P a off".to_string()
        ]
    );
}

#[test]
fn negative_clock_reading_is_written_with_a_minus() {
    let mut m = RollbackManager::new();
    record(&mut m, -42, vec![]);
    record(&mut m, 0, vec![]);
    record(&mut m, i64::MIN, vec![]);
    record(&mut m, i64::MAX, vec![]);
    assert_eq!(
        ids(&m),
        vec!["chg_9223372036854775807", "chg_-9223372036854775808", "chg_0", "chg_-42"]
    );
}

#[test]
fn record_change_reads_the_clock() {
    let mut m = RollbackManager::new();
    m.record_change("a".to_string(), "d".to_string(), empty_snapshot(), empty_snapshot(), vec![]);
    let r = &m.change_history[0];
    assert!(r.id.starts_with("chg_"));
    let millis: i64 = r.id["chg_".len()..].parse().unwrap();
    assert!(millis > 1_600_000_000_000);
    assert!(r.timestamp.starts_with("20"));
    assert!(r.timestamp.contains('T'));
}

#[test]
fn history_never_exceeds_its_bound_and_evicts_the_oldest() {
    let mut m = RollbackManager::new();
    m.max_history = 3;
    for i in 1..=4 {
        record(&mut m, i, vec![]);
        assert!(m.change_history.len() <= 3);
    }
    assert_eq!(ids(&m), vec!["chg_4", "chg_3", "chg_2"]);
}

#[test]
fn journal_that_keeps_nothing_stays_empty() {
    let mut m = RollbackManager::new();
    m.max_history = 0;
    record(&mut m, 1, vec![]);
    assert!(m.change_history.is_empty());
}

#[test]
fn rollback_of_empty_history_fails() {
    let mut m = RollbackManager::new();
    assert!(matches!(m.rollback_last(true), Err(RollbackError::NoChanges)));
    assert!(matches!(m.rollback_last(false), Err(RollbackError::NoChanges)));
    assert!(m.change_history.is_empty());
}

#[test]
fn simulated_rollback_leaves_a_marker() {
    let mut m = RollbackManager::new();
    let p = snapshot(vec![boolean("sample_boolean", false)], vec![], vec![], vec![]);
    let n = snapshot(vec![boolean("sample_boolean", true)], vec![], vec![], vec![]);
    m.record_change_at(7, "t".to_string(), "a".to_string(), "d".to_string(), p, n, vec![]);
    let run = m.rollback_last(true).unwrap();
    assert!(run.is_finished());
    assert_eq!(m.change_history.len(), 1);
    let marker = &m.change_history[0];
    assert!(marker.id.starts_with("rollback_"));
    assert_eq!(marker.action, "Rollback");
    assert_eq!(marker.description, "Rolled back: chg_7");
    assert!(marker.rollback_commands.is_empty());
    assert!(marker.applied_commands.is_empty());
    assert!(marker.previous_state.booleans[0].current_value);
    assert!(!marker.new_state.booleans[0].current_value);
}

#[test]
fn boolean_flip_is_rolled_back_by_the_restore_command() {
    let mut m = RollbackManager::new();
    let p = snapshot(vec![boolean("sample_boolean", false)], vec![], vec![], vec![]);
    let n = snapshot(vec![boolean("sample_boolean", true)], vec![], vec![], vec![]);
    m.record_change_at(7, "t".to_string(), "a".to_string(), "d".to_string(), p, n, vec![]);
    let run = m.rollback_last(false).unwrap();
    assert!(!run.is_finished());
    assert_eq!(m.next_command(&run), Some("setsebool -P sample_boolean off".to_string()));
    assert_eq!(m.change_history[0].id, "chg_7");
    let run = m.resume(run, true).unwrap();
    assert!(run.is_finished());
    assert_eq!(m.next_command(&run), None);
    assert_eq!(m.change_history.len(), 1);
    let marker = &m.change_history[0];
    assert_eq!(marker.description, "Rolled back: chg_7");
    assert_eq!(marker.applied_commands, vec!["setsebool -P sample_boolean off".to_string()]);
    assert!(marker.rollback_commands.is_empty());
    assert!(!marker.new_state.booleans[0].current_value);
}

#[test]
fn complete_rollback_at_names_the_marker_after_the_clock() {
    let mut m = RollbackManager::new();
    record(&mut m, 1, vec!["one"]);
    let run = m.rollback_last(false).unwrap();
    let run = m.complete_rollback_at(run, 99, "stamp".to_string());
    assert!(run.is_finished());
    assert_eq!(m.change_history[0].id, "rollback_99");
    assert_eq!(m.change_history[0].timestamp, "stamp");
    assert_eq!(m.change_history.len(), 1);
}

#[test]
fn failed_command_aborts_the_rest_and_reports_what_ran() {
    let mut m = RollbackManager::new();
    record(&mut m, 1, vec![]);
    record(&mut m, 2, vec!["one", "two", "three"]);
    let run = m.rollback_last(false).unwrap();
    assert_eq!(m.next_command(&run), Some("one".to_string()));
    let run = m.resume(run, true).unwrap();
    assert_eq!(m.next_command(&run), Some("two".to_string()));
    match m.resume(run, false) {
        Err(RollbackError::ExternalCommand { command, applied }) => {
            assert_eq!(command, "two");
            assert_eq!(applied, vec!["one".to_string()]);
        }
        other => panic!("unexpected {:?}", other),
    }
    assert_eq!(m.change_history.len(), 2);
    let marker = &m.change_history[0];
    assert!(marker.id.starts_with("rollback_"));
    assert_eq!(marker.action, "Rollback");
    assert_eq!(marker.description, "Rolled back: chg_2");
    assert_eq!(marker.applied_commands, vec!["one".to_string()]);
    assert!(marker.rollback_commands.is_empty());
    assert_eq!(m.change_history[1].id, "chg_1");
}

#[test]
fn failure_of_the_first_command_leaves_a_marker_without_commands() {
    let mut m = RollbackManager::new();
    record(&mut m, 1, vec!["only"]);
    let run = m.rollback_last(false).unwrap();
    match m.resume(run, false) {
        Err(RollbackError::ExternalCommand { command, applied }) => {
            assert_eq!(command, "only");
            assert!(applied.is_empty());
        }
        other => panic!("unexpected {:?}", other),
    }
    assert_eq!(m.change_history.len(), 1);
    assert_eq!(m.change_history[0].description, "Rolled back: chg_1");
    assert!(m.change_history[0].applied_commands.is_empty());
}

#[test]
fn failure_in_a_cascade_leaves_the_records_behind_untouched() {
    let mut m = RollbackManager::new();
    record(&mut m, 1, vec!["a1"]);
    record(&mut m, 2, vec!["b1", "b2"]);
    record(&mut m, 3, vec!["c1"]);
    let run = m.rollback_to_id("chg_1", false).unwrap();
    let run = m.resume(run, true).unwrap();
    assert_eq!(m.next_command(&run), Some("b1".to_string()));
    let run = m.resume(run, true).unwrap();
    assert_eq!(m.next_command(&run), Some("b2".to_string()));
    assert!(m.resume(run, false).is_err());
    let descriptions: Vec<String> = m.change_history.iter().map(|r| r.description.clone()).collect();
    assert_eq!(descriptions, vec!["Rolled back: chg_2", "Rolled back: chg_3", "change 1"]);
    assert_eq!(m.change_history[0].applied_commands, vec!["b1".to_string()]);
    assert_eq!(m.change_history[1].applied_commands, vec!["c1".to_string()]);
    assert_eq!(m.change_history[2].rollback_commands, vec!["a1".to_string()]);
    assert!(m.change_history[2].applied_commands.is_empty());
}

#[test]
fn fail_rollback_at_names_the_marker_after_the_clock() {
    let mut m = RollbackManager::new();
    record(&mut m, 1, vec!["one", "two"]);
    let run = m.rollback_last(false).unwrap();
    let run = m.resume(run, true).unwrap();
    let e = m.fail_rollback_at(run, 77, "stamp".to_string());
    assert_eq!(
        e.message(),
        "Rollback command failed: two; executed before it: one"
    );
    assert_eq!(m.change_history.len(), 1);
    assert_eq!(m.change_history[0].id, "rollback_77");
    assert_eq!(m.change_history[0].timestamp, "stamp");
    assert_eq!(m.change_history[0].applied_commands, vec!["one".to_string()]);
}

#[test]
fn rollback_to_absent_id_fails_and_changes_nothing() {
    let mut m = RollbackManager::new();
    record(&mut m, 1, vec!["x"]);
    record(&mut m, 2, vec![]);
    assert!(matches!(m.rollback_to_id("chg_3", true), Err(RollbackError::IdNotFound)));
    assert!(matches!(m.rollback_to_id("chg_3", false), Err(RollbackError::IdNotFound)));
    assert_eq!(ids(&m), vec!["chg_2", "chg_1"]);
    let mut e = RollbackManager::new();
    assert!(matches!(e.rollback_to_id("chg_1", true), Err(RollbackError::IdNotFound)));
}

#[test]
fn rollback_to_id_cascades_over_everything_newer() {
    let mut m = RollbackManager::new();
    for i in 1..=5 {
        record(&mut m, i, vec!["cmd"]);
    }
    let run = m.rollback_to_id("chg_3", true).unwrap();
    assert!(run.is_finished());
    assert_eq!(run.depth, 3);
    assert_eq!(m.change_history.len(), 5);
    let descriptions: Vec<String> = m.change_history.iter().map(|r| r.description.clone()).collect();
    assert_eq!(
        descriptions,
        vec![
            "Rolled back: chg_3",
            "Rolled back: chg_4",
            "Rolled back: chg_5",
            "change 2",
            "change 1"
        ]
    );
    assert!(m.change_history.iter().take(3).all(|r| r.id.starts_with("rollback_")));
}

#[test]
fn real_cascade_asks_for_each_command_in_turn() {
    let mut m = RollbackManager::new();
    record(&mut m, 1, vec!["a1", "a2"]);
    record(&mut m, 2, vec![]);
    record(&mut m, 3, vec!["c1"]);
    let mut run = m.rollback_to_id("chg_1", false).unwrap();
    let mut executed = Vec::new();
    let mut operations = 0;
    while let Some(cmd) = m.next_command(&run) {
        executed.push(cmd);
        let before = run.depth;
        run = m.resume(run, true).unwrap();
        operations += run.depth - before;
    }
    assert!(run.is_finished());
    assert_eq!(executed, vec!["c1", "a1", "a2"]);
    assert_eq!(operations, 3);
    assert_eq!(run.depth, 3);
    let applied: Vec<Vec<String>> =
        m.change_history.iter().map(|r| r.applied_commands.clone()).collect();
    assert_eq!(
        applied,
        vec![vec!["a1".to_string(), "a2".to_string()], vec![], vec!["c1".to_string()]]
    );
}

#[test]
fn rollback_of_a_marker_leaves_another_marker() {
    let mut m = RollbackManager::new();
    record(&mut m, 1, vec!["x"]);
    m.rollback_last(true).unwrap();
    let first = m.change_history[0].id.clone();
    let run = m.rollback_last(false).unwrap();
    assert!(run.is_finished());
    assert_eq!(m.change_history.len(), 1);
    assert_eq!(m.change_history[0].description, format!("Rolled back: {}", first));
}

#[test]
fn clear_history_empties_the_journal() {
    let mut m = RollbackManager::new();
    record(&mut m, 1, vec![]);
    m.clear_history();
    assert!(m.change_history.is_empty());
    assert_eq!(m.max_history, 200);
}

#[test]
fn with_history_keeps_order_and_bound() {
    let mut m = RollbackManager::new();
    m.max_history = 300;
    for i in 0..250 {
        record(&mut m, i, vec![]);
    }
    let list: Vec<ChangeRecord> = m.change_history.iter().cloned().collect();
    let restored = RollbackManager::with_history(list);
    assert_eq!(restored.change_history.len(), 200);
    assert_eq!(restored.change_history[0].id, "chg_249");
    assert_eq!(restored.change_history[199].id, "chg_50");
    let small = RollbackManager::with_history(vec![]);
    assert!(small.change_history.is_empty());
}

#[test]
fn trim_history_cuts_at_the_back() {
    let mut m = RollbackManager::new();
    for i in 0..5 {
        record(&mut m, i, vec![]);
    }
    m.max_history = 2;
    m.trim_history();
    assert_eq!(ids(&m), vec!["chg_4", "chg_3"]);
}

#[test]
fn error_messages() {
    assert_eq!(RollbackError::NoChanges.message(), "No changes to rollback");
    assert_eq!(RollbackError::IdNotFound.message(), "Change ID not found");
    let e = RollbackError::ExternalCommand { command: "semodule -e x".to_string(), applied: vec![] };
    assert_eq!(
        e.message(),
        "Rollback command failed: semodule -e x; nothing was executed before it"
    );
    let e = RollbackError::ExternalCommand {
        command: "c".to_string(),
        applied: vec!["a".to_string(), "b".to_string()],
    };
    assert_eq!(e.message(), "Rollback command failed: c; executed before it: a; b");
}
