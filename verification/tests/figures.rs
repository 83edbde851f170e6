use selab::avc::{AVCAlert, AVCManager, AVCSeverity};
use selab::booleans::{BooleanManager, BooleanState};
use selab::config_export::{ConfigExporter, ConfigProfile, ProfileStep};
use selab::file_contexts::FileContextManager;
use selab::logging::Logger;
use selab::modules::{ModuleManager, SELinuxModule};
use selab::ports::PortManager;
use selab::rollback::{RollbackManager, SystemState};
use selab::selinux_mode::SELinuxModeManager;
use selab::stats::{count_keys, RiskLevel, StatsManager};

fn alert(source: &str, permission: &str) -> AVCAlert {
    AVCAlert {
        timestamp: String::new(),
        source_context: source.to_string(),
        target_context: String::new(),
        target_class: String::new(),
        permission: permission.to_string(),
        comm: String::new(),
        path: String::new(),
        severity: AVCSeverity::of_permission(&permission.to_string()),
    }
}

fn boolean(name: &str, current: bool, default: bool) -> BooleanState {
    BooleanState {
        name: name.to_string(),
        description: String::new(),
        current_value: current,
        persistent: true,
        default_value: default,
    }
}

fn empty_snapshot() -> SystemState {
    SystemState {
        timestamp: String::new(),
        selinux_mode: String::new(),
        booleans: vec![],
        modules: vec![],
        file_contexts: vec![],
        ports: vec![],
    }
}

fn managers() -> (BooleanManager, ModuleManager, FileContextManager, PortManager) {
    let mut b = BooleanManager::new();
    b.load_simulation_data();
    let mut m = ModuleManager::new();
    m.load_simulation_data();
    let mut f = FileContextManager::new();
    f.load_simulation_data();
    let mut p = PortManager::new();
    p.load_simulation_data();
    (b, m, f, p)
}

#[test]
fn count_keys_counts_in_order_of_first_occurrence() {
    let keys: Vec<String> = ["b", "a", "b", "c", "a", "b"].iter().map(|s| s.to_string()).collect();
    assert_eq!(
        count_keys(&keys),
        vec![("b".to_string(), 3), ("a".to_string(), 2), ("c".to_string(), 1)]
    );
    assert!(count_keys(&vec![]).is_empty());
}

#[test]
fn calculate_stats_counts_everything() {
    let mut avc = AVCManager::new();
    avc.alerts = vec![
        alert("system_u:system_r:httpd_t:s0", "write"),
        alert("httpd_t", "read"),
        alert("system_u:x", "read"),
        alert("httpd_t", "open"),
    ];
    let mut b = BooleanManager::new();
    b.booleans = vec![boolean("a", true, false), boolean("b", false, false), boolean("c", false, true)];
    let mut m = ModuleManager::new();
    m.modules = vec![
        SELinuxModule { name: "x".to_string(), enabled: true, priority: 1 },
        SELinuxModule { name: "y".to_string(), enabled: false, priority: 1 },
    ];
    let mut r = RollbackManager::new();
    for i in 0..12 {
        let action = if i == 3 { "Setting SELinux mode to Permissive...".to_string() } else { format!("act{}", i) };
        let description = if i == 5 { "SELinux mode set to Enforcing".to_string() } else { format!("desc{}", i) };
        r.record_change_at(i, format!("t{}", i), action, description, empty_snapshot(), empty_snapshot(), vec![]);
    }
    let s = StatsManager::calculate_stats(&avc, &b, &m, &r);
    assert_eq!(s.total_avc_alerts, 4);
    assert_eq!(
        s.avc_by_severity,
        vec![("High".to_string(), 1), ("Medium".to_string(), 2), ("Low".to_string(), 1)]
    );
    assert_eq!(
        s.avc_by_permission,
        vec![("write".to_string(), 1), ("read".to_string(), 2), ("open".to_string(), 1)]
    );
    assert_eq!(s.avc_by_source, vec![("system_u".to_string(), 2), ("httpd_t".to_string(), 2)]);
    assert_eq!(s.total_booleans, 3);
    assert_eq!(s.booleans_changed, 2);
    assert_eq!(s.total_modules, 2);
    assert_eq!(s.modules_enabled, 1);
    assert_eq!(s.total_changes, 12);
    assert_eq!(s.recent_changes.len(), 10);
    assert_eq!(s.recent_changes[0].timestamp, "t11");
    assert_eq!(s.recent_changes[0].action, "act11");
    assert_eq!(s.recent_changes[0].description, "desc11");
    assert_eq!(s.recent_changes[9].description, "desc2");
    assert_eq!(s.risk_half_points, 20 + 2 * 10 + 2 * 4 + 10);
}

#[test]
fn stats_of_nothing_are_zero() {
    let s = StatsManager::calculate_stats(
        &AVCManager::new(),
        &BooleanManager::new(),
        &ModuleManager::new(),
        &RollbackManager::new(),
    );
    assert_eq!(s.total_avc_alerts, 0);
    assert!(s.avc_by_severity.is_empty());
    assert!(s.recent_changes.is_empty());
    assert_eq!(s.risk_half_points, 0);
}

#[test]
fn risk_levels() {
    assert_eq!(StatsManager::get_risk_level(0), RiskLevel::Low);
    assert_eq!(StatsManager::get_risk_level(39), RiskLevel::Low);
    assert_eq!(StatsManager::get_risk_level(40), RiskLevel::Medium);
    assert_eq!(StatsManager::get_risk_level(99), RiskLevel::Medium);
    assert_eq!(StatsManager::get_risk_level(100), RiskLevel::High);
    assert_eq!(StatsManager::get_risk_level(u128::MAX), RiskLevel::High);
    assert_eq!(RiskLevel::High.label(), "High");
    assert_eq!(RiskLevel::Medium.label(), "Medium");
    assert_eq!(RiskLevel::Low.label(), "Low");
}

#[test]
fn capture_copies_what_the_managers_hold() {
    let (mut b, m, f, p) = managers();
    let mode = SELinuxModeManager::new("Permissive");
    let s = SystemState::capture_at("2024-01-15T10:30:00+00:00".to_string(), &mode, &b, &m, &f, &p);
    b.set_boolean("httpd_enable_homedirs", true);
    assert_eq!(s.timestamp, "2024-01-15T10:30:00+00:00");
    assert_eq!(s.selinux_mode, "Permissive");
    assert_eq!(s.booleans.len(), 2);
    assert!(!s.booleans[0].current_value);
    assert_eq!(s.booleans[1].name, "allow_ssh_keysign");
    assert_eq!(s.booleans[1].description, "Allow ssh keysign operation");
    assert_eq!(s.modules.len(), 2);
    assert_eq!(s.modules[1].name, "mysql");
    assert_eq!(s.file_contexts, vec!["/var/www:httpd_sys_content_t"]);
    assert_eq!(s.ports, vec!["80/tcp:http_port_t"]);
    let now = SystemState::capture(&mode, &b, &m, &f, &p);
    assert!(now.timestamp.starts_with("20") && now.timestamp.contains('T'));
    assert!(now.booleans[0].current_value);
    assert_eq!(
        RollbackManager::generate_rollback_commands(&s, &now),
        vec!["setsebool -P httpd_enable_homedirs off"]
    );
}

#[test]
fn export_profile_lists_the_settings() {
    let (b, mut m, f, p) = managers();
    m.disable_module("apache");
    let e = ConfigExporter::export_profile_at("stamp".to_string(), "Name", "Desc", &b, &m, &f, &p);
    assert_eq!(e.name, "Name");
    assert_eq!(e.description, "Desc");
    assert_eq!(e.timestamp, "stamp");
    assert_eq!(
        e.booleans,
        vec![("httpd_enable_homedirs".to_string(), false), ("allow_ssh_keysign".to_string(), true)]
    );
    assert_eq!(e.modules, vec!["mysql"]);
    assert_eq!(e.file_contexts, vec![("/var/www".to_string(), "httpd_sys_content_t".to_string())]);
    assert_eq!(e.ports, vec![("80".to_string(), "tcp".to_string(), "http_port_t".to_string())]);
    let now = ConfigExporter::export_profile("Name", "Desc", &b, &m, &f, &p);
    assert!(now.timestamp.starts_with("20"));
    assert_eq!(now.modules, vec!["mysql"]);
}

#[test]
fn apply_profile_takes_the_steps_that_are_needed() {
    let (mut b, mut m, mut f, mut p) = managers();
    m.disable_module("mysql");
    let profile = ConfigProfile {
        name: "n".to_string(),
        description: "d".to_string(),
        timestamp: "t".to_string(),
        booleans: vec![("httpd_enable_homedirs".to_string(), true), ("unknown".to_string(), false)],
        modules: vec!["apache".to_string(), "mysql".to_string(), "mysql".to_string(), "ghost".to_string(), "ghost".to_string()],
        file_contexts: vec![
            ("/var/www".to_string(), "x_t".to_string()),
            ("/srv".to_string(), "a_t".to_string()),
            ("/srv".to_string(), "b_t".to_string()),
        ],
        ports: vec![
            ("80".to_string(), "tcp".to_string(), "x".to_string()),
            ("80".to_string(), "udp".to_string(), "y".to_string()),
        ],
    };
    let applied = ConfigExporter::apply_profile(&profile, &mut b, &mut m, &mut f, &mut p);
    assert_eq!(
        applied.rollback_commands,
        vec![
            "setsebool -P httpd_enable_homedirs off",
            "setsebool -P unknown on",
            "semodule -d mysql",
            "semodule -d ghost",
            "semodule -d ghost",
            "semanage fcontext -d /srv",
            "semanage port -d -p udp 80",
        ]
    );
    assert_eq!(applied.steps.len(), 6);
    assert!(matches!(&applied.steps[0], ProfileStep::SetBooleans(c) if c.len() == 2));
    assert!(matches!(&applied.steps[1], ProfileStep::EnableModule(n) if n == "mysql"));
    assert!(matches!(&applied.steps[4], ProfileStep::AddFileContext(p, c) if p == "/srv" && c == "a_t"));
    assert!(matches!(&applied.steps[5], ProfileStep::AddPort(p, q, c) if p == "80" && q == "udp" && c == "y"));
    let calls: Vec<String> = applied
        .steps
        .iter()
        .flat_map(|s| s.calls())
        .map(|c| format!("{} {}", c.program, c.arguments.join(" ")))
        .collect();
    assert_eq!(
        calls,
        vec![
            "setsebool -P httpd_enable_homedirs on unknown off",
            "semodule -e mysql",
            "semodule -e ghost",
            "semodule -e ghost",
            "semanage fcontext -a -t a_t /srv",
            "restorecon -v /srv",
            "semanage port -a -t y -p udp 80",
        ]
    );
    assert_eq!(applied.steps[1].undo(), vec!["semodule -d mysql"]);
    assert!(b.booleans[0].current_value);
    assert!(m.modules.iter().all(|x| x.enabled));
    assert_eq!(m.modules.len(), 2);
    assert_eq!(f.canonical_rules(), vec!["/var/www:httpd_sys_content_t", "/srv:a_t"]);
    assert_eq!(p.canonical_rules(), vec!["80/tcp:http_port_t", "80/udp:y"]);
}

#[test]
fn apply_empty_profile_does_nothing() {
    let (mut b, mut m, mut f, mut p) = managers();
    let profile = ConfigProfile {
        name: String::new(),
        description: String::new(),
        timestamp: String::new(),
        booleans: vec![],
        modules: vec![],
        file_contexts: vec![],
        ports: vec![],
    };
    let applied = ConfigExporter::apply_profile(&profile, &mut b, &mut m, &mut f, &mut p);
    assert!(applied.steps.is_empty());
    assert!(applied.rollback_commands.is_empty());
    assert_eq!(b.booleans.len(), 2);
}

#[test]
fn logger_writes_lines() {
    assert_eq!(Logger::file_name_at("20240115_103000"), "selab_20240115_103000.log");
    let name = Logger::file_name();
    assert!(name.starts_with("selab_20") && name.ends_with(".log"));
    assert_eq!(name.len(), "selab_20240115_103000.log".len());
    assert_eq!(
        Logger::line_at("2024-01-15 10:30:00", "INFO", "started"),
        "[2024-01-15 10:30:00] [INFO] started"
    );
    let logger = Logger::new("/tmp/selab.log".to_string());
    assert_eq!(logger.get_log_path(), "/tmp/selab.log");
    let line = logger.info("hello");
    assert!(line.starts_with("[20") && line.ends_with("] [INFO] hello"));
    assert_eq!(line.len(), "[2024-01-15 10:30:00] [INFO] hello".len());
    assert!(logger.error("bad").ends_with("] [ERROR] bad"));
    assert!(logger.warn("hm").ends_with("] [WARN] hm"));
    assert!(logger.log("DEBUG", "x").ends_with("] [DEBUG] x"));
}
