use selab::avc::{AVCAlert, AVCManager, AVCSeverity, AVCSolution};
use selab::booleans::{set_boolean_command, BooleanManager, BooleanState};
use selab::file_contexts::{
    add_file_context_command, delete_file_context_command, restore_label_command, FileContext,
    FileContextManager,
};
use selab::modules::{toggle_module_command, ModuleManager, SELinuxModule};
use selab::ports::{add_port_command, delete_port_command, PortContext, PortManager};
use selab::safe_config::SafeModeConfig;
use selab::selinux_mode::{ModeAction, ModeError, SELinuxMode, SELinuxModeManager};
use selab::tools::ToolCall;

fn boolean(name: &str, value: bool) -> BooleanState {
    BooleanState {
        name: name.to_string(),
        description: format!("about {}", name),
        current_value: value,
        persistent: true,
        default_value: false,
    }
}

fn alert(source: &str, target: &str, permission: &str) -> AVCAlert {
    AVCAlert {
        timestamp: "1700000000.123:456".to_string(),
        source_context: source.to_string(),
        target_context: target.to_string(),
        target_class: "file".to_string(),
        permission: permission.to_string(),
        comm: "httpd".to_string(),
        path: "/home/user/index.html".to_string(),
        severity: AVCSeverity::of_permission(&permission.to_string()),
    }
}

fn values(m: &BooleanManager) -> Vec<(String, bool)> {
    m.booleans.iter().map(|b| (b.name.clone(), b.current_value)).collect()
}

#[test]
fn command_texts() {
    assert_eq!(set_boolean_command("httpd_enable_homedirs", true), "setsebool -P httpd_enable_homedirs on");
    assert_eq!(set_boolean_command("x", false), "setsebool -P x off");
    assert_eq!(toggle_module_command("apache", true), "semodule -e apache");
    assert_eq!(toggle_module_command("apache", false), "semodule -d apache");
    assert_eq!(
        add_file_context_command("/var/www", "httpd_sys_content_t"),
        "semanage fcontext -a -t httpd_sys_content_t /var/www"
    );
    assert_eq!(restore_label_command("/var/www"), "restorecon -v /var/www");
    assert_eq!(delete_file_context_command("/var/www"), "semanage fcontext -d /var/www");
    assert_eq!(add_port_command("80", "tcp", "http_port_t"), "semanage port -a -t http_port_t -p tcp 80");
    assert_eq!(delete_port_command("80", "tcp"), "semanage port -d -p tcp 80");
}

#[test]
fn boolean_manager_starts_empty_and_loads_simulation_data() {
    let mut m = BooleanManager::new();
    assert!(m.booleans.is_empty());
    m.load_simulation_data();
    assert_eq!(
        values(&m),
        vec![("httpd_enable_homedirs".to_string(), false), ("allow_ssh_keysign".to_string(), true)]
    );
    assert_eq!(m.booleans[0].description, "Allow httpd to read home directories");
    assert_eq!(m.booleans[1].description, "Allow ssh keysign operation");
    assert!(m.booleans.iter().all(|b| b.persistent && !b.default_value));
}

#[test]
fn set_boolean_changes_the_first_of_the_name_only() {
    let mut m = BooleanManager::new();
    m.booleans = vec![boolean("a", false), boolean("b", false), boolean("a", false)];
    m.set_boolean("a", true);
    assert_eq!(
        values(&m),
        vec![("a".to_string(), true), ("b".to_string(), false), ("a".to_string(), false)]
    );
    m.set_boolean("missing", true);
    assert_eq!(m.booleans.len(), 3);
    assert_eq!(m.booleans[0].description, "about a");
    assert_eq!(m.position("b"), Some(1));
    assert_eq!(m.position("zz"), None);
}

#[test]
fn set_booleans_persistent_makes_each_change_in_turn() {
    let mut m = BooleanManager::new();
    m.booleans = vec![boolean("a", false), boolean("b", true)];
    m.set_booleans_persistent(&vec![
        ("a".to_string(), true),
        ("b".to_string(), false),
        ("a".to_string(), false),
        ("c".to_string(), true),
    ]);
    assert_eq!(values(&m), vec![("a".to_string(), false), ("b".to_string(), false)]);
}

#[test]
fn setsebool_arguments_list_every_change() {
    assert_eq!(BooleanManager::setsebool_arguments(&vec![]), vec!["-P"]);
    assert_eq!(
        BooleanManager::setsebool_arguments(&vec![("a".to_string(), true), ("b".to_string(), false)]),
        vec!["-P", "a", "on", "b", "off"]
    );
}

#[test]
fn cloned_boolean_is_equal_and_independent() {
    let b = boolean("a", true);
    let mut c = b.clone();
    assert_eq!(c.name, "a");
    assert_eq!(c.description, "about a");
    assert!(c.current_value && c.persistent && !c.default_value);
    c.current_value = false;
    assert!(b.current_value);
}

#[test]
fn module_manager_simulated_changes() {
    let mut m = ModuleManager::new();
    assert!(m.modules.is_empty());
    m.load_simulation_data();
    let names: Vec<&str> = m.modules.iter().map(|x| x.name.as_str()).collect();
    assert_eq!(names, vec!["apache", "mysql"]);
    assert!(m.modules.iter().all(|x| x.enabled && x.priority == 400));
    m.disable_module("mysql");
    assert!(m.modules[0].enabled && !m.modules[1].enabled);
    m.enable_module("mysql");
    assert!(m.modules[1].enabled);
    m.disable_module("none");
    assert_eq!(m.modules.len(), 2);
    m.install_module("/tmp/custom.pp");
    assert_eq!(m.modules[2].name, "/tmp/custom.pp");
    assert!(m.modules[2].enabled);
    assert_eq!(m.modules[2].priority, 400);
    m.install_module("apache");
    m.remove_module("apache");
    let names: Vec<&str> = m.modules.iter().map(|x| x.name.as_str()).collect();
    assert_eq!(names, vec!["mysql", "/tmp/custom.pp"]);
    assert_eq!(m.position("/tmp/custom.pp"), Some(1));
    let copy: SELinuxModule = m.modules[0].clone();
    assert_eq!(copy.name, "mysql");
}

#[test]
fn audit_log_has_a_line_for_each_denial() {
    let alerts = vec![alert("httpd_t", "user_home_t", "read"), alert("sshd_t", "etc_t", "write")];
    let log = ModuleManager::audit_log_of(&alerts);
    assert_eq!(
        log,
        "type=AVC msg=audit(1700000000.123:456): avc: denied { read } for pid=1234 comm=\"httpd\" scontext=httpd_t tcontext=user_home_t tclass=file\n\
         type=AVC msg=audit(1700000000.123:456): avc: denied { write } for pid=1234 comm=\"httpd\" scontext=sshd_t tcontext=etc_t tclass=file\n"
    );
    assert_eq!(ModuleManager::audit_log_of(&vec![]), "");
}

#[test]
fn module_build_says_what_it_takes() {
    let m = ModuleManager::new();
    let alerts = vec![alert("httpd_t", "user_home_t", "read")];
    let simulated = m.create_module_from_alerts("mymod", &alerts, true);
    assert!(simulated.simulation);
    assert_eq!(simulated.message, "Would create module mymod from AVC logs");
    let real = m.create_module_from_alerts("mymod", &alerts, false);
    assert!(!real.simulation);
    assert_eq!(real.message, "Module mymod created and installed successfully");
    assert_eq!(real.log_file, "selab_avc_mymod.log");
    assert_eq!(real.package_file, "mymod.pp");
    assert_eq!(real.log, ModuleManager::audit_log_of(&alerts));
    let direct = m.create_module_from_avc("other", "log text", false);
    assert_eq!(direct.log, "log text");
    assert_eq!(direct.log_file, "selab_avc_other.log");
}

#[test]
fn file_context_manager_simulated_changes() {
    let mut m = FileContextManager::new();
    assert!(m.contexts.is_empty());
    m.load_simulation_data();
    assert_eq!(m.canonical_rules(), vec!["/var/www:httpd_sys_content_t"]);
    m.add_file_context("/srv/app", "httpd_sys_content_t");
    m.add_file_context("/srv/app", "other_t");
    assert!(m.has_path("/srv/app"));
    assert!(!m.has_path("/srv"));
    assert_eq!(m.contexts.len(), 3);
    m.remove_file_context("/srv/app");
    assert_eq!(m.canonical_rules(), vec!["/var/www:httpd_sys_content_t"]);
    m.remove_file_context("/nothing");
    assert_eq!(m.contexts.len(), 1);
    let rule = FileContext { path: "/a".to_string(), context: "b_t".to_string() };
    assert_eq!(rule.canonical(), "/a:b_t");
}

#[test]
fn port_manager_simulated_changes() {
    let mut m = PortManager::new();
    assert!(m.ports.is_empty());
    m.load_simulation_data();
    assert_eq!(m.canonical_rules(), vec!["80/tcp:http_port_t"]);
    m.add_port("53", "udp", "dns_port_t");
    m.add_port("53", "tcp", "dns_port_t");
    assert!(m.has_port("53", "udp"));
    assert!(!m.has_port("53", "sctp"));
    assert!(!m.has_port("54", "udp"));
    m.remove_port("53", "udp");
    assert_eq!(m.canonical_rules(), vec!["80/tcp:http_port_t", "53/tcp:dns_port_t"]);
    m.remove_port("80", "udp");
    assert_eq!(m.ports.len(), 2);
    let rule = PortContext { port: "1".to_string(), protocol: "tcp".to_string(), context: "c".to_string() };
    assert_eq!(rule.canonical(), "1/tcp:c");
}

#[test]
fn severity_follows_the_permission() {
    for p in ["execute", "write", "unlink"] {
        assert_eq!(AVCSeverity::of_permission(&p.to_string()), AVCSeverity::High);
    }
    for p in ["read", "getattr"] {
        assert_eq!(AVCSeverity::of_permission(&p.to_string()), AVCSeverity::Medium);
    }
    for p in ["open", "connect", "", "Read"] {
        assert_eq!(AVCSeverity::of_permission(&p.to_string()), AVCSeverity::Low);
    }
    assert_eq!(AVCSeverity::High.label(), "High");
    assert_eq!(AVCSeverity::Medium.label(), "Medium");
    assert_eq!(AVCSeverity::Low.label(), "Low");
}

#[test]
fn avc_manager_simulation_data() {
    let mut m = AVCManager::new();
    assert!(m.alerts.is_empty());
    m.load_simulation_data();
    assert_eq!(m.alerts.len(), 1);
    let a = &m.alerts[0];
    assert_eq!(a.timestamp, "2024-01-15 10:30:00");
    assert_eq!(a.source_context, "httpd_t");
    assert_eq!(a.target_context, "user_home_t");
    assert_eq!(a.target_class, "file");
    assert_eq!(a.permission, "read");
    assert_eq!(a.comm, "httpd");
    assert_eq!(a.path, "/home/user/file.txt");
    assert_eq!(a.severity, AVCSeverity::Medium);
}

#[test]
fn analyze_avc_proposes_a_module_for_a_web_server_reading_homes() {
    let m = AVCManager::new();
    let s = m.analyze_avc(&alert("system_u:system_r:httpd_t:s0", "user_home_t", "read")).unwrap();
    assert_eq!(s.description, "Allow read for system_u:system_r:httpd_t:s0 on user_home_t");
    assert_eq!(s.module_content, "allow system_u:system_r:httpd_t:s0 user_home_t:file { read };");
    assert_eq!(
        s.commands,
        vec!["audit2allow -M mymodule -i <(ausearch -m avc -ts recent)", "semodule -i mymodule.pp"]
    );
}

#[test]
fn analyze_avc_proposes_a_boolean_for_execution_and_else_nothing() {
    let m = AVCManager::new();
    let s = m.analyze_avc(&alert("init_t", "bin_t", "execute")).unwrap();
    assert_eq!(s.module_content, "");
    assert_eq!(s.commands, vec!["setsebool -P allow_execmem 1"]);
    let s = m.analyze_avc(&alert("httpd_t", "etc_t", "read")).unwrap();
    assert!(s.commands.is_empty());
    assert_eq!(s.description, "Allow read for httpd_t on etc_t");
    let s = m.analyze_avc(&alert("httpd_t", "user_home_t", "write")).unwrap();
    assert!(s.commands.is_empty() && s.module_content.is_empty());
}

#[test]
fn apply_solution_gives_the_commands_unless_simulated() {
    let m = AVCManager::new();
    let s = AVCSolution {
        description: "d".to_string(),
        module_content: String::new(),
        commands: vec!["one".to_string(), "two".to_string()],
    };
    assert!(m.apply_solution(&s, true).is_empty());
    assert_eq!(m.apply_solution(&s, false), vec!["one", "two"]);
}

#[test]
fn safe_config_defaults_to_everything() {
    let c = SafeModeConfig::default();
    assert!(c.enable_httpd_readonly);
    assert!(c.disable_unused_services);
    assert!(c.restrict_user_homes);
    assert!(c.enable_audit_all_denials);
    assert!(c.safe_boolean_changes);
}

#[test]
fn safe_defaults_switch_off_and_remember_the_old_values() {
    let c = SafeModeConfig::default();
    let mut m = BooleanManager::new();
    m.booleans = vec![boolean("httpd_enable_homedirs", true), boolean("allow_ssh_keysign", true), boolean("other", true)];
    let undo = c.apply_safe_defaults(&mut m);
    assert_eq!(
        undo,
        vec![
            "setsebool -P httpd_enable_homedirs on",
            "setsebool -P allow_ssh_keysign on",
            "setsebool -P other on"
        ]
    );
    assert_eq!(
        values(&m),
        vec![
            ("httpd_enable_homedirs".to_string(), false),
            ("allow_ssh_keysign".to_string(), false),
            ("other".to_string(), true)
        ]
    );
    assert_eq!(
        c.safe_booleans(),
        vec![
            ("httpd_read_user_content".to_string(), false),
            ("httpd_enable_homedirs".to_string(), false),
            ("allow_ssh_keysign".to_string(), false)
        ]
    );
}

#[test]
fn restrictive_policy_touches_known_booleans_only() {
    let c = SafeModeConfig::default();
    let mut m = BooleanManager::new();
    m.booleans = vec![boolean("secure_mode", false), boolean("deny_ptrace", false), boolean("x", false)];
    assert_eq!(
        c.restrictive_booleans(&m),
        vec![("deny_ptrace".to_string(), true), ("secure_mode".to_string(), true)]
    );
    let undo = c.apply_restrictive_policy(&mut m);
    assert_eq!(
        undo,
        vec!["setsebool -P secure_mode off", "setsebool -P deny_ptrace off", "setsebool -P x off"]
    );
    assert_eq!(
        values(&m),
        vec![("secure_mode".to_string(), true), ("deny_ptrace".to_string(), true), ("x".to_string(), false)]
    );
    let mut none = BooleanManager::new();
    assert!(c.restrictive_booleans(&none).is_empty());
    assert!(c.apply_restrictive_policy(&mut none).is_empty());
}

#[test]
fn generate_rollback_commands_restore_every_boolean() {
    let c = SafeModeConfig::default();
    assert_eq!(
        c.generate_rollback_commands(&vec![boolean("a", true), boolean("b", false)]),
        vec!["setsebool -P a on", "setsebool -P b off"]
    );
    assert!(c.generate_rollback_commands(&vec![]).is_empty());
}

#[test]
fn mode_names() {
    assert_eq!(SELinuxMode::from_string("enforcing"), SELinuxMode::Enforcing);
    assert_eq!(SELinuxMode::from_string("Permissive"), SELinuxMode::Permissive);
    assert_eq!(SELinuxMode::from_string("PERMISSIVE"), SELinuxMode::Permissive);
    assert_eq!(SELinuxMode::from_string("DISABLED"), SELinuxMode::Disabled);
    assert_eq!(SELinuxMode::from_string("something"), SELinuxMode::Enforcing);
    assert_eq!(SELinuxMode::from_string(""), SELinuxMode::Enforcing);
    assert_eq!(SELinuxMode::from_lowercase("permissive"), SELinuxMode::Permissive);
    assert_eq!(SELinuxMode::from_lowercase("Permissive"), SELinuxMode::Enforcing);
    assert_eq!(SELinuxMode::Enforcing.to_string(), "Enforcing");
    assert_eq!(SELinuxMode::Permissive.to_string(), "Permissive");
    assert_eq!(SELinuxMode::Disabled.to_string(), "Disabled");
}

#[test]
fn mode_is_read_from_tool_output() {
    assert_eq!(SELinuxMode::get_current("Permissive\n"), SELinuxMode::Permissive);
    assert_eq!(SELinuxMode::get_current("  Disabled \r\n"), SELinuxMode::Disabled);
    assert_eq!(SELinuxMode::get_current(""), SELinuxMode::Enforcing);
    let mut m = SELinuxModeManager::new("Permissive\n");
    assert_eq!(m.get_current(), SELinuxMode::Permissive);
    m.refresh("Enforcing\n");
    assert_eq!(m.get_current(), SELinuxMode::Enforcing);
}

#[test]
fn set_mode_says_what_to_call() {
    assert!(matches!(SELinuxMode::Enforcing.set_mode(true), Ok(ModeAction::Nothing)));
    assert!(matches!(SELinuxMode::Disabled.set_mode(true), Ok(ModeAction::Nothing)));
    match SELinuxMode::Enforcing.set_mode(false) {
        Ok(ModeAction::Setenforce(a)) => assert_eq!(a, "1"),
        other => panic!("unexpected {:?}", other),
    }
    match SELinuxMode::Permissive.set_mode(false) {
        Ok(ModeAction::Setenforce(a)) => assert_eq!(a, "0"),
        other => panic!("unexpected {:?}", other),
    }
    assert_eq!(SELinuxMode::Disabled.set_mode(false).unwrap_err(), ModeError::DisabledNeedsReboot);
    assert_eq!(
        ModeError::DisabledNeedsReboot.message(),
        "Disabling SELinux requires editing /etc/selinux/config and reboot"
    );
}

#[test]
fn manager_set_mode_decides_and_notes_the_mode() {
    let mut m = SELinuxModeManager::new("Enforcing");
    assert!(matches!(m.set_mode(SELinuxMode::Permissive, false, true), Ok(ModeAction::Nothing)));
    assert_eq!(m.get_current(), SELinuxMode::Permissive);
    assert!(matches!(m.set_mode(SELinuxMode::Disabled, true, false), Ok(ModeAction::RewriteConfig)));
    assert_eq!(m.get_current(), SELinuxMode::Disabled);
    assert!(matches!(m.set_mode(SELinuxMode::Enforcing, true, true), Ok(ModeAction::Nothing)));
    match m.set_mode(SELinuxMode::Permissive, false, false) {
        Ok(ModeAction::Setenforce(a)) => assert_eq!(a, "0"),
        other => panic!("unexpected {:?}", other),
    }
    assert_eq!(
        m.set_mode(SELinuxMode::Disabled, false, false).unwrap_err(),
        ModeError::DisabledNeedsReboot
    );
    assert_eq!(m.get_current(), SELinuxMode::Permissive);
    match m.set_mode(SELinuxMode::Enforcing, false, false) {
        Ok(ModeAction::Setenforce(a)) => assert_eq!(a, "1"),
        other => panic!("unexpected {:?}", other),
    }
}

#[test]
fn set_persistent_rewrites_the_configuration() {
    let content = "# comment\nSELINUX=enforcing\nSELINUXTYPE=targeted\n";
    assert_eq!(
        SELinuxMode::Permissive.set_persistent(content),
        "# comment\nSELINUX=permissive\nSELINUXTYPE=targeted\n"
    );
    assert_eq!(
        SELinuxMode::Disabled.set_persistent("  SELINUX=x\r\nother"),
        "SELINUX=disabled\nother\n"
    );
    assert_eq!(SELinuxMode::Enforcing.set_persistent("a=b\n"), "a=b\nSELINUX=enforcing\n");
    assert_eq!(SELinuxMode::Enforcing.set_persistent(""), "SELINUX=enforcing\n");
    assert_eq!(
        SELinuxMode::Enforcing.set_persistent("SELINUX=a\n\nSELINUX=b"),
        "SELINUX=enforcing\n\nSELINUX=enforcing\n"
    );
}

#[test]
fn tool_calls() {
    let c = ToolCall::list_booleans();
    assert_eq!((c.program.as_str(), c.arguments), ("getsebool", vec!["-a".to_string()]));
    let c = ToolCall::describe_booleans();
    assert_eq!((c.program.as_str(), c.arguments.join(" ")), ("semanage", "boolean -l".to_string()));
    let c = ToolCall::set_boolean("x", true);
    assert_eq!((c.program.as_str(), c.arguments.join(" ")), ("setsebool", "-P x on".to_string()));
    let c = ToolCall::set_boolean("x", false);
    assert_eq!(c.arguments.join(" "), "-P x off");
    let c = ToolCall::set_booleans(vec!["-P".to_string(), "a".to_string(), "on".to_string()]);
    assert_eq!((c.program.as_str(), c.arguments.join(" ")), ("setsebool", "-P a on".to_string()));
    let c = ToolCall::list_modules();
    assert_eq!((c.program.as_str(), c.arguments.join(" ")), ("semodule", "-l".to_string()));
    assert_eq!(ToolCall::enable_module("m").arguments.join(" "), "-e m");
    assert_eq!(ToolCall::disable_module("m").arguments.join(" "), "-d m");
    assert_eq!(ToolCall::install_module("/p.pp").arguments.join(" "), "-i /p.pp");
    assert_eq!(ToolCall::remove_module("m").arguments.join(" "), "-r m");
    let c = ToolCall::build_module("/tmp/l.log", "m");
    assert_eq!((c.program.as_str(), c.arguments.join(" ")), ("audit2allow", "-i /tmp/l.log -M m".to_string()));
    assert_eq!(ToolCall::list_file_contexts().arguments.join(" "), "fcontext -l");
    let c = ToolCall::add_file_context("/a b", "t");
    assert_eq!(c.program, "semanage");
    assert_eq!(c.arguments, vec!["fcontext", "-a", "-t", "t", "/a b"]);
    let c = ToolCall::restore_labels("/a");
    assert_eq!((c.program.as_str(), c.arguments.join(" ")), ("restorecon", "-v /a".to_string()));
    assert_eq!(ToolCall::remove_file_context("/a").arguments.join(" "), "fcontext -d /a");
    assert_eq!(ToolCall::list_ports().arguments.join(" "), "port -l");
    assert_eq!(ToolCall::add_port("80", "tcp", "t").arguments.join(" "), "port -a -t t -p tcp 80");
    assert_eq!(ToolCall::remove_port("80", "tcp").arguments.join(" "), "port -d -p tcp 80");
    let c = ToolCall::list_denials();
    assert_eq!((c.program.as_str(), c.arguments.join(" ")), ("ausearch", "-m avc --raw -ts recent".to_string()));
    let c = ToolCall::get_mode();
    assert_eq!(c.program, "getenforce");
    assert!(c.arguments.is_empty());
    let c = ToolCall::set_mode("1");
    assert_eq!((c.program.as_str(), c.arguments.join(" ")), ("setenforce", "1".to_string()));
    let c = ToolCall::shell("echo hi");
    assert_eq!(c.program, "sh");
    assert_eq!(c.arguments, vec!["-c", "echo hi"]);
    let c = ToolCall::new("prog", vec!["x".to_string()]);
    assert_eq!((c.program.as_str(), c.arguments.join(" ")), ("prog", "x".to_string()));
}
