use selab::avc::{AVCAlert, AVCManager, AVCSeverity, AVCSolution};
use selab::booleans::{BooleanManager, BooleanState};
use selab::controller::{
    command_for, dashboard_view, filter_label, filtered_alerts, filtered_booleans, next_filter,
    next_spinner, tab_view, toggled_mode, Command, Key,
};
use selab::file_contexts::FileContext;
use selab::input::{
    export_file_name, export_file_name_at, file_context_rule_of, module_source,
    package_module_name, parse_file_context_input, parse_port_input, port_rule_of, ModuleSource,
};
use selab::modules::SELinuxModule;
use selab::operations::Operation;
use selab::ports::PortContext;
use selab::selinux_mode::SELinuxMode;
use selab::state::{AppState, CurrentView, InputMode, ListSelection, PopupType};

const VIEWS: [CurrentView; 8] = [
    CurrentView::Dashboard,
    CurrentView::AVCAlerts,
    CurrentView::ModuleManager,
    CurrentView::BooleanManager,
    CurrentView::RollbackHistory,
    CurrentView::SafeSettings,
    CurrentView::FileContexts,
    CurrentView::Ports,
];

#[test]
fn views_go_round() {
    for (i, v) in VIEWS.iter().enumerate() {
        assert_eq!(v.next(), VIEWS[(i + 1) % 8]);
        assert_eq!(v.previous(), VIEWS[(i + 7) % 8]);
        assert_eq!(v.next().previous(), *v);
        assert_eq!(v.previous().next(), *v);
        assert_eq!(v.index(), i);
    }
}

#[test]
fn new_state_shows_the_dashboard() {
    let s = AppState::new();
    assert_eq!(s.current_view, CurrentView::Dashboard);
    assert_eq!(s.list_state.selected(), Some(0));
    assert_eq!(s.selected_index, Some(0));
    assert_eq!(s.current_items_len, 0);
    assert_eq!(s.input_mode, InputMode::Normal);
    assert!(!s.popup_type.is_shown());
    assert_eq!(s.input_buffer, "");
    assert_eq!(s.input_cursor_position, 0);
    assert_eq!(s.search_query, "");
}

#[test]
fn set_current_len_pulls_the_selection_back() {
    let mut s = AppState::new();
    s.list_state.select(Some(7));
    s.selected_index = Some(7);
    s.set_current_len(3);
    assert_eq!(s.current_items_len, 3);
    assert_eq!(s.list_state.selected(), Some(2));
    assert_eq!(s.selected_index, Some(2));
    s.list_state.select(Some(1));
    s.selected_index = Some(1);
    s.set_current_len(5);
    assert_eq!(s.list_state.selected(), Some(1));
    assert_eq!(s.selected_index, Some(1));
    s.set_current_len(0);
    assert_eq!(s.list_state.selected(), Some(1));
    s.list_state.select(None);
    s.set_current_len(1);
    assert_eq!(s.list_state.selected(), None);
    s.list_state.select(Some(4));
    s.set_current_len(5);
    assert_eq!(s.list_state.selected(), Some(4));
}

#[test]
fn input_modes() {
    let mut s = AppState::new();
    s.input_buffer = "old".to_string();
    s.input_cursor_position = 3;
    s.enter_input_mode(PopupType::AddPort);
    assert_eq!(s.input_mode, InputMode::Editing);
    assert!(matches!(s.popup_type, PopupType::AddPort));
    assert_eq!(s.input_buffer, "");
    assert_eq!(s.input_cursor_position, 0);
    s.input_buffer = "typed".to_string();
    s.input_cursor_position = 5;
    s.reset_mode();
    assert_eq!(s.input_mode, InputMode::Normal);
    assert!(matches!(s.popup_type, PopupType::Closed));
    assert_eq!(s.input_buffer, "typed");
    s.enter_search_mode();
    assert_eq!(s.input_mode, InputMode::Search);
    assert!(matches!(s.popup_type, PopupType::Search));
    assert_eq!(s.input_buffer, "");
    assert_eq!(s.input_cursor_position, 5);
    s.enter_input_mode(PopupType::Help("key".to_string()));
    assert!(s.popup_type.is_shown());
}

#[test]
fn moving_between_views_and_items() {
    let mut s = AppState::new();
    s.set_current_len(3);
    s.next_item();
    s.next_item();
    assert_eq!(s.list_state.selected(), Some(2));
    assert_eq!(s.selected_index, Some(2));
    s.next_item();
    assert_eq!(s.list_state.selected(), Some(2));
    s.next_view();
    assert_eq!(s.current_view, CurrentView::AVCAlerts);
    assert_eq!(s.list_state.selected(), Some(0));
    assert_eq!(s.selected_index, Some(0));
    s.previous_item();
    assert_eq!(s.list_state.selected(), Some(0));
    s.next_item();
    s.previous_item();
    assert_eq!(s.selected_index, Some(0));
    s.previous_view();
    s.previous_view();
    assert_eq!(s.current_view, CurrentView::Ports);
    s.show_view(CurrentView::SafeSettings);
    assert_eq!(s.current_view, CurrentView::SafeSettings);
    s.list_state.select(None);
    s.next_item();
    assert_eq!(s.list_state.selected(), Some(1));
    s.set_current_len(0);
    s.list_state = ListSelection { selected: Some(0) };
    s.next_item();
    assert_eq!(s.list_state.selected(), Some(0));
}

#[test]
fn keys_while_busy_or_typing() {
    let v = CurrentView::Dashboard;
    assert_eq!(command_for(Key::Char('q'), true, InputMode::Editing, v, false), Command::Quit);
    assert_eq!(command_for(Key::Enter, true, InputMode::Normal, v, false), Command::Nothing);
    assert_eq!(command_for(Key::Char('r'), true, InputMode::Normal, v, false), Command::Nothing);
    assert_eq!(command_for(Key::Enter, false, InputMode::Editing, v, false), Command::Submit);
    assert_eq!(command_for(Key::Esc, false, InputMode::Search, v, false), Command::Cancel);
    assert_eq!(command_for(Key::Char('q'), false, InputMode::Editing, v, false), Command::Type('q'));
    assert_eq!(command_for(Key::Backspace, false, InputMode::Editing, v, false), Command::Erase);
    assert_eq!(command_for(Key::Left, false, InputMode::Editing, v, false), Command::Nothing);
}

#[test]
fn keys_that_steer() {
    let v = CurrentView::Dashboard;
    let n = InputMode::Normal;
    let table = [
        ('q', Command::Quit),
        ('?', Command::ShowHelp),
        ('/', Command::Search),
        ('a', Command::Add),
        ('h', Command::PreviousView),
        ('l', Command::NextView),
        ('k', Command::PreviousItem),
        ('j', Command::NextItem),
        ('r', Command::RollbackLast),
        ('s', Command::ApplySafeSettings),
        ('R', Command::Refresh),
        ('e', Command::Export),
        ('i', Command::Import),
        ('v', Command::Details),
        ('f', Command::ToggleFilter),
        ('A', Command::ShowRecommendations),
        ('m', Command::CreateModule),
        ('M', Command::ToggleMode),
        ('D', Command::RemoveModule),
        ('c', Command::ClearHistory),
        ('0', Command::ShowTab(0)),
        ('5', Command::ShowTab(5)),
        ('9', Command::ShowTab(9)),
        ('x', Command::Nothing),
    ];
    for (c, expected) in table {
        assert_eq!(command_for(Key::Char(c), false, n, v, false), expected, "{}", c);
    }
    assert_eq!(command_for(Key::Enter, false, n, v, false), Command::Execute);
    assert_eq!(command_for(Key::Left, false, n, v, false), Command::PreviousView);
    assert_eq!(command_for(Key::Right, false, n, v, false), Command::NextView);
    assert_eq!(command_for(Key::Up, false, n, v, false), Command::PreviousItem);
    assert_eq!(command_for(Key::Down, false, n, v, false), Command::NextItem);
    assert_eq!(command_for(Key::Esc, false, n, v, false), Command::Nothing);
    assert_eq!(command_for(Key::Other, false, n, v, false), Command::Nothing);
    assert_eq!(
        command_for(Key::Char('a'), false, n, CurrentView::AVCAlerts, true),
        Command::ApplyRecommendation
    );
    assert_eq!(command_for(Key::Char('a'), false, n, CurrentView::AVCAlerts, false), Command::Add);
    assert_eq!(command_for(Key::Char('a'), false, n, CurrentView::Ports, true), Command::Add);
}

#[test]
fn tabs_and_dashboard_items() {
    for (i, v) in VIEWS.iter().enumerate() {
        assert_eq!(tab_view(i as u8 + 1), Some(*v));
    }
    assert_eq!(tab_view(0), None);
    assert_eq!(tab_view(9), None);
    assert_eq!(dashboard_view(0), Some(CurrentView::AVCAlerts));
    assert_eq!(dashboard_view(1), Some(CurrentView::ModuleManager));
    assert_eq!(dashboard_view(2), Some(CurrentView::BooleanManager));
    assert_eq!(dashboard_view(3), Some(CurrentView::SafeSettings));
    assert_eq!(dashboard_view(4), Some(CurrentView::RollbackHistory));
    assert_eq!(dashboard_view(5), Some(CurrentView::FileContexts));
    assert_eq!(dashboard_view(6), Some(CurrentView::Ports));
    assert_eq!(dashboard_view(7), None);
}

#[test]
fn filter_mode_and_spinner_cycles() {
    assert_eq!(next_filter(None), Some(AVCSeverity::High));
    assert_eq!(next_filter(Some(AVCSeverity::High)), Some(AVCSeverity::Medium));
    assert_eq!(next_filter(Some(AVCSeverity::Medium)), Some(AVCSeverity::Low));
    assert_eq!(next_filter(Some(AVCSeverity::Low)), None);
    assert_eq!(filter_label(None), "All");
    assert_eq!(filter_label(Some(AVCSeverity::High)), "High");
    assert_eq!(filter_label(Some(AVCSeverity::Medium)), "Medium");
    assert_eq!(filter_label(Some(AVCSeverity::Low)), "Low");
    assert_eq!(toggled_mode(SELinuxMode::Enforcing), SELinuxMode::Permissive);
    assert_eq!(toggled_mode(SELinuxMode::Permissive), SELinuxMode::Enforcing);
    assert_eq!(toggled_mode(SELinuxMode::Disabled), SELinuxMode::Enforcing);
    assert_eq!(next_spinner(0), 1);
    assert_eq!(next_spinner(3), 0);
    assert_eq!(next_spinner(6), 3);
    assert_eq!(next_spinner(usize::MAX), 0);
}

#[test]
fn filtered_lists() {
    let mut b = BooleanManager::new();
    b.load_simulation_data();
    let names = |v: Vec<BooleanState>| v.into_iter().map(|x| x.name).collect::<Vec<_>>();
    assert_eq!(names(filtered_booleans(&b, "")).len(), 2);
    assert_eq!(names(filtered_booleans(&b, "ssh")), vec!["allow_ssh_keysign"]);
    assert_eq!(names(filtered_booleans(&b, "home directories")), vec!["httpd_enable_homedirs"]);
    assert_eq!(names(filtered_booleans(&b, "httpd")).len(), 1);
    assert!(filtered_booleans(&b, "zzz").is_empty());
    let mut a = AVCManager::new();
    let mk = |p: &str| AVCAlert {
        timestamp: String::new(),
        source_context: String::new(),
        target_context: String::new(),
        target_class: String::new(),
        permission: p.to_string(),
        comm: String::new(),
        path: String::new(),
        severity: AVCSeverity::of_permission(&p.to_string()),
    };
    a.alerts = vec![mk("read"), mk("write"), mk("open"), mk("getattr")];
    assert_eq!(filtered_alerts(&a, None), vec![0, 1, 2, 3]);
    assert_eq!(filtered_alerts(&a, Some(AVCSeverity::Medium)), vec![0, 3]);
    assert_eq!(filtered_alerts(&a, Some(AVCSeverity::High)), vec![1]);
    assert_eq!(filtered_alerts(&a, Some(AVCSeverity::Low)), vec![2]);
}

#[test]
fn typed_port_rule() {
    assert_eq!(
        parse_port_input("  8080   tcp\thttp_port_t "),
        Some(("8080".to_string(), "tcp".to_string(), "http_port_t".to_string()))
    );
    assert_eq!(parse_port_input("8080 tcp"), None);
    assert_eq!(parse_port_input("8080 tcp a b"), None);
    assert_eq!(parse_port_input(""), None);
    assert_eq!(port_rule_of(&vec!["a".to_string()]), None);
}

#[test]
fn typed_file_context_rule() {
    assert_eq!(
        parse_file_context_input("/var/www/app httpd_sys_content_t"),
        Some(("/var/www/app".to_string(), "httpd_sys_content_t".to_string()))
    );
    assert_eq!(
        parse_file_context_input(" /my   long path   label_t "),
        Some(("/my long path".to_string(), "label_t".to_string()))
    );
    assert_eq!(parse_file_context_input("/only"), None);
    assert_eq!(parse_file_context_input("   "), None);
    assert_eq!(file_context_rule_of(&vec![]), None);
}

#[test]
fn typed_export_name_and_module_source() {
    assert_eq!(export_file_name_at("", "20240115_103000"), "selab_config_20240115_103000.json");
    assert_eq!(export_file_name_at("my.json", "20240115_103000"), "my.json");
    assert_eq!(export_file_name("given.json"), "given.json");
    let made = export_file_name("");
    assert!(made.starts_with("selab_config_20") && made.ends_with(".json"));
    assert_eq!(made.len(), "selab_config_20240115_103000.json".len());
    assert!(module_source("").is_none());
    assert!(matches!(module_source("mod.pp"), Some(ModuleSource::Package(p)) if p == "mod.pp"));
    assert!(matches!(module_source("/opt/mod"), Some(ModuleSource::Package(p)) if p == "/opt/mod"));
    assert!(matches!(module_source("mymodule"), Some(ModuleSource::Denials(n)) if n == "mymodule"));
    assert_eq!(package_module_name("/tmp/custom.pp"), Some("custom".to_string()));
    assert_eq!(package_module_name("plain"), Some("plain".to_string()));
    assert_eq!(package_module_name("/"), None);
}

fn calls(op: &Operation) -> Vec<String> {
    op.calls.iter().map(|c| format!("{} {}", c.program, c.arguments.join(" "))).collect()
}

#[test]
fn operations_on_booleans_and_modules() {
    let b = BooleanState {
        name: "x".to_string(),
        description: String::new(),
        current_value: false,
        persistent: true,
        default_value: false,
    };
    let op = Operation::toggle_boolean(&b, false);
    assert_eq!(op.message, "Setting boolean x...");
    assert_eq!(op.description, "Set x to true");
    assert_eq!(op.rollback_commands, vec!["setsebool -P x off"]);
    assert_eq!(calls(&op), vec!["setsebool -P x on"]);
    let on = BooleanState { current_value: true, ..b.clone() };
    let op = Operation::toggle_boolean(&on, true);
    assert_eq!(op.description, "Set x to false");
    assert_eq!(op.rollback_commands, vec!["setsebool -P x on"]);
    assert!(op.calls.is_empty());
    let m = SELinuxModule { name: "apache".to_string(), enabled: true, priority: 400 };
    let op = Operation::toggle_module(&m, false);
    assert_eq!(op.message, "Disabling module apache...");
    assert_eq!(op.description, "Toggled module apache");
    assert_eq!(op.rollback_commands, vec!["semodule -e apache"]);
    assert_eq!(calls(&op), vec!["semodule -d apache"]);
    let off = SELinuxModule { enabled: false, ..m.clone() };
    let op = Operation::toggle_module(&off, false);
    assert_eq!(op.message, "Enabling module apache...");
    assert_eq!(op.rollback_commands, vec!["semodule -d apache"]);
    assert_eq!(calls(&op), vec!["semodule -e apache"]);
    let op = Operation::install_module("/tmp/custom.pp", Some("custom".to_string()), false);
    assert_eq!(op.message, "Installing module from /tmp/custom.pp...");
    assert_eq!(op.description, "Installed module from /tmp/custom.pp");
    assert_eq!(op.rollback_commands, vec!["semodule -r custom"]);
    assert_eq!(calls(&op), vec!["semodule -i /tmp/custom.pp"]);
    let op = Operation::install_module("/", None, true);
    assert_eq!(op.rollback_commands, vec!["semodule -r unknown"]);
    let op = Operation::create_module("mymod", "Would create module mymod from AVC logs");
    assert_eq!(op.message, "Creating module mymod...");
    assert_eq!(op.description, "Would create module mymod from AVC logs");
    assert_eq!(op.rollback_commands, vec!["semodule -r mymod"]);
    assert!(op.calls.is_empty());
    let op = Operation::remove_module("mymod", false);
    assert_eq!(op.message, "Removing module mymod...");
    assert_eq!(op.description, "Removed module mymod");
    assert_eq!(op.rollback_commands, vec!["semodule -i mymod"]);
    assert_eq!(calls(&op), vec!["semodule -r mymod"]);
    let op = Operation::recommended_boolean("b", "true", false);
    assert_eq!(op.message, "Applying boolean b...");
    assert_eq!(op.description, "Applied boolean b");
    assert_eq!(op.rollback_commands, vec!["setsebool -P b off"]);
    assert_eq!(calls(&op), vec!["setsebool -P b on"]);
    assert_eq!(Operation::recommended_boolean("b", "on", true).rollback_commands, vec!["setsebool -P b off"]);
    let op = Operation::recommended_boolean("b", "1", false);
    assert_eq!(op.rollback_commands, vec!["setsebool -P b on"]);
    assert_eq!(calls(&op), vec!["setsebool -P b off"]);
}

#[test]
fn operations_on_rules_and_solutions() {
    let op = Operation::add_port("8080", "tcp", "http_port_t", false);
    assert_eq!(op.message, "Adding Port...");
    assert_eq!(op.description, "Added port 8080/tcp");
    assert_eq!(op.rollback_commands, vec!["semanage port -d -p tcp 8080"]);
    assert_eq!(calls(&op), vec!["semanage port -a -t http_port_t -p tcp 8080"]);
    let p = PortContext { port: "80".to_string(), protocol: "tcp".to_string(), context: "c_t".to_string() };
    let op = Operation::remove_port(&p, false);
    assert_eq!(op.message, "Removing port 80...");
    assert_eq!(op.description, "Removed port 80");
    assert_eq!(op.rollback_commands, vec!["semanage port -a -t c_t -p tcp 80"]);
    assert_eq!(calls(&op), vec!["semanage port -d -p tcp 80"]);
    let op = Operation::add_file_context("/srv", "t", false, false);
    assert_eq!(op.message, "Adding File Context...");
    assert_eq!(op.description, "Added context for /srv");
    assert_eq!(op.rollback_commands, vec!["semanage fcontext -d /srv"]);
    assert_eq!(calls(&op), vec!["semanage fcontext -a -t t /srv", "restorecon -v /srv"]);
    let op = Operation::add_file_context("/srv", "t", true, true);
    assert_eq!(op.message, "Adding file context /srv...");
    assert!(op.calls.is_empty());
    let c = FileContext { path: "/a".to_string(), context: "b_t".to_string() };
    let op = Operation::remove_file_context(&c, false);
    assert_eq!(op.message, "Removing context /a...");
    assert_eq!(op.description, "Removed context /a");
    assert_eq!(op.rollback_commands, vec!["semanage fcontext -a -t b_t /a"]);
    assert_eq!(calls(&op), vec!["semanage fcontext -d /a"]);
    let s = AVCSolution {
        description: "Allow x".to_string(),
        module_content: String::new(),
        commands: vec!["one".to_string(), "two".to_string()],
    };
    let op = Operation::apply_solution(&s, false);
    assert_eq!(op.message, "Applying AVC Fix...");
    assert_eq!(op.description, "Applied: Allow x");
    assert_eq!(op.rollback_commands, vec!["# undo: one", "# undo: two"]);
    assert_eq!(calls(&op), vec!["sh -c one", "sh -c two"]);
    let op = Operation::apply_solution(&s, true);
    assert_eq!(op.rollback_commands.len(), 2);
    assert!(op.calls.is_empty());
}
