use selab::advisor::{Advice, Advisor, PortKind};
use selab::avc::{AVCAlert, AVCSeverity};

fn alert(source: &str, permission: &str, class: &str) -> AVCAlert {
    AVCAlert {
        timestamp: "t".to_string(),
        source_context: source.to_string(),
        target_context: "target_t".to_string(),
        target_class: class.to_string(),
        permission: permission.to_string(),
        comm: "proc".to_string(),
        path: "/p".to_string(),
        severity: AVCSeverity::of_permission(&permission.to_string()),
    }
}

fn tip(key: &str, title: &str) -> Advice {
    Advice {
        key: key.to_string(),
        title: title.to_string(),
        description: "d".to_string(),
        risk: "Low".to_string(),
        suggestion: "s".to_string(),
    }
}

#[test]
fn new_advisor_holds_the_built_in_advice() {
    let a = Advisor::new();
    let keys: Vec<&str> = a.knowledge_base.iter().map(|t| t.key.as_str()).collect();
    assert_eq!(
        keys,
        vec![
            "httpd_can_network_connect",
            "ftpd_anon_write",
            "httpd_read_user_content",
            "avc_general",
            "httpd_enable_homedirs",
            "allow_ssh_keysign"
        ]
    );
    let t = a.get_advice("ftpd_anon_write").unwrap();
    assert_eq!(t.title, "Анонимная запись на FTP");
    assert_eq!(t.risk, "High");
    assert_eq!(t.suggestion, "Держите выключенным, если не уверены. Это частый вектор атаки.");
    assert!(a.get_advice("unknown").is_none());
    assert_eq!(a.get_advice("allow_ssh_keysign").unwrap().risk, "Low");
}

#[test]
fn entered_advice_replaces_the_advice_under_its_key() {
    let mut a = Advisor::new();
    a.add_tip(tip("avc_general", "new"));
    assert_eq!(a.knowledge_base.len(), 6);
    assert_eq!(a.get_advice("avc_general").unwrap().title, "new");
    assert_eq!(a.knowledge_base[3].title, "new");
    a.load_tips(vec![tip("k1", "one"), tip("k2", "two"), tip("k1", "three")]);
    assert_eq!(a.knowledge_base.len(), 8);
    assert_eq!(a.get_advice("k1").unwrap().title, "three");
    assert_eq!(a.get_advice("k2").unwrap().title, "two");
    assert_eq!(a.position(&"k2".to_string()), Some(7));
    a.load_defaults();
    assert_eq!(a.knowledge_base.len(), 8);
    assert_eq!(a.get_advice("avc_general").unwrap().title, "Общие AVC отказы");
}

#[test]
fn port_advice_for_well_known_ports() {
    let a = Advisor::new();
    let t = a.get_port_advice("443", "TCP").unwrap();
    assert_eq!(t.key, "port_443_TCP");
    assert_eq!(t.title, "Рекомендация для порта 443/TCP");
    assert_eq!(t.description, "Рекомендуемый контекст: http_port_t");
    assert_eq!(t.risk, "Low");
    assert_eq!(t.suggestion, "Стандартные порты для HTTP/HTTPS. Используйте http_port_t.");
    let t = a.get_port_advice("53", "udp").unwrap();
    assert_eq!(t.description, "Рекомендуемый контекст: dns_port_t");
    assert_eq!(t.risk, "Medium");
    assert_eq!(a.get_port_advice("22", "tcp").unwrap().suggestion, "Стандартный порт SSH. Используйте ssh_port_t.");
    assert_eq!(a.get_port_advice("25", "tcp").unwrap().description, "Рекомендуемый контекст: smtp_port_t");
    assert_eq!(a.get_port_advice("3306", "tcp").unwrap().description, "Рекомендуемый контекст: mysqld_port_t");
    assert_eq!(a.get_port_advice("5432", "tcp").unwrap().description, "Рекомендуемый контекст: postgresql_port_t");
    assert_eq!(
        a.get_port_advice("8443", "tcp").unwrap().suggestion,
        "Альтернативные порты для веб-серверов. Используйте http_port_t."
    );
    assert!(a.get_port_advice("80", "udp").is_none());
    assert!(a.get_port_advice("81", "tcp").is_none());
    assert!(a.get_port_advice("http", "tcp").is_none());
    assert!(a.get_port_advice("70000", "tcp").is_none());
    assert!(Advisor::port_advice_for("80", "TCP", "TCP").is_none());
    assert_eq!(Advisor::port_advice_for("080", "x", "tcp").unwrap().key, "port_080_x");
}

#[test]
fn port_kinds() {
    assert_eq!(PortKind::of(80, "tcp"), Some(PortKind::Web));
    assert_eq!(PortKind::of(8080, "tcp"), Some(PortKind::WebAlternative));
    assert_eq!(PortKind::of(53, "tcp"), Some(PortKind::Dns));
    assert_eq!(PortKind::of(53, "udp"), Some(PortKind::Dns));
    assert_eq!(PortKind::of(22, "udp"), None);
    assert_eq!(PortKind::of(1, "tcp"), None);
}

#[test]
fn module_advice_by_name() {
    let a = Advisor::new();
    let t = a.get_module_advice("my_apache_mod").unwrap();
    assert_eq!(t.key, "module_my_apache_mod");
    assert_eq!(t.title, "Рекомендация для модуля my_apache_mod");
    assert_eq!(t.description, "Модуль для веб-сервера Apache");
    assert_eq!(t.risk, "Low");
    let t = a.get_module_advice("mariadb").unwrap();
    assert_eq!(t.description, "Модуль для MySQL/MariaDB");
    assert_eq!(t.risk, "Medium");
    assert_eq!(t.suggestion, "Включайте только если используете базу данных MySQL.");
    let t = a.get_module_advice("postgresql").unwrap();
    assert_eq!(t.description, "Модуль для PostgreSQL");
    assert_eq!(a.get_module_advice("httpd_mysql").unwrap().risk, "Low");
    assert!(a.get_module_advice("samba").is_none());
}

#[test]
fn file_context_advice_by_path() {
    let a = Advisor::new();
    let t = a.get_file_context_advice("/var/www/app").unwrap();
    assert_eq!(t.key, "file_/var/www/app");
    assert_eq!(t.title, "Рекомендация для пути /var/www/app");
    assert_eq!(t.description, "Рекомендуемый контекст: httpd_sys_content_t");
    assert_eq!(t.risk, "Low");
    let t = a.get_file_context_advice("/home/u").unwrap();
    assert_eq!(t.description, "Рекомендуемый контекст: user_home_t");
    assert_eq!(t.risk, "Medium");
    let t = a.get_file_context_advice("/etc").unwrap();
    assert_eq!(t.suggestion, "Контекст для системных конфигов.");
    assert!(a.get_file_context_advice("/var").is_none());
    assert!(a.get_file_context_advice("home").is_none());
}

#[test]
fn suggested_file_contexts() {
    let a = Advisor::new();
    assert_eq!(a.get_suggested_file_contexts("/var/www/html"), vec!["httpd_sys_content_t"]);
    assert_eq!(a.get_suggested_file_contexts("home/user/bin"), vec!["user_home_t", "bin_t"]);
    assert_eq!(a.get_suggested_file_contexts("/data/user/www"), vec!["httpd_sys_content_t", "user_home_t"]);
    assert_eq!(a.get_suggested_file_contexts("etc/x"), vec!["etc_t"]);
    assert_eq!(a.get_suggested_file_contexts("/etc/x"), vec!["default_t"]);
    assert_eq!(a.get_suggested_file_contexts("/usr/sbin"), vec!["bin_t"]);
    assert_eq!(a.get_suggested_file_contexts(""), vec!["default_t"]);
}

#[test]
fn avc_advice_is_looked_up_or_made_up() {
    let mut a = Advisor::new();
    let al = alert("httpd_t:s0:c1", "write", "file");
    let t = a.get_avc_advice(&al).unwrap();
    assert_eq!(t.key, "avc_httpd_t_write");
    assert_eq!(t.title, "AVC Denial: httpd_t:s0:c1 -> target_t");
    assert_eq!(
        t.description,
        "Процесс proc пытается выполнить действие 'write' на /p (класс: file), но SELinux блокирует это."
    );
    assert_eq!(t.risk, "High");
    assert_eq!(
        t.suggestion,
        "Проверьте контексты: scontext=httpd_t:s0:c1, tcontext=target_t. Используйте audit2allow для генерации правил или настройте файловые контексты."
    );
    a.add_tip(tip("avc_httpd_t_write", "known"));
    assert_eq!(a.get_avc_advice(&al).unwrap().title, "known");
    let t = a.get_avc_advice(&alert("plain", "open", "file")).unwrap();
    assert_eq!(t.key, "avc_plain_open");
    assert_eq!(t.risk, "Low");
    assert_eq!(a.get_avc_advice(&alert(":x", "read", "file")).unwrap().key, "avc__read");
}

#[test]
fn analyze_avc_alerts_proposes_steps() {
    let a = Advisor::new();
    let alerts = vec![
        alert("httpd_t", "read", "file"),
        alert("app_t", "connect", "tcp_socket"),
        alert("unconfined_t", "open", "file"),
        alert("other_t", "open", "file"),
    ];
    let steps = a.analyze_avc_alerts(&alerts);
    let kinds: Vec<&str> = steps.iter().map(|s| s.action_type.as_str()).collect();
    assert_eq!(
        kinds,
        vec!["avc_fix", "file_context", "avc_fix", "boolean", "avc_fix", "policy", "avc_fix"]
    );
    assert_eq!(steps[0].action_key, "proc");
    assert_eq!(steps[0].title, "AVC Denial: httpd_t -> target_t");
    assert!(steps[0].action_value.as_ref().unwrap().starts_with("Проверьте контексты: scontext=httpd_t"));
    assert_eq!(steps[1].title, "Веб-сервер не может читать файлы");
    assert_eq!(steps[1].description, "Httpd пытается прочитать /p");
    assert_eq!(steps[1].risk, "Medium");
    assert_eq!(steps[1].action_key, "/p");
    assert_eq!(steps[1].action_value, Some("httpd_sys_content_t".to_string()));
    assert_eq!(steps[3].title, "Процесс пытается установить соединение");
    assert_eq!(steps[3].description, "proc не может подключиться к сети");
    assert_eq!(steps[3].risk, "High");
    assert_eq!(steps[3].action_key, "proc_can_network_connect");
    assert_eq!(steps[3].action_value, Some("true".to_string()));
    assert_eq!(steps[5].title, "Unconfined процесс");
    assert_eq!(steps[5].description, "Процесс работает без ограничений SELinux");
    assert_eq!(steps[5].action_key, "review_required");
    assert_eq!(steps[5].action_value, None);
    assert!(a.analyze_avc_alerts(&vec![]).is_empty());
}

#[test]
fn cloned_advice_is_equal() {
    let t = tip("k", "title");
    let c = t.clone();
    assert_eq!((c.key, c.title, c.description, c.risk, c.suggestion), (t.key, t.title, t.description, t.risk, t.suggestion));
}
