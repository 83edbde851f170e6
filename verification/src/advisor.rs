//! The knowledge base: advice for the operator on booleans, ports, modules,
//! paths and denials.

use crate::avc::{AVCAlert, AVCAlertView, AVCSeverity};
use crate::model::{first_index_of, lemma_first_index_of, lemma_views_push, views};
use crate::text::{
    before_first,
    has_part,
    has_prefix,
    is_prefix,
    is_text,
    lowercase,
    occurs_in,
    parse_u16,
    parsed_u16,
    part_before,
    to_lowercase,
};
use vstd::prelude::*;
use vstd::string::*;

verus! {

/// One piece of advice.
#[derive(Debug)]
pub struct Advice {
    /// What the advice is about: the name of a boolean, or a made-up key.
    pub key: String,
    pub title: String,
    pub description: String,
    /// `Low`, `Medium` or `High`.
    pub risk: String,
    pub suggestion: String,
}

/// The mathematical value of an `Advice`.
pub struct AdviceView {
    pub key: Seq<char>,
    pub title: Seq<char>,
    pub description: Seq<char>,
    pub risk: Seq<char>,
    pub suggestion: Seq<char>,
}

impl View for Advice {
    type V = AdviceView;

    open spec fn view(&self) -> AdviceView {
        AdviceView {
            key: self.key@,
            title: self.title@,
            description: self.description@,
            risk: self.risk@,
            suggestion: self.suggestion@,
        }
    }
}

impl Clone for Advice {
    fn clone(&self) -> (r: Self)
        ensures
            r@ == self@,
    {
        Advice {
            key: self.key.clone(),
            title: self.title.clone(),
            description: self.description.clone(),
            risk: self.risk.clone(),
            suggestion: self.suggestion.clone(),
        }
    }
}

/// A step that the advisor proposes by itself.
#[derive(Debug, Clone)]
pub struct AutoRecommendation {
    pub title: String,
    pub description: String,
    pub risk: String,
    /// What kind of setting the step changes.
    pub action_type: String,
    pub action_key: String,
    pub action_value: Option<String>,
}

/// The mathematical value of an `AutoRecommendation`.
pub struct AutoRecommendationView {
    pub title: Seq<char>,
    pub description: Seq<char>,
    pub risk: Seq<char>,
    pub action_type: Seq<char>,
    pub action_key: Seq<char>,
    pub action_value: Option<Seq<char>>,
}

impl View for AutoRecommendation {
    type V = AutoRecommendationView;

    open spec fn view(&self) -> AutoRecommendationView {
        AutoRecommendationView {
            title: self.title@,
            description: self.description@,
            risk: self.risk@,
            action_type: self.action_type@,
            action_key: self.action_key@,
            action_value: match self.action_value {
                Some(v) => Some(v@),
                None => None,
            },
        }
    }
}

/// The keys of the pieces of advice, in order.
pub open spec fn advice_keys(tips: Seq<AdviceView>) -> Seq<Seq<char>> {
    tips.map_values(|t: AdviceView| t.key)
}

/// The advice that `tips` hold under `key`.
pub open spec fn advice_for(tips: Seq<AdviceView>, key: Seq<char>) -> Option<AdviceView> {
    let i = first_index_of(advice_keys(tips), key);
    if 0 <= i < tips.len() {
        Some(tips[i])
    } else {
        None
    }
}

/// `tips` after `tip` has been entered: it takes the place of the advice
/// under its key, or comes last where there was none.
pub open spec fn with_tip(tips: Seq<AdviceView>, tip: AdviceView) -> Seq<AdviceView> {
    let i = first_index_of(advice_keys(tips), tip.key);
    if 0 <= i < tips.len() {
        tips.update(i, tip)
    } else {
        tips.push(tip)
    }
}

/// `tips` after each of `more` has been entered in turn.
pub open spec fn with_tips(tips: Seq<AdviceView>, more: Seq<AdviceView>) -> Seq<AdviceView>
    decreases more.len(),
{
    if more.len() == 0 {
        tips
    } else {
        with_tip(with_tips(tips, more.drop_last()), more.last())
    }
}

/// Advice that has been entered is found under its key, and the advice
/// under every other key is what it was.
pub proof fn lemma_entered_tip_is_found(tips: Seq<AdviceView>, tip: AdviceView, key: Seq<char>)
    ensures
        advice_for(with_tip(tips, tip), tip.key) == Some(tip),
        key != tip.key ==> advice_for(with_tip(tips, tip), key) == advice_for(tips, key),
{
    let keys = advice_keys(tips);
    let after = with_tip(tips, tip);
    let i = first_index_of(keys, tip.key);
    lemma_first_index_of(keys, tip.key);
    lemma_first_index_of(advice_keys(after), tip.key);
    lemma_first_index_of(keys, key);
    lemma_first_index_of(advice_keys(after), key);
    if i < tips.len() {
        assert(advice_keys(after) =~= keys);
    } else {
        assert(advice_keys(after) =~= keys.push(tip.key));
        let j = first_index_of(advice_keys(after), tip.key);
        assert(advice_keys(after)[tips.len() as int] == tip.key);
        if j < tips.len() {
            assert(keys[j] == tip.key);
        }
        if key != tip.key {
            let a = first_index_of(keys, key);
            let b = first_index_of(advice_keys(after), key);
            if a < keys.len() {
                assert(advice_keys(after)[a] == key);
                if b < a {
                    assert(keys[b] == key);
                }
            } else {
                if b < advice_keys(after).len() {
                    if b < keys.len() {
                        assert(keys[b] == key);
                    }
                }
            }
        }
    }
}

/// The advice with which a fresh knowledge base starts.
pub open spec fn default_tips() -> Seq<AdviceView> {
    seq![
        AdviceView {
            key: "httpd_can_network_connect"@,
            title: "Разрешить сайту исходящие соединения"@,
            description: "Если ваш сайт должен обращаться к внешним API или другим серверам, включите это."@,
            risk: "Medium"@,
            suggestion: "Включайте только если сайт реально делает запросы наружу."@,
        },
        AdviceView {
            key: "ftpd_anon_write"@,
            title: "Анонимная запись на FTP"@,
            description: "Позволяет анонимным пользователям загружать файлы на сервер."@,
            risk: "High"@,
            suggestion: "Держите выключенным, если не уверены. Это частый вектор атаки."@,
        },
        AdviceView {
            key: "httpd_read_user_content"@,
            title: "Доступ веб-сервера к домашним папкам"@,
            description: "Разрешает Apache/Nginx читать файлы в /home/user/public_html."@,
            risk: "Medium"@,
            suggestion: "Включите, если хостите сайты пользователей."@,
        },
        AdviceView {
            key: "avc_general"@,
            title: "Общие AVC отказы"@,
            description: "SELinux блокирует доступ к ресурсам."@,
            risk: "Medium"@,
            suggestion: "Используйте audit2allow для анализа и генерации правил, или настройте контексты файлов/портов."@,
        },
        AdviceView {
            key: "httpd_enable_homedirs"@,
            title: "Доступ httpd к домашним директориям"@,
            description: "Разрешает веб-серверу читать файлы в домашних директориях пользователей."@,
            risk: "Medium"@,
            suggestion: "Включайте только если необходимо для работы пользовательских сайтов."@,
        },
        AdviceView {
            key: "allow_ssh_keysign"@,
            title: "SSH ключи подпись"@,
            description: "Разрешает SSH использовать ключи для подписи."@,
            risk: "Low"@,
            suggestion: "Обычно безопасно включать для SSH аутентификации."@,
        },
    ]
}

/// The kinds of well-known ports.
#[derive(Debug, Clone, Copy, PartialEq, Eq, Structural)]
pub enum PortKind {
    Web,
    Ssh,
    Smtp,
    Dns,
    Mysql,
    Postgresql,
    WebAlternative,
}

/// The kind of the port `port` of the protocol whose name in lower case is
/// `protocol`, where the port is well known.
pub open spec fn port_kind(port: u16, protocol: Seq<char>) -> Option<PortKind> {
    if protocol == "tcp"@ {
        if port == 80 || port == 443 {
            Some(PortKind::Web)
        } else if port == 22 {
            Some(PortKind::Ssh)
        } else if port == 25 {
            Some(PortKind::Smtp)
        } else if port == 53 {
            Some(PortKind::Dns)
        } else if port == 3306 {
            Some(PortKind::Mysql)
        } else if port == 5432 {
            Some(PortKind::Postgresql)
        } else if port == 8080 || port == 8443 {
            Some(PortKind::WebAlternative)
        } else {
            None
        }
    } else if protocol == "udp"@ && port == 53 {
        Some(PortKind::Dns)
    } else {
        None
    }
}

impl PortKind {
    /// The label that ports of this kind should carry.
    pub open spec fn context(self) -> Seq<char> {
        match self {
            PortKind::Web => "http_port_t"@,
            PortKind::Ssh => "ssh_port_t"@,
            PortKind::Smtp => "smtp_port_t"@,
            PortKind::Dns => "dns_port_t"@,
            PortKind::Mysql => "mysqld_port_t"@,
            PortKind::Postgresql => "postgresql_port_t"@,
            PortKind::WebAlternative => "http_port_t"@,
        }
    }

    /// How risky it is to open a port of this kind.
    pub open spec fn risk(self) -> Seq<char> {
        match self {
            PortKind::Web => "Low"@,
            PortKind::Ssh => "Low"@,
            PortKind::WebAlternative => "Low"@,
            _ => "Medium"@,
        }
    }

    /// What to do with a port of this kind.
    pub open spec fn suggestion(self) -> Seq<char> {
        match self {
            PortKind::Web => "Стандартные порты для HTTP/HTTPS. Используйте http_port_t."@,
            PortKind::Ssh => "Стандартный порт SSH. Используйте ssh_port_t."@,
            PortKind::Smtp => "Порт SMTP. Используйте smtp_port_t."@,
            PortKind::Dns => "Порт DNS. Используйте dns_port_t."@,
            PortKind::Mysql => "Порт MySQL. Используйте mysqld_port_t."@,
            PortKind::Postgresql => "Порт PostgreSQL. Используйте postgresql_port_t."@,
            PortKind::WebAlternative => "Альтернативные порты для веб-серверов. Используйте http_port_t."@,
        }
    }

    /// The kind of the port `port` of the protocol whose name in lower case
    /// is `protocol`.
    pub fn of(port: u16, protocol: &str) -> (r: Option<Self>)
        ensures
            r == port_kind(port, protocol@),
    {
        let protocol = String::from_str(protocol);
        if is_text(&protocol, "tcp") {
            if port == 80 || port == 443 {
                Some(PortKind::Web)
            } else if port == 22 {
                Some(PortKind::Ssh)
            } else if port == 25 {
                Some(PortKind::Smtp)
            } else if port == 53 {
                Some(PortKind::Dns)
            } else if port == 3306 {
                Some(PortKind::Mysql)
            } else if port == 5432 {
                Some(PortKind::Postgresql)
            } else if port == 8080 || port == 8443 {
                Some(PortKind::WebAlternative)
            } else {
                None
            }
        } else if is_text(&protocol, "udp") && port == 53 {
            Some(PortKind::Dns)
        } else {
            None
        }
    }

    fn context_text(&self) -> (r: &'static str)
        ensures
            r@ == self.context(),
    {
        match self {
            PortKind::Web => "http_port_t",
            PortKind::Ssh => "ssh_port_t",
            PortKind::Smtp => "smtp_port_t",
            PortKind::Dns => "dns_port_t",
            PortKind::Mysql => "mysqld_port_t",
            PortKind::Postgresql => "postgresql_port_t",
            PortKind::WebAlternative => "http_port_t",
        }
    }

    fn risk_text(&self) -> (r: &'static str)
        ensures
            r@ == self.risk(),
    {
        match self {
            PortKind::Web => "Low",
            PortKind::Ssh => "Low",
            PortKind::WebAlternative => "Low",
            _ => "Medium",
        }
    }

    fn suggestion_text(&self) -> (r: &'static str)
        ensures
            r@ == self.suggestion(),
    {
        match self {
            PortKind::Web => "Стандартные порты для HTTP/HTTPS. Используйте http_port_t.",
            PortKind::Ssh => "Стандартный порт SSH. Используйте ssh_port_t.",
            PortKind::Smtp => "Порт SMTP. Используйте smtp_port_t.",
            PortKind::Dns => "Порт DNS. Используйте dns_port_t.",
            PortKind::Mysql => "Порт MySQL. Используйте mysqld_port_t.",
            PortKind::Postgresql => "Порт PostgreSQL. Используйте postgresql_port_t.",
            PortKind::WebAlternative => "Альтернативные порты для веб-серверов. Используйте http_port_t.",
        }
    }
}

/// The advice for a port of the kind `kind`, written as `port` and
/// `protocol`.
pub open spec fn port_advice(kind: PortKind, port: Seq<char>, protocol: Seq<char>) -> AdviceView {
    AdviceView {
        key: "port_"@ + port + "_"@ + protocol,
        title: "Рекомендация для порта "@ + port + "/"@ + protocol,
        description: "Рекомендуемый контекст: "@ + kind.context(),
        risk: kind.risk(),
        suggestion: kind.suggestion(),
    }
}

/// The kinds of modules that the advisor knows.
#[derive(Debug, Clone, Copy, PartialEq, Eq, Structural)]
pub enum ModuleKind {
    WebServer,
    Mysql,
    Postgresql,
}

/// The kind of the module `name`, told by what its name holds.
pub open spec fn module_kind(name: Seq<char>) -> Option<ModuleKind> {
    if occurs_in("httpd"@, name) || occurs_in("apache"@, name) {
        Some(ModuleKind::WebServer)
    } else if occurs_in("mysql"@, name) || occurs_in("mariadb"@, name) {
        Some(ModuleKind::Mysql)
    } else if occurs_in("postgres"@, name) {
        Some(ModuleKind::Postgresql)
    } else {
        None
    }
}

/// The advice for the module `name` of the kind `kind`.
pub open spec fn module_advice(kind: ModuleKind, name: Seq<char>) -> AdviceView {
    AdviceView {
        key: "module_"@ + name,
        title: "Рекомендация для модуля "@ + name,
        description: match kind {
            ModuleKind::WebServer => "Модуль для веб-сервера Apache"@,
            ModuleKind::Mysql => "Модуль для MySQL/MariaDB"@,
            ModuleKind::Postgresql => "Модуль для PostgreSQL"@,
        },
        risk: match kind {
            ModuleKind::WebServer => "Low"@,
            _ => "Medium"@,
        },
        suggestion: match kind {
            ModuleKind::WebServer => "Обычно безопасно включать для работы веб-сервера."@,
            ModuleKind::Mysql => "Включайте только если используете базу данных MySQL."@,
            ModuleKind::Postgresql => "Включайте только если используете PostgreSQL."@,
        },
    }
}

/// The kinds of paths that the advisor knows.
#[derive(Debug, Clone, Copy, PartialEq, Eq, Structural)]
pub enum PathKind {
    WebContent,
    Home,
    Configuration,
}

/// The kind of the path `path`, told by how it begins.
pub open spec fn path_kind(path: Seq<char>) -> Option<PathKind> {
    if is_prefix("/var/www"@, path) {
        Some(PathKind::WebContent)
    } else if is_prefix("/home"@, path) {
        Some(PathKind::Home)
    } else if is_prefix("/etc"@, path) {
        Some(PathKind::Configuration)
    } else {
        None
    }
}

/// The advice for the path `path` of the kind `kind`.
pub open spec fn path_advice(kind: PathKind, path: Seq<char>) -> AdviceView {
    AdviceView {
        key: "file_"@ + path,
        title: "Рекомендация для пути "@ + path,
        description: "Рекомендуемый контекст: "@ + (match kind {
            PathKind::WebContent => "httpd_sys_content_t"@,
            PathKind::Home => "user_home_t"@,
            PathKind::Configuration => "etc_t"@,
        }),
        risk: match kind {
            PathKind::Home => "Medium"@,
            _ => "Low"@,
        },
        suggestion: match kind {
            PathKind::WebContent => "Стандартный контекст для веб-контента."@,
            PathKind::Home => "Контекст для домашних директорий. Будьте осторожны с доступом."@,
            PathKind::Configuration => "Контекст для системных конфигов."@,
        },
    }
}

/// The labels that might fit a path of which `part` has been typed: one for
/// each hint that `part` gives, in a fixed order, or the default label
/// where it gives none.
pub open spec fn suggested_contexts(part: Seq<char>) -> Seq<Seq<char>> {
    let web: Seq<Seq<char>> = if occurs_in("www"@, part) || occurs_in("html"@, part) {
        seq!["httpd_sys_content_t"@]
    } else {
        Seq::empty()
    };
    let home: Seq<Seq<char>> = if is_prefix("home"@, part) || occurs_in("/user/"@, part) {
        seq!["user_home_t"@]
    } else {
        Seq::empty()
    };
    let etc: Seq<Seq<char>> = if is_prefix("etc"@, part) {
        seq!["etc_t"@]
    } else {
        Seq::empty()
    };
    let bin: Seq<Seq<char>> = if occurs_in("bin"@, part) || occurs_in("sbin"@, part) {
        seq!["bin_t"@]
    } else {
        Seq::empty()
    };
    let all = web + home + etc + bin;
    if all.len() == 0 {
        seq!["default_t"@]
    } else {
        all
    }
}

/// The key under which advice on the denial `alert` is looked up.
pub open spec fn avc_key(alert: AVCAlertView) -> Seq<char> {
    "avc_"@ + before_first(alert.source_context, ':') + "_"@ + alert.permission
}

/// The name of a severity as a level of risk.
pub open spec fn risk_of(severity: AVCSeverity) -> Seq<char> {
    match severity {
        AVCSeverity::High => "High"@,
        AVCSeverity::Medium => "Medium"@,
        AVCSeverity::Low => "Low"@,
    }
}

/// The advice that is made up for a denial of which the knowledge base
/// says nothing.
pub open spec fn general_avc_advice(alert: AVCAlertView) -> AdviceView {
    AdviceView {
        key: avc_key(alert),
        title: "AVC Denial: "@ + alert.source_context + " -> "@ + alert.target_context,
        description: "Процесс "@ + alert.comm + " пытается выполнить действие '"@
            + alert.permission + "' на "@ + alert.path + " (класс: "@ + alert.target_class
            + "), но SELinux блокирует это."@,
        risk: risk_of(alert.severity),
        suggestion: "Проверьте контексты: scontext="@ + alert.source_context + ", tcontext="@
            + alert.target_context
            + ". Используйте audit2allow для генерации правил или настройте файловые контексты."@,
    }
}

/// The advice on the denial `alert`: that of the knowledge base under the
/// key of the denial, or the made-up one.
pub open spec fn avc_advice(tips: Seq<AdviceView>, alert: AVCAlertView) -> AdviceView {
    match advice_for(tips, avc_key(alert)) {
        Some(advice) => advice,
        None => general_avc_advice(alert),
    }
}

/// The step that puts the advice `advice` on the denial `alert` into
/// practice.
pub open spec fn advice_step(advice: AdviceView, alert: AVCAlertView) -> AutoRecommendationView {
    AutoRecommendationView {
        title: advice.title,
        description: advice.description,
        risk: advice.risk,
        action_type: "avc_fix"@,
        action_key: alert.comm,
        action_value: Some(advice.suggestion),
    }
}

/// The step that the shape of the denial `alert` calls for by itself, if
/// any: a label for what a web server could not read, a boolean for a
/// connection that was refused, a review for a process without confinement.
pub open spec fn shape_step(alert: AVCAlertView) -> Option<AutoRecommendationView> {
    if occurs_in("httpd_t"@, alert.source_context) && alert.permission == "read"@ {
        Some(
            AutoRecommendationView {
                title: "Веб-сервер не может читать файлы"@,
                description: "Httpd пытается прочитать "@ + alert.path,
                risk: "Medium"@,
                action_type: "file_context"@,
                action_key: alert.path,
                action_value: Some("httpd_sys_content_t"@),
            },
        )
    } else if alert.permission == "connect"@ && alert.target_class == "tcp_socket"@ {
        Some(
            AutoRecommendationView {
                title: "Процесс пытается установить соединение"@,
                description: alert.comm + " не может подключиться к сети"@,
                risk: "High"@,
                action_type: "boolean"@,
                action_key: alert.comm + "_can_network_connect"@,
                action_value: Some("true"@),
            },
        )
    } else if occurs_in("unconfined_t"@, alert.source_context) {
        Some(
            AutoRecommendationView {
                title: "Unconfined процесс"@,
                description: "Процесс работает без ограничений SELinux"@,
                risk: "High"@,
                action_type: "policy"@,
                action_key: "review_required"@,
                action_value: None,
            },
        )
    } else {
        None
    }
}

/// The steps for the denial `alert`: that of its advice, then that of its
/// shape.
pub open spec fn alert_steps(tips: Seq<AdviceView>, alert: AVCAlertView) -> Seq<
    AutoRecommendationView,
> {
    seq![advice_step(avc_advice(tips, alert), alert)] + (match shape_step(alert) {
        Some(step) => seq![step],
        None => Seq::empty(),
    })
}

/// The steps for the denials `alerts`, in order.
pub open spec fn all_steps(tips: Seq<AdviceView>, alerts: Seq<AVCAlertView>) -> Seq<
    AutoRecommendationView,
>
    decreases alerts.len(),
{
    if alerts.len() == 0 {
        Seq::empty()
    } else {
        all_steps(tips, alerts.drop_last()) + alert_steps(tips, alerts.last())
    }
}

fn tip(key: &str, title: &str, description: &str, risk: &str, suggestion: &str) -> (r: Advice)
    ensures
        r@ == (AdviceView {
            key: key@,
            title: title@,
            description: description@,
            risk: risk@,
            suggestion: suggestion@,
        }),
{
    Advice {
        key: String::from_str(key),
        title: String::from_str(title),
        description: String::from_str(description),
        risk: String::from_str(risk),
        suggestion: String::from_str(suggestion),
    }
}

/// The knowledge base. Under each key it holds one piece of advice at most
/// that can be found.
#[derive(Debug, Clone)]
pub struct Advisor {
    pub knowledge_base: Vec<Advice>,
}

impl Advisor {
    /// A knowledge base with the advice that is built in.
    pub fn new() -> (r: Self)
        ensures
            views(r.knowledge_base@) == with_tips(Seq::empty(), default_tips()),
    {
        let mut advisor = Advisor { knowledge_base: Vec::new() };
        assert(views(advisor.knowledge_base@) =~= Seq::<AdviceView>::empty());
        advisor.load_defaults();
        advisor
    }

    /// The position of the advice under `key`.
    pub fn position(&self, key: &String) -> (r: Option<usize>)
        ensures
            match r {
                Some(i) => i == first_index_of(advice_keys(views(self.knowledge_base@)), key@) && i
                    < self.knowledge_base.len(),
                None => first_index_of(advice_keys(views(self.knowledge_base@)), key@)
                    == self.knowledge_base.len(),
            },
    {
        let ghost keys = advice_keys(views(self.knowledge_base@));
        proof {
            lemma_first_index_of(keys, key@);
        }
        let mut i: usize = 0;
        while i < self.knowledge_base.len()
            invariant
                i <= self.knowledge_base.len(),
                keys == advice_keys(views(self.knowledge_base@)),
                forall|j: int| 0 <= j < i ==> keys[j] != key@,
                0 <= first_index_of(keys, key@) <= keys.len(),
                forall|j: int| 0 <= j < first_index_of(keys, key@) ==> keys[j] != key@,
                first_index_of(keys, key@) < keys.len() ==> keys[first_index_of(keys, key@)]
                    == key@,
            decreases self.knowledge_base.len() - i,
        {
            if self.knowledge_base[i].key == *key {
                assert(keys[i as int] == key@);
                return Some(i);
            }
            i += 1;
        }
        None
    }

    /// Enters `tip`: it takes the place of the advice under its key, or
    /// comes last where there was none.
    pub fn add_tip(&mut self, tip: Advice)
        ensures
            views(final(self).knowledge_base@) == with_tip(views(old(self).knowledge_base@), tip@),
    {
        match self.position(&tip.key) {
            Some(i) => {
                let ghost before = self.knowledge_base@;
                self.knowledge_base[i] = tip;
                assert(views(self.knowledge_base@) =~= with_tip(views(before), tip@));
            },
            None => {
                proof {
                    lemma_views_push(self.knowledge_base@, tip);
                }
                self.knowledge_base.push(tip);
            },
        }
    }

    /// Enters each of `tips`, in order.
    pub fn load_tips(&mut self, tips: Vec<Advice>)
        ensures
            views(final(self).knowledge_base@) == with_tips(
                views(old(self).knowledge_base@),
                views(tips@),
            ),
    {
        let mut tips = tips;
        let ghost all = views(tips@);
        let n: usize = tips.len();
        let mut i: usize = 0;
        assert(all.take(0) =~= Seq::<AdviceView>::empty());
        while i < n
            invariant
                i <= n,
                n == tips.len(),
                all.len() == n,
                forall|k: int| i <= k < n ==> tips@[k]@ == all[k],
                views(self.knowledge_base@) == with_tips(
                    views(old(self).knowledge_base@),
                    all.take(i as int),
                ),
            decreases n - i,
        {
            let mut next = tip("", "", "", "", "");
            std::mem::swap(&mut next, &mut tips[i]);
            proof {
                assert(all.take(i + 1).drop_last() =~= all.take(i as int));
                assert(all.take(i + 1).last() == next@);
            }
            self.add_tip(next);
            i += 1;
        }
        assert(all.take(n as int) =~= all);
    }

    /// The advice under `key`.
    pub fn get_advice(&self, key: &str) -> (r: Option<&Advice>)
        ensures
            match r {
                Some(advice) => advice_for(views(self.knowledge_base@), key@) == Some(advice@),
                None => advice_for(views(self.knowledge_base@), key@) is None,
            },
    {
        let key = String::from_str(key);
        match self.position(&key) {
            Some(i) => Some(&self.knowledge_base[i]),
            None => None,
        }
    }

    /// The advice for the port that `port` writes, of the protocol whose
    /// name in lower case is `protocol_in_lower_case` and which the
    /// operator wrote as `protocol`. There is none where `port` writes no
    /// port number or the port is not well known.
    pub fn port_advice_for(port: &str, protocol: &str, protocol_in_lower_case: &str) -> (r: Option<
        Advice,
    >)
        ensures
            match r {
                Some(advice) => {
                    &&& parsed_u16(port@) matches Some(n)
                    &&& port_kind(n, protocol_in_lower_case@) matches Some(kind)
                    &&& advice@ == port_advice(kind, port@, protocol@)
                },
                None => parsed_u16(port@) matches Some(n) ==> port_kind(
                    n,
                    protocol_in_lower_case@,
                ) is None,
            },
    {
        let number = match parse_u16(port) {
            Some(n) => n,
            None => {
                return None;
            },
        };
        let kind = match PortKind::of(number, protocol_in_lower_case) {
            Some(k) => k,
            None => {
                return None;
            },
        };
        let mut key = String::from_str("port_");
        key.append(port);
        key.append("_");
        key.append(protocol);
        let mut title = String::from_str("Рекомендация для порта ");
        title.append(port);
        title.append("/");
        title.append(protocol);
        let mut description = String::from_str("Рекомендуемый контекст: ");
        description.append(kind.context_text());
        Some(
            Advice {
                key,
                title,
                description,
                risk: String::from_str(kind.risk_text()),
                suggestion: String::from_str(kind.suggestion_text()),
            },
        )
    }

    /// The advice for the port that `port` writes, of the protocol
    /// `protocol`, whatever the case of its letters.
    pub fn get_port_advice(&self, port: &str, protocol: &str) -> (r: Option<Advice>)
        ensures
            match r {
                Some(advice) => {
                    &&& parsed_u16(port@) matches Some(n)
                    &&& port_kind(n, lowercase(protocol@)) matches Some(kind)
                    &&& advice@ == port_advice(kind, port@, protocol@)
                },
                None => parsed_u16(port@) matches Some(n) ==> port_kind(n, lowercase(protocol@))
                    is None,
            },
    {
        let lower = to_lowercase(protocol);
        Self::port_advice_for(port, protocol, lower.as_str())
    }

    /// The advice for the module `module_name`, where its name tells its
    /// kind.
    pub fn get_module_advice(&self, module_name: &str) -> (r: Option<Advice>)
        ensures
            match r {
                Some(advice) => module_kind(module_name@) matches Some(kind) && advice@
                    == module_advice(kind, module_name@),
                None => module_kind(module_name@) is None,
            },
    {
        let (description, risk, suggestion) = if has_part(module_name, "httpd") || has_part(
            module_name,
            "apache",
        ) {
            (
                "Модуль для веб-сервера Apache",
                "Low",
                "Обычно безопасно включать для работы веб-сервера.",
            )
        } else if has_part(module_name, "mysql") || has_part(module_name, "mariadb") {
            (
                "Модуль для MySQL/MariaDB",
                "Medium",
                "Включайте только если используете базу данных MySQL.",
            )
        } else if has_part(module_name, "postgres") {
            ("Модуль для PostgreSQL", "Medium", "Включайте только если используете PostgreSQL.")
        } else {
            return None;
        };
        let mut key = String::from_str("module_");
        key.append(module_name);
        let mut title = String::from_str("Рекомендация для модуля ");
        title.append(module_name);
        Some(
            Advice {
                key,
                title,
                description: String::from_str(description),
                risk: String::from_str(risk),
                suggestion: String::from_str(suggestion),
            },
        )
    }

    /// The advice for the path `path`, where its beginning tells its kind.
    pub fn get_file_context_advice(&self, path: &str) -> (r: Option<Advice>)
        ensures
            match r {
                Some(advice) => path_kind(path@) matches Some(kind) && advice@ == path_advice(
                    kind,
                    path@,
                ),
                None => path_kind(path@) is None,
            },
    {
        let (context, risk, suggestion) = if has_prefix(path, "/var/www") {
            ("httpd_sys_content_t", "Low", "Стандартный контекст для веб-контента.")
        } else if has_prefix(path, "/home") {
            (
                "user_home_t",
                "Medium",
                "Контекст для домашних директорий. Будьте осторожны с доступом.",
            )
        } else if has_prefix(path, "/etc") {
            ("etc_t", "Low", "Контекст для системных конфигов.")
        } else {
            return None;
        };
        let mut key = String::from_str("file_");
        key.append(path);
        let mut title = String::from_str("Рекомендация для пути ");
        title.append(path);
        let mut description = String::from_str("Рекомендуемый контекст: ");
        description.append(context);
        Some(
            Advice {
                key,
                title,
                description,
                risk: String::from_str(risk),
                suggestion: String::from_str(suggestion),
            },
        )
    }

    /// The labels that might fit a path of which `path_part` has been typed.
    pub fn get_suggested_file_contexts(&self, path_part: &str) -> (r: Vec<String>)
        ensures
            views(r@) == suggested_contexts(path_part@),
    {
        let mut suggestions: Vec<String> = Vec::new();
        if has_part(path_part, "www") || has_part(path_part, "html") {
            suggestions.push(String::from_str("httpd_sys_content_t"));
        }
        if has_prefix(path_part, "home") || has_part(path_part, "/user/") {
            suggestions.push(String::from_str("user_home_t"));
        }
        if has_prefix(path_part, "etc") {
            suggestions.push(String::from_str("etc_t"));
        }
        if has_part(path_part, "bin") || has_part(path_part, "sbin") {
            suggestions.push(String::from_str("bin_t"));
        }
        if suggestions.len() == 0 {
            suggestions.push(String::from_str("default_t"));
        }
        assert(views(suggestions@) =~= suggested_contexts(path_part@));
        suggestions
    }

    /// The steps that the advisor proposes for the denials `alerts`.
    pub fn analyze_avc_alerts(&self, alerts: &Vec<AVCAlert>) -> (r: Vec<AutoRecommendation>)
        ensures
            views(r@) == all_steps(views(self.knowledge_base@), views(alerts@)),
    {
        let mut recommendations: Vec<AutoRecommendation> = Vec::new();
        let ghost tips = views(self.knowledge_base@);
        let mut i: usize = 0;
        assert(views(alerts@).take(0) =~= Seq::<AVCAlertView>::empty());
        assert(views(recommendations@) =~= Seq::<AutoRecommendationView>::empty());
        while i < alerts.len()
            invariant
                i <= alerts.len(),
                tips == views(self.knowledge_base@),
                views(recommendations@) == all_steps(tips, views(alerts@).take(i as int)),
            decreases alerts.len() - i,
        {
            let alert = &alerts[i];
            let ghost before = views(recommendations@);
            proof {
                assert(views(alerts@).take(i + 1).drop_last() =~= views(alerts@).take(i as int));
                assert(views(alerts@).take(i + 1).last() == alert@);
            }
            if let Some(advice) = self.get_avc_advice(alert) {
                let step = AutoRecommendation {
                    title: advice.title.clone(),
                    description: advice.description.clone(),
                    risk: advice.risk.clone(),
                    action_type: String::from_str("avc_fix"),
                    action_key: alert.comm.clone(),
                    action_value: Some(advice.suggestion.clone()),
                };
                proof {
                    lemma_views_push(recommendations@, step);
                }
                recommendations.push(step);
            }
            let ghost middle = views(recommendations@);
            if has_part(alert.source_context.as_str(), "httpd_t") && is_text(
                &alert.permission,
                "read",
            ) {
                let mut description = String::from_str("Httpd пытается прочитать ");
                description.append(alert.path.as_str());
                let step = AutoRecommendation {
                    title: String::from_str("Веб-сервер не может читать файлы"),
                    description,
                    risk: String::from_str("Medium"),
                    action_type: String::from_str("file_context"),
                    action_key: alert.path.clone(),
                    action_value: Some(String::from_str("httpd_sys_content_t")),
                };
                proof {
                    lemma_views_push(recommendations@, step);
                }
                recommendations.push(step);
            } else if is_text(&alert.permission, "connect") && is_text(
                &alert.target_class,
                "tcp_socket",
            ) {
                let mut description = alert.comm.clone();
                description.append(" не может подключиться к сети");
                let mut action_key = alert.comm.clone();
                action_key.append("_can_network_connect");
                let step = AutoRecommendation {
                    title: String::from_str("Процесс пытается установить соединение"),
                    description,
                    risk: String::from_str("High"),
                    action_type: String::from_str("boolean"),
                    action_key,
                    action_value: Some(String::from_str("true")),
                };
                proof {
                    lemma_views_push(recommendations@, step);
                }
                recommendations.push(step);
            } else if has_part(alert.source_context.as_str(), "unconfined_t") {
                let step = AutoRecommendation {
                    title: String::from_str("Unconfined процесс"),
                    description: String::from_str("Процесс работает без ограничений SELinux"),
                    risk: String::from_str("High"),
                    action_type: String::from_str("policy"),
                    action_key: String::from_str("review_required"),
                    action_value: None,
                };
                proof {
                    lemma_views_push(recommendations@, step);
                }
                recommendations.push(step);
            }
            assert(views(recommendations@) =~= before + alert_steps(tips, alert@));
            i += 1;
        }
        assert(views(alerts@).take(alerts.len() as int) =~= views(alerts@));
        recommendations
    }

    /// The advice on the denial `alert`: that of the knowledge base under
    /// the key of the denial, or one made up from the denial. There is
    /// always advice.
    pub fn get_avc_advice(&self, alert: &AVCAlert) -> (r: Option<Advice>)
        ensures
            r matches Some(advice) && advice@ == avc_advice(views(self.knowledge_base@), alert@),
    {
        let domain = part_before(alert.source_context.as_str(), ':');
        let mut key = String::from_str("avc_");
        key.append(domain);
        key.append("_");
        key.append(alert.permission.as_str());
        if let Some(advice) = self.get_advice(key.as_str()) {
            return Some(advice.clone());
        }
        let risk = alert.severity.label();
        let mut title = String::from_str("AVC Denial: ");
        title.append(alert.source_context.as_str());
        title.append(" -> ");
        title.append(alert.target_context.as_str());
        let mut description = String::from_str("Процесс ");
        description.append(alert.comm.as_str());
        description.append(" пытается выполнить действие '");
        description.append(alert.permission.as_str());
        description.append("' на ");
        description.append(alert.path.as_str());
        description.append(" (класс: ");
        description.append(alert.target_class.as_str());
        description.append("), но SELinux блокирует это.");
        let mut suggestion = String::from_str("Проверьте контексты: scontext=");
        suggestion.append(alert.source_context.as_str());
        suggestion.append(", tcontext=");
        suggestion.append(alert.target_context.as_str());
        suggestion.append(
            ". Используйте audit2allow для генерации правил или настройте файловые контексты.",
        );
        Some(Advice { key, title, description, risk: String::from_str(risk), suggestion })
    }

    /// Enters the advice that is built in.
    pub fn load_defaults(&mut self)
        ensures
            views(final(self).knowledge_base@) == with_tips(
                views(old(self).knowledge_base@),
                default_tips(),
            ),
    {
        let defaults = vec![
            tip(
                "httpd_can_network_connect",
                "Разрешить сайту исходящие соединения",
                "Если ваш сайт должен обращаться к внешним API или другим серверам, включите это.",
                "Medium",
                "Включайте только если сайт реально делает запросы наружу.",
            ),
            tip(
                "ftpd_anon_write",
                "Анонимная запись на FTP",
                "Позволяет анонимным пользователям загружать файлы на сервер.",
                "High",
                "Держите выключенным, если не уверены. Это частый вектор атаки.",
            ),
            tip(
                "httpd_read_user_content",
                "Доступ веб-сервера к домашним папкам",
                "Разрешает Apache/Nginx читать файлы в /home/user/public_html.",
                "Medium",
                "Включите, если хостите сайты пользователей.",
            ),
            tip(
                "avc_general",
                "Общие AVC отказы",
                "SELinux блокирует доступ к ресурсам.",
                "Medium",
                "Используйте audit2allow для анализа и генерации правил, или настройте контексты файлов/портов.",
            ),
            tip(
                "httpd_enable_homedirs",
                "Доступ httpd к домашним директориям",
                "Разрешает веб-серверу читать файлы в домашних директориях пользователей.",
                "Medium",
                "Включайте только если необходимо для работы пользовательских сайтов.",
            ),
            tip(
                "allow_ssh_keysign",
                "SSH ключи подпись",
                "Разрешает SSH использовать ключи для подписи.",
                "Low",
                "Обычно безопасно включать для SSH аутентификации.",
            ),
        ];
        assert(views(defaults@) =~= default_tips());
        self.load_tips(defaults);
    }
}

} // verus!
