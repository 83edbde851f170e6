//! Access-vector-cache denials: what the policy refused, how severe that is,
//! and what could be done about it.

use crate::model::{lemma_views_push, views};
use crate::pattern::{
    all_matches,
    collected,
    group,
    group_text,
    groups_view,
    lemma_collected_step,
    matches_view,
    pattern_compiles,
    Pattern,
    PatternError,
};
use crate::text::{has_part, is_text, occurs_in, without, without_char};
use vstd::prelude::*;
use vstd::string::*;

verus! {

/// How severe a denial is.
#[derive(Debug, Clone, Copy, PartialEq, Eq, Structural)]
pub enum AVCSeverity {
    High,
    Medium,
    Low,
}

/// One denial as the audit log reports it.
#[derive(Debug, Clone)]
pub struct AVCAlert {
    pub timestamp: String,
    pub source_context: String,
    pub target_context: String,
    pub target_class: String,
    pub permission: String,
    pub comm: String,
    pub path: String,
    pub severity: AVCSeverity,
}

/// The mathematical value of an `AVCAlert`.
pub struct AVCAlertView {
    pub timestamp: Seq<char>,
    pub source_context: Seq<char>,
    pub target_context: Seq<char>,
    pub target_class: Seq<char>,
    pub permission: Seq<char>,
    pub comm: Seq<char>,
    pub path: Seq<char>,
    pub severity: AVCSeverity,
}

impl View for AVCAlert {
    type V = AVCAlertView;

    open spec fn view(&self) -> AVCAlertView {
        AVCAlertView {
            timestamp: self.timestamp@,
            source_context: self.source_context@,
            target_context: self.target_context@,
            target_class: self.target_class@,
            permission: self.permission@,
            comm: self.comm@,
            path: self.path@,
            severity: self.severity,
        }
    }
}

/// What to do about a denial.
#[derive(Debug, Clone)]
pub struct AVCSolution {
    pub description: String,
    pub module_content: String,
    pub commands: Vec<String>,
}

/// The mathematical value of an `AVCSolution`.
pub struct AVCSolutionView {
    pub description: Seq<char>,
    pub module_content: Seq<char>,
    pub commands: Seq<Seq<char>>,
}

impl View for AVCSolution {
    type V = AVCSolutionView;

    open spec fn view(&self) -> AVCSolutionView {
        AVCSolutionView {
            description: self.description@,
            module_content: self.module_content@,
            commands: views(self.commands@),
        }
    }
}

/// How severe the denial of `permission` is: high for what changes or runs
/// a file, medium for what reads it, low for the rest.
pub open spec fn severity_of(permission: Seq<char>) -> AVCSeverity {
    if permission == "execute"@ || permission == "write"@ || permission == "unlink"@ {
        AVCSeverity::High
    } else if permission == "read"@ || permission == "getattr"@ {
        AVCSeverity::Medium
    } else {
        AVCSeverity::Low
    }
}

/// Whether the denial is that of a web server reading below a home
/// directory.
pub open spec fn is_web_home_read(alert: AVCAlertView) -> bool {
    occurs_in("httpd_t"@, alert.source_context) && alert.permission == "read"@ && occurs_in(
        "home"@,
        alert.target_context,
    )
}

/// The rule that allows what `alert` was denied.
pub open spec fn allow_rule(alert: AVCAlertView) -> Seq<char> {
    "allow "@ + alert.source_context + " "@ + alert.target_context + ":"@ + alert.target_class
        + " { "@ + alert.permission + " };"@
}

/// What `analyze_avc` proposes for `alert`.
pub open spec fn solution_for(alert: AVCAlertView) -> AVCSolutionView {
    AVCSolutionView {
        description: "Allow "@ + alert.permission + " for "@ + alert.source_context + " on "@
            + alert.target_context,
        module_content: if is_web_home_read(alert) {
            allow_rule(alert)
        } else {
            Seq::empty()
        },
        commands: if is_web_home_read(alert) {
            seq![
                "audit2allow -M mymodule -i <(ausearch -m avc -ts recent)"@,
                "semodule -i mymodule.pp"@,
            ]
        } else if alert.permission == "execute"@ {
            seq!["setsebool -P allow_execmem 1"@]
        } else {
            Seq::empty()
        },
    }
}

/// The denial that stands for the audit log where the interface is tried out.
pub open spec fn simulation_alerts() -> Seq<AVCAlertView> {
    seq![
        AVCAlertView {
            timestamp: "2024-01-15 10:30:00"@,
            source_context: "httpd_t"@,
            target_context: "user_home_t"@,
            target_class: "file"@,
            permission: "read"@,
            comm: "httpd"@,
            path: "/home/user/file.txt"@,
            severity: AVCSeverity::Medium,
        },
    ]
}

impl AVCSeverity {
    /// How severe the denial of `permission` is.
    pub fn of_permission(permission: &String) -> (r: Self)
        ensures
            r == severity_of(permission@),
    {
        if is_text(permission, "execute") || is_text(permission, "write") || is_text(
            permission,
            "unlink",
        ) {
            AVCSeverity::High
        } else if is_text(permission, "read") || is_text(permission, "getattr") {
            AVCSeverity::Medium
        } else {
            AVCSeverity::Low
        }
    }

    /// The name of the severity.
    pub fn label(&self) -> (r: &'static str)
        ensures
            r@ == match self {
                AVCSeverity::High => "High"@,
                AVCSeverity::Medium => "Medium"@,
                AVCSeverity::Low => "Low"@,
            },
    {
        match self {
            AVCSeverity::High => "High",
            AVCSeverity::Medium => "Medium",
            AVCSeverity::Low => "Low",
        }
    }
}

/// Keeps the list of the denials.
#[derive(Debug, Clone)]
pub struct AVCManager {
    pub alerts: Vec<AVCAlert>,
}

impl AVCManager {
    /// A manager without denials.
    pub fn new() -> (r: Self)
        ensures
            r.alerts@ == Seq::<AVCAlert>::empty(),
    {
        AVCManager { alerts: Vec::new() }
    }

    /// Replaces the list by the denials of the simulated system.
    pub fn load_simulation_data(&mut self)
        ensures
            views(final(self).alerts@) == simulation_alerts(),
    {
        self.alerts = vec![
            AVCAlert {
                timestamp: String::from_str("2024-01-15 10:30:00"),
                source_context: String::from_str("httpd_t"),
                target_context: String::from_str("user_home_t"),
                target_class: String::from_str("file"),
                permission: String::from_str("read"),
                comm: String::from_str("httpd"),
                path: String::from_str("/home/user/file.txt"),
                severity: AVCSeverity::Medium,
            },
        ];
        assert(views(self.alerts@) =~= simulation_alerts());
    }

    /// Proposes what to do about `alert`: for a web server that was denied
    /// reading below a home directory a policy module that allows it, for a
    /// denied execution the boolean that allows it, else nothing but a
    /// description. There is always a proposal.
    pub fn analyze_avc(&self, alert: &AVCAlert) -> (r: Option<AVCSolution>)
        ensures
            r matches Some(solution) && solution@ == solution_for(alert@),
    {
        let mut module_content = String::new();
        let mut commands: Vec<String> = Vec::new();
        if has_part(alert.source_context.as_str(), "httpd_t") && is_text(&alert.permission, "read")
            && has_part(alert.target_context.as_str(), "home") {
            module_content.append("allow ");
            module_content.append(alert.source_context.as_str());
            module_content.append(" ");
            module_content.append(alert.target_context.as_str());
            module_content.append(":");
            module_content.append(alert.target_class.as_str());
            module_content.append(" { ");
            module_content.append(alert.permission.as_str());
            module_content.append(" };");
            commands.push(
                String::from_str("audit2allow -M mymodule -i <(ausearch -m avc -ts recent)"),
            );
            commands.push(String::from_str("semodule -i mymodule.pp"));
        } else if is_text(&alert.permission, "execute") {
            commands.push(String::from_str("setsebool -P allow_execmem 1"));
        }
        let mut description = String::from_str("Allow ");
        description.append(alert.permission.as_str());
        description.append(" for ");
        description.append(alert.source_context.as_str());
        description.append(" on ");
        description.append(alert.target_context.as_str());
        let solution = AVCSolution { description, module_content, commands };
        assert(solution@.commands =~= solution_for(alert@).commands);
        assert(solution@.module_content =~= solution_for(alert@).module_content);
        Some(solution)
    }

    /// The commands that have to be executed, in order and until one fails,
    /// to apply `solution`: its commands, or none where this is simulated.
    pub fn apply_solution(&self, solution: &AVCSolution, simulation: bool) -> (r: Vec<String>)
        ensures
            views(r@) == if simulation {
                Seq::<Seq<char>>::empty()
            } else {
                solution@.commands
            },
    {
        let mut r: Vec<String> = Vec::new();
        if simulation {
            assert(views(r@) =~= Seq::<Seq<char>>::empty());
            return r;
        }
        let mut i: usize = 0;
        while i < solution.commands.len()
            invariant
                i <= solution.commands.len(),
                views(r@) =~= solution@.commands.take(i as int),
            decreases solution.commands.len() - i,
        {
            let cmd = solution.commands[i].clone();
            proof {
                lemma_views_push(r@, cmd);
            }
            r.push(cmd);
            i += 1;
        }
        r
    }
}

/// The pattern of a denial in the raw audit log.
pub open spec fn denial_pattern() -> Seq<char> {
    "type=AVC msg=audit\\((.*?)\\): avc:  denied  \\{ (.*?) \\} for  pid=\\d+ comm=(.*?) (?:name=(.*?))? (?:dev=(.*?))? (?:ino=\\d+ )?scontext=(.*?) tcontext=(.*?) tclass=(.*?) permissive=\\d"@
}

/// The denial that a match of the denial pattern stands for. The command
/// and the path come without their quotation marks; a denial without a
/// path has the empty path. A match that lacks a group other than those of
/// the path and the device stands for none.
pub open spec fn alert_of_match(groups: Seq<Option<Seq<char>>>) -> Option<AVCAlertView> {
    match (
        group_text(groups, 1),
        group_text(groups, 2),
        group_text(groups, 3),
        group_text(groups, 6),
        group_text(groups, 7),
        group_text(groups, 8),
    ) {
        (
            Some(timestamp),
            Some(permission),
            Some(comm),
            Some(source_context),
            Some(target_context),
            Some(target_class),
        ) => Some(
            AVCAlertView {
                timestamp,
                source_context,
                target_context,
                target_class,
                permission,
                comm: without(comm, '"'),
                path: match group_text(groups, 4) {
                    Some(path) => without(path, '"'),
                    None => Seq::empty(),
                },
                severity: severity_of(permission),
            },
        ),
        _ => None,
    }
}

/// `alert_of_match` as a function value.
pub open spec fn read_alert() -> spec_fn(Seq<Option<Seq<char>>>) -> Option<AVCAlertView> {
    |groups: Seq<Option<Seq<char>>>| alert_of_match(groups)
}

impl AVCManager {
    /// The denial that the groups of one match of the denial pattern stand
    /// for.
    pub fn alert_of(groups: &Vec<Option<String>>) -> (r: Option<AVCAlert>)
        ensures
            match r {
                Some(a) => alert_of_match(groups_view(groups@)) == Some(a@),
                None => alert_of_match(groups_view(groups@)) is None,
            },
    {
        match (
            group(groups, 1),
            group(groups, 2),
            group(groups, 3),
            group(groups, 6),
            group(groups, 7),
            group(groups, 8),
        ) {
            (
                Some(timestamp),
                Some(permission),
                Some(comm),
                Some(source_context),
                Some(target_context),
                Some(target_class),
            ) => {
                let path = match group(groups, 4) {
                    Some(path) => without_char(path.as_str(), '"'),
                    None => String::new(),
                };
                let severity = AVCSeverity::of_permission(&permission);
                Some(
                    AVCAlert {
                        timestamp,
                        source_context,
                        target_context,
                        target_class,
                        permission,
                        comm: without_char(comm.as_str(), '"'),
                        path,
                        severity,
                    },
                )
            },
            _ => None,
        }
    }

    /// The denials that the matches of the denial pattern stand for, in
    /// order.
    pub fn alerts_of(matches: &Vec<Vec<Option<String>>>) -> (r: Vec<AVCAlert>)
        ensures
            views(r@) == collected(matches_view(matches@), read_alert()),
    {
        let mut r: Vec<AVCAlert> = Vec::new();
        let mut i: usize = 0;
        let ghost all = matches_view(matches@);
        assert(all.take(0) =~= Seq::<Seq<Option<Seq<char>>>>::empty());
        assert(views(r@) =~= Seq::<AVCAlertView>::empty());
        while i < matches.len()
            invariant
                i <= matches.len(),
                all == matches_view(matches@),
                views(r@) == collected(all.take(i as int), read_alert()),
            decreases matches.len() - i,
        {
            proof {
                lemma_collected_step(all, read_alert(), i as int);
            }
            match Self::alert_of(&matches[i]) {
                Some(alert) => {
                    proof {
                        lemma_views_push(r@, alert);
                    }
                    r.push(alert);
                },
                None => {},
            }
            i += 1;
        }
        assert(all.take(matches.len() as int) =~= all);
        r
    }

    /// Replaces the list by the denials that `log`, the raw audit log,
    /// reports. Fails, and leaves the list as it is, exactly where the
    /// denial pattern is not accepted.
    pub fn load_avc_logs(&mut self, log: &str) -> (r: Result<(), PatternError>)
        ensures
            r is Ok <==> pattern_compiles(denial_pattern()),
            r is Ok ==> views(final(self).alerts@) == collected(
                all_matches(denial_pattern(), log@),
                read_alert(),
            ),
            r is Err ==> final(self).alerts == old(self).alerts,
    {
        let pattern = match Pattern::new(
            "type=AVC msg=audit\\((.*?)\\): avc:  denied  \\{ (.*?) \\} for  pid=\\d+ comm=(.*?) (?:name=(.*?))? (?:dev=(.*?))? (?:ino=\\d+ )?scontext=(.*?) tcontext=(.*?) tclass=(.*?) permissive=\\d",
        ) {
            Ok(p) => p,
            Err(e) => {
                return Err(e);
            },
        };
        let matches = pattern.captures_iter(log);
        self.alerts = Self::alerts_of(&matches);
        Ok(())
    }
}

} // verus!
